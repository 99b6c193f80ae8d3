use vstd::prelude::*;
use vstd::string::*;
use crate::service::ServiceError;

verus! {

/// The directory of the store of a user.
pub open spec fn dir_of(user: Seq<char>) -> Seq<char> {
    "/home/"@ + user + "/.crabbers"@
}

/// The store file of a user.
pub open spec fn path_of(user: Seq<char>) -> Seq<char> {
    dir_of(user) + "/services.json"@
}

/// The user name that the store belongs to, from the value of the user variable.
/// Without a value, or with an empty one, there is no place for the store.
pub fn get_user_name(var: Option<String>) -> (r: Result<String, ServiceError>)
    ensures
        match var {
            Some(u) => if u@.len() > 0 {
                r == Ok::<String, ServiceError>(u)
            } else {
                r == Err::<String, ServiceError>(ServiceError::Configuration)
            },
            None => r == Err::<String, ServiceError>(ServiceError::Configuration),
        },
{
    match var {
        Some(u) => {
            if u.as_str().unicode_len() > 0 {
                Ok(u)
            } else {
                Err(ServiceError::Configuration)
            }
        },
        None => Err(ServiceError::Configuration),
    }
}

/// The directory that holds the store of `user`.
pub fn get_dir(user: &str) -> (r: String)
    ensures
        r@ == dir_of(user@),
{
    let mut p = String::from_str("/home/");
    p.append(user);
    p.append("/.crabbers");
    p
}

/// The store file of `user`.
pub fn get_path(user: &str) -> (r: String)
    ensures
        r@ == path_of(user@),
{
    let mut p = get_dir(user);
    p.append("/services.json");
    p
}

} // verus!
