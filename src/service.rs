use vstd::prelude::*;

verus! {

/// One registered service: a name, a colour hint and up to three shell commands.
#[derive(Debug)]
pub struct Service {
    pub id: usize,
    pub name: String,
    pub color: String,
    pub start_command: Option<String>,
    pub stop_command: Option<String>,
    pub restart_command: Option<String>,
}

/// What can go wrong in the registry and around it.
#[derive(Debug)]
pub enum ServiceError {
    /// No user name could be found, so there is no place for the store.
    Configuration,
    /// Reading or writing the store, or starting a command, failed.
    Io(String),
    /// The records were removed, but writing them back renumbered failed.
    RenumberIo(String),
    /// The store holds text that is not a list of services.
    Deserialization(String),
    /// No service has the id or name that was asked for.
    NotFound,
    /// Neither an id nor a name was given.
    InvalidArgument,
}

/// What `remove_service` did.
#[derive(Clone, Copy, Debug, PartialEq, Eq, Structural)]
pub enum RemoveOutcome {
    Removed,
    NotFound,
}

/// What was found where the store lives, once its text has been parsed.
pub enum StoreRead {
    /// There is no store file yet.
    Missing,
    /// The file is there but could not be read.
    Unreadable(String),
    /// The file was read but does not hold a list of services.
    Malformed(String),
    /// The file holds these services.
    Parsed(Vec<Service>),
}

pub fn clone_text(o: &Option<String>) -> (r: Option<String>)
    ensures
        r == *o,
{
    match o {
        Some(s) => Some(s.clone()),
        None => None,
    }
}

impl Service {
    /// A copy of the record, field for field.
    pub fn duplicate(&self) -> (r: Service)
        ensures
            r == *self,
    {
        Service {
            id: self.id,
            name: self.name.clone(),
            color: self.color.clone(),
            start_command: clone_text(&self.start_command),
            stop_command: clone_text(&self.stop_command),
            restart_command: clone_text(&self.restart_command),
        }
    }
}

/// Ids run 1, 2, ..., n in the order of the records.
pub open spec fn ids_dense(s: Seq<Service>) -> bool {
    forall|i: int| 0 <= i < s.len() ==> (#[trigger] s[i]).id == i + 1
}

/// Some record has this id.
pub open spec fn has_id(s: Seq<Service>, id: usize) -> bool {
    exists|k: int| 0 <= k < s.len() && (#[trigger] s[k]).id == id
}

/// `k` is the first record with this id.
pub open spec fn first_with_id(s: Seq<Service>, id: usize, k: int) -> bool {
    &&& 0 <= k < s.len()
    &&& s[k].id == id
    &&& forall|j: int| 0 <= j < k ==> (#[trigger] s[j]).id != id
}

/// Some record has this name.
pub open spec fn has_name(s: Seq<Service>, name: Seq<char>) -> bool {
    exists|k: int| 0 <= k < s.len() && (#[trigger] s[k]).name@ == name
}

/// `k` is the first record with this name.
pub open spec fn first_with_name(s: Seq<Service>, name: Seq<char>, k: int) -> bool {
    &&& 0 <= k < s.len()
    &&& s[k].name@ == name
    &&& forall|j: int| 0 <= j < k ==> (#[trigger] s[j]).name@ != name
}

/// The collection after a new record has been appended with the next id.
pub open spec fn with_new(
    s: Seq<Service>,
    name: String,
    color: String,
    start_command: Option<String>,
    stop_command: Option<String>,
    restart_command: Option<String>,
) -> Seq<Service> {
    s.push(
        Service {
            id: (s.len() + 1) as usize,
            name,
            color,
            start_command,
            stop_command,
            restart_command,
        },
    )
}

/// A record with every field that is given replaced.
pub open spec fn edited(
    s: Service,
    name: Option<String>,
    color: Option<String>,
    start_command: Option<String>,
    stop_command: Option<String>,
    restart_command: Option<String>,
) -> Service {
    Service {
        id: s.id,
        name: match name {
            Some(n) => n,
            None => s.name,
        },
        color: match color {
            Some(c) => c,
            None => s.color,
        },
        start_command: if start_command is Some {
            start_command
        } else {
            s.start_command
        },
        stop_command: if stop_command is Some {
            stop_command
        } else {
            s.stop_command
        },
        restart_command: if restart_command is Some {
            restart_command
        } else {
            s.restart_command
        },
    }
}

/// A record stays on removal when it matches none of the selectors given.
pub open spec fn survives(s: Service, id: Option<usize>, name: Option<String>) -> bool {
    &&& match id {
        Some(i) => s.id != i,
        None => true,
    }
    &&& match name {
        Some(n) => s.name@ != n@,
        None => true,
    }
}

/// The records that stay on removal, in their order.
pub open spec fn kept(s: Seq<Service>, id: Option<usize>, name: Option<String>) -> Seq<Service>
    decreases s.len(),
{
    if s.len() == 0 {
        s
    } else {
        let rest = kept(s.drop_last(), id, name);
        if survives(s.last(), id, name) {
            rest.push(s.last())
        } else {
            rest
        }
    }
}

/// The same records, with ids 1, 2, ..., n in their order.
pub open spec fn renumbered(s: Seq<Service>) -> Seq<Service> {
    Seq::new(
        s.len(),
        |i: int|
            Service {
                id: (i + 1) as usize,
                name: s[i].name,
                color: s[i].color,
                start_command: s[i].start_command,
                stop_command: s[i].stop_command,
                restart_command: s[i].restart_command,
            },
    )
}

/// The position of the first record with this id, if any.
pub fn find_id(services: &Vec<Service>, id: usize) -> (r: Option<usize>)
    ensures
        r is None <==> !has_id(services@, id),
        r matches Some(k) ==> first_with_id(services@, id, k as int),
{
    let mut i: usize = 0;
    while i < services.len()
        invariant
            0 <= i <= services@.len(),
            forall|j: int| 0 <= j < i ==> (#[trigger] services@[j]).id != id,
        decreases services@.len() - i,
    {
        if services[i].id == id {
            return Some(i);
        }
        i = i + 1;
    }
    None
}

/// The position of the first record with this name, if any.
pub fn find_name(services: &Vec<Service>, name: &String) -> (r: Option<usize>)
    ensures
        r is None <==> !has_name(services@, name@),
        r matches Some(k) ==> first_with_name(services@, name@, k as int),
{
    let mut i: usize = 0;
    while i < services.len()
        invariant
            0 <= i <= services@.len(),
            forall|j: int| 0 <= j < i ==> (#[trigger] services@[j]).name@ != name@,
        decreases services@.len() - i,
    {
        if services[i].name == *name {
            return Some(i);
        }
        i = i + 1;
    }
    None
}

/// Appends a record as it is.
pub fn write_service_to_json(services: &mut Vec<Service>, service: Service)
    ensures
        final(services)@ == old(services)@.push(service),
{
    services.push(service);
}

/// Appends a new record whose id is one more than the number of records.
pub fn add_service(
    services: &mut Vec<Service>,
    name: String,
    color: String,
    start_command: Option<String>,
    stop_command: Option<String>,
    restart_command: Option<String>,
)
    requires
        old(services)@.len() < usize::MAX,
    ensures
        final(services)@ == with_new(
            old(services)@,
            name,
            color,
            start_command,
            stop_command,
            restart_command,
        ),
        ids_dense(old(services)@) ==> ids_dense(final(services)@),
{
    let service = Service {
        id: services.len() + 1,
        name,
        color,
        start_command,
        stop_command,
        restart_command,
    };
    write_service_to_json(services, service);
}

/// The collection that was found in the store: empty where there is no store yet.
pub fn read_services_from_json(read: StoreRead) -> (r: Result<Vec<Service>, ServiceError>)
    ensures
        match read {
            StoreRead::Missing => r matches Ok(v) && v@.len() == 0,
            StoreRead::Unreadable(m) => r == Err::<Vec<Service>, ServiceError>(
                ServiceError::Io(m),
            ),
            StoreRead::Malformed(m) => r == Err::<Vec<Service>, ServiceError>(
                ServiceError::Deserialization(m),
            ),
            StoreRead::Parsed(v) => r == Ok::<Vec<Service>, ServiceError>(v),
        },
{
    match read {
        StoreRead::Missing => Ok(Vec::new()),
        StoreRead::Unreadable(m) => Err(ServiceError::Io(m)),
        StoreRead::Malformed(m) => Err(ServiceError::Deserialization(m)),
        StoreRead::Parsed(v) => Ok(v),
    }
}

/// The services in the store, unchanged.
pub fn list_services(read: StoreRead) -> (r: Result<Vec<Service>, ServiceError>)
    ensures
        match read {
            StoreRead::Missing => r matches Ok(v) && v@.len() == 0,
            StoreRead::Unreadable(m) => r == Err::<Vec<Service>, ServiceError>(
                ServiceError::Io(m),
            ),
            StoreRead::Malformed(m) => r == Err::<Vec<Service>, ServiceError>(
                ServiceError::Deserialization(m),
            ),
            StoreRead::Parsed(v) => r == Ok::<Vec<Service>, ServiceError>(v),
        },
{
    read_services_from_json(read)
}

/// Replaces each given field of the first record with this id.
/// Without such a record nothing changes and `NotFound` is returned.
pub fn edit_service_in_json(
    services: &mut Vec<Service>,
    id: usize,
    name: Option<String>,
    color: Option<String>,
    start_command: Option<String>,
    stop_command: Option<String>,
    restart_command: Option<String>,
) -> (r: Result<(), ServiceError>)
    ensures
        r is Ok <==> has_id(old(services)@, id),
        r is Err ==> r == Err::<(), ServiceError>(ServiceError::NotFound) && final(services)@
            == old(services)@,
        r is Ok ==> exists|k: int|
            first_with_id(old(services)@, id, k) && final(services)@ == old(services)@.update(
                k,
                edited(
                    #[trigger] old(services)@[k],
                    name,
                    color,
                    start_command,
                    stop_command,
                    restart_command,
                ),
            ),
{
    match find_id(services, id) {
        None => Err(ServiceError::NotFound),
        Some(k) => {
            let current = services[k].duplicate();
            let updated = Service {
                id: current.id,
                name: match name {
                    Some(n) => n,
                    None => current.name,
                },
                color: match color {
                    Some(c) => c,
                    None => current.color,
                },
                start_command: if start_command.is_some() {
                    start_command
                } else {
                    current.start_command
                },
                stop_command: if stop_command.is_some() {
                    stop_command
                } else {
                    current.stop_command
                },
                restart_command: if restart_command.is_some() {
                    restart_command
                } else {
                    current.restart_command
                },
            };
            services.set(k, updated);
            Ok(())
        },
    }
}

/// Drops every record that matches a given selector.
/// Where none matches, nothing changes and `NotFound` is returned.
pub fn remove_service(services: &mut Vec<Service>, id: Option<usize>, name: Option<String>) -> (r:
    RemoveOutcome)
    ensures
        r == RemoveOutcome::NotFound <==> kept(old(services)@, id, name).len() == old(
            services,
        )@.len(),
        r == RemoveOutcome::NotFound <==> (forall|i: int|
            0 <= i < old(services)@.len() ==> survives(#[trigger] old(services)@[i], id, name)),
        r == RemoveOutcome::NotFound ==> final(services)@ == old(services)@,
        r == RemoveOutcome::Removed ==> final(services)@ == kept(old(services)@, id, name),
{
    proof {
        crate::laws::lemma_remove_not_found_iff_no_match(services@, id, name);
    }
    let mut stay: Vec<Service> = Vec::new();
    let mut i: usize = 0;
    while i < services.len()
        invariant
            0 <= i <= services@.len(),
            stay@ == kept(services@.subrange(0, i as int), id, name),
        decreases services@.len() - i,
    {
        let s = &services[i];
        let id_differs = match id {
            Some(x) => s.id != x,
            None => true,
        };
        let name_differs = match &name {
            Some(n) => !(s.name == *n),
            None => true,
        };
        proof {
            assert(services@.subrange(0, i + 1).drop_last() =~= services@.subrange(0, i as int));
        }
        if id_differs && name_differs {
            stay.push(s.duplicate());
        }
        i = i + 1;
    }
    proof {
        assert(services@.subrange(0, services@.len() as int) =~= services@);
    }
    if stay.len() == services.len() {
        RemoveOutcome::NotFound
    } else {
        *services = stay;
        RemoveOutcome::Removed
    }
}

/// Gives the records the ids 1, 2, ..., n in their order.
pub fn reorganize_ids(services: &mut Vec<Service>)
    ensures
        final(services)@ == renumbered(old(services)@),
        ids_dense(final(services)@),
{
    let ghost orig = services@;
    let mut i: usize = 0;
    while i < services.len()
        invariant
            0 <= i <= services@.len(),
            services@.len() == orig.len(),
            forall|j: int| 0 <= j < i ==> services@[j] == renumbered(orig)[j],
            forall|j: int| i <= j < services@.len() ==> services@[j] == orig[j],
        decreases services@.len() - i,
    {
        let mut current = services[i].duplicate();
        current.id = i + 1;
        services.set(i, current);
        i = i + 1;
    }
    assert(services@ =~= renumbered(orig));
}

} // verus!
