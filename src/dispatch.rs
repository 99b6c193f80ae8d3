use vstd::prelude::*;
use crate::service::{
    Service, clone_text, find_id, find_name, has_id, has_name, first_with_id, first_with_name,
};

verus! {

/// The command of a service that is asked for.
#[derive(Clone, Copy, Debug, PartialEq, Eq, Structural)]
pub enum Action {
    Start,
    Stop,
    Restart,
}

/// What to do for a request to run a command of a service.
#[derive(Debug)]
pub enum ExecPlan {
    /// Run this command line through `sh -c`.
    Run(String),
    /// The service has no command for the action.
    NotImplemented,
    /// No service has the id or name given.
    NotFound,
    /// Neither an id nor a name was given.
    InvalidArgument,
}

/// What a command that ran reported.
#[derive(Debug)]
pub enum ExecOutcome {
    /// It exited with success: its standard output.
    Stdout(String),
    /// It exited otherwise: its standard error.
    Stderr(String),
}

/// The command that a service has for an action.
pub open spec fn command_of(s: Service, action: Action) -> Option<String> {
    match action {
        Action::Start => s.start_command,
        Action::Stop => s.stop_command,
        Action::Restart => s.restart_command,
    }
}

/// The plan for an action on a service that was found.
pub open spec fn plan_for(s: Service, action: Action) -> ExecPlan {
    match command_of(s, action) {
        Some(c) => ExecPlan::Run(c),
        None => ExecPlan::NotImplemented,
    }
}

/// The text of some bytes, each invalid sequence replaced by U+FFFD.
pub uninterp spec fn lossy_text(b: Seq<u8>) -> Seq<char>;

/// Relies on `String::from_utf8_lossy`: the text depends on the bytes alone.
#[verifier::external_body]
fn decode_lossy(b: &Vec<u8>) -> (r: String)
    ensures
        r@ == lossy_text(b@),
{
    String::from_utf8_lossy(b.as_slice()).into_owned()
}

/// The command that a service has for an action, copied.
pub fn select_command(s: &Service, action: Action) -> (r: Option<String>)
    ensures
        r == command_of(*s, action),
{
    match action {
        Action::Start => clone_text(&s.start_command),
        Action::Stop => clone_text(&s.stop_command),
        Action::Restart => clone_text(&s.restart_command),
    }
}

/// Finds the service by id when one is given, else by its first name match,
/// and says which command to run for the action.
pub fn execute(services: &Vec<Service>, id: Option<usize>, name: Option<String>, action: Action) -> (r:
    ExecPlan)
    ensures
        id is None && name is None ==> r == ExecPlan::InvalidArgument,
        id matches Some(i) ==> {
            &&& !has_id(services@, i) ==> r == ExecPlan::NotFound
            &&& forall|k: int| first_with_id(services@, i, k) ==> r == plan_for(services@[k], action)
        },
        id is None && name is Some ==> {
            &&& !has_name(services@, name->0@) ==> r == ExecPlan::NotFound
            &&& forall|k: int|
                first_with_name(services@, name->0@, k) ==> r == plan_for(services@[k], action)
        },
{
    let found = match id {
        Some(i) => find_id(services, i),
        None => match &name {
            Some(n) => find_name(services, n),
            None => {
                return ExecPlan::InvalidArgument;
            },
        },
    };
    match found {
        None => ExecPlan::NotFound,
        Some(k) => match select_command(&services[k], action) {
            Some(c) => ExecPlan::Run(c),
            None => ExecPlan::NotImplemented,
        },
    }
}

/// The report of a command that ran: its output on success, else its error output.
pub fn exit_outcome(success: bool, stdout: &Vec<u8>, stderr: &Vec<u8>) -> (r: ExecOutcome)
    ensures
        success ==> (r matches ExecOutcome::Stdout(t) && t@ == lossy_text(stdout@)),
        !success ==> (r matches ExecOutcome::Stderr(t) && t@ == lossy_text(stderr@)),
{
    if success {
        ExecOutcome::Stdout(decode_lossy(stdout))
    } else {
        ExecOutcome::Stderr(decode_lossy(stderr))
    }
}

} // verus!
