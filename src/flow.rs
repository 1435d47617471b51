use crate::authority::{permits_spec, required_spec, ActionClass, Authority, CREATE_NOTE};
use crate::error::{detail_spec, status_of, AllError};
use crate::model::{Note, Project, Record, TeamUser, User};
use crate::service::{put_request, PutRequest};
use vstd::prelude::*;

verus! {

/// The identity that comes with a request.
#[derive(Debug)]
pub struct Caller {
    pub user: Option<User>,
    pub authorized: bool,
}

/// The body of a note creation.
#[derive(Debug)]
pub struct CreateNoteRequest {
    pub project_id: String,
    pub content: String,
    pub x: i64,
    pub y: i64,
}

/// The body of a successful note creation.
#[derive(Debug)]
pub struct CreateNoteResponse {
    pub success: bool,
    pub note_id: String,
}

/// Why an authorization was refused.
#[derive(Debug)]
pub enum Denial {
    /// The project does not exist.
    ProjectNotFound,
    /// A lookup failed with this error.
    Transient(AllError),
    /// The caller holds no membership of the project's team.
    NotMember,
    /// The caller's authority is below what the action asks for.
    InsufficientAuthority,
}

/// The answer of the authorization resolver.
#[derive(Debug)]
pub enum Decision {
    Permit(Authority),
    Deny(Denial),
}

/// The decision on a membership lookup, for an action that asks for
/// `required`.
pub open spec fn decide_spec(membership: Result<Option<TeamUser>, AllError>, required: Authority) -> Decision {
    match membership {
        Err(e) => Decision::Deny(Denial::Transient(e)),
        Ok(None) => Decision::Deny(Denial::NotMember),
        Ok(Some(tu)) => if permits_spec(tu.authority, required) {
            Decision::Permit(tu.authority)
        } else {
            Decision::Deny(Denial::InsufficientAuthority)
        },
    }
}

/// The denial for a failed project lookup: a missing or unreadable project
/// is not found; any other failure is a failed lookup.
pub open spec fn project_denial(e: AllError) -> Denial {
    match e {
        AllError::NotFound => Denial::ProjectNotFound,
        AllError::CorruptRecord => Denial::ProjectNotFound,
        _ => Denial::Transient(e),
    }
}

/// The transport status that each denial is answered with.
pub open spec fn denial_status(d: Denial) -> u16 {
    match d {
        Denial::ProjectNotFound => 404,
        Denial::Transient(_) => 500,
        Denial::NotMember => 403,
        Denial::InsufficientAuthority => 403,
    }
}

/// Whether `err` is the answer to denial `d`: a failed lookup is answered
/// as a store failure that carries the lookup error's text.
pub open spec fn answers(d: Denial, err: AllError) -> bool {
    match d {
        Denial::ProjectNotFound => err == AllError::NotFound,
        Denial::Transient(e) => err is StoreError && err->StoreError_0@ == detail_spec(e),
        Denial::NotMember => err == AllError::Forbidden,
        Denial::InsufficientAuthority => err == AllError::Forbidden,
    }
}

/// Decides on a membership lookup for an action that asks for `required`.
pub fn decide(membership: Result<Option<TeamUser>, AllError>, required: Authority) -> (r: Decision)
    ensures
        r == decide_spec(membership, required),
{
    match membership {
        Err(e) => Decision::Deny(Denial::Transient(e)),
        Ok(None) => Decision::Deny(Denial::NotMember),
        Ok(Some(tu)) => if tu.authority.permits(required) {
            Decision::Permit(tu.authority)
        } else {
            Decision::Deny(Denial::InsufficientAuthority)
        },
    }
}

/// The denial for a failed project lookup.
pub fn deny_for_project(e: AllError) -> (r: Denial)
    ensures
        r == project_denial(e),
{
    match e {
        AllError::NotFound => Denial::ProjectNotFound,
        AllError::CorruptRecord => Denial::ProjectNotFound,
        _ => Denial::Transient(e),
    }
}

impl Denial {
    /// The error that answers this denial.
    pub fn into_error(self) -> (r: AllError)
        ensures
            answers(self, r),
            status_of(r) == denial_status(self),
    {
        match self {
            Denial::ProjectNotFound => AllError::NotFound,
            Denial::Transient(e) => AllError::StoreError(e.detail()),
            Denial::NotMember => AllError::Forbidden,
            Denial::InsufficientAuthority => AllError::Forbidden,
        }
    }
}

/// Where no membership record exists, the resolver denies with
/// `NotMember` and never permits, whatever the action asks for.
pub proof fn lemma_missing_membership(required: Authority)
    ensures
        decide_spec(Ok(None), required) == Decision::Deny(Denial::NotMember),
        !(decide_spec(Ok(None), required) is Permit),
{
}

/// A failed lookup, of the project or of the membership, is answered with
/// status 500 unless it says that the project is missing or unreadable.
pub proof fn lemma_lookup_failure_is_500(e: AllError, required: Authority)
    ensures
        decide_spec(Err(e), required) == Decision::Deny(Denial::Transient(e)),
        denial_status(Denial::Transient(e)) == 500,
        !(e is NotFound || e is CorruptRecord) ==> denial_status(project_denial(e)) == 500,
        (e is NotFound || e is CorruptRecord) ==> denial_status(project_denial(e)) == 404,
{
}

/// A membership permits an action exactly when its authority ranks at least
/// as high as the one the action asks for.
pub proof fn lemma_decide_by_rank(tu: TeamUser, action: ActionClass)
    ensures
        decide_spec(Ok(Some(tu)), required_spec(action)) is Permit <==> permits_spec(
            tu.authority,
            required_spec(action),
        ),
{
}

/// Relies on uuid::Uuid::new_v4 and the hyphenated text form that its
/// `Display` writes: 36 characters.
#[verifier::external_body]
fn new_note_id() -> (r: String)
    ensures
        r@.len() == 36,
{
    uuid::Uuid::new_v4().to_string()
}

/// The note that a request creates under a given id.
pub open spec fn note_for(id: String, req: CreateNoteRequest) -> Note {
    Note { id, project_id: req.project_id, content: req.content, x: req.x, y: req.y }
}

/// Where a note creation stands.
#[derive(Debug)]
pub enum NoteFlow {
    /// The caller's project is being looked up.
    AwaitProject { user_id: String, req: CreateNoteRequest },
    /// The caller's membership of the project's team is being looked up.
    AwaitMembership { user_id: String, team_id: String, req: CreateNoteRequest },
    /// The note is being written.
    AwaitWrite { note_id: String },
    /// The response has been given.
    Done,
}

/// What the driver of a note creation does next.
#[derive(Debug)]
pub enum NoteAction {
    /// Fetch the project by id.
    GetProject { project_id: String },
    /// Look up the membership of the user in the team.
    FindMembership { team_id: String, user_id: String },
    /// Write the note.
    PutNote { put: PutRequest },
    /// Answer the request.
    Respond { result: Result<CreateNoteResponse, AllError> },
}

/// What the driver hands back after an action.
#[derive(Debug)]
pub enum NoteEvent {
    Project { result: Result<Project, AllError> },
    Membership { result: Result<Option<TeamUser>, AllError> },
    Written { result: Result<(), AllError> },
}

/// Whether a state waits for an event of this kind.
pub open spec fn accepts_spec(s: NoteFlow, e: NoteEvent) -> bool {
    match (s, e) {
        (NoteFlow::AwaitProject { .. }, NoteEvent::Project { .. }) => true,
        (NoteFlow::AwaitMembership { .. }, NoteEvent::Membership { .. }) => true,
        (NoteFlow::AwaitWrite { .. }, NoteEvent::Written { .. }) => true,
        _ => false,
    }
}

/// The transport status of a response.
pub open spec fn response_status_spec(r: Result<CreateNoteResponse, AllError>) -> u16 {
    match r {
        Ok(_) => 200,
        Err(e) => status_of(e),
    }
}

pub fn response_status(r: &Result<CreateNoteResponse, AllError>) -> (s: u16)
    ensures
        s == response_status_spec(*r),
{
    match r {
        Ok(_) => 200,
        Err(e) => e.status_code(),
    }
}

impl NoteFlow {
    /// Starts a note creation: a caller without a user is refused before any
    /// store access; otherwise the project is looked up.
    pub fn start(caller: &Caller, req: CreateNoteRequest) -> (r: (NoteFlow, NoteAction))
        ensures
            caller.user is None ==> r.0 == NoteFlow::Done && r.1 == (NoteAction::Respond {
                result: Err(AllError::Unauthorized),
            }),
            caller.user is Some ==> r.0 == (NoteFlow::AwaitProject {
                user_id: caller.user->Some_0.id,
                req,
            }) && r.1 == (NoteAction::GetProject { project_id: req.project_id }),
    {
        match &caller.user {
            None => (NoteFlow::Done, NoteAction::Respond { result: Err(AllError::Unauthorized) }),
            Some(u) => {
                let project_id = req.project_id.clone();
                (
                    NoteFlow::AwaitProject { user_id: u.id.clone(), req },
                    NoteAction::GetProject { project_id },
                )
            },
        }
    }

    pub fn accepts(&self, e: &NoteEvent) -> (r: bool)
        ensures
            r == accepts_spec(*self, *e),
    {
        match (self, e) {
            (NoteFlow::AwaitProject { .. }, NoteEvent::Project { .. }) => true,
            (NoteFlow::AwaitMembership { .. }, NoteEvent::Membership { .. }) => true,
            (NoteFlow::AwaitWrite { .. }, NoteEvent::Written { .. }) => true,
            _ => false,
        }
    }

    /// Takes one event. A project that cannot be had ends the creation with
    /// no write; a write is asked for only once the membership permits it.
    pub fn step(self, e: NoteEvent) -> (r: (NoteFlow, NoteAction))
        requires
            accepts_spec(self, e),
        ensures
            match (self, e) {
                (
                    NoteFlow::AwaitProject { user_id, req },
                    NoteEvent::Project { result: Ok(p) },
                ) => r.0 == (NoteFlow::AwaitMembership { user_id, team_id: p.team_id, req })
                    && r.1 == (NoteAction::FindMembership { team_id: p.team_id, user_id }),
                (NoteFlow::AwaitProject { .. }, NoteEvent::Project { result: Err(err) }) => {
                    &&& r.0 == NoteFlow::Done
                    &&& r.1 is Respond
                    &&& r.1->result is Err
                    &&& answers(project_denial(err), r.1->result->Err_0)
                    &&& response_status_spec(r.1->result) == denial_status(project_denial(err))
                },
                (
                    NoteFlow::AwaitMembership { req, .. },
                    NoteEvent::Membership { result: m },
                ) => match decide_spec(m, required_spec(CREATE_NOTE)) {
                    Decision::Permit(_) => exists|id: String|
                        {
                            &&& id@.len() == 36
                            &&& r.0 == (NoteFlow::AwaitWrite { note_id: id })
                            &&& r.1 is PutNote
                            &&& r.1->put.table@ == Note::table_spec()
                            &&& r.1->put.item@ == Note::encode_spec(note_for(id, req)@)
                        },
                    Decision::Deny(d) => {
                        &&& r.0 == NoteFlow::Done
                        &&& r.1 is Respond
                        &&& r.1->result is Err
                        &&& answers(d, r.1->result->Err_0)
                        &&& response_status_spec(r.1->result) == denial_status(d)
                    },
                },
                (NoteFlow::AwaitWrite { note_id }, NoteEvent::Written { result: Ok(()) }) => r.0
                    == NoteFlow::Done && r.1 == (NoteAction::Respond {
                    result: Ok(CreateNoteResponse { success: true, note_id }),
                }),
                (NoteFlow::AwaitWrite { .. }, NoteEvent::Written { result: Err(err) }) => r.0
                    == NoteFlow::Done && r.1 == (NoteAction::Respond { result: Err(err) }),
                _ => false,
            },
    {
        match (self, e) {
            (NoteFlow::AwaitProject { user_id, req }, NoteEvent::Project { result: Ok(p) }) => {
                let team_id = p.team_id.clone();
                (
                    NoteFlow::AwaitMembership { user_id: user_id.clone(), team_id: p.team_id, req },
                    NoteAction::FindMembership { team_id, user_id },
                )
            },
            (NoteFlow::AwaitProject { .. }, NoteEvent::Project { result: Err(err) }) => {
                (
                    NoteFlow::Done,
                    NoteAction::Respond { result: Err(deny_for_project(err).into_error()) },
                )
            },
            (NoteFlow::AwaitMembership { req, .. }, NoteEvent::Membership { result: m }) => {
                match decide(m, CREATE_NOTE.required()) {
                    Decision::Permit(_) => {
                        let id = new_note_id();
                        let note = Note {
                            id: id.clone(),
                            project_id: req.project_id,
                            content: req.content,
                            x: req.x,
                            y: req.y,
                        };
                        let put = put_request(&note);
                        (NoteFlow::AwaitWrite { note_id: id }, NoteAction::PutNote { put })
                    },
                    Decision::Deny(d) => (
                        NoteFlow::Done,
                        NoteAction::Respond { result: Err(d.into_error()) },
                    ),
                }
            },
            (NoteFlow::AwaitWrite { note_id }, NoteEvent::Written { result: Ok(()) }) => {
                (
                    NoteFlow::Done,
                    NoteAction::Respond { result: Ok(CreateNoteResponse { success: true, note_id }) },
                )
            },
            (NoteFlow::AwaitWrite { .. }, NoteEvent::Written { result: Err(err) }) => {
                (NoteFlow::Done, NoteAction::Respond { result: Err(err) })
            },
            // an event that the state does not wait for is excluded by `requires`
            (s, _) => (s, NoteAction::Respond { result: Err(AllError::NotFound) }),
        }
    }
}

} // verus!
