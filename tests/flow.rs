use tokkitang::authority::Authority;
use tokkitang::error::AllError;
use tokkitang::flow::{
    decide, response_status, Caller, CreateNoteRequest, Decision, Denial, NoteAction, NoteEvent,
    NoteFlow,
};
use tokkitang::model::{Note, Project, Record, TeamUser, User};

fn s(v: &str) -> String {
    v.to_string()
}

fn caller() -> Caller {
    Caller { user: Some(User { id: s("U1"), email: s("u1@x"), nickname: s("u1") }), authorized: true }
}

fn request() -> CreateNoteRequest {
    CreateNoteRequest { project_id: s("P1"), content: s("hi"), x: 0, y: 0 }
}

fn project() -> Project {
    Project { id: s("P1"), team_id: s("T1"), name: s("erd") }
}

fn membership(a: Authority) -> TeamUser {
    TeamUser { team_id: s("T1"), user_id: s("U1"), authority: a }
}

/// Runs a note creation against the given lookups; returns the response and
/// the notes that were written.
fn run(
    caller: &Caller,
    project: Result<Project, AllError>,
    member: Result<Option<TeamUser>, AllError>,
) -> (Result<tokkitang::flow::CreateNoteResponse, AllError>, Vec<Note>) {
    let mut project = Some(project);
    let mut member = Some(member);
    let mut written = Vec::new();
    let (mut state, mut action) = NoteFlow::start(caller, request());
    loop {
        let event = match action {
            NoteAction::Respond { result } => return (result, written),
            NoteAction::GetProject { project_id } => {
                assert_eq!(project_id, "P1");
                NoteEvent::Project { result: project.take().unwrap() }
            }
            NoteAction::FindMembership { team_id, user_id } => {
                assert_eq!(team_id, "T1");
                assert_eq!(user_id, "U1");
                NoteEvent::Membership { result: member.take().unwrap() }
            }
            NoteAction::PutNote { put } => {
                assert_eq!(put.table, "note");
                written.push(Note::decode(&put.item).unwrap());
                NoteEvent::Written { result: Ok(()) }
            }
        };
        assert!(state.accepts(&event));
        let next = state.step(event);
        state = next.0;
        action = next.1;
    }
}

#[test]
fn write_member_creates_note() {
    let (resp, written) = run(&caller(), Ok(project()), Ok(Some(membership(Authority::Write))));
    let resp = resp.ok().unwrap();
    assert!(resp.success);
    assert_eq!(resp.note_id.len(), 36);
    assert_eq!(written.len(), 1);
    assert_eq!(written[0].id, resp.note_id);
    assert_eq!(written[0].project_id, "P1");
    assert_eq!(written[0].content, "hi");
    assert_eq!((written[0].x, written[0].y), (0, 0));
}

#[test]
fn note_ids_differ_between_creations() {
    let (a, _) = run(&caller(), Ok(project()), Ok(Some(membership(Authority::Owner))));
    let (b, _) = run(&caller(), Ok(project()), Ok(Some(membership(Authority::Admin))));
    assert_ne!(a.ok().unwrap().note_id, b.ok().unwrap().note_id);
}

#[test]
fn read_member_is_forbidden_and_nothing_written() {
    let (resp, written) = run(&caller(), Ok(project()), Ok(Some(membership(Authority::Read))));
    assert_eq!(response_status(&resp), 403);
    assert!(matches!(resp, Err(AllError::Forbidden)));
    assert!(written.is_empty());
}

#[test]
fn non_member_is_forbidden() {
    let (resp, written) = run(&caller(), Ok(project()), Ok(None));
    assert_eq!(response_status(&resp), 403);
    assert!(written.is_empty());
}

#[test]
fn missing_project_is_not_found_and_nothing_written() {
    let (resp, written) = run(&caller(), Err(AllError::NotFound), Ok(None));
    assert_eq!(response_status(&resp), 404);
    assert!(matches!(resp, Err(AllError::NotFound)));
    assert!(written.is_empty());
}

#[test]
fn project_store_error_is_500() {
    let (resp, written) = run(&caller(), Err(AllError::StoreError(s("down"))), Ok(None));
    assert_eq!(response_status(&resp), 500);
    assert!(written.is_empty());
}

#[test]
fn membership_store_error_is_500() {
    let (resp, written) = run(&caller(), Ok(project()), Err(AllError::StoreError(s("down"))));
    assert_eq!(response_status(&resp), 500);
    assert!(written.is_empty());
}

#[test]
fn caller_without_user_is_unauthorized() {
    let nobody = Caller { user: None, authorized: false };
    let (resp, written) = run(&nobody, Ok(project()), Ok(Some(membership(Authority::Owner))));
    assert_eq!(response_status(&resp), 401);
    assert!(written.is_empty());
}

#[test]
fn failed_write_is_reported() {
    let (mut state, _) = NoteFlow::start(&caller(), request());
    state = state.step(NoteEvent::Project { result: Ok(project()) }).0;
    state = state.step(NoteEvent::Membership { result: Ok(Some(membership(Authority::Write))) }).0;
    let (state, action) = state.step(NoteEvent::Written { result: Err(AllError::StoreError(s("x"))) });
    assert!(matches!(state, NoteFlow::Done));
    assert!(matches!(action, NoteAction::Respond { result: Err(AllError::StoreError(_)) }));
}

#[test]
fn wrong_event_is_not_accepted() {
    let (state, _) = NoteFlow::start(&caller(), request());
    assert!(!state.accepts(&NoteEvent::Written { result: Ok(()) }));
}

#[test]
fn decide_cases() {
    assert!(matches!(decide(Ok(None), Authority::Read), Decision::Deny(Denial::NotMember)));
    assert!(matches!(
        decide(Ok(Some(membership(Authority::Write))), Authority::Admin),
        Decision::Deny(Denial::InsufficientAuthority)
    ));
    assert!(matches!(
        decide(Ok(Some(membership(Authority::Admin))), Authority::Write),
        Decision::Permit(Authority::Admin)
    ));
    assert!(matches!(
        decide(Err(AllError::StoreError(s("x"))), Authority::Write),
        Decision::Deny(Denial::Transient(_))
    ));
}

#[test]
fn membership_lookup_not_found_is_500() {
    let (resp, written) = run(&caller(), Ok(project()), Err(AllError::NotFound));
    assert_eq!(response_status(&resp), 500);
    match resp {
        Err(AllError::StoreError(d)) => assert_eq!(d, "not found"),
        _ => panic!("expected a store error"),
    }
    assert!(written.is_empty());
}

#[test]
fn project_lookup_forbidden_is_500() {
    let (resp, written) = run(&caller(), Err(AllError::Forbidden), Ok(None));
    assert_eq!(response_status(&resp), 500);
    assert!(written.is_empty());
}

#[test]
fn unreadable_project_is_not_found() {
    let (resp, written) = run(&caller(), Err(AllError::CorruptRecord), Ok(None));
    assert_eq!(response_status(&resp), 404);
    assert!(written.is_empty());
}

#[test]
fn store_error_detail_is_kept() {
    let (resp, _) = run(&caller(), Ok(project()), Err(AllError::StoreError(s("throttled"))));
    match resp {
        Err(AllError::StoreError(d)) => assert_eq!(d, "throttled"),
        _ => panic!("expected a store error"),
    }
}
