use tokkitang::attr::AttrMap;
use tokkitang::authority::Authority;
use tokkitang::error::AllError;
use tokkitang::flow::{response_status, Caller, CreateNoteRequest, NoteAction, NoteEvent, NoteFlow};
use tokkitang::memstore::MemTable;
use tokkitang::model::{Note, Project, Record, TeamUser, User};
use tokkitang::scan::{DecodePolicy, Scan};
use tokkitang::service::{
    first_or_none, first_or_not_found, note_by_id_scan, project_by_id_scan, put_request,
    single_attr, team_user_scan, write_outcome,
};

fn s(v: &str) -> String {
    v.to_string()
}

fn keyed_by(names: &[&str]) -> MemTable {
    MemTable::new(names.iter().map(|n| s(n)).collect())
}

/// Drives a scan against an in-memory table, `page` records at a time.
fn drive<E: Record>(table: &MemTable, mut scan: Scan<E>, page: usize) -> Result<Vec<E>, AllError> {
    let mut calls = 0;
    while scan.is_running() {
        let req = scan.request();
        let (items, next) = table.scan_page(&req.filter, &req.start_key, page);
        scan.on_page(items, next);
        calls += 1;
        assert!(calls <= table.items.len() + 1);
    }
    scan.finish()
}

fn full_scan_len(table: &MemTable) -> usize {
    let scan: Scan<Note> = Scan::new("note", AttrMap::new(), DecodePolicy::Skip);
    drive(table, scan, 2).ok().unwrap().len()
}

#[test]
fn delete_of_missing_key_succeeds_and_key_stays_absent() {
    let mut notes = keyed_by(&["id"]);
    let n = Note { id: s("N1"), project_id: s("P1"), content: s("a"), x: 1, y: 2 };
    assert!(notes.put(n.encode()).is_ok());
    let missing = single_attr("id", &s("nope"));
    assert!(write_outcome(notes.delete(&missing)).is_ok());
    assert_eq!(notes.items.len(), 1);
    let found = drive(&notes, Scan::<Note>::new("note", missing.copy_map(), DecodePolicy::Skip), 1);
    assert!(found.ok().unwrap().is_empty());
    assert!(write_outcome(notes.delete(&missing)).is_ok());
    assert_eq!(notes.items.len(), 1);
}

#[test]
fn delete_removes_existing_key() {
    let mut notes = keyed_by(&["id"]);
    let n = Note { id: s("N1"), project_id: s("P1"), content: s("a"), x: 1, y: 2 };
    notes.put(n.encode()).unwrap();
    notes.delete(&single_attr("id", &s("N1"))).unwrap();
    assert_eq!(full_scan_len(&notes), 0);
}

#[test]
fn put_replaces_record_with_same_key() {
    let mut members = keyed_by(&["team_id", "user_id"]);
    let a = TeamUser { team_id: s("T1"), user_id: s("U1"), authority: Authority::Read };
    let b = TeamUser { team_id: s("T1"), user_id: s("U1"), authority: Authority::Owner };
    let c = TeamUser { team_id: s("T1"), user_id: s("U2"), authority: Authority::Write };
    members.put(a.encode()).unwrap();
    members.put(c.encode()).unwrap();
    members.put(b.encode()).unwrap();
    assert_eq!(members.items.len(), 2);
    let found = first_or_none(drive(&members, team_user_scan(&s("T1"), &s("U1")), 1)).unwrap();
    assert_eq!(found.unwrap().authority, Authority::Owner);
}

#[test]
fn put_without_key_is_refused() {
    let mut notes = keyed_by(&["id"]);
    let mut m = AttrMap::new();
    m.push_s("content", &s("x"));
    assert!(notes.put(m).is_err());
    assert!(notes.items.is_empty());
}

#[test]
fn paged_scan_finds_every_match_for_any_page_size() {
    let mut members = keyed_by(&["team_id", "user_id"]);
    for i in 0..9 {
        let team = if i % 3 == 0 { "T2" } else { "T1" };
        let tu = TeamUser { team_id: s(team), user_id: format!("U{i}"), authority: Authority::Read };
        members.put(tu.encode()).unwrap();
    }
    for page in [1, 2, 4, 9, 50] {
        let scan: Scan<TeamUser> =
            Scan::new("team_user", single_attr("team_id", &s("T1")), DecodePolicy::Skip);
        let found = drive(&members, scan, page).ok().unwrap();
        assert_eq!(found.len(), 6);
        assert!(found.iter().all(|tu| tu.team_id == "T1"));
    }
}

struct World {
    projects: MemTable,
    members: MemTable,
    notes: MemTable,
}

fn world(authority: Authority) -> World {
    let mut w = World {
        projects: keyed_by(&["id"]),
        members: keyed_by(&["team_id", "user_id"]),
        notes: keyed_by(&["id"]),
    };
    let p = Project { id: s("P1"), team_id: s("T1"), name: s("erd") };
    w.projects.put(put_request(&p).item).unwrap();
    let m = TeamUser { team_id: s("T1"), user_id: s("U1"), authority };
    w.members.put(put_request(&m).item).unwrap();
    w
}

fn post_note(w: &mut World, project_id: &str) -> Result<tokkitang::flow::CreateNoteResponse, AllError> {
    let caller = Caller {
        user: Some(User { id: s("U1"), email: s("u1@x"), nickname: s("u1") }),
        authorized: true,
    };
    let req = CreateNoteRequest { project_id: s(project_id), content: s("hi"), x: 0, y: 0 };
    let (mut state, mut action) = NoteFlow::start(&caller, req);
    loop {
        let event = match action {
            NoteAction::Respond { result } => return result,
            NoteAction::GetProject { project_id } => NoteEvent::Project {
                result: first_or_not_found(drive(&w.projects, project_by_id_scan(&project_id), 1)),
            },
            NoteAction::FindMembership { team_id, user_id } => NoteEvent::Membership {
                result: first_or_none(drive(&w.members, team_user_scan(&team_id, &user_id), 1)),
            },
            NoteAction::PutNote { put } => {
                assert_eq!(put.table, Note::table_name());
                NoteEvent::Written { result: write_outcome(w.notes.put(put.item)) }
            }
        };
        let next = state.step(event);
        state = next.0;
        action = next.1;
    }
}

#[test]
fn end_to_end_write_member_creates_note() {
    let mut w = world(Authority::Write);
    let resp = post_note(&mut w, "P1");
    assert_eq!(response_status(&resp), 200);
    let resp = resp.ok().unwrap();
    assert!(resp.success);
    assert_eq!(resp.note_id.len(), 36);
    let note = first_or_not_found(drive(&w.notes, note_by_id_scan(&resp.note_id), 1)).ok().unwrap();
    assert_eq!(note.project_id, "P1");
    assert_eq!(note.content, "hi");
}

#[test]
fn end_to_end_read_member_is_denied() {
    let mut w = world(Authority::Read);
    let resp = post_note(&mut w, "P1");
    assert_eq!(response_status(&resp), 403);
    assert_eq!(full_scan_len(&w.notes), 0);
}

#[test]
fn end_to_end_missing_project_writes_nothing() {
    let mut w = world(Authority::Owner);
    let resp = post_note(&mut w, "P404");
    assert_eq!(response_status(&resp), 404);
    assert_eq!(full_scan_len(&w.notes), 0);
}

#[test]
fn end_to_end_non_member_is_denied() {
    let mut w = world(Authority::Owner);
    w.members.delete(&tokkitang::service::pair_attr("team_id", &s("T1"), "user_id", &s("U1"))).unwrap();
    let resp = post_note(&mut w, "P1");
    assert!(matches!(resp, Err(AllError::Forbidden)));
    assert_eq!(full_scan_len(&w.notes), 0);
}
