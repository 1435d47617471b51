use tokkitang::attr::{AttrMap, AttrValue};
use tokkitang::authority::Authority;
use tokkitang::model::{Note, Project, Record, Team, TeamInvite, TeamUser, User};

fn s(v: &str) -> String {
    v.to_string()
}

#[test]
fn team_round_trip() {
    let t = Team { id: s("T1"), name: s("Rabbits"), owner_id: s("U1") };
    let back = Team::decode(&t.encode()).unwrap();
    assert_eq!(back.id, "T1");
    assert_eq!(back.name, "Rabbits");
    assert_eq!(back.owner_id, "U1");
}

#[test]
fn team_round_trip_empty_strings() {
    let t = Team { id: s(""), name: s(""), owner_id: s("") };
    let back = Team::decode(&t.encode()).unwrap();
    assert_eq!(back.id, "");
    assert_eq!(back.name, "");
    assert_eq!(back.owner_id, "");
}

#[test]
fn team_user_round_trip_every_authority() {
    for a in [Authority::Owner, Authority::Admin, Authority::Write, Authority::Read] {
        let tu = TeamUser { team_id: s("T1"), user_id: s("U1"), authority: a };
        let back = TeamUser::decode(&tu.encode()).unwrap();
        assert_eq!(back.team_id, "T1");
        assert_eq!(back.user_id, "U1");
        assert_eq!(back.authority, a);
    }
}

#[test]
fn team_invite_round_trip() {
    let inv = TeamInvite { code: s("c0de"), team_id: s("T9"), authority: Authority::Admin };
    let back = TeamInvite::decode(&inv.encode()).unwrap();
    assert_eq!(back.code, "c0de");
    assert_eq!(back.team_id, "T9");
    assert_eq!(back.authority, Authority::Admin);
}

#[test]
fn project_round_trip() {
    let p = Project { id: s("P1"), team_id: s("T1"), name: s("erd") };
    let back = Project::decode(&p.encode()).unwrap();
    assert_eq!(back.id, "P1");
    assert_eq!(back.team_id, "T1");
    assert_eq!(back.name, "erd");
}

#[test]
fn note_round_trip_boundary_coordinates() {
    let n = Note { id: s("N1"), project_id: s("P1"), content: s("hi"), x: i64::MIN, y: i64::MAX };
    let back = Note::decode(&n.encode()).unwrap();
    assert_eq!(back.id, "N1");
    assert_eq!(back.project_id, "P1");
    assert_eq!(back.content, "hi");
    assert_eq!(back.x, i64::MIN);
    assert_eq!(back.y, i64::MAX);
}

#[test]
fn user_round_trip() {
    let u = User { id: s("U1"), email: s("a@b.c"), nickname: s("rabbit") };
    let back = User::decode(&u.encode()).unwrap();
    assert_eq!(back.id, "U1");
    assert_eq!(back.email, "a@b.c");
    assert_eq!(back.nickname, "rabbit");
}

#[test]
fn encode_writes_named_string_attributes() {
    let t = Team { id: s("T1"), name: s("n"), owner_id: s("U1") };
    let m = t.encode();
    assert_eq!(m.entries.len(), 3);
    assert_eq!(m.entries[0].name, "id");
    assert!(matches!(&m.entries[0].value, AttrValue::S(v) if v == "T1"));
    assert_eq!(m.entries[2].name, "owner_id");
}

#[test]
fn decode_missing_field_is_none() {
    let mut m = AttrMap::new();
    m.push_s("id", &s("T1"));
    m.push_s("name", &s("n"));
    assert!(Team::decode(&m).is_none());
}

#[test]
fn decode_wrong_variant_is_none() {
    let mut m = AttrMap::new();
    m.push_s("id", &s("N1"));
    m.push_s("project_id", &s("P1"));
    m.push_s("content", &s("c"));
    m.push_s("x", &s("1"));
    m.push_n("y", 2);
    assert!(Note::decode(&m).is_none());
}

#[test]
fn decode_unknown_authority_is_none() {
    let mut m = AttrMap::new();
    m.push_s("team_id", &s("T1"));
    m.push_s("user_id", &s("U1"));
    m.push_s("authority", &s("GUEST"));
    assert!(TeamUser::decode(&m).is_none());
}

#[test]
fn decode_takes_first_of_repeated_names_and_ignores_extras() {
    let mut m = AttrMap::new();
    m.push_s("id", &s("first"));
    m.push_s("id", &s("second"));
    m.push_s("extra", &s("x"));
    m.push_s("name", &s("n"));
    m.push_s("owner_id", &s("o"));
    let t = Team::decode(&m).unwrap();
    assert_eq!(t.id, "first");
}

#[test]
fn table_names() {
    assert_eq!(Team::table_name(), "team");
    assert_eq!(TeamUser::table_name(), "team_user");
    assert_eq!(TeamInvite::table_name(), "team_invite");
    assert_eq!(Project::table_name(), "project");
    assert_eq!(Note::table_name(), "note");
    assert_eq!(User::table_name(), "user");
}

#[test]
fn attr_map_copy_and_get() {
    let mut m = AttrMap::new();
    m.push_s("a", &s("1"));
    m.push_n("b", -5);
    m.push("c", AttrValue::Bool(true));
    let c = m.copy_map();
    assert_eq!(c.get_s("a"), Some(s("1")));
    assert_eq!(c.get_n("b"), Some(-5));
    assert_eq!(c.get_s("b"), None);
    assert!(matches!(c.get("c"), Some(AttrValue::Bool(true))));
    assert!(c.get("d").is_none());
}
