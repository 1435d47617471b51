use tokkitang::authority::{ActionClass, Authority, CREATE_NOTE};

const ALL: [Authority; 4] = [Authority::Owner, Authority::Admin, Authority::Write, Authority::Read];

#[test]
fn ranks_follow_privilege_order() {
    assert_eq!(Authority::Owner.rank(), 3);
    assert_eq!(Authority::Admin.rank(), 2);
    assert_eq!(Authority::Write.rank(), 1);
    assert_eq!(Authority::Read.rank(), 0);
}

#[test]
fn permits_iff_rank_at_least_required() {
    for held in ALL {
        for required in ALL {
            assert_eq!(held.permits(required), held.rank() >= required.rank());
        }
    }
}

#[test]
fn write_permits_write_but_read_does_not() {
    assert!(Authority::Write.permits(Authority::Write));
    assert!(!Authority::Read.permits(Authority::Write));
    assert!(Authority::Owner.permits(Authority::Admin));
    assert!(!Authority::Admin.permits(Authority::Owner));
}

#[test]
fn note_creation_asks_for_write() {
    assert_eq!(CREATE_NOTE.required(), Authority::Write);
    assert_eq!(ActionClass::Read.required(), Authority::Read);
    assert_eq!(ActionClass::Admin.required(), Authority::Admin);
}

#[test]
fn authority_names_round_trip() {
    for a in ALL {
        assert_eq!(Authority::from_name(&a.to_name()), Some(a));
    }
    assert_eq!(Authority::Owner.to_name(), "OWNER");
    assert_eq!(Authority::from_name(&"write".to_string()), None);
}
