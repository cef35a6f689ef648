use adaptable_registry::{Action, AdaptableContract, Registry, Role};

#[test]
fn every_successful_mutation_emits_one_record() {
    let mut s = Registry::new();
    let admin: u64 = 1;
    let owner: u64 = 5;

    assert!(AdaptableContract::initialize(&mut s, admin, 0).is_ok());
    assert_eq!(s.event_log().len(), 1);

    assert!(
        AdaptableContract::set_config(&mut s, admin, String::from("k"), String::from("v"), 1)
            .is_ok()
    );
    assert!(AdaptableContract::set_role(&mut s, admin, owner, Role::Viewer, 2).is_ok());
    let id = AdaptableContract::create_entity(&mut s, admin, String::from("E"), owner, 3)
        .unwrap();
    assert!(AdaptableContract::update_entity(&mut s, owner, id, String::from("E2"), true, 4)
        .is_ok());
    assert!(
        AdaptableContract::set_attribute(&mut s, owner, id, String::from("a"), String::from("b"), 5)
            .is_ok()
    );
    assert!(AdaptableContract::transfer_ownership(&mut s, owner, id, admin, 6).is_ok());

    let log = s.event_log();
    assert_eq!(log.len(), 7);
    assert!(matches!(log[0].action, Action::Init));
    assert!(matches!(log[1].action, Action::ConfigSet));
    assert!(matches!(log[2].action, Action::RoleSet));
    assert!(matches!(log[3].action, Action::Create));
    assert!(matches!(log[4].action, Action::Update));
    assert!(matches!(log[5].action, Action::AttrSet));
    assert!(matches!(log[6].action, Action::Transfer));

    let create_record = log[3];
    assert_eq!(create_record.entity_id, id);
    assert_eq!(create_record.performed_by, admin);
    assert_eq!(create_record.timestamp, 3);
}

#[test]
fn aborted_calls_and_reads_emit_nothing() {
    let mut s = Registry::new();
    let admin: u64 = 1;
    let stranger: u64 = 9;

    assert!(AdaptableContract::initialize(&mut s, admin, 0).is_ok());
    let id = AdaptableContract::create_entity(&mut s, admin, String::from("E"), admin, 1)
        .unwrap();
    let before = s.event_log().len();

    // Denied or ill-addressed mutations leave the log as it was.
    assert!(AdaptableContract::set_config(
        &mut s,
        stranger,
        String::from("k"),
        String::from("v"),
        2,
    )
    .is_err());
    assert!(AdaptableContract::update_entity(&mut s, stranger, id, String::from("X"), true, 2)
        .is_err());
    assert!(AdaptableContract::transfer_ownership(&mut s, admin, 99, stranger, 2).is_err());
    assert!(AdaptableContract::initialize(&mut s, admin, 2).is_err());

    // Reads emit nothing either.
    let _ = AdaptableContract::get_entity(&s, id);
    let _ = AdaptableContract::list_entities(&s);
    let _ = AdaptableContract::get_role(&s, admin);
    let _ = AdaptableContract::get_config(&s, &String::from("k"));

    assert_eq!(s.event_log().len(), before);
}
