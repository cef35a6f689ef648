use adaptable_registry::{AdaptableContract, Error, Registry, Role};

#[test]
fn ids_are_assigned_in_call_order() {
    let mut s = Registry::new();
    let admin: u64 = 1;
    let manager: u64 = 2;
    assert!(AdaptableContract::initialize(&mut s, admin, 0).is_ok());
    assert!(AdaptableContract::set_role(&mut s, admin, manager, Role::Manager, 0).is_ok());

    // Ids run 1, 2, 3 whichever authorized caller creates the entity.
    let a = AdaptableContract::create_entity(&mut s, admin, String::from("A"), admin, 1).unwrap();
    let b = AdaptableContract::create_entity(&mut s, manager, String::from("B"), manager, 2)
        .unwrap();
    let c = AdaptableContract::create_entity(&mut s, admin, String::from("C"), admin, 3).unwrap();
    assert_eq!(a, 1);
    assert_eq!(b, 2);
    assert_eq!(c, 3);

    assert_eq!(AdaptableContract::list_entities(&s), vec![1, 2, 3]);
}

#[test]
fn unset_config_reads_as_empty_text() {
    let mut s = Registry::new();
    let admin: u64 = 1;

    // Even before initialization a read is well-defined.
    assert_eq!(AdaptableContract::get_config(&s, &String::from("missing")), "");

    assert!(AdaptableContract::initialize(&mut s, admin, 0).is_ok());
    assert!(
        AdaptableContract::set_config(&mut s, admin, String::from("set"), String::from("x"), 1)
            .is_ok()
    );
    assert_eq!(AdaptableContract::get_config(&s, &String::from("missing")), "");
    assert_eq!(AdaptableContract::get_config(&s, &String::from("set")), "x");
}

#[test]
fn unset_attribute_reads_as_empty_text() {
    let mut s = Registry::new();
    let admin: u64 = 1;
    assert!(AdaptableContract::initialize(&mut s, admin, 0).is_ok());
    let id = AdaptableContract::create_entity(&mut s, admin, String::from("E"), admin, 1)
        .unwrap();

    assert_eq!(
        AdaptableContract::get_attribute(&s, id, &String::from("missing")).unwrap(),
        ""
    );
}

#[test]
fn unknown_entity_reports_not_found() {
    let mut s = Registry::new();
    let admin: u64 = 1;
    assert!(AdaptableContract::initialize(&mut s, admin, 0).is_ok());

    assert!(matches!(AdaptableContract::get_entity(&s, 7), Err(Error::NotFound)));
    assert!(matches!(
        AdaptableContract::get_attribute(&s, 7, &String::from("k")),
        Err(Error::NotFound)
    ));
    assert_eq!(
        AdaptableContract::update_entity(&mut s, admin, 7, String::from("X"), true, 1),
        Err(Error::NotFound)
    );
    assert_eq!(
        AdaptableContract::set_attribute(&mut s, admin, 7, String::from("k"), String::from("v"), 1),
        Err(Error::NotFound)
    );
    assert_eq!(
        AdaptableContract::transfer_ownership(&mut s, admin, 7, admin, 1),
        Err(Error::NotFound)
    );
    // Id 0 is never assigned.
    assert!(matches!(AdaptableContract::get_entity(&s, 0), Err(Error::NotFound)));
}

#[test]
fn unknown_identity_reads_no_access() {
    let s = Registry::new();
    assert!(matches!(AdaptableContract::get_role(&s, 42), Role::NoAccess));
}

#[test]
fn set_attribute_overwrites_unconditionally() {
    let mut s = Registry::new();
    let admin: u64 = 1;
    assert!(AdaptableContract::initialize(&mut s, admin, 0).is_ok());
    let id = AdaptableContract::create_entity(&mut s, admin, String::from("E"), admin, 1)
        .unwrap();

    assert!(
        AdaptableContract::set_attribute(&mut s, admin, id, String::from("k"), String::from("v1"), 2)
            .is_ok()
    );
    assert!(
        AdaptableContract::set_attribute(&mut s, admin, id, String::from("k"), String::from("v2"), 3)
            .is_ok()
    );
    assert_eq!(AdaptableContract::get_attribute(&s, id, &String::from("k")).unwrap(), "v2");

    // A second entity's attribute under the same key is a distinct record.
    let id2 = AdaptableContract::create_entity(&mut s, admin, String::from("F"), admin, 4)
        .unwrap();
    assert_eq!(AdaptableContract::get_attribute(&s, id2, &String::from("k")).unwrap(), "");
}

#[test]
fn update_keeps_owner_and_created_at() {
    let mut s = Registry::new();
    let admin: u64 = 1;
    let owner: u64 = 9;
    assert!(AdaptableContract::initialize(&mut s, admin, 0).is_ok());
    let id = AdaptableContract::create_entity(&mut s, admin, String::from("E"), owner, 10)
        .unwrap();

    assert!(AdaptableContract::update_entity(&mut s, admin, id, String::from("E2"), false, 20)
        .is_ok());
    let e = AdaptableContract::get_entity(&s, id).unwrap();
    assert_eq!(e.owner, owner);
    assert_eq!(e.created_at, 10);
    assert_eq!(e.updated_at, 20);
    assert_eq!(e.name, "E2");
    assert_eq!(e.active, false);
}
