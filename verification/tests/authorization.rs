use adaptable_registry::{satisfies, AdaptableContract, Error, Registry, Role};

#[test]
fn initialize_twice_reports_already_initialized() {
    let mut s = Registry::new();
    let admin: u64 = 1;
    let other: u64 = 2;

    assert!(AdaptableContract::initialize(&mut s, admin, 0).is_ok());
    assert_eq!(
        AdaptableContract::initialize(&mut s, other, 1),
        Err(Error::AlreadyInitialized)
    );

    // The marker and the role from the first call are unchanged.
    assert!(matches!(AdaptableContract::get_role(&s, admin), Role::Admin));
    assert!(matches!(AdaptableContract::get_role(&s, other), Role::NoAccess));
}

#[test]
fn role_order_is_total() {
    // Each role passes exactly the checks at or below its own tier.
    assert!(satisfies(Role::Admin, Role::Admin));
    assert!(satisfies(Role::Admin, Role::Manager));
    assert!(satisfies(Role::Admin, Role::Viewer));
    assert!(satisfies(Role::Admin, Role::NoAccess));
    assert!(!satisfies(Role::Manager, Role::Admin));
    assert!(satisfies(Role::Manager, Role::Manager));
    assert!(satisfies(Role::Manager, Role::Viewer));
    assert!(!satisfies(Role::Viewer, Role::Admin));
    assert!(!satisfies(Role::Viewer, Role::Manager));
    assert!(satisfies(Role::Viewer, Role::Viewer));
    assert!(!satisfies(Role::NoAccess, Role::Viewer));
    assert!(satisfies(Role::NoAccess, Role::NoAccess));
}

#[test]
fn config_and_role_writes_are_admin_gated() {
    let mut s = Registry::new();
    let admin: u64 = 1;
    let manager: u64 = 2;
    assert!(AdaptableContract::initialize(&mut s, admin, 0).is_ok());
    assert!(AdaptableContract::set_role(&mut s, admin, manager, Role::Manager, 1).is_ok());

    assert_eq!(
        AdaptableContract::set_config(&mut s, manager, String::from("k"), String::from("v"), 2),
        Err(Error::Unauthorized)
    );
    assert_eq!(
        AdaptableContract::set_role(&mut s, manager, manager, Role::Admin, 2),
        Err(Error::Unauthorized)
    );

    assert!(
        AdaptableContract::set_config(&mut s, admin, String::from("k"), String::from("v"), 3)
            .is_ok()
    );
    assert_eq!(AdaptableContract::get_config(&s, &String::from("k")), "v");
}

#[test]
fn create_requires_manager_or_above() {
    let mut s = Registry::new();
    let admin: u64 = 1;
    let viewer: u64 = 2;
    let stranger: u64 = 3;
    assert!(AdaptableContract::initialize(&mut s, admin, 0).is_ok());
    assert!(AdaptableContract::set_role(&mut s, admin, viewer, Role::Viewer, 1).is_ok());

    assert_eq!(
        AdaptableContract::create_entity(&mut s, viewer, String::from("E"), viewer, 2),
        Err(Error::Unauthorized)
    );
    assert_eq!(
        AdaptableContract::create_entity(&mut s, stranger, String::from("E"), stranger, 2),
        Err(Error::Unauthorized)
    );
    assert!(AdaptableContract::create_entity(&mut s, admin, String::from("E"), admin, 3).is_ok());
}

#[test]
fn owner_with_no_role_may_update_and_set_attributes() {
    let mut s = Registry::new();
    let admin: u64 = 1;
    let owner: u64 = 5;
    assert!(AdaptableContract::initialize(&mut s, admin, 0).is_ok());
    let id = AdaptableContract::create_entity(&mut s, admin, String::from("E"), owner, 1).unwrap();

    // The owner holds no role at all, yet both mutations succeed.
    assert!(matches!(AdaptableContract::get_role(&s, owner), Role::NoAccess));
    assert!(AdaptableContract::update_entity(&mut s, owner, id, String::from("E2"), false, 2)
        .is_ok());
    assert!(
        AdaptableContract::set_attribute(&mut s, owner, id, String::from("k"), String::from("v"), 3)
            .is_ok()
    );
}

#[test]
fn neither_owner_nor_manager_is_rejected() {
    let mut s = Registry::new();
    let admin: u64 = 1;
    let owner: u64 = 5;
    let viewer: u64 = 6;
    let stranger: u64 = 7;
    assert!(AdaptableContract::initialize(&mut s, admin, 0).is_ok());
    assert!(AdaptableContract::set_role(&mut s, admin, viewer, Role::Viewer, 0).is_ok());
    let id = AdaptableContract::create_entity(&mut s, admin, String::from("E"), owner, 1).unwrap();

    assert_eq!(
        AdaptableContract::update_entity(&mut s, viewer, id, String::from("X"), true, 2),
        Err(Error::Unauthorized)
    );
    assert_eq!(
        AdaptableContract::set_attribute(
            &mut s,
            stranger,
            id,
            String::from("k"),
            String::from("v"),
            2,
        ),
        Err(Error::Unauthorized)
    );
    // The record is untouched.
    let e = AdaptableContract::get_entity(&s, id).unwrap();
    assert_eq!(e.name, "E");
}

#[test]
fn transfer_needs_admin_or_current_owner() {
    let mut s = Registry::new();
    let admin: u64 = 1;
    let manager: u64 = 2;
    let owner: u64 = 5;
    let next: u64 = 8;
    assert!(AdaptableContract::initialize(&mut s, admin, 0).is_ok());
    assert!(AdaptableContract::set_role(&mut s, admin, manager, Role::Manager, 0).is_ok());
    let id = AdaptableContract::create_entity(&mut s, manager, String::from("E"), owner, 1)
        .unwrap();

    // A manager that does not own the entity may not transfer it.
    assert_eq!(
        AdaptableContract::transfer_ownership(&mut s, manager, id, next, 2),
        Err(Error::Unauthorized)
    );
    assert_eq!(AdaptableContract::get_entity(&s, id).unwrap().owner, owner);

    // The owner may; afterwards the old owner may not any more.
    assert!(AdaptableContract::transfer_ownership(&mut s, owner, id, next, 3).is_ok());
    assert_eq!(AdaptableContract::get_entity(&s, id).unwrap().owner, next);
    assert_eq!(
        AdaptableContract::transfer_ownership(&mut s, owner, id, owner, 4),
        Err(Error::Unauthorized)
    );

    // An admin may transfer any entity.
    assert!(AdaptableContract::transfer_ownership(&mut s, admin, id, owner, 5).is_ok());
    assert_eq!(AdaptableContract::get_entity(&s, id).unwrap().owner, owner);
}

#[test]
fn transfer_keeps_created_at_and_advances_updated_at() {
    let mut s = Registry::new();
    let admin: u64 = 1;
    let owner: u64 = 5;
    let next: u64 = 8;
    assert!(AdaptableContract::initialize(&mut s, admin, 0).is_ok());
    let id = AdaptableContract::create_entity(&mut s, admin, String::from("E"), owner, 10)
        .unwrap();

    assert!(AdaptableContract::transfer_ownership(&mut s, admin, id, next, 25).is_ok());
    let e = AdaptableContract::get_entity(&s, id).unwrap();
    assert_eq!(e.owner, next);
    assert_eq!(e.created_at, 10);
    assert_eq!(e.updated_at, 25);
    assert!(e.updated_at >= e.created_at);
}

#[test]
fn admin_may_demote_any_identity_including_itself() {
    let mut s = Registry::new();
    let admin: u64 = 1;
    assert!(AdaptableContract::initialize(&mut s, admin, 0).is_ok());

    // No lockout protection: the only admin may demote itself ...
    assert!(AdaptableContract::set_role(&mut s, admin, admin, Role::Viewer, 1).is_ok());
    assert!(matches!(AdaptableContract::get_role(&s, admin), Role::Viewer));

    // ... after which no identity passes the admin gate any more.
    assert_eq!(
        AdaptableContract::set_role(&mut s, admin, admin, Role::Admin, 2),
        Err(Error::Unauthorized)
    );
}

#[test]
fn explicit_no_access_reads_like_no_record() {
    let mut s = Registry::new();
    let admin: u64 = 1;
    let u: u64 = 2;
    assert!(AdaptableContract::initialize(&mut s, admin, 0).is_ok());

    // An identity explicitly assigned the bottom role is indistinguishable
    // from one never mentioned.
    assert!(AdaptableContract::set_role(&mut s, admin, u, Role::NoAccess, 1).is_ok());
    assert!(matches!(AdaptableContract::get_role(&s, u), Role::NoAccess));
    assert!(matches!(AdaptableContract::get_role(&s, 3), Role::NoAccess));
}
