use monitor_core::permission::{
    check_level, PermissionLevel, Permissions, RequestUser, ResourceType,
};

fn user(id: &str, is_admin: bool) -> RequestUser {
    RequestUser { id: id.to_string(), is_admin, enabled: true }
}

#[test]
fn levels_are_ordered() {
    assert!(PermissionLevel::Execute.allows(PermissionLevel::Write));
    assert!(PermissionLevel::Write.allows(PermissionLevel::Read));
    assert!(PermissionLevel::Read.allows(PermissionLevel::NoAccess));
    assert!(!PermissionLevel::Read.allows(PermissionLevel::Write));
    assert!(!PermissionLevel::Write.allows(PermissionLevel::Execute));
    assert!(!PermissionLevel::NoAccess.allows(PermissionLevel::Read));
}

#[test]
fn every_level_allows_itself() {
    for level in [
        PermissionLevel::NoAccess,
        PermissionLevel::Read,
        PermissionLevel::Write,
        PermissionLevel::Execute,
    ] {
        assert!(level.allows(level));
        assert!(PermissionLevel::Execute.allows(level));
        assert!(level.allows(PermissionLevel::NoAccess));
    }
}

#[test]
fn level_names_on_the_wire() {
    assert_eq!(PermissionLevel::NoAccess.name(), "None");
    assert_eq!(PermissionLevel::Read.name(), "Read");
    assert_eq!(PermissionLevel::Write.name(), "Write");
    assert_eq!(PermissionLevel::Execute.name(), "Execute");
    assert_eq!(ResourceType::Server.name(), "Server");
    assert_eq!(ResourceType::Deployment.name(), "Deployment");
    assert_eq!(ResourceType::Build.name(), "Build");
    assert_eq!(ResourceType::Builder.name(), "Builder");
    assert_eq!(ResourceType::Repo.name(), "Repo");
}

#[test]
fn nothing_recorded_means_no_access() {
    let grants = Permissions::new();
    assert_eq!(grants.len(), 0);
    assert_eq!(grants.level_of(&"ann".to_string()), PermissionLevel::NoAccess);
}

#[test]
fn a_level_is_set_for_one_principal_only() {
    let mut grants = Permissions::new();
    grants.set_level("ann".to_string(), PermissionLevel::Write);
    grants.set_level("bob".to_string(), PermissionLevel::Read);
    assert_eq!(grants.level_of(&"ann".to_string()), PermissionLevel::Write);
    assert_eq!(grants.level_of(&"bob".to_string()), PermissionLevel::Read);
    assert_eq!(grants.level_of(&"cyd".to_string()), PermissionLevel::NoAccess);
    assert_eq!(grants.len(), 2);
}

#[test]
fn setting_a_level_again_replaces_it_in_place() {
    let mut grants = Permissions::new();
    grants.set_level("ann".to_string(), PermissionLevel::Write);
    grants.set_level("bob".to_string(), PermissionLevel::Read);
    grants.set_level("ann".to_string(), PermissionLevel::Execute);
    assert_eq!(grants.len(), 2);
    assert_eq!(grants.get(0).user_id, "ann");
    assert_eq!(grants.get(0).level, PermissionLevel::Execute);
    assert_eq!(grants.get(1).user_id, "bob");
    assert_eq!(grants.get(1).level, PermissionLevel::Read);
}

#[test]
fn a_copy_of_the_grants_reads_the_same() {
    let mut grants = Permissions::new();
    grants.set_level("ann".to_string(), PermissionLevel::Write);
    let copy = grants.duplicate();
    assert_eq!(copy, grants);
}

#[test]
fn administrators_pass_every_check() {
    let grants = Permissions::new();
    let admin = user("root", true);
    assert!(check_level(&admin, &grants, PermissionLevel::Execute));
    assert!(check_level(&admin, &grants, PermissionLevel::Read));
}

#[test]
fn others_pass_where_their_level_covers_what_is_asked() {
    let mut grants = Permissions::new();
    grants.set_level("ann".to_string(), PermissionLevel::Write);
    let ann = user("ann", false);
    let bob = user("bob", false);
    assert!(check_level(&ann, &grants, PermissionLevel::Read));
    assert!(check_level(&ann, &grants, PermissionLevel::Write));
    assert!(!check_level(&ann, &grants, PermissionLevel::Execute));
    assert!(!check_level(&bob, &grants, PermissionLevel::Read));
    assert!(check_level(&bob, &grants, PermissionLevel::NoAccess));
}
