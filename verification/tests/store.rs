use monitor_core::entities::BuilderConfig;
use monitor_core::permission::{PermissionLevel, RequestUser};
use monitor_core::resource::Collection;

fn builders() -> Collection<BuilderConfig, ()> {
    Collection::new()
}

fn config(server: &str) -> BuilderConfig {
    BuilderConfig { server_id: server.to_string() }
}

fn user(id: &str, is_admin: bool) -> RequestUser {
    RequestUser { id: id.to_string(), is_admin, enabled: true }
}

#[test]
fn a_new_collection_is_empty() {
    let c = builders();
    assert_eq!(c.len(), 0);
    assert!(c.has_room());
    assert_eq!(c.find(&"anything".to_string()), None);
}

#[test]
fn ids_are_sixteen_hex_digits_in_order_of_making() {
    let mut c = builders();
    assert_eq!(c.create("a".to_string(), config("s"), ()), Some(0));
    assert_eq!(c.create("b".to_string(), config("s"), ()), Some(1));
    assert_eq!(c.get(0).id, "0000000000000000");
    assert_eq!(c.get(1).id, "0000000000000001");
    for _ in 0..9 {
        let n = c.len();
        assert!(c.create(format!("n{n}"), config("s"), ()).is_some());
    }
    assert_eq!(c.get(10).id, "000000000000000a");
}

#[test]
fn a_taken_name_is_refused_and_nothing_changes() {
    let mut c = builders();
    assert_eq!(c.create("a".to_string(), config("s"), ()), Some(0));
    assert_eq!(c.create("a".to_string(), config("t"), ()), None);
    assert_eq!(c.len(), 1);
    assert_eq!(c.get(0).config.server_id, "s");
}

#[test]
fn a_resource_is_found_by_id_and_by_name() {
    let mut c = builders();
    c.create("a".to_string(), config("s"), ());
    c.create("b".to_string(), config("s"), ());
    assert_eq!(c.find(&"b".to_string()), Some(1));
    assert_eq!(c.find(&"0000000000000001".to_string()), Some(1));
    assert_eq!(c.find(&"0000000000000000".to_string()), Some(0));
    assert_eq!(c.find(&"c".to_string()), None);
}

#[test]
fn an_id_wins_over_a_name() {
    let mut c = builders();
    c.create("0000000000000001".to_string(), config("s"), ());
    c.create("b".to_string(), config("s"), ());
    assert_eq!(c.find(&"0000000000000001".to_string()), Some(1));
}

#[test]
fn an_id_is_not_given_out_again_after_a_removal() {
    let mut c = builders();
    c.create("a".to_string(), config("s"), ());
    c.create("b".to_string(), config("s"), ());
    let removed = c.remove(0);
    assert_eq!(removed.id, "0000000000000000");
    assert_eq!(removed.name, "a");
    assert_eq!(c.len(), 1);
    assert_eq!(c.create("a".to_string(), config("s"), ()), Some(1));
    assert_eq!(c.get(1).id, "0000000000000002");
    assert_eq!(c.find(&"0000000000000000".to_string()), None);
}

#[test]
fn renaming_fails_on_a_name_of_another_resource_only() {
    let mut c = builders();
    c.create("a".to_string(), config("s"), ());
    c.create("b".to_string(), config("s"), ());
    assert!(!c.can_rename(0, &"b".to_string()));
    assert!(c.can_rename(0, &"a".to_string()));
    assert!(c.can_rename(0, &"c".to_string()));
    c.rename(0, "c".to_string());
    assert_eq!(c.get(0).name, "c");
    assert_eq!(c.get(0).id, "0000000000000000");
    assert_eq!(c.find(&"a".to_string()), None);
    assert_eq!(c.find(&"c".to_string()), Some(0));
}

#[test]
fn settings_are_replaced_in_place() {
    let mut c = builders();
    c.create("a".to_string(), config("s"), ());
    c.configure(0, config("t"), ());
    assert_eq!(c.get(0).config.server_id, "t");
    assert_eq!(c.get(0).name, "a");
    assert_eq!(c.copy_of(0), *c.get(0));
}

#[test]
fn a_new_resource_grants_nothing() {
    let mut c = builders();
    c.create("a".to_string(), config("s"), ());
    assert_eq!(c.get(0).permissions.len(), 0);
    assert!(!c.permits(0, &user("ann", false), PermissionLevel::Read));
    assert!(c.permits(0, &user("root", true), PermissionLevel::Execute));
}

#[test]
fn a_listing_shows_what_the_caller_may_read() {
    let mut c = builders();
    c.create("a".to_string(), config("s"), ());
    c.create("b".to_string(), config("s"), ());
    c.create("c".to_string(), config("s"), ());
    c.grant(0, "ann".to_string(), PermissionLevel::Read);
    c.grant(2, "ann".to_string(), PermissionLevel::Execute);
    c.grant(1, "bob".to_string(), PermissionLevel::Write);
    let ann = user("ann", false);
    assert_eq!(c.visible_places(&ann), vec![0, 2]);
    let names: Vec<String> = c.list(&ann).into_iter().map(|item| item.name).collect();
    assert_eq!(names, vec!["a".to_string(), "c".to_string()]);
    let names: Vec<String> =
        c.list(&user("bob", false)).into_iter().map(|item| item.name).collect();
    assert_eq!(names, vec!["b".to_string()]);
    assert_eq!(c.list(&user("cyd", false)).len(), 0);
    assert_eq!(c.list(&user("root", true)).len(), 3);
}

#[test]
fn a_grant_of_no_access_hides_the_resource_again() {
    let mut c = builders();
    c.create("a".to_string(), config("s"), ());
    c.grant(0, "ann".to_string(), PermissionLevel::Read);
    c.grant(0, "ann".to_string(), PermissionLevel::NoAccess);
    assert_eq!(c.list(&user("ann", false)).len(), 0);
}
