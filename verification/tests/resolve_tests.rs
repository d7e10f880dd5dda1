use playbook_tester::model::TargetDescriptor;
use playbook_tester::resolve::AliasEntry;
use playbook_tester::resolve::PackagesManager;
use playbook_tester::resolve::ResolveFailure;
use playbook_tester::resolve::default_alias_table;
use playbook_tester::resolve::get_available_playbooks;
use playbook_tester::resolve::lookup_alias;
use playbook_tester::resolve::resolve;

#[test]
fn linux_alias_resolves_to_documented_image() {
    let table = default_alias_table();
    let r = resolve(Some(&TargetDescriptor::OsAlias("Linux".to_string())), None, &table);
    assert_eq!(r.unwrap(), "ubuntu:latest");
}

#[test]
fn macos_alias_resolves_to_documented_image() {
    let table = default_alias_table();
    let r = resolve(Some(&TargetDescriptor::OsAlias("macOS".to_string())), None, &table);
    assert_eq!(r.unwrap(), "sickcodes/docker-osx");
}

#[test]
fn windows_alias_resolves_to_documented_image() {
    let table = default_alias_table();
    let r = resolve(Some(&TargetDescriptor::OsAlias("Windows".to_string())), None, &table);
    assert_eq!(r.unwrap(), "mcr.microsoft.com/windows/servercore:ltsc2019");
}

#[test]
fn every_alias_of_the_table_resolves_to_its_entry() {
    let table = default_alias_table();
    for entry in table.iter() {
        let r = resolve(Some(&TargetDescriptor::OsAlias(entry.alias.clone())), None, &table);
        assert_eq!(r.unwrap(), entry.image);
    }
}

#[test]
fn explicit_image_wins_over_alias_and_hint() {
    let table = default_alias_table();
    let hint = "Linux".to_string();
    let r = resolve(
        Some(&TargetDescriptor::Image("registry.example/custom:42".to_string())),
        Some(&hint),
        &table,
    );
    assert_eq!(r.unwrap(), "registry.example/custom:42");
}

#[test]
fn unknown_alias_fails_with_unknown_os() {
    let table = default_alias_table();
    let r = resolve(Some(&TargetDescriptor::OsAlias("solaris".to_string())), None, &table);
    match r {
        Err(ResolveFailure::UnknownOs { alias }) => assert_eq!(alias, "solaris"),
        other => panic!("expected UnknownOs, got {:?}", other),
    }
}

#[test]
fn env_hint_is_used_when_no_descriptor_is_given() {
    let table = default_alias_table();
    let hint = "macOS".to_string();
    let r = resolve(None, Some(&hint), &table);
    assert_eq!(r.unwrap(), "sickcodes/docker-osx");
}

#[test]
fn unknown_hint_fails_with_unknown_os() {
    let table = default_alias_table();
    let hint = "plan9".to_string();
    let r = resolve(None, Some(&hint), &table);
    match r {
        Err(ResolveFailure::UnknownOs { alias }) => assert_eq!(alias, "plan9"),
        other => panic!("expected UnknownOs, got {:?}", other),
    }
}

#[test]
fn no_descriptor_and_no_hint_needs_the_caller() {
    let table = default_alias_table();
    let r = resolve(None, None, &table);
    assert!(matches!(r, Err(ResolveFailure::NoTargetGiven)));
}

#[test]
fn first_matching_table_entry_wins() {
    let mut table = default_alias_table();
    table.insert(
        0,
        AliasEntry { alias: "Linux".to_string(), image: "archlinux:latest".to_string() },
    );
    let alias = "Linux".to_string();
    assert_eq!(lookup_alias(&table, &alias).unwrap(), "archlinux:latest");
}

#[test]
fn packages_manager_maps_known_and_unknown_os_names() {
    let pm = PackagesManager { packages: Vec::new() };
    assert_eq!(pm.get_docker_image_for_os("Linux"), "ubuntu:latest");
    assert_eq!(pm.get_docker_image_for_os("macOS"), "sickcodes/docker-osx");
    assert_eq!(
        pm.get_docker_image_for_os("Windows"),
        "mcr.microsoft.com/windows/servercore:ltsc2019"
    );
    assert_eq!(pm.get_docker_image_for_os("beos"), "ubuntu:latest");
}

#[test]
fn available_playbooks_keep_their_order() {
    let pm = PackagesManager {
        packages: vec!["alpha".to_string(), "beta".to_string(), "gamma".to_string()],
    };
    assert_eq!(
        get_available_playbooks(&pm),
        vec!["alpha".to_string(), "beta".to_string(), "gamma".to_string()]
    );
}
