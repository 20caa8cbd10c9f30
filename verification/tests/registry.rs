use volt_run::registry::locate;
use volt_run::registry::DiscoveryError;
use volt_run::registry::Registry;
use volt_run::registry::Script;

fn registry_entries(items: &[&str]) -> Vec<String> {
    items.iter().map(|item| item.to_string()).collect()
}

fn listed(directory: &str, entries: &[&str]) -> Registry {
    Registry::list_scripts(directory, Ok(registry_entries(entries))).unwrap()
}

#[test]
fn list_scripts_returns_each_entry_once_and_in_reading_order() {
    let registry = listed("node_modules/scripts", &["test", "build", "lint"]);
    assert_eq!(registry.len(), 3);
    assert_eq!(registry.names(), registry_entries(&["test", "build", "lint"]));
    for name in ["test", "build", "lint"] {
        assert_eq!(registry.names().iter().filter(|entry| entry.as_str() == name).count(), 1);
    }
    assert_eq!(registry.directory(), "node_modules/scripts");
}

#[test]
fn list_scripts_of_an_empty_directory_is_empty() {
    let registry = listed("node_modules/scripts", &[]);
    assert!(registry.is_empty());
    assert_eq!(registry.len(), 0);
    assert_eq!(registry.names(), Vec::<String>::new());
    assert!(registry.scripts().is_empty());
}

#[test]
fn list_scripts_surfaces_a_directory_that_cannot_be_read() {
    let result = Registry::list_scripts("node_modules/scripts", Err("permission denied".to_string()));
    assert_eq!(
        result,
        Err(DiscoveryError {
            directory: "node_modules/scripts".to_string(),
            reason: "permission denied".to_string(),
        })
    );
}

#[test]
fn list_scripts_keeps_repeated_entries_as_they_were_read() {
    let registry = listed("scripts", &["build", "build", "test"]);
    assert_eq!(registry.len(), 3);
    assert_eq!(registry.names(), registry_entries(&["build", "build", "test"]));
    assert!(registry.contains("build"));
}

#[test]
fn scripts_lie_in_the_directory_under_their_names() {
    let registry = listed("node_modules/scripts", &["build", "test"]);
    assert_eq!(
        registry.scripts(),
        &vec![
            Script { name: "build".to_string(), location: "node_modules/scripts/build".to_string() },
            Script { name: "test".to_string(), location: "node_modules/scripts/test".to_string() },
        ]
    );
}

#[test]
fn find_gives_the_script_of_a_known_name() {
    let registry = listed("node_modules/scripts", &["build", "test"]);
    assert_eq!(
        registry.find("test"),
        Some(&Script { name: "test".to_string(), location: "node_modules/scripts/test".to_string() })
    );
    assert!(registry.contains("test"));
}

#[test]
fn find_misses_a_name_that_was_not_read() {
    let registry = listed("node_modules/scripts", &["build", "test"]);
    assert_eq!(registry.find("deploy"), None);
    assert_eq!(registry.find("Build"), None);
    assert_eq!(registry.find("buil"), None);
    assert_eq!(registry.find(""), None);
    assert!(!registry.contains("deploy"));
}

#[test]
fn find_in_an_empty_registry_finds_nothing() {
    let registry = listed("node_modules/scripts", &[]);
    assert_eq!(registry.find("build"), None);
}

#[test]
fn locate_joins_directory_and_name_with_one_slash() {
    assert_eq!(locate("node_modules/scripts", "build"), "node_modules/scripts/build");
    assert_eq!(locate("", "build"), "/build");
    assert_eq!(locate("scripts", ""), "scripts/");
}

#[test]
fn script_clone_is_the_same_script() {
    let script = Script { name: "build".to_string(), location: "scripts/build".to_string() };
    assert_eq!(script.clone(), script);
}
