use volt_run::registry::Registry;
use volt_run::registry::Script;
use volt_run::resolver::resolve;
use volt_run::resolver::Invocation;
use volt_run::resolver::ResolvedAction;

fn resolver_strings(items: &[&str]) -> Vec<String> {
    items.iter().map(|item| item.to_string()).collect()
}

fn invocation(args: &[&str]) -> Invocation {
    Invocation { args: resolver_strings(args), flags: Vec::new() }
}

fn registry(entries: &[&str]) -> Registry {
    Registry::list_scripts("node_modules/scripts", Ok(resolver_strings(entries))).unwrap()
}

#[test]
fn resolve_without_a_script_name_lists_all() {
    assert_eq!(resolve(&invocation(&["run"]), &registry(&["build", "test"])), ResolvedAction::ListAll);
}

#[test]
fn resolve_without_a_script_name_lists_all_of_an_empty_registry() {
    assert_eq!(resolve(&invocation(&["run"]), &registry(&[])), ResolvedAction::ListAll);
}

#[test]
fn resolve_without_any_argument_lists_all() {
    assert_eq!(resolve(&invocation(&[]), &registry(&["build"])), ResolvedAction::ListAll);
    assert_eq!(invocation(&[]).script_name(), None);
}

#[test]
fn resolve_of_a_known_name_runs_the_script_in_the_directory() {
    assert_eq!(
        resolve(&invocation(&["run", "build"]), &registry(&["build", "test"])),
        ResolvedAction::RunScript(Script {
            name: "build".to_string(),
            location: "node_modules/scripts/build".to_string(),
        })
    );
    assert_eq!(
        resolve(&invocation(&["run", "test"]), &registry(&["build", "test"])),
        ResolvedAction::RunScript(Script {
            name: "test".to_string(),
            location: "node_modules/scripts/test".to_string(),
        })
    );
}

#[test]
fn resolve_of_an_unknown_name_reports_that_name() {
    assert_eq!(
        resolve(&invocation(&["run", "deploy"]), &registry(&["build", "test"])),
        ResolvedAction::ReportUnknownScript("deploy".to_string())
    );
    assert_eq!(
        resolve(&invocation(&["run", "build"]), &registry(&[])),
        ResolvedAction::ReportUnknownScript("build".to_string())
    );
}

#[test]
fn resolve_reads_the_second_argument_only() {
    assert_eq!(
        resolve(&invocation(&["build", "deploy", "test"]), &registry(&["build", "test"])),
        ResolvedAction::ReportUnknownScript("deploy".to_string())
    );
    assert_eq!(invocation(&["run", "build", "test"]).script_name(), Some("build"));
}

#[test]
fn resolve_does_not_read_the_flags() {
    let plain = Invocation { args: resolver_strings(&["run", "build"]), flags: Vec::new() };
    let verbose = Invocation { args: resolver_strings(&["run", "build"]), flags: resolver_strings(&["--verbose", "deploy"]) };
    let scripts = registry(&["build"]);
    assert_eq!(resolve(&plain, &scripts), resolve(&verbose, &scripts));
}
