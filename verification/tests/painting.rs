use volt_run::command::Outcome;
use volt_run::command::Probe;
use volt_run::command::Run;
use volt_run::command::RunError;
use volt_run::dispatcher::Platform;
use volt_run::paint::paint;
use volt_run::paint::Tint;
use volt_run::resolver::Invocation;
use volt_run::resolver::UnknownScriptError;

#[test]
fn paint_with_colour_wraps_the_text_in_its_escape_codes() {
    colored::control::set_override(true);
    assert_eq!(paint("1.0", Tint::BrightGreen, false), "\u{1b}[92m1.0\u{1b}[0m");
    assert_eq!(paint("run", Tint::BrightPurple, false), "\u{1b}[95mrun\u{1b}[0m");
    assert_eq!(paint("file-name", Tint::White, false), "\u{1b}[37mfile-name\u{1b}[0m");
    assert_eq!(paint("--verbose", Tint::Blue, false), "\u{1b}[34m--verbose\u{1b}[0m");
    assert_eq!(paint("(-v)", Tint::Yellow, false), "\u{1b}[33m(-v)\u{1b}[0m");
    assert_eq!(paint("scripts", Tint::BrightCyan, false), "\u{1b}[96mscripts\u{1b}[0m");
    assert_eq!(paint(":", Tint::BrightMagenta, false), "\u{1b}[95m:\u{1b}[0m");
    assert_eq!(paint("error", Tint::BrightRed, false), "\u{1b}[91merror\u{1b}[0m");
    assert_eq!(paint("deploy", Tint::BrightYellow, false), "\u{1b}[93mdeploy\u{1b}[0m");
}

#[test]
fn paint_in_bold_adds_the_bold_code() {
    colored::control::set_override(true);
    assert_eq!(paint("scripts", Tint::BrightCyan, true), "\u{1b}[1;96mscripts\u{1b}[0m");
    assert_eq!(paint("volt", Tint::BrightGreen, true), "\u{1b}[1;92mvolt\u{1b}[0m");
}

#[test]
fn paint_with_colour_keeps_the_text_in_one_piece() {
    colored::control::set_override(true);
    let tints = [
        Tint::BrightGreen,
        Tint::BrightPurple,
        Tint::White,
        Tint::Blue,
        Tint::Yellow,
        Tint::BrightCyan,
        Tint::BrightMagenta,
        Tint::BrightRed,
        Tint::BrightYellow,
    ];
    for tint in tints {
        for strong in [false, true] {
            let painted = paint("node_modules/scripts", tint, strong);
            assert!(painted.contains("node_modules/scripts"));
            assert_ne!(painted, "node_modules/scripts");
        }
    }
}

#[test]
fn help_with_colour_paints_its_six_parts() {
    colored::control::set_override(true);
    assert_eq!(
        Run::help("0.0.3"),
        "volt \u{1b}[1;92m0.0.3\u{1b}[0m\n    \nRun a pre-defined package script\n\nUsage: \u{1b}[1;92mvolt\u{1b}[0m \u{1b}[95mrun\u{1b}[0m \u{1b}[37mfile-name\u{1b}[0m\n    \nOptions:\n    \n  \u{1b}[34m--verbose\u{1b}[0m \u{1b}[33m(-v)\u{1b}[0m Output verbose messages on internal operations."
    );
}

#[test]
fn listing_with_colour_paints_label_and_colon_only() {
    colored::control::set_override(true);
    let invocation = Invocation { args: vec!["run".to_string()], flags: Vec::new() };
    let probe = Probe::Entries(vec!["build".to_string(), "test".to_string()]);
    let outcome = Run::exec(&invocation, probe, Platform::Windows).unwrap();
    assert_eq!(
        outcome.message(),
        Some("\u{1b}[1;96mscripts\u{1b}[0m\u{1b}[1;95m:\u{1b}[0m build, test".to_string())
    );
}

#[test]
fn announcement_with_colour_paints_the_prompt_only() {
    colored::control::set_override(true);
    let invocation = Invocation { args: vec!["run".to_string(), "build".to_string()], flags: Vec::new() };
    let probe = Probe::Entries(vec!["build".to_string(), "test".to_string()]);
    let outcome = Run::exec(&invocation, probe, Platform::Unix).unwrap();
    assert!(matches!(outcome, Outcome::Dispatched { .. }));
    assert_eq!(outcome.message(), Some("\u{1b}[1;95m>\u{1b}[0m scripts/build".to_string()));
}

#[test]
fn rejection_with_colour_paints_label_and_name() {
    colored::control::set_override(true);
    let error = RunError::UnknownScript(UnknownScriptError { name: "deploy".to_string() });
    assert_eq!(
        error.message(),
        "\u{1b}[1;91merror\u{1b}[0m: \u{1b}[1;93mdeploy\u{1b}[0m is not a valid script."
    );
}
