use volt_run::console::announcement_line;
use volt_run::console::help_page;
use volt_run::console::listing_line;
use volt_run::console::rejection_line;
use volt_run::console::unreadable_line;
use volt_run::console::unstarted_line;

#[test]
fn listing_line_enumerates_the_names_after_label_and_colon() {
    let names = vec!["build".to_string(), "test".to_string()];
    assert_eq!(listing_line("scripts", ":", &names), "scripts: build, test");
    assert_eq!(listing_line("<scripts>", "<:>", &names), "<scripts><:> build, test");
}

#[test]
fn listing_line_of_no_names_ends_after_the_space() {
    assert_eq!(listing_line("scripts", ":", &Vec::new()), "scripts: ");
}

#[test]
fn announcement_line_shows_the_script_under_scripts() {
    assert_eq!(announcement_line(">", "build"), "> scripts/build");
}

#[test]
fn rejection_line_names_the_script() {
    assert_eq!(rejection_line("error", "deploy"), "error: deploy is not a valid script.");
}

#[test]
fn unreadable_line_names_directory_and_reason() {
    assert_eq!(
        unreadable_line("error", "node_modules/scripts", "permission denied"),
        "error: could not read node_modules/scripts: permission denied"
    );
}

#[test]
fn unstarted_line_names_location_and_reason() {
    assert_eq!(
        unstarted_line("error", "node_modules/scripts/build", "program not found"),
        "error: could not start node_modules/scripts/build: program not found"
    );
}

#[test]
fn help_page_is_laid_out_around_its_parts() {
    assert_eq!(
        help_page("1.2.3", "volt", "run", "file-name", "--verbose", "(-v)"),
        "volt 1.2.3\n    \nRun a pre-defined package script\n\nUsage: volt run file-name\n    \nOptions:\n    \n  --verbose (-v) Output verbose messages on internal operations."
    );
}
