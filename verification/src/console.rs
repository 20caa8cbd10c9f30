//! The lines that the command writes to the console.
//!
//! Each line is put together from parts that may have been painted. The
//! functions here take the parts as they are and say exactly which line
//! comes of them.

use crate::text::join;
use crate::text::joined;
use crate::text::texts;
use vstd::prelude::*;

verus! {

/// The line that lists every script: the label and the colon, a space, then
/// the names with a comma and a space between neighbours.
pub open spec fn listing_text(label: Seq<char>, colon: Seq<char>, names: Seq<Seq<char>>) -> Seq<
    char,
> {
    label + colon + " "@ + joined(names, ", "@)
}

/// The line that announces the script about to run: the prompt, a space, and
/// the script's name under `scripts/`.
pub open spec fn announcement_text(prompt: Seq<char>, name: Seq<char>) -> Seq<char> {
    prompt + " "@ + "scripts/"@ + name
}

/// The line that turns down a script nobody knows: the label, then the name
/// and what is wrong with it.
pub open spec fn rejection_text(label: Seq<char>, name: Seq<char>) -> Seq<char> {
    label + ": "@ + name + " "@ + "is not a valid script."@
}

/// The line that reports a scripts directory that could not be read.
pub open spec fn unreadable_text(label: Seq<char>, directory: Seq<char>, reason: Seq<char>) -> Seq<
    char,
> {
    label + ": "@ + "could not read "@ + directory + ": "@ + reason
}

/// The line that reports a script whose process could not be started.
pub open spec fn unstarted_text(label: Seq<char>, location: Seq<char>, reason: Seq<char>) -> Seq<
    char,
> {
    label + ": "@ + "could not start "@ + location + ": "@ + reason
}

/// The help page of the command, around the parts that are shown in colour:
/// the version, the program, the subcommand, its operand, and the verbose
/// flag in its long and its short form.
pub open spec fn help_text(
    version: Seq<char>,
    program: Seq<char>,
    subcommand: Seq<char>,
    operand: Seq<char>,
    flag: Seq<char>,
    short: Seq<char>,
) -> Seq<char> {
    "volt "@ + version + "\n    \nRun a pre-defined package script\n\nUsage: "@ + program + " "@
        + subcommand + " "@ + operand + "\n    \nOptions:\n    \n  "@ + flag + " "@ + short
        + " Output verbose messages on internal operations."@
}

/// Writes the line that lists every script.
pub fn listing_line(label: &str, colon: &str, names: &Vec<String>) -> (line: String)
    ensures
        line@ == listing_text(label@, colon@, texts(names@)),
{
    let mut line = label.to_owned();
    line.append(colon);
    line.append(" ");
    line.append(join(names, ", ").as_str());
    line
}

/// Writes the line that announces the script about to run.
pub fn announcement_line(prompt: &str, name: &str) -> (line: String)
    ensures
        line@ == announcement_text(prompt@, name@),
{
    let mut line = prompt.to_owned();
    line.append(" ");
    line.append("scripts/");
    line.append(name);
    line
}

/// Writes the line that turns down a script nobody knows.
pub fn rejection_line(label: &str, name: &str) -> (line: String)
    ensures
        line@ == rejection_text(label@, name@),
{
    let mut line = label.to_owned();
    line.append(": ");
    line.append(name);
    line.append(" ");
    line.append("is not a valid script.");
    line
}

/// Writes the line that reports a scripts directory that could not be read.
pub fn unreadable_line(label: &str, directory: &str, reason: &str) -> (line: String)
    ensures
        line@ == unreadable_text(label@, directory@, reason@),
{
    let mut line = label.to_owned();
    line.append(": ");
    line.append("could not read ");
    line.append(directory);
    line.append(": ");
    line.append(reason);
    line
}

/// Writes the line that reports a script whose process could not be started.
pub fn unstarted_line(label: &str, location: &str, reason: &str) -> (line: String)
    ensures
        line@ == unstarted_text(label@, location@, reason@),
{
    let mut line = label.to_owned();
    line.append(": ");
    line.append("could not start ");
    line.append(location);
    line.append(": ");
    line.append(reason);
    line
}

/// Writes the help page around its coloured parts.
pub fn help_page(
    version: &str,
    program: &str,
    subcommand: &str,
    operand: &str,
    flag: &str,
    short: &str,
) -> (page: String)
    ensures
        page@ == help_text(version@, program@, subcommand@, operand@, flag@, short@),
{
    let mut page = "volt ".to_owned();
    page.append(version);
    page.append("\n    \nRun a pre-defined package script\n\nUsage: ");
    page.append(program);
    page.append(" ");
    page.append(subcommand);
    page.append(" ");
    page.append(operand);
    page.append("\n    \nOptions:\n    \n  ");
    page.append(flag);
    page.append(" ");
    page.append(short);
    page.append(" Output verbose messages on internal operations.");
    page
}

} // verus!
