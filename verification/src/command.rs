//! The `run` command: which scripts there are, which one was meant, and how
//! it is started.
//!
//! The command itself touches nothing. Its caller looks at the scripts
//! directory and hands over what it found; the command answers with what is to
//! be printed, whether a process is to be started, and whether the run ends
//! with a status of its own. A directory that is not there ends the command
//! before it has begun: nothing is printed, nothing is started, nothing fails.

use crate::console::announcement_line;
use crate::console::announcement_text;
use crate::console::help_page;
use crate::console::help_text;
use crate::console::listing_line;
use crate::console::listing_text;
use crate::console::rejection_line;
use crate::console::rejection_text;
use crate::console::unreadable_line;
use crate::console::unreadable_text;
use crate::console::unstarted_line;
use crate::console::unstarted_text;
use crate::dispatcher::dispatch;
use crate::dispatcher::launch_of;
use crate::dispatcher::DispatchError;
use crate::dispatcher::DispatchErrorView;
use crate::dispatcher::Launch;
use crate::dispatcher::LaunchView;
use crate::dispatcher::Platform;
use crate::paint::paint;
use crate::paint::renders;
use crate::paint::Tint;
use crate::registry::location_of;
use crate::registry::snapshot;
use crate::registry::DiscoveryError;
use crate::registry::DiscoveryErrorView;
use crate::registry::Registry;
use crate::registry::Script;
use crate::registry::ScriptView;
use crate::resolver::resolution;
use crate::resolver::resolve;
use crate::resolver::Invocation;
use crate::resolver::InvocationView;
use crate::resolver::Resolution;
use crate::resolver::ResolvedAction;
use crate::resolver::UnknownScriptError;
use crate::resolver::UnknownScriptErrorView;
use crate::text::texts;
use vstd::prelude::*;

verus! {

/// The scripts directory, relative to the project.
pub open spec fn scripts_directory() -> Seq<char> {
    "node_modules/scripts"@
}

/// The status with which a run ends after it has listed the scripts.
pub open spec fn listing_status() -> int {
    1
}

/// Model of a [`Probe`].
pub enum ProbeView {
    Absent,
    Unreadable(Seq<char>),
    Entries(Seq<Seq<char>>),
}

/// What the caller found where the scripts directory should be.
#[derive(Debug, PartialEq, Eq)]
pub enum Probe {
    /// There is no such directory.
    Absent,
    /// The directory is there but could not be read, for this reason.
    Unreadable(String),
    /// The directory was read; these are the names of its entries.
    Entries(Vec<String>),
}

impl View for Probe {
    type V = ProbeView;

    open spec fn view(&self) -> ProbeView {
        match self {
            Probe::Absent => ProbeView::Absent,
            Probe::Unreadable(reason) => ProbeView::Unreadable(reason@),
            Probe::Entries(entries) => ProbeView::Entries(texts(entries@)),
        }
    }
}

/// Model of an [`Outcome`].
pub enum OutcomeView {
    Skipped,
    Listed { names: Seq<Seq<char>> },
    Dispatched { script: ScriptView, launch: LaunchView },
}

impl OutcomeView {
    /// The process that the caller is to start, if any.
    pub open spec fn launch(self) -> Option<LaunchView> {
        match self {
            OutcomeView::Dispatched { launch, .. } => Some(launch),
            _ => None,
        }
    }

    /// The status with which the caller is to end the run, if the command
    /// asks for one.
    pub open spec fn exit_status(self) -> Option<int> {
        match self {
            OutcomeView::Listed { .. } => Some(listing_status()),
            _ => None,
        }
    }
}

/// What the command asks of its caller.
#[derive(Debug, PartialEq, Eq)]
pub enum Outcome {
    /// There is no scripts directory: nothing is to be done.
    Skipped,
    /// No script was named: the scripts are to be listed.
    Listed {
        /// The names of all scripts, in reading order.
        names: Vec<String>,
    },
    /// The named script exists: it is to be started.
    Dispatched {
        /// The script that was resolved.
        script: Script,
        /// The host-shell invocation that runs it.
        launch: Launch,
    },
}

impl View for Outcome {
    type V = OutcomeView;

    open spec fn view(&self) -> OutcomeView {
        match self {
            Outcome::Skipped => OutcomeView::Skipped,
            Outcome::Listed { names } => OutcomeView::Listed { names: texts(names@) },
            Outcome::Dispatched { script, launch } => OutcomeView::Dispatched {
                script: script@,
                launch: launch@,
            },
        }
    }
}

/// Model of a [`RunError`].
pub enum RunErrorView {
    Discovery(DiscoveryErrorView),
    UnknownScript(UnknownScriptErrorView),
    Dispatch(DispatchErrorView),
}

/// Everything that can go wrong with the command.
#[derive(Debug, PartialEq, Eq)]
pub enum RunError {
    /// The scripts directory could not be read.
    Discovery(DiscoveryError),
    /// The script that was asked for does not exist.
    UnknownScript(UnknownScriptError),
    /// The process for the script could not be started.
    Dispatch(DispatchError),
}

impl View for RunError {
    type V = RunErrorView;

    open spec fn view(&self) -> RunErrorView {
        match self {
            RunError::Discovery(error) => RunErrorView::Discovery(error@),
            RunError::UnknownScript(error) => RunErrorView::UnknownScript(error@),
            RunError::Dispatch(error) => RunErrorView::Dispatch(error@),
        }
    }
}

/// The line that tells the user of `error`, written with the painted `label`
/// and, where the error is an unknown script, with the painted `name` of
/// that script.
pub open spec fn diagnostic_text(error: RunErrorView, label: Seq<char>, name: Seq<char>) -> Seq<
    char,
> {
    match error {
        RunErrorView::Discovery(error) => unreadable_text(label, error.directory, error.reason),
        RunErrorView::UnknownScript(_) => rejection_text(label, name),
        RunErrorView::Dispatch(error) => unstarted_text(label, error.location, error.reason),
    }
}

/// What the command answers to `invocation` when the scripts directory was
/// found as `probe` says, on `platform`.
pub open spec fn plan(invocation: InvocationView, probe: ProbeView, platform: Platform) -> Result<
    OutcomeView,
    RunErrorView,
> {
    match probe {
        ProbeView::Absent => Ok(OutcomeView::Skipped),
        ProbeView::Unreadable(reason) => Err(
            RunErrorView::Discovery(DiscoveryErrorView { directory: scripts_directory(), reason }),
        ),
        ProbeView::Entries(entries) => match resolution(
            invocation,
            snapshot(scripts_directory(), entries),
        ) {
            Resolution::ListAll => Ok(OutcomeView::Listed { names: entries }),
            Resolution::RunScript(script) => Ok(
                OutcomeView::Dispatched { script, launch: launch_of(script.location, platform) },
            ),
            Resolution::ReportUnknownScript(name) => Err(
                RunErrorView::UnknownScript(UnknownScriptErrorView { name }),
            ),
        },
    }
}

/// The process that the caller is to start after `answer`, if any. An error
/// starts none.
pub open spec fn dispatched(answer: Result<OutcomeView, RunErrorView>) -> Option<LaunchView> {
    match answer {
        Ok(outcome) => outcome.launch(),
        Err(_) => None,
    }
}

/// A name that the scripts directory does not hold is turned down with an
/// error that carries the name, and no process is started for it.
pub proof fn lemma_unknown_script_never_dispatches(
    invocation: InvocationView,
    entries: Seq<Seq<char>>,
    platform: Platform,
)
    requires
        invocation.script_name() is Some,
        !entries.contains(invocation.script_name()->0),
    ensures
        plan(invocation, ProbeView::Entries(entries), platform) == Err::<OutcomeView, RunErrorView>(
            RunErrorView::UnknownScript(
                UnknownScriptErrorView { name: invocation.script_name()->0 },
            ),
        ),
        dispatched(plan(invocation, ProbeView::Entries(entries), platform)) is None,
{
}

/// A process is started in one case only: the scripts directory was read, a
/// script was named, and the directory holds that name. The process is then
/// the launch of the script at the directory joined with the name.
pub proof fn lemma_dispatch_only_for_known_script(
    invocation: InvocationView,
    probe: ProbeView,
    platform: Platform,
)
    ensures
        dispatched(plan(invocation, probe, platform)) is Some <==> (probe is Entries
            && invocation.script_name() is Some && probe->Entries_0.contains(
            invocation.script_name()->0,
        )),
        dispatched(plan(invocation, probe, platform)) matches Some(launch) ==> launch == launch_of(
            location_of(scripts_directory(), invocation.script_name()->0),
            platform,
        ),
{
}

/// Without a scripts directory the command does nothing at all, whatever was
/// asked of it: it prints nothing, starts nothing, fails with nothing and
/// asks for no exit status.
pub proof fn lemma_absent_directory_skips_everything(
    invocation: InvocationView,
    platform: Platform,
)
    ensures
        plan(invocation, ProbeView::Absent, platform) == Ok::<OutcomeView, RunErrorView>(
            OutcomeView::Skipped,
        ),
        dispatched(plan(invocation, ProbeView::Absent, platform)) is None,
        OutcomeView::Skipped.exit_status() is None,
{
}

/// The flags of an invocation change nothing: two invocations with the same
/// arguments are answered alike.
pub proof fn lemma_flags_change_nothing(
    one: InvocationView,
    other: InvocationView,
    probe: ProbeView,
    platform: Platform,
)
    requires
        one.args == other.args,
    ensures
        plan(one, probe, platform) == plan(other, probe, platform),
{
}

/// The `run` command.
#[derive(Debug, Clone, Copy, PartialEq, Eq)]
pub struct Run;

impl Run {
    /// The scripts directory, relative to the project.
    pub fn scripts_directory() -> (directory: &'static str)
        ensures
            directory@ == scripts_directory(),
    {
        "node_modules/scripts"
    }

    /// Decides what is to be done for `invocation`, given what the caller
    /// found at the scripts directory.
    pub fn exec(invocation: &Invocation, probe: Probe, platform: Platform) -> (result: Result<
        Outcome,
        RunError,
    >)
        ensures
            match result {
                Ok(outcome) => plan(invocation@, probe@, platform) == Ok::<
                    OutcomeView,
                    RunErrorView,
                >(outcome@),
                Err(error) => plan(invocation@, probe@, platform) == Err::<
                    OutcomeView,
                    RunErrorView,
                >(error@),
            },
    {
        let reading = match probe {
            Probe::Absent => {
                return Ok(Outcome::Skipped);
            },
            Probe::Unreadable(reason) => Err(reason),
            Probe::Entries(entries) => Ok(entries),
        };
        let registry = match Registry::list_scripts(Run::scripts_directory(), reading) {
            Ok(registry) => registry,
            Err(error) => {
                return Err(RunError::Discovery(error));
            },
        };
        match resolve(invocation, &registry) {
            ResolvedAction::ListAll => Ok(Outcome::Listed { names: registry.names() }),
            ResolvedAction::RunScript(script) => {
                let launch = dispatch(script.location.as_str(), platform);
                Ok(Outcome::Dispatched { script, launch })
            },
            ResolvedAction::ReportUnknownScript(name) => Err(
                RunError::UnknownScript(UnknownScriptError { name }),
            ),
        }
    }

    /// The help page of the command, for the given version of the program.
    ///
    /// The version, the program, the subcommand, its operand and the two
    /// forms of the verbose flag are painted; the page around them is fixed.
    pub fn help(version: &str) -> (page: String)
        ensures
            exists|
                number: Seq<char>,
                program: Seq<char>,
                subcommand: Seq<char>,
                operand: Seq<char>,
                flag: Seq<char>,
                short: Seq<char>,
            |
                {
                    &&& renders(number, version@)
                    &&& renders(program, "volt"@)
                    &&& renders(subcommand, "run"@)
                    &&& renders(operand, "file-name"@)
                    &&& renders(flag, "--verbose"@)
                    &&& renders(short, "(-v)"@)
                    &&& page@ == #[trigger] help_text(
                        number,
                        program,
                        subcommand,
                        operand,
                        flag,
                        short,
                    )
                },
    {
        let number = paint(version, Tint::BrightGreen, true);
        let program = paint("volt", Tint::BrightGreen, true);
        let subcommand = paint("run", Tint::BrightPurple, false);
        let operand = paint("file-name", Tint::White, false);
        let flag = paint("--verbose", Tint::Blue, false);
        let short = paint("(-v)", Tint::Yellow, false);
        let page = help_page(
            number.as_str(),
            program.as_str(),
            subcommand.as_str(),
            operand.as_str(),
            flag.as_str(),
            short.as_str(),
        );
        proof {
            assert(page@ == help_text(number@, program@, subcommand@, operand@, flag@, short@));
        }
        page
    }
}

impl Outcome {
    /// The process that the caller is to start, if any.
    pub fn launch(&self) -> (launch: Option<&Launch>)
        ensures
            match launch {
                Some(launch) => self@.launch() == Some(launch@),
                None => self@.launch() is None,
            },
    {
        match self {
            Outcome::Dispatched { launch, .. } => Some(launch),
            _ => None,
        }
    }

    /// The status with which the caller is to end the run, if the command
    /// asks for one. Only a listing does, and its status is not zero: no
    /// script ran.
    pub fn exit_status(&self) -> (status: Option<i32>)
        ensures
            match status {
                Some(status) => self@.exit_status() == Some(status as int),
                None => self@.exit_status() is None,
            },
    {
        match self {
            Outcome::Listed { .. } => Some(1),
            _ => None,
        }
    }

    /// The line that the caller is to print, if any.
    ///
    /// A listing names every script after its painted label and colon. A
    /// dispatch names the script after its painted prompt.
    pub fn message(&self) -> (line: Option<String>)
        ensures
            self@ is Skipped ==> line is None,
            self@ is Listed ==> line is Some && exists|label: Seq<char>, colon: Seq<char>|
                {
                    &&& renders(label, "scripts"@)
                    &&& renders(colon, ":"@)
                    &&& line->0@ == #[trigger] listing_text(label, colon, self@->names)
                },
            self@ is Dispatched ==> line is Some && exists|prompt: Seq<char>|
                {
                    &&& renders(prompt, ">"@)
                    &&& line->0@ == #[trigger] announcement_text(prompt, self@->script.name)
                },
    {
        match self {
            Outcome::Skipped => None,
            Outcome::Listed { names } => {
                let label = paint("scripts", Tint::BrightCyan, true);
                let colon = paint(":", Tint::BrightMagenta, true);
                let line = listing_line(label.as_str(), colon.as_str(), names);
                proof {
                    assert(line@ == listing_text(label@, colon@, self@->names));
                }
                Some(line)
            },
            Outcome::Dispatched { script, .. } => {
                let prompt = paint(">", Tint::BrightMagenta, true);
                let line = announcement_line(prompt.as_str(), script.name.as_str());
                proof {
                    assert(line@ == announcement_text(prompt@, self@->script.name));
                }
                Some(line)
            },
        }
    }
}

impl RunError {
    /// The one line that tells the user what went wrong.
    ///
    /// Every line starts with the painted label. An unknown script is named,
    /// painted too; an unreadable directory and a script that did not start
    /// are named as they are, with the reason that the system gave.
    pub fn message(&self) -> (line: String)
        ensures
            exists|label: Seq<char>, name: Seq<char>|
                {
                    &&& renders(label, "error"@)
                    &&& self@ matches RunErrorView::UnknownScript(error) ==> renders(
                        name,
                        error.name,
                    )
                    &&& line@ == #[trigger] diagnostic_text(self@, label, name)
                },
    {
        let label = paint("error", Tint::BrightRed, true);
        match self {
            RunError::Discovery(error) => {
                let line = unreadable_line(
                    label.as_str(),
                    error.directory.as_str(),
                    error.reason.as_str(),
                );
                proof {
                    assert(line@ == diagnostic_text(self@, label@, label@));
                }
                line
            },
            RunError::UnknownScript(error) => {
                let name = paint(error.name.as_str(), Tint::BrightYellow, true);
                let line = rejection_line(label.as_str(), name.as_str());
                proof {
                    assert(line@ == diagnostic_text(self@, label@, name@));
                }
                line
            },
            RunError::Dispatch(error) => {
                let line = unstarted_line(
                    label.as_str(),
                    error.location.as_str(),
                    error.reason.as_str(),
                );
                proof {
                    assert(line@ == diagnostic_text(self@, label@, label@));
                }
                line
            },
        }
    }
}

} // verus!
