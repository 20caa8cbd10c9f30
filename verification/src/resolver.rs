//! The script resolver: from what the user typed to what is to be done.
//!
//! Resolution is a function of the invocation and of one registry snapshot.
//! It reads nothing else and starts nothing.

use crate::registry::location_of;
use crate::registry::Registry;
use crate::registry::RegistryView;
use crate::registry::Script;
use crate::registry::ScriptView;
use crate::text::texts;
use vstd::prelude::*;

verus! {

/// Model of an [`Invocation`].
pub struct InvocationView {
    pub args: Seq<Seq<char>>,
    pub flags: Seq<Seq<char>>,
}

impl InvocationView {
    /// The script that was asked for: the argument that follows the
    /// subcommand, where there is one.
    pub open spec fn script_name(self) -> Option<Seq<char>> {
        if self.args.len() >= 2 {
            Some(self.args[1])
        } else {
            None
        }
    }
}

/// What the surrounding shell parsed from the command line.
#[derive(Debug, PartialEq, Eq)]
pub struct Invocation {
    /// The positional arguments. The first is the subcommand itself, the
    /// second, if any, the name of the script to run.
    pub args: Vec<String>,
    /// The flags. None of them changes what is resolved.
    pub flags: Vec<String>,
}

impl View for Invocation {
    type V = InvocationView;

    open spec fn view(&self) -> InvocationView {
        InvocationView { args: texts(self.args@), flags: texts(self.flags@) }
    }
}

impl Invocation {
    /// The script that was asked for, if any.
    pub fn script_name(&self) -> (name: Option<&str>)
        ensures
            match name {
                Some(name) => self@.script_name() == Some(name@),
                None => self@.script_name() is None,
            },
    {
        if self.args.len() >= 2 {
            Some(self.args[1].as_str())
        } else {
            None
        }
    }
}

/// Model of an [`UnknownScriptError`].
pub struct UnknownScriptErrorView {
    pub name: Seq<char>,
}

/// The user asked for a script that the registry does not hold.
#[derive(Debug, PartialEq, Eq)]
pub struct UnknownScriptError {
    /// The name that was asked for.
    pub name: String,
}

impl View for UnknownScriptError {
    type V = UnknownScriptErrorView;

    open spec fn view(&self) -> UnknownScriptErrorView {
        UnknownScriptErrorView { name: self.name@ }
    }
}

/// Model of a [`ResolvedAction`].
pub enum Resolution {
    ListAll,
    RunScript(ScriptView),
    ReportUnknownScript(Seq<char>),
}

/// The three ways in which an invocation can be answered.
#[derive(Debug, PartialEq, Eq)]
pub enum ResolvedAction {
    /// No script was named: show every script there is.
    ListAll,
    /// The named script exists: run it from its location.
    RunScript(Script),
    /// The named script does not exist: say so, naming it.
    ReportUnknownScript(String),
}

impl View for ResolvedAction {
    type V = Resolution;

    open spec fn view(&self) -> Resolution {
        match self {
            ResolvedAction::ListAll => Resolution::ListAll,
            ResolvedAction::RunScript(script) => Resolution::RunScript(script@),
            ResolvedAction::ReportUnknownScript(name) => Resolution::ReportUnknownScript(name@),
        }
    }
}

/// The answer to `invocation` given `registry`.
pub open spec fn resolution(invocation: InvocationView, registry: RegistryView) -> Resolution {
    match invocation.script_name() {
        None => Resolution::ListAll,
        Some(name) => if registry.contains(name) {
            Resolution::RunScript(
                ScriptView { name, location: location_of(registry.directory, name) },
            )
        } else {
            Resolution::ReportUnknownScript(name)
        },
    }
}

/// Decides what `invocation` asks for, given the scripts in `registry`.
///
/// Without a script name the answer is to list all scripts, whatever the
/// registry holds. A name that the registry holds is answered with that
/// script, whose location is the registry's directory joined with the name;
/// a name that it lacks is answered with a report of that name.
pub fn resolve(invocation: &Invocation, registry: &Registry) -> (action: ResolvedAction)
    ensures
        action@ == resolution(invocation@, registry@),
        invocation@.script_name() is None ==> action@ == Resolution::ListAll,
        invocation@.script_name() matches Some(name) ==> (registry@.contains(name) ==> action@
            == Resolution::RunScript(
            ScriptView { name, location: location_of(registry@.directory, name) },
        )),
        invocation@.script_name() matches Some(name) ==> (!registry@.contains(name) ==> action@
            == Resolution::ReportUnknownScript(name)),
{
    match invocation.script_name() {
        None => ResolvedAction::ListAll,
        Some(name) => match registry.find(name) {
            Some(script) => ResolvedAction::RunScript(script.clone()),
            None => ResolvedAction::ReportUnknownScript(name.to_owned()),
        },
    }
}

} // verus!
