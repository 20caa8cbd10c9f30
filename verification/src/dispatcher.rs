//! The script dispatcher: how a resolved script is handed to the host shell.
//!
//! The dispatcher plans; it does not start anything. A plan names the command
//! interpreter of the platform, tells it to run one command, and gives the
//! script's location in the spelling that this interpreter expects. Starting
//! the process is the caller's part, and so is waiting for it, if anybody
//! cares to.

use crate::text::replace_char;
use crate::text::replaced;
use crate::text::texts;
use vstd::prelude::*;

verus! {

/// The families of host operating systems that the dispatcher knows.
#[derive(Debug, Clone, Copy, PartialEq, Eq, Structural)]
pub enum Platform {
    Windows,
    Unix,
}

impl Platform {
    /// The platform whose operating system goes by `os`: Windows for
    /// `windows`, Unix for every other name.
    pub open spec fn of(os: Seq<char>) -> Platform {
        if os == "windows"@ {
            Platform::Windows
        } else {
            Platform::Unix
        }
    }

    /// The command interpreter of the platform.
    pub open spec fn interpreter_text(self) -> Seq<char> {
        match self {
            Platform::Windows => "cmd.exe"@,
            Platform::Unix => "sh"@,
        }
    }

    /// The switch that makes the interpreter run one command and end.
    pub open spec fn switch_text(self) -> Seq<char> {
        match self {
            Platform::Windows => "/C"@,
            Platform::Unix => "-c"@,
        }
    }

    /// The character that separates the parts of a path.
    pub open spec fn separator_char(self) -> char {
        match self {
            Platform::Windows => '\\',
            Platform::Unix => '/',
        }
    }

    /// Selects the platform from the name of the operating system.
    pub fn named(os: &str) -> (platform: Platform)
        ensures
            platform == Platform::of(os@),
    {
        if os.to_owned() == "windows".to_owned() {
            Platform::Windows
        } else {
            Platform::Unix
        }
    }

    /// The command interpreter of the platform.
    pub fn interpreter(self) -> (program: &'static str)
        ensures
            program@ == self.interpreter_text(),
    {
        match self {
            Platform::Windows => "cmd.exe",
            Platform::Unix => "sh",
        }
    }

    /// The switch that makes the interpreter run one command and end.
    pub fn switch(self) -> (switch: &'static str)
        ensures
            switch@ == self.switch_text(),
    {
        match self {
            Platform::Windows => "/C",
            Platform::Unix => "-c",
        }
    }

    /// The character that separates the parts of a path.
    pub fn separator(self) -> (separator: char)
        ensures
            separator == self.separator_char(),
    {
        match self {
            Platform::Windows => '\\',
            Platform::Unix => '/',
        }
    }
}

/// Model of a [`Launch`].
pub struct LaunchView {
    pub location: Seq<char>,
    pub program: Seq<char>,
    pub arguments: Seq<Seq<char>>,
}

/// A planned host-shell invocation.
#[derive(Debug, PartialEq, Eq)]
pub struct Launch {
    /// The location of the script, as it was resolved.
    pub location: String,
    /// The program to start.
    pub program: String,
    /// Its arguments, in order.
    pub arguments: Vec<String>,
}

impl View for Launch {
    type V = LaunchView;

    open spec fn view(&self) -> LaunchView {
        LaunchView {
            location: self.location@,
            program: self.program@,
            arguments: texts(self.arguments@),
        }
    }
}

/// Model of a [`DispatchError`].
pub struct DispatchErrorView {
    pub location: Seq<char>,
    pub reason: Seq<char>,
}

/// The process for a script could not be started.
#[derive(Debug, PartialEq, Eq)]
pub struct DispatchError {
    /// The location of the script that was to run.
    pub location: String,
    /// What the operating system said.
    pub reason: String,
}

impl View for DispatchError {
    type V = DispatchErrorView;

    open spec fn view(&self) -> DispatchErrorView {
        DispatchErrorView { location: self.location@, reason: self.reason@ }
    }
}

/// `location`, which separates its parts by `/`, in the spelling of `platform`.
pub open spec fn native_path(location: Seq<char>, platform: Platform) -> Seq<char> {
    replaced(location, '/', platform.separator_char())
}

/// The invocation that runs the script at `location` on `platform`: the
/// platform's interpreter, its run-one-command switch, and the location in
/// the platform's spelling as the only payload.
pub open spec fn launch_of(location: Seq<char>, platform: Platform) -> LaunchView {
    LaunchView {
        location,
        program: platform.interpreter_text(),
        arguments: seq![platform.switch_text(), native_path(location, platform)],
    }
}

/// Plans the host-shell invocation for the script at `location`.
pub fn dispatch(location: &str, platform: Platform) -> (launch: Launch)
    ensures
        launch@ == launch_of(location@, platform),
{
    let mut arguments: Vec<String> = Vec::new();
    arguments.push(platform.switch().to_owned());
    arguments.push(replace_char(location, '/', platform.separator()));
    let launch = Launch {
        location: location.to_owned(),
        program: platform.interpreter().to_owned(),
        arguments,
    };
    proof {
        assert(launch@.arguments =~= launch_of(location@, platform).arguments);
    }
    launch
}

impl Launch {
    /// Turns the outcome of starting the planned process into the result of
    /// the dispatch: a process that started is a success, whatever becomes of
    /// it later, and one that did not is an error that names the script and
    /// keeps the reason.
    pub fn conclude(&self, started: Result<(), String>) -> (result: Result<(), DispatchError>)
        ensures
            match started {
                Ok(_) => result is Ok,
                Err(reason) => result matches Err(error) && error@ == (DispatchErrorView {
                    location: self@.location,
                    reason: reason@,
                }),
            },
    {
        match started {
            Ok(_) => Ok(()),
            Err(reason) => Err(DispatchError { location: self.location.clone(), reason }),
        }
    }
}

} // verus!
