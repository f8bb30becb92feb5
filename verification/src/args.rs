//! What the command line of the tool means.
//!
//! The command line is read one argument at a time. For each argument the
//! reader is told what to do next: show the usage text and stop, take the
//! value that follows as the URL of the page, or refuse the argument. When
//! the arguments have run out, the URL is the last one given, or the default.

use vstd::prelude::*;
use vstd::string::StringExecFns;

verus! {

/// The page that is read when the command line names none.
pub const DEFAULT_URL: &'static str = "https://gpuweb.github.io/gpuweb/wgsl/";

/// The usage text.
pub const USAGE: &'static str =
    "Usage: cargo run --bin builtins [--url https://gpuweb.github.io/gpuweb/wgsl/] [--no-prebuilt-binary]";

/// The settings of one run.
#[derive(Debug, Clone, PartialEq, Eq)]
pub struct Args {
    /// The URL of the page to read.
    pub url: String,
}

/// One argument of the command line.
#[derive(Debug, Clone, PartialEq, Eq)]
pub enum Argument {
    /// A short option, without its dash.
    Short(char),
    /// A long option, without its two dashes.
    Long(String),
    /// An argument that is no option.
    Value(String),
}

/// An [`Argument`] with its text as a sequence of characters.
pub enum ArgumentView {
    Short(char),
    Long(Seq<char>),
    Value(Seq<char>),
}

impl View for Argument {
    type V = ArgumentView;

    open spec fn view(&self) -> ArgumentView {
        match *self {
            Argument::Short(name) => ArgumentView::Short(name),
            Argument::Long(name) => ArgumentView::Long(name@),
            Argument::Value(text) => ArgumentView::Value(text@),
        }
    }
}

/// What to do on an argument.
#[derive(Debug, Clone, Copy, PartialEq, Eq, Structural)]
pub enum Action {
    /// Show the usage text and end the run with success.
    ShowUsage,
    /// Take the value that follows as the URL.
    TakeUrl,
    /// Refuse the argument: the run ends with an error.
    Reject,
}

/// What to do on the given argument: the long options `help` and `url` are
/// known, everything else is refused.
pub open spec fn action_for(argument: ArgumentView) -> Action {
    match argument {
        ArgumentView::Long(name) => if name == "help"@ {
            Action::ShowUsage
        } else if name == "url"@ {
            Action::TakeUrl
        } else {
            Action::Reject
        },
        _ => Action::Reject,
    }
}

/// The URL of a run for which the command line gave this one, or none.
pub open spec fn url_of(given: Option<Seq<char>>) -> Seq<char> {
    match given {
        Some(url) => url,
        None => DEFAULT_URL@,
    }
}

/// Decides what to do on an argument.
pub fn decide(argument: &Argument) -> (action: Action)
    ensures
        action == action_for(argument@),
{
    match argument {
        Argument::Long(name) => {
            if *name == String::from_str("help") {
                Action::ShowUsage
            } else if *name == String::from_str("url") {
                Action::TakeUrl
            } else {
                Action::Reject
            }
        },
        _ => Action::Reject,
    }
}

/// What has been read of the command line so far.
#[derive(Debug, Clone, PartialEq, Eq)]
pub struct ArgScan {
    /// The URL that the last `url` option gave, if there was one.
    pub url: Option<String>,
}

impl ArgScan {
    /// The state before the first argument.
    pub fn new() -> (scan: ArgScan)
        ensures
            scan.url is None,
    {
        ArgScan { url: None }
    }

    /// Stores the value of a `url` option. A later value replaces an earlier
    /// one.
    pub fn set_url(&mut self, url: String)
        ensures
            final(self).url == Some(url),
    {
        self.url = Some(url);
    }

    /// Ends the reading: the settings of the run.
    pub fn finish(self) -> (args: Args)
        ensures
            args.url@ == url_of(self.url.deep_view()),
    {
        match self.url {
            Some(url) => Args { url: url },
            None => Args { url: String::from_str(DEFAULT_URL) },
        }
    }
}

} // verus!
