//! What can be wrong with a command line, as data; the wording is produced
//! from it on request.

use vstd::prelude::*;

verus! {

/// A command line that cannot be acted on.
#[derive(Debug)]
pub enum UsageError {
    /// The option `arg` of subcommand `sub` needs a value of kind `val` and
    /// got none. `spaced` tells whether the value was looked for in the
    /// argument that follows rather than behind an equals sign.
    MissingValue { sub: String, arg: String, val: String, spaced: bool },
    /// Subcommand `sub` does not know the argument `arg`.
    InvalidArgument { sub: String, arg: String },
    /// Subcommand `sub` was given nothing to do.
    NoCommand { sub: String },
    /// The program does not know the subcommand `arg`.
    InvalidCommand { arg: String },
}

/// A `UsageError` with its texts as character sequences.
pub enum UsageErrorView {
    MissingValue { sub: Seq<char>, arg: Seq<char>, val: Seq<char>, spaced: bool },
    InvalidArgument { sub: Seq<char>, arg: Seq<char> },
    NoCommand { sub: Seq<char> },
    InvalidCommand { arg: Seq<char> },
}

impl View for UsageError {
    type V = UsageErrorView;

    open spec fn view(&self) -> UsageErrorView {
        match self {
            UsageError::MissingValue { sub, arg, val, spaced } => UsageErrorView::MissingValue {
                sub: sub@,
                arg: arg@,
                val: val@,
                spaced: *spaced,
            },
            UsageError::InvalidArgument { sub, arg } => UsageErrorView::InvalidArgument {
                sub: sub@,
                arg: arg@,
            },
            UsageError::NoCommand { sub } => UsageErrorView::NoCommand { sub: sub@ },
            UsageError::InvalidCommand { arg } => UsageErrorView::InvalidCommand { arg: arg@ },
        }
    }
}

/// The closing line of every usage message: where to find help.
pub open spec fn help_hint(cmd: Seq<char>) -> Seq<char> {
    "\nUse '"@ + cmd + " --help' to see available options."@
}

impl UsageErrorView {
    /// The message shown to the user when the program was started as `cmd`.
    pub open spec fn text(self, cmd: Seq<char>) -> Seq<char> {
        match self {
            UsageErrorView::MissingValue { sub, arg, val, spaced } => {
                cmd + ": "@ + sub + ": "@ + arg + " requires a <"@ + val + "> as argument.\nUsage: "@
                    + cmd + " "@ + sub + " "@ + arg + (if spaced {
                    " "@
                } else {
                    Seq::empty()
                }) + "<"@ + val + ">"@
            },
            UsageErrorView::InvalidArgument { sub, arg } => {
                cmd + ": "@ + sub + ": invalid argument '"@ + arg + "'"@ + help_hint(cmd)
            },
            UsageErrorView::NoCommand { sub } => {
                cmd + ": "@ + sub + ": no command specified"@ + help_hint(cmd)
            },
            UsageErrorView::InvalidCommand { arg } => {
                cmd + ": invalid argument '"@ + arg + "'"@ + help_hint(cmd)
            },
        }
    }
}

/// Appends the hint that points the user to `--help`.
fn push_help_hint(out: &mut String, cmd: &str)
    ensures
        final(out)@ == old(out)@ + help_hint(cmd@),
{
    out.append("\nUse '");
    out.append(cmd);
    out.append(" --help' to see available options.");
}

impl UsageError {
    /// The message shown to the user when the program was started as `cmd`.
    pub fn message(&self, cmd: &str) -> (r: String)
        ensures
            r@ == self@.text(cmd@),
    {
        let mut out = String::from_str(cmd);
        match self {
            UsageError::MissingValue { sub, arg, val, spaced } => {
                out.append(": ");
                out.append(sub.as_str());
                out.append(": ");
                out.append(arg.as_str());
                out.append(" requires a <");
                out.append(val.as_str());
                out.append("> as argument.\nUsage: ");
                out.append(cmd);
                out.append(" ");
                out.append(sub.as_str());
                out.append(" ");
                out.append(arg.as_str());
                if *spaced {
                    out.append(" ");
                }
                out.append("<");
                out.append(val.as_str());
                out.append(">");
            },
            UsageError::InvalidArgument { sub, arg } => {
                out.append(": ");
                out.append(sub.as_str());
                out.append(": invalid argument '");
                out.append(arg.as_str());
                out.append("'");
                push_help_hint(&mut out, cmd);
            },
            UsageError::NoCommand { sub } => {
                out.append(": ");
                out.append(sub.as_str());
                out.append(": no command specified");
                push_help_hint(&mut out, cmd);
            },
            UsageError::InvalidCommand { arg } => {
                out.append(": invalid argument '");
                out.append(arg.as_str());
                out.append("'");
                push_help_hint(&mut out, cmd);
            },
        }
        out
    }
}

} // verus!
