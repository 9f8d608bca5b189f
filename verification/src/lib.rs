//! An embeddable command-loop engine: a registry of named commands with typed
//! argument schemas, a shell-quote-aware line tokenizer, a dispatch state
//! machine with the built-ins `help` and `exit`, a tab-completion engine over
//! the registered commands, and a post-command prompt-update protocol.
//!
//! The engine itself performs no terminal I/O: a host drives it by feeding
//! lines in and carrying the returned actions out (printing, invoking its
//! callbacks, binding arguments, running the post-command hook).

use vstd::prelude::*;
use vstd::string::*;

pub mod command;
pub mod completer;
pub mod error;
pub mod help;
pub mod parameter;
pub mod prompt;
pub mod repl;
pub mod text;
pub mod tokenizer;

verus! {

/// The rendering of a string in bold green: the text wrapped in the
/// terminal's style codes.
pub open spec fn green_bold_of(s: Seq<char>) -> Seq<char> {
    "\u{1b}[1;32m"@ + s + "\u{1b}[0m"@
}

/// The rendering of a string in bold yellow: the text wrapped in the
/// terminal's style codes.
pub open spec fn yellow_bold_of(s: Seq<char>) -> Seq<char> {
    "\u{1b}[1;33m"@ + s + "\u{1b}[0m"@
}

/// Utility to format prompt strings as green and bold.
pub fn paint_green_bold(input: &str) -> (r: String)
    ensures
        r@ == green_bold_of(input@),
{
    let mut out = String::new();
    out.append("\u{1b}[1;32m");
    out.append(input);
    out.append("\u{1b}[0m");
    proof {
        assert(out@ =~= green_bold_of(input@));
    }
    out
}

/// Utility to format heading strings as yellow and bold.
pub fn paint_yellow_bold(input: &str) -> (r: String)
    ensures
        r@ == yellow_bold_of(input@),
{
    let mut out = String::new();
    out.append("\u{1b}[1;33m");
    out.append(input);
    out.append("\u{1b}[0m");
    proof {
        assert(out@ =~= yellow_bold_of(input@));
    }
    out
}

/// On this platform the terminal interprets style codes as it is: switching
/// the console mode before the session loop is not needed, so this does
/// nothing.
pub fn enable_virtual_terminal_processing() {
}

/// Counterpart of [`enable_virtual_terminal_processing`]; does nothing on
/// this platform.
pub fn disable_virtual_terminal_processing() {
}

} // verus!
