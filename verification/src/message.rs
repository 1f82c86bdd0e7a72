//! The colored success messages the tool prints.
//!
//! Coloring is done by the `colorize` crate; everything around the one call
//! into it is verified. A colored message is the plain text wrapped in the
//! ANSI green escape and an escape that restores the process-global colors;
//! since those globals are ambient process state, contracts pin everything
//! but the two numeric codes in the restoring escape.

use colorize::AnsiColor;
use vstd::prelude::*;

verus! {

/// A text wrapped in the ANSI green-foreground escape, followed by the
/// escape restoring the process-global foreground and background colors,
/// whose two numeric codes `reset` stands for.
pub open spec fn green_wrapped(text: Seq<char>, reset: Seq<char>) -> Seq<char> {
    "\u{1b}[32m"@ + text + "\u{1b}[0;"@ + reset + "m"@
}

/// Relies on `colorize::AnsiColor::green` for `String`: a text that does not
/// itself begin with an escape character comes back wrapped in the green
/// escape and a reset to the process-global colors, whatever pair of codes
/// those currently hold.
#[verifier::external_body]
fn paint_green(text: String) -> (r: String)
    requires
        text@.len() > 0,
        text@[0] != '\u{1b}',
    ensures
        exists|reset: Seq<char>| r@ == green_wrapped(text@, reset),
{
    text.green()
}

/// The plain text of the message printed after `new` finishes.
pub open spec fn new_project_text(name: Seq<char>) -> Seq<char> {
    "Created new project '"@ + name + "'"@
}

/// The plain text of the message printed after a configure step finishes.
pub open spec fn init_project_text(build_dir: Seq<char>) -> Seq<char> {
    "Initialized project in '"@ + build_dir + "'"@
}

/// The plain text of the message printed after a build step finishes.
pub open spec fn build_success_text() -> Seq<char> {
    "Build successful"@
}

/// The green message announcing that `new` created its project.
pub fn new_project_message(name: &str) -> (r: String)
    ensures
        exists|reset: Seq<char>| r@ == green_wrapped(new_project_text(name@), reset),
{
    let mut s = String::from_str("Created new project '");
    s.append(name);
    s.append("'");
    proof {
        reveal_strlit("Created new project '");
        assert(s@.len() > 0 && s@[0] == 'C');
        assert(s@ == new_project_text(name@));
    }
    paint_green(s)
}

/// The green message announcing a finished configure step.
pub fn init_project_message(build_dir: &str) -> (r: String)
    ensures
        exists|reset: Seq<char>| r@ == green_wrapped(init_project_text(build_dir@), reset),
{
    let mut s = String::from_str("Initialized project in '");
    s.append(build_dir);
    s.append("'");
    proof {
        reveal_strlit("Initialized project in '");
        assert(s@.len() > 0 && s@[0] == 'I');
        assert(s@ == init_project_text(build_dir@));
    }
    paint_green(s)
}

/// The green message announcing a finished build step.
pub fn build_success_message() -> (r: String)
    ensures
        exists|reset: Seq<char>| r@ == green_wrapped(build_success_text(), reset),
{
    let s = String::from_str("Build successful");
    proof {
        reveal_strlit("Build successful");
        assert(s@.len() > 0 && s@[0] == 'B');
        assert(s@ == build_success_text());
    }
    paint_green(s)
}

} // verus!
