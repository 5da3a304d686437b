use vstd::prelude::*;
use vstd::string::StringExecFns;

verus! {

/// The mode option's value that selects the terminal prompt.
pub const MODE_CLI: &'static str = "cli";

/// The mode option's value that selects the graphical form.
pub const MODE_GUI: &'static str = "gui";

/// How the password (and, for the form, the other two fields) is collected.
#[derive(Debug, Clone, Copy, PartialEq, Eq, Structural)]
pub enum Mode {
    /// A graphical form with server, login and password fields.
    Gui,
    /// A password prompt on the controlling terminal.
    Cli,
}

/// The mode that a mode option's text selects, if any.
pub open spec fn mode_of(s: Seq<char>) -> Option<Mode> {
    if s == MODE_CLI@ {
        Some(Mode::Cli)
    } else if s == MODE_GUI@ {
        Some(Mode::Gui)
    } else {
        None
    }
}

/// Reads a mode option: `cli` and `gui` are the only accepted values.
pub fn parse_mode(mode: &str) -> (r: Option<Mode>)
    ensures
        r == mode_of(mode@),
        r == Some(Mode::Cli) <==> mode@ == MODE_CLI@,
        r == Some(Mode::Gui) <==> mode@ == MODE_GUI@,
{
    proof {
        reveal_strlit("cli");
        reveal_strlit("gui");
        assert(MODE_CLI@[0] != MODE_GUI@[0]);
    }
    let given = String::from_str(mode);
    if given == String::from_str(MODE_CLI) {
        Some(Mode::Cli)
    } else if given == String::from_str(MODE_GUI) {
        Some(Mode::Gui)
    } else {
        None
    }
}

} // verus!
