//! The editor's input mode and which pane holds the focus: plain state the
//! surrounding application switches between; the engine itself has no
//! hidden modes.

use vstd::prelude::*;

verus! {

/// The input mode of the editor pane.
#[derive(Clone, Copy, Debug, PartialEq, Eq, Structural)]
pub enum Mode {
    Normal,
    Insert,
    Selection,
}

impl Mode {
    /// The three-letter tag of each mode, as shown in the info line.
    pub open spec fn spec_abreviation(&self) -> Seq<char> {
        match self {
            Mode::Normal => "NOR"@,
            Mode::Insert => "INS"@,
            Mode::Selection => "SEL"@,
        }
    }

    /// The three-letter tag of this mode.
    pub fn abreviation(&self) -> (r: &'static str)
        ensures
            r@ == self.spec_abreviation(),
    {
        match self {
            Mode::Normal => "NOR",
            Mode::Insert => "INS",
            Mode::Selection => "SEL",
        }
    }
}

/// Which pane input currently goes to.
#[derive(Clone, Copy, Debug, PartialEq, Eq, Structural)]
pub enum Focused {
    Editor,
    CommandBar,
}

} // verus!
