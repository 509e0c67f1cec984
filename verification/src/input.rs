use vstd::prelude::*;

verus! {

/// A key press, as the screens see it.
#[derive(Debug, Clone, Copy, PartialEq, Eq, Hash, Structural)]
pub enum Input {
    Char(char),
    ArrowUp,
    ArrowDown,
    ArrowLeft,
    ArrowRight,
    Backspace,
    Enter,
    Esc,
    Tab,
    Home,
    End,
}

} // verus!
