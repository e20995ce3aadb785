use vstd::prelude::*;

verus! {

/// The session action chosen for one run.
#[derive(Debug, Clone, Copy, PartialEq, Eq, Structural)]
pub enum Mode {
    ListSessions,
    Mirror,
    Pair,
    Rogue,
}

/// The word that names a mode on the command line.
pub open spec fn mode_word(m: Mode) -> Seq<char> {
    match m {
        Mode::ListSessions => "list"@,
        Mode::Mirror => "mirror"@,
        Mode::Pair => "pair"@,
        Mode::Rogue => "rogue"@,
    }
}

impl Mode {
    /// The word that names this mode, as shown to the user.
    pub fn name(&self) -> (r: &'static str)
        ensures
            r@ == mode_word(*self),
    {
        match self {
            Mode::ListSessions => "list",
            Mode::Mirror => "mirror",
            Mode::Pair => "pair",
            Mode::Rogue => "rogue",
        }
    }
}

} // verus!
