use vstd::prelude::*;

verus! {

/// The global ghost-behaviour regime. In `Scatter` every ghost heads for its
/// own corner; in the two chase regimes every ghost heads for the player.
/// The split of the chase regime in two exists only for the mode clock's
/// cycle.
#[derive(Clone, Copy, PartialEq, Eq, Structural, Debug)]
pub enum Mode {
    Chase1,
    Chase2,
    Scatter,
}

impl Mode {
    /// One step of the mode cycle Scatter -> Chase1 -> Chase2 -> Scatter.
    pub open spec fn next_spec(self) -> Mode {
        match self {
            Mode::Chase1 => Mode::Chase2,
            Mode::Chase2 => Mode::Scatter,
            Mode::Scatter => Mode::Chase1,
        }
    }

    pub fn next(self) -> (m: Mode)
        ensures
            m == self.next_spec(),
    {
        match self {
            Mode::Chase1 => Mode::Chase2,
            Mode::Chase2 => Mode::Scatter,
            Mode::Scatter => Mode::Chase1,
        }
    }
}

/// The mode cycle has period three: from any mode, three steps return to it.
/// In particular a simulation that starts in `Scatter` is back in `Scatter`
/// after three firings of the mode clock.
pub proof fn lemma_mode_cycle(m: Mode)
    ensures
        m.next_spec().next_spec().next_spec() == m,
{
}

} // verus!
