use vstd::prelude::*;

verus! {

/// What the termination signal handler does once every tracked tempfile is gone.
#[derive(Clone, Copy, Debug, PartialEq, Eq, Structural)]
pub enum SignalHandlerMode {
    /// Remove the tempfiles and let the process continue.
    HandleTermination,
    /// Remove the tempfiles, restore the signal's default disposition and
    /// deliver the signal again, so the process ends as it would have.
    HandleTerminationAndRestoreDefaultBehaviour,
}

impl SignalHandlerMode {
    /// The number this mode is stored as in a process-wide atomic.
    pub open spec fn index_of(self) -> usize {
        match self {
            SignalHandlerMode::HandleTermination => 0,
            SignalHandlerMode::HandleTerminationAndRestoreDefaultBehaviour => 1,
        }
    }

    /// The mode in effect when none was chosen: termination keeps its default outcome.
    pub fn default() -> (r: Self)
        ensures
            r == SignalHandlerMode::HandleTerminationAndRestoreDefaultBehaviour,
    {
        SignalHandlerMode::HandleTerminationAndRestoreDefaultBehaviour
    }

    /// The number under which this mode is stored.
    pub fn as_index(self) -> (r: usize)
        ensures
            r == self.index_of(),
    {
        match self {
            SignalHandlerMode::HandleTermination => 0,
            SignalHandlerMode::HandleTerminationAndRestoreDefaultBehaviour => 1,
        }
    }

    /// The mode stored under `index`; any number but zero restores the default behaviour.
    pub fn from_index(index: usize) -> (r: Self)
        ensures
            index == 0 ==> r == SignalHandlerMode::HandleTermination,
            index != 0 ==> r == SignalHandlerMode::HandleTerminationAndRestoreDefaultBehaviour,
    {
        if index == 0 {
            SignalHandlerMode::HandleTermination
        } else {
            SignalHandlerMode::HandleTerminationAndRestoreDefaultBehaviour
        }
    }

    /// Whether, after the sweep, the signal's default disposition is restored and
    /// the signal raised again.
    pub fn restores_default(self) -> (r: bool)
        ensures
            r == (self == SignalHandlerMode::HandleTerminationAndRestoreDefaultBehaviour),
    {
        match self {
            SignalHandlerMode::HandleTermination => false,
            SignalHandlerMode::HandleTerminationAndRestoreDefaultBehaviour => true,
        }
    }
}

/// A mode read back from where it was stored is the mode that was stored.
pub proof fn lemma_mode_round_trip(mode: SignalHandlerMode)
    ensures
        mode.index_of() == 0 <==> mode == SignalHandlerMode::HandleTermination,
        mode.index_of() != 0 <==> mode == SignalHandlerMode::HandleTerminationAndRestoreDefaultBehaviour,
{
}

} // verus!
