//! Scoped control of the terminal's raw input mode.
//!
//! The guard tracks whether the acquisition is still live, so that the
//! visible terminal state is toggled back at most once however many times
//! the release runs (a scope exit followed by an explicit shutdown, for
//! instance).  The actual mode switches are terminal I/O and live outside
//! the library; the guard tells its owner when one is due.

use vstd::prelude::*;

verus! {

/// Guard over an acquired raw terminal mode.
pub struct RawModeGuard {
    active: bool,
}

/// The release step as a value: the guard after the release, and whether
/// the caller must actually toggle the terminal back this time.
pub closed spec fn release_model(g: RawModeGuard) -> (RawModeGuard, bool) {
    (RawModeGuard { active: false }, g.active)
}

impl RawModeGuard {
    /// True while the acquisition has not been released.
    pub closed spec fn is_active(&self) -> bool {
        self.active
    }

    /// A guard for a raw mode that was just enabled.
    pub fn new() -> (g: RawModeGuard)
        ensures
            g.is_active(),
    {
        RawModeGuard { active: true }
    }

    /// Releases the acquisition.  Returns whether the caller must now
    /// disable raw mode: true on the first release only, so a later release
    /// never toggles the terminal a second time.
    pub fn release(&mut self) -> (must_disable: bool)
        ensures
            (*final(self), must_disable) == release_model(*old(self)),
            !final(self).is_active(),
            must_disable == old(self).is_active(),
    {
        let was_active = self.active;
        self.active = false;
        was_active
    }
}

/// Releasing a guard twice is harmless: the second release demands no
/// toggle and leaves the guard exactly as the first left it.
pub proof fn lemma_release_idempotent(g: RawModeGuard)
    ensures
        ({
            let (g1, _first) = release_model(g);
            let (g2, second) = release_model(g1);
            &&& !second
            &&& g2 == g1
        }),
{
}

} // verus!
