use vstd::prelude::*;

verus! {

/// Adapts the native, asynchronously-raised, session-fatal error condition
/// into at most one invocation of the caller's error observer.
///
/// The relay is armed at session creation and does not re-arm after firing:
/// `try_fire` answers `true` at most once over the relay's lifetime, however
/// often the native layer repeats the error signal.
pub struct ErrorRelay {
    fired: bool,
}

impl ErrorRelay {
    /// Whether the relay has already fired.
    pub closed spec fn has_fired(self) -> bool {
        self.fired
    }

    /// A fresh relay that has not fired.
    pub fn new() -> (r: Self)
        ensures
            !r.has_fired(),
    {
        ErrorRelay { fired: false }
    }

    /// Whether the relay has already fired.
    pub fn has_fired_now(&self) -> (b: bool)
        ensures
            b == self.has_fired(),
    {
        self.fired
    }

    /// Records one native error signal.  Answers `true` exactly when the
    /// observer must be invoked now, which happens on the first signal only.
    pub fn try_fire(&mut self) -> (fire: bool)
        ensures
            fire == !old(self).has_fired(),
            final(self).has_fired(),
    {
        let fire = !self.fired;
        self.fired = true;
        fire
    }
}

} // verus!
