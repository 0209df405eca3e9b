use vstd::prelude::*;

verus! {

/// Cooperative cancellation flag shared between a host and a running decode
/// session.
///
/// The token is a latch: once set it stays set, and no operation ever resets
/// it. Cancellation is cooperative only — a decode loop is expected to poll
/// `is_cancelled` at its own safe points; nothing is interrupted forcibly.
/// The verified model owns its flag exclusively, so `cancel` takes the token
/// by mutable reference; a host that shares one latch across threads wraps
/// the token in its own synchronisation primitive.
pub struct CancellationToken {
    cancelled: bool,
}

impl View for CancellationToken {
    type V = bool;

    closed spec fn view(&self) -> bool {
        self.cancelled
    }
}

impl CancellationToken {
    /// Create a fresh token in the "not cancelled" state.
    pub fn new() -> (token: Self)
        ensures
            !token@,
    {
        CancellationToken { cancelled: false }
    }

    /// Request cancellation. The latch is set whatever it held before, so the
    /// call is idempotent and the flag never moves back to "not cancelled".
    pub fn cancel(&mut self)
        ensures
            final(self)@,
    {
        self.cancelled = true;
    }

    /// Returns true exactly when `cancel` has been called on this token.
    pub fn is_cancelled(&self) -> (cancelled: bool)
        ensures
            cancelled == self@,
    {
        self.cancelled
    }
}

impl Default for CancellationToken {
    /// A fresh token starts in the "not cancelled" state.
    fn default() -> (token: Self)
        ensures
            !token@,
    {
        CancellationToken::new()
    }
}

} // verus!
