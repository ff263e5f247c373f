//! The authentication gate: interpreting what the external credential
//! backend reported about one validation attempt. The backend itself is an
//! external oracle; this module fixes how its three answers are read, and in
//! particular that only a full confirmation ever unlocks.

use vstd::prelude::*;

verus! {

/// The outcome of one validation attempt against the credential backend.
#[derive(Clone, Copy, PartialEq, Eq, Structural, Debug)]
pub enum AuthOutcome {
    /// The backend confirmed identity and permitted a session: the only
    /// success condition.
    Accepted,
    /// Wrong secret, or any backend-reported authentication failure;
    /// partial confirmation resolves here too.
    Rejected,
    /// The backend could not be reached or initialized. Never unlocks, but
    /// distinguishable from `Rejected` in diagnostics.
    Unavailable,
}

/// How the backend's raw answers map to an outcome: no backend means
/// `Unavailable`; identity confirmed and a session permitted means
/// `Accepted`; anything less means `Rejected`.
pub open spec fn spec_interpret(backend_ready: bool, identity_ok: bool, session_ok: bool)
    -> AuthOutcome {
    if !backend_ready {
        AuthOutcome::Unavailable
    } else if identity_ok && session_ok {
        AuthOutcome::Accepted
    } else {
        AuthOutcome::Rejected
    }
}

/// Whether an outcome permits the lock to open.
pub open spec fn spec_unlocks(o: AuthOutcome) -> bool {
    o is Accepted
}

/// Reduces the backend's raw answers — whether it could be set up at all,
/// whether it confirmed the identity, and whether it permitted a session —
/// to the tri-state outcome. Identity verified but session denied is
/// `Rejected`, never `Accepted`.
pub fn interpret_backend(backend_ready: bool, identity_ok: bool, session_ok: bool)
    -> (o: AuthOutcome)
    ensures
        o == spec_interpret(backend_ready, identity_ok, session_ok),
        spec_unlocks(o) <==> backend_ready && identity_ok && session_ok,
{
    if !backend_ready {
        AuthOutcome::Unavailable
    } else if identity_ok && session_ok {
        AuthOutcome::Accepted
    } else {
        AuthOutcome::Rejected
    }
}

/// Whether this outcome permits the lock to open: true exactly of
/// `Accepted`.
pub fn unlocks(o: AuthOutcome) -> (b: bool)
    ensures
        b == spec_unlocks(o),
{
    match o {
        AuthOutcome::Accepted => true,
        AuthOutcome::Rejected => false,
        AuthOutcome::Unavailable => false,
    }
}

} // verus!
