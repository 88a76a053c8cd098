//! Session tracking for the authority rotation: a session index that
//! increments once every session length of blocks, announcing each new
//! session with an event.

use vstd::prelude::*;

verus! {

/// The index of a session: how many sessions have begun.
pub type SessionIndex = u64;

/// Events the session tracker deposits.
#[derive(Clone, Copy, Debug, PartialEq, Eq, Structural)]
pub enum Event {
    /// A new session began, with its index.
    NewSession(SessionIndex),
}

/// Block initialization for the session tracker: on every block whose number
/// is a multiple of the session length, the session index increments and the
/// new session is announced. Returns the event to deposit, if any, and the
/// storage reads and writes performed.
pub fn on_initialize(session_index: &mut SessionIndex, n: u64, session_length: u64) -> (r: (
    Option<Event>,
    (u64, u64),
))
    requires
        session_length != 0,
        *old(session_index) < u64::MAX,
    ensures
        n % session_length == 0 ==> {
            &&& *final(session_index) == *old(session_index) + 1
            &&& r == (Option::Some(Event::NewSession(*final(session_index))), (1u64, 1u64))
        },
        n % session_length != 0 ==> {
            &&& *final(session_index) == *old(session_index)
            &&& r == (Option::<Event>::None, (0u64, 0u64))
        },
{
    if n % session_length == 0 {
        *session_index = *session_index + 1;
        (Some(Event::NewSession(*session_index)), (1, 1))
    } else {
        (None, (0, 0))
    }
}

} // verus!
