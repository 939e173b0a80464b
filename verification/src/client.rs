//! How a chain client reconnects: up to a fixed number of attempts, waiting
//! longer after each failure.
use vstd::prelude::*;

verus! {

/// How many times a client tries to connect before giving up.
pub const RECONNECT_ATTEMPTS: u32 = 5;

/// The wait after the first failed attempt, in milliseconds; the wait after
/// attempt `n` is `n` times this.
pub const RECONNECT_BACKOFF_MS: u64 = 500;

/// What a client does after a connection attempt.
#[derive(Debug, Clone, Copy, PartialEq, Eq, Structural)]
pub enum ConnectAction {
    /// The attempt succeeded.
    Connected { attempt: u32 },
    /// Wait, then make attempt `next_attempt`.
    Retry { wait_ms: u64, next_attempt: u32 },
    /// Wait, then report that all `attempts` failed.
    GiveUp { wait_ms: u64, attempts: u32 },
}

/// What follows attempt `attempt` (counted from 1), given whether it connected.
pub open spec fn connect_action(attempt: u32, connected: bool) -> ConnectAction {
    if connected {
        ConnectAction::Connected { attempt }
    } else if attempt < RECONNECT_ATTEMPTS {
        ConnectAction::Retry {
            wait_ms: (RECONNECT_BACKOFF_MS * attempt) as u64,
            next_attempt: (attempt + 1) as u32,
        }
    } else {
        ConnectAction::GiveUp { wait_ms: (RECONNECT_BACKOFF_MS * attempt) as u64, attempts: attempt }
    }
}

/// Decides what follows attempt `attempt`.
pub fn after_attempt(attempt: u32, connected: bool) -> (r: ConnectAction)
    requires
        1 <= attempt <= RECONNECT_ATTEMPTS,
    ensures
        r == connect_action(attempt, connected),
{
    if connected {
        ConnectAction::Connected { attempt }
    } else if attempt < RECONNECT_ATTEMPTS {
        ConnectAction::Retry { wait_ms: RECONNECT_BACKOFF_MS * (attempt as u64), next_attempt: attempt + 1 }
    } else {
        ConnectAction::GiveUp {
            wait_ms: RECONNECT_BACKOFF_MS * (attempt as u64),
            attempts: attempt,
        }
    }
}

/// The attempts a client makes from attempt `attempt` on when every one fails.
pub open spec fn failing_attempts_from(attempt: u32) -> nat
    decreases RECONNECT_ATTEMPTS - attempt,
{
    match connect_action(attempt, false) {
        ConnectAction::Retry { next_attempt, .. } => if attempt < RECONNECT_ATTEMPTS {
            1 + failing_attempts_from(next_attempt)
        } else {
            1
        },
        _ => 1,
    }
}

/// The time a client waits from attempt `attempt` on when every one fails.
pub open spec fn failing_wait_from(attempt: u32) -> nat
    decreases RECONNECT_ATTEMPTS - attempt,
{
    match connect_action(attempt, false) {
        ConnectAction::Retry { wait_ms, next_attempt } => if attempt < RECONNECT_ATTEMPTS {
            wait_ms as nat + failing_wait_from(next_attempt)
        } else {
            wait_ms as nat
        },
        ConnectAction::GiveUp { wait_ms, .. } => wait_ms as nat,
        _ => 0,
    }
}

/// A client whose attempts all fail makes exactly `RECONNECT_ATTEMPTS`
/// attempts, waiting 500, 1000, 1500, 2000 and 2500 ms, 7.5 s in all, and
/// gives up reporting that many attempts.
pub proof fn law_reconnect_gives_up_after_all_attempts()
    ensures
        failing_attempts_from(1) == RECONNECT_ATTEMPTS,
        failing_wait_from(1) == 7500,
        connect_action(RECONNECT_ATTEMPTS, false) == (ConnectAction::GiveUp {
            wait_ms: 2500,
            attempts: RECONNECT_ATTEMPTS,
        }),
{
    reveal_with_fuel(failing_attempts_from, 6);
    reveal_with_fuel(failing_wait_from, 6);
}

} // verus!
