//! The submission service's decision logic: a state machine that a caller
//! drives with network events. The caller performs the one action each
//! state asks for (fetch the anti-replay token, send the raw transaction,
//! poll for confirmation) and hands the outcome back; every decision —
//! bounded transport retries, fatal rejection, fatal token expiry, the two
//! confirmation modes — is made here.
use vstd::prelude::*;

use crate::errors::PipelineError;

verus! {

/// What the network said to the last action.
pub enum SubmitEvent {
    /// The anti-replay token was fetched.
    TokenFetched,
    /// The endpoint accepted the raw transaction and returned its
    /// identifier.
    Accepted(Vec<u8>),
    /// A status poll found the transaction finalized.
    Confirmed,
    /// A status poll found no terminal status yet.
    NotConfirmed,
    /// The ledger refused the transaction, for the carried reason.
    Rejected(Vec<u8>),
    /// The anti-replay token expired before the transaction landed.
    TokenExpired,
    /// The transport failed: endpoint unreachable, timeout, and the like.
    TransportFailure,
}

/// Where the submission stands, and what the caller must do next.
pub enum SubmitPhase {
    /// Fetch the anti-replay token.
    FetchingToken,
    /// Send the raw transaction bytes.
    Sending,
    /// Poll the carried transaction identifier for confirmation.
    AwaitingConfirmation(Vec<u8>),
    /// Done: the carried identifier was accepted (and confirmed, where
    /// confirmation was asked for).
    Succeeded(Vec<u8>),
    /// Done: the carried failure is fatal.
    Failed(PipelineError),
}

/// The submission state: the phase, how many transport failures have been
/// absorbed, and the bounded budget.
pub struct SubmitState {
    pub phase: SubmitPhase,
    pub attempts: u32,
    pub max_attempts: u32,
    pub confirm: bool,
}

impl SubmitState {
    /// The attempt count never passes its bound.
    pub open spec fn wf(&self) -> bool {
        self.attempts <= self.max_attempts
    }

    /// A terminal state asks for no further action.
    pub open spec fn is_terminal(&self) -> bool {
        self.phase is Succeeded || self.phase is Failed
    }

    /// How many transport failures the state can still absorb.
    pub open spec fn fuel(&self) -> int {
        self.max_attempts - self.attempts
    }
}

/// A fresh submission: fetch the token first, no failures absorbed yet.
pub fn submit_init(confirm: bool, max_attempts: u32) -> (r: SubmitState)
    ensures
        r.phase is FetchingToken,
        r.attempts == 0,
        r.max_attempts == max_attempts,
        r.confirm == confirm,
        r.wf(),
{
    SubmitState { phase: SubmitPhase::FetchingToken, attempts: 0, max_attempts, confirm }
}

/// What one event does to the state.
pub open spec fn submit_step_spec(st: SubmitState, ev: SubmitEvent) -> SubmitState {
    if st.is_terminal() {
        st
    } else {
        match ev {
            SubmitEvent::TransportFailure => {
                if st.attempts + 1 < st.max_attempts {
                    SubmitState { attempts: (st.attempts + 1) as u32, ..st }
                } else {
                    SubmitState { phase: SubmitPhase::Failed(PipelineError::Network), ..st }
                }
            },
            SubmitEvent::TokenFetched => {
                if st.phase is FetchingToken {
                    SubmitState { phase: SubmitPhase::Sending, ..st }
                } else {
                    st
                }
            },
            SubmitEvent::Accepted(id) => {
                if st.phase is Sending {
                    if st.confirm {
                        SubmitState { phase: SubmitPhase::AwaitingConfirmation(id), ..st }
                    } else {
                        SubmitState { phase: SubmitPhase::Succeeded(id), ..st }
                    }
                } else {
                    st
                }
            },
            SubmitEvent::Confirmed => {
                match st.phase {
                    SubmitPhase::AwaitingConfirmation(id) => SubmitState {
                        phase: SubmitPhase::Succeeded(id),
                        ..st
                    },
                    _ => st,
                }
            },
            SubmitEvent::NotConfirmed => {
                if st.phase is AwaitingConfirmation {
                    if st.attempts + 1 < st.max_attempts {
                        SubmitState { attempts: (st.attempts + 1) as u32, ..st }
                    } else {
                        SubmitState { phase: SubmitPhase::Failed(PipelineError::Network), ..st }
                    }
                } else {
                    st
                }
            },
            SubmitEvent::Rejected(reason) => {
                SubmitState {
                    phase: SubmitPhase::Failed(PipelineError::TransactionRejected(reason)),
                    ..st
                }
            },
            SubmitEvent::TokenExpired => {
                SubmitState { phase: SubmitPhase::Failed(PipelineError::ReplayTokenExpired), ..st }
            },
        }
    }
}

/// Feeds one event to the submission state machine. Transport failures and
/// inconclusive polls are absorbed up to the bounded budget and then turn
/// into the fatal `Network` failure; a rejection and an expired token are
/// fatal at once, the latter as `ReplayTokenExpired` so the caller restarts
/// from assembly instead of silently retrying.
pub fn submit_step(st: SubmitState, ev: SubmitEvent) -> (r: SubmitState)
    requires
        st.wf(),
    ensures
        r == submit_step_spec(st, ev),
        r.wf(),
        !st.is_terminal() && (ev is TransportFailure || (ev is NotConfirmed
            && st.phase is AwaitingConfirmation)) ==> (r.phase is Failed || r.fuel() < st.fuel()),
{
    if matches!(st.phase, SubmitPhase::Succeeded(_) | SubmitPhase::Failed(_)) {
        return st;
    }
    match ev {
        SubmitEvent::TransportFailure => {
            if st.attempts < st.max_attempts && st.max_attempts - st.attempts > 1 {
                SubmitState { attempts: st.attempts + 1, ..st }
            } else {
                SubmitState { phase: SubmitPhase::Failed(PipelineError::Network), ..st }
            }
        },
        SubmitEvent::TokenFetched => {
            if matches!(st.phase, SubmitPhase::FetchingToken) {
                SubmitState { phase: SubmitPhase::Sending, ..st }
            } else {
                st
            }
        },
        SubmitEvent::Accepted(id) => {
            if matches!(st.phase, SubmitPhase::Sending) {
                if st.confirm {
                    SubmitState { phase: SubmitPhase::AwaitingConfirmation(id), ..st }
                } else {
                    SubmitState { phase: SubmitPhase::Succeeded(id), ..st }
                }
            } else {
                st
            }
        },
        SubmitEvent::Confirmed => {
            match st.phase {
                SubmitPhase::AwaitingConfirmation(id) => SubmitState {
                    phase: SubmitPhase::Succeeded(id),
                    attempts: st.attempts,
                    max_attempts: st.max_attempts,
                    confirm: st.confirm,
                },
                phase => SubmitState {
                    phase,
                    attempts: st.attempts,
                    max_attempts: st.max_attempts,
                    confirm: st.confirm,
                },
            }
        },
        SubmitEvent::NotConfirmed => {
            if matches!(st.phase, SubmitPhase::AwaitingConfirmation(_)) {
                if st.attempts < st.max_attempts && st.max_attempts - st.attempts > 1 {
                    SubmitState { attempts: st.attempts + 1, ..st }
                } else {
                    SubmitState { phase: SubmitPhase::Failed(PipelineError::Network), ..st }
                }
            } else {
                st
            }
        },
        SubmitEvent::Rejected(reason) => {
            SubmitState {
                phase: SubmitPhase::Failed(PipelineError::TransactionRejected(reason)),
                ..st
            }
        },
        SubmitEvent::TokenExpired => {
            SubmitState { phase: SubmitPhase::Failed(PipelineError::ReplayTokenExpired), ..st }
        },
    }
}

/// The state after `n` straight transport failures.
pub open spec fn after_transport_failures(st: SubmitState, n: nat) -> SubmitState
    decreases n,
{
    if n == 0 {
        st
    } else {
        submit_step_spec(after_transport_failures(st, (n - 1) as nat), SubmitEvent::TransportFailure)
    }
}

/// Retries are bounded: from any live state, at most `max_attempts` straight
/// transport failures — for instance an endpoint that stays unreachable
/// while the token is fetched — drive the machine to the fatal `Network`
/// failure; it never retries forever.
pub proof fn lemma_retries_bounded(st: SubmitState, n: nat)
    requires
        st.wf(),
        !st.is_terminal(),
        n >= 1,
        n + st.attempts >= st.max_attempts,
    ensures
        after_transport_failures(st, n).phase is Failed || after_transport_failures(st, n).phase
            is Succeeded,
    decreases n,
{
    let prev = after_transport_failures(st, (n - 1) as nat);
    if n == 1 {
        assert(prev == st);
    } else if (n - 1) + st.attempts >= st.max_attempts {
        lemma_retries_bounded(st, (n - 1) as nat);
    } else {
        lemma_failures_accumulate(st, (n - 1) as nat);
    }
}

/// While no terminal state is reached, each straight transport failure
/// raises the attempt count by one.
pub proof fn lemma_failures_accumulate(st: SubmitState, n: nat)
    requires
        st.wf(),
        !st.is_terminal(),
        n <= st.max_attempts - st.attempts,
    ensures
        after_transport_failures(st, n).is_terminal() || (after_transport_failures(st, n).attempts
            == st.attempts + n && after_transport_failures(st, n).max_attempts == st.max_attempts
            && after_transport_failures(st, n).wf()),
    decreases n,
{
    if n > 0 {
        lemma_failures_accumulate(st, (n - 1) as nat);
    }
}

} // verus!
