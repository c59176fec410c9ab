use amm_config_client::errors::PipelineError;
use amm_config_client::submit::{submit_init, submit_step, SubmitEvent, SubmitPhase, SubmitState};

fn live(st: &SubmitState) -> bool {
    !matches!(st.phase, SubmitPhase::Succeeded(_) | SubmitPhase::Failed(_))
}

#[test]
fn fire_and_forget_succeeds_on_acceptance() {
    let st = submit_init(false, 3);
    assert!(matches!(st.phase, SubmitPhase::FetchingToken));
    let st = submit_step(st, SubmitEvent::TokenFetched);
    assert!(matches!(st.phase, SubmitPhase::Sending));
    let st = submit_step(st, SubmitEvent::Accepted(b"txid-1".to_vec()));
    match st.phase {
        SubmitPhase::Succeeded(id) => assert_eq!(id, b"txid-1".to_vec()),
        _ => panic!("expected success"),
    }
}

#[test]
fn confirm_mode_polls_until_finalized() {
    let st = submit_init(true, 3);
    let st = submit_step(st, SubmitEvent::TokenFetched);
    let st = submit_step(st, SubmitEvent::Accepted(b"txid-2".to_vec()));
    assert!(matches!(st.phase, SubmitPhase::AwaitingConfirmation(_)));
    let st = submit_step(st, SubmitEvent::NotConfirmed);
    assert!(matches!(st.phase, SubmitPhase::AwaitingConfirmation(_)));
    assert_eq!(st.attempts, 1);
    let st = submit_step(st, SubmitEvent::Confirmed);
    match st.phase {
        SubmitPhase::Succeeded(id) => assert_eq!(id, b"txid-2".to_vec()),
        _ => panic!("expected success"),
    }
}

#[test]
fn transport_failures_are_bounded_then_fatal() {
    // The endpoint is unreachable while the token is fetched: retries stay
    // bounded, then the run fails with the network error, and nothing was
    // ever signed or sent.
    let mut st = submit_init(true, 3);
    st = submit_step(st, SubmitEvent::TransportFailure);
    assert!(live(&st));
    assert_eq!(st.attempts, 1);
    st = submit_step(st, SubmitEvent::TransportFailure);
    assert!(live(&st));
    assert_eq!(st.attempts, 2);
    st = submit_step(st, SubmitEvent::TransportFailure);
    match st.phase {
        SubmitPhase::Failed(e) => assert_eq!(e, PipelineError::Network),
        _ => panic!("expected the bounded retries to end in the network error"),
    }
}

#[test]
fn rejection_is_fatal_with_reason() {
    let st = submit_init(false, 3);
    let st = submit_step(st, SubmitEvent::TokenFetched);
    let st = submit_step(st, SubmitEvent::Rejected(b"custom program error".to_vec()));
    match st.phase {
        SubmitPhase::Failed(PipelineError::TransactionRejected(reason)) => {
            assert_eq!(reason, b"custom program error".to_vec())
        },
        _ => panic!("expected rejection"),
    }
}

#[test]
fn expired_token_is_fatal_and_distinct() {
    let st = submit_init(true, 3);
    let st = submit_step(st, SubmitEvent::TokenFetched);
    let st = submit_step(st, SubmitEvent::Accepted(b"txid-3".to_vec()));
    let st = submit_step(st, SubmitEvent::TokenExpired);
    match st.phase {
        SubmitPhase::Failed(e) => assert_eq!(e, PipelineError::ReplayTokenExpired),
        _ => panic!("expected token expiry"),
    }
}

#[test]
fn terminal_states_absorb_events() {
    let st = submit_init(false, 3);
    let st = submit_step(st, SubmitEvent::TokenFetched);
    let st = submit_step(st, SubmitEvent::Accepted(b"txid-4".to_vec()));
    let st = submit_step(st, SubmitEvent::TransportFailure);
    match st.phase {
        SubmitPhase::Succeeded(id) => assert_eq!(id, b"txid-4".to_vec()),
        _ => panic!("a terminal state must not change"),
    }
}
