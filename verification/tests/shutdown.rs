//! The graceful-shutdown coordination: signal, retirement and the
//! bounded wait.

use rama::graceful::{GracefulService, TimeoutError, Token};

#[test]
fn test_token_pending() {
    // A pending token's shutdown wait never resolves, whatever the
    // coordination state looks like.
    let token = Token::pending();
    let fut = token.shutdown();
    let mut svc = GracefulService::new();
    assert!(!fut.is_ready(&svc));
    svc.signal();
    assert!(!fut.is_ready(&svc));
    let _ = svc.token();
    assert!(!fut.is_ready(&svc));
}

#[test]
fn test_graceful_service() {
    // One worker holds a token; the signal fires; shutdown completes
    // only once the worker retires its token.
    let mut svc = GracefulService::new();
    let token = svc.token();
    let fut = token.shutdown();
    assert!(!fut.is_ready(&svc));

    svc.signal();
    assert!(fut.is_ready(&svc));
    assert!(svc.shutdown_req_resolved());
    assert!(!svc.shutdown_resolved());

    svc.retire(token);
    assert!(svc.shutdown_resolved());
}

#[test]
fn test_graceful_service_timeout() {
    // A worker never retires its token: the bounded wait reports the
    // distinguished timeout error.
    let mut svc = GracefulService::new();
    let _token = svc.token();
    svc.signal();
    assert_eq!(TimeoutError, svc.shutdown_until_outcome().unwrap_err());
}

#[test]
fn shutdown_with_zero_tokens_resolves_on_signal_alone() {
    let mut svc = GracefulService::new();
    assert!(!svc.shutdown_resolved());
    assert!(!svc.shutdown_req_resolved());
    svc.signal();
    assert!(svc.shutdown_resolved());
}

#[test]
fn shutdown_resolves_only_after_last_drop_in_any_order() {
    let orders: Vec<[usize; 3]> = vec![[0, 1, 2], [2, 0, 1], [1, 2, 0]];
    for order in orders {
        let mut svc = GracefulService::new();
        let tokens = [svc.token(), svc.token(), svc.token()];
        svc.signal();
        assert!(!svc.shutdown_resolved());
        for (n, i) in order.iter().enumerate() {
            assert!(!svc.shutdown_resolved());
            svc.retire(tokens[*i]);
            if n < 2 {
                assert!(!svc.shutdown_resolved());
            }
        }
        assert!(svc.shutdown_resolved());
    }
}

#[test]
fn bounded_shutdown_succeeds_when_all_tokens_retired_in_time() {
    let mut svc = GracefulService::new();
    let t1 = svc.token();
    let t2 = svc.token();
    svc.signal();
    svc.retire(t1);
    assert_eq!(svc.shutdown_until_outcome(), Err(TimeoutError));
    svc.retire(t2);
    assert_eq!(svc.shutdown_until_outcome(), Ok(()));
}

#[test]
fn signal_reaches_every_derived_token() {
    let mut svc = GracefulService::new();
    let parent = svc.token();
    let child = svc.child_token(&parent);
    let grandchild = svc.child_token(&child);
    let pf = parent.shutdown();
    let cf = child.shutdown();
    let gf = grandchild.shutdown();
    assert!(!pf.is_ready(&svc));
    assert!(!cf.is_ready(&svc));
    assert!(!gf.is_ready(&svc));
    svc.signal();
    assert!(pf.is_ready(&svc));
    assert!(cf.is_ready(&svc));
    assert!(gf.is_ready(&svc));
}

#[test]
fn child_tokens_count_toward_retirement() {
    let mut svc = GracefulService::new();
    let parent = svc.token();
    let child = svc.child_token(&parent);
    svc.signal();
    svc.retire(parent);
    assert!(!svc.shutdown_resolved());
    svc.retire(child);
    assert!(svc.shutdown_resolved());
}

#[test]
fn child_of_pending_token_is_pending() {
    let mut svc = GracefulService::new();
    let pending = Token::pending();
    let child = svc.child_token(&pending);
    svc.signal();
    assert!(!child.shutdown().is_ready(&svc));
    // Retiring either changes nothing: nothing was counted.
    svc.retire(pending);
    svc.retire(child);
    assert!(svc.shutdown_resolved());
}

#[test]
fn shutdown_req_resolves_with_tokens_still_live() {
    let mut svc = GracefulService::new();
    let _t = svc.token();
    assert!(!svc.shutdown_req_resolved());
    svc.signal();
    assert!(svc.shutdown_req_resolved());
    assert!(!svc.shutdown_resolved());
}

#[test]
fn timeout_error_has_a_message() {
    assert_eq!(TimeoutError.message(), "graceful shutdown timed out");
}
