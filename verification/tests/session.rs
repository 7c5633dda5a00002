use ldap_accounts::directory::{DirectoryReply, DirectoryRequest};
use ldap_accounts::session::{CheckStep, ConnectionCheck, RetryPolicy, SessionError};
use ldap_accounts::ServerState;

fn state_with(retry: RetryPolicy) -> ServerState {
    ServerState {
        ldap_server: "ldap://dc.example.com".to_string(),
        username: "svc@example.com".to_string(),
        password: "s3cret".to_string(),
        retry,
    }
}

fn state() -> ServerState {
    state_with(RetryPolicy::unlimited())
}

fn limited(max_rounds: u32) -> ServerState {
    state_with(RetryPolicy { max_rounds: Some(max_rounds), base_delay_ms: 100, max_delay_ms: 1000 })
}

fn bind() -> DirectoryRequest {
    DirectoryRequest::Bind { principal: "svc@example.com".to_string(), credential: "s3cret".to_string() }
}

fn connect() -> DirectoryRequest {
    DirectoryRequest::Connect { server: "ldap://dc.example.com".to_string(), starttls: true }
}

fn accepted() -> DirectoryReply {
    DirectoryReply::Completed { rc: 0 }
}

fn rejected() -> DirectoryReply {
    DirectoryReply::Completed { rc: 49 }
}

fn expect_continue(step: CheckStep) -> (ConnectionCheck, u64, DirectoryRequest) {
    match step {
        CheckStep::Continue { check, delay_ms, request } => (check, delay_ms, request),
        CheckStep::Ready => panic!("ready early"),
        CheckStep::GaveUp(error) => panic!("gave up: {:?}", error),
        CheckStep::Fatal(error) => panic!("fatal: {:?}", error),
    }
}

#[test]
fn unlimited_policy_has_no_limit_and_no_pause() {
    let policy = RetryPolicy::unlimited();
    assert_eq!(policy.max_rounds, None);
    assert_eq!(policy.base_delay_ms, 0);
    assert_eq!(policy.max_delay_ms, 0);
    assert_eq!(policy.delay_ms(1), 0);
    assert_eq!(policy.delay_ms(1000), 0);
}

#[test]
fn pauses_double_up_to_the_longest() {
    let policy = RetryPolicy { max_rounds: Some(10), base_delay_ms: 100, max_delay_ms: 1000 };
    assert_eq!(policy.delay_ms(0), 100);
    assert_eq!(policy.delay_ms(1), 100);
    assert_eq!(policy.delay_ms(2), 200);
    assert_eq!(policy.delay_ms(3), 400);
    assert_eq!(policy.delay_ms(4), 800);
    assert_eq!(policy.delay_ms(5), 1000);
    assert_eq!(policy.delay_ms(6), 1000);
    assert_eq!(policy.delay_ms(u32::MAX), 1000);
}

#[test]
fn pauses_at_the_edges_of_the_range() {
    let wide = RetryPolicy { max_rounds: None, base_delay_ms: 1, max_delay_ms: u64::MAX };
    assert_eq!(wide.delay_ms(1), 1);
    assert_eq!(wide.delay_ms(64), 1 << 63);
    assert_eq!(wide.delay_ms(65), u64::MAX);
    assert_eq!(wide.delay_ms(u32::MAX), u64::MAX);
    let capped = RetryPolicy { max_rounds: None, base_delay_ms: 500, max_delay_ms: 200 };
    assert_eq!(capped.delay_ms(1), 200);
    assert_eq!(capped.delay_ms(9), 200);
    let odd = RetryPolicy { max_rounds: None, base_delay_ms: 3, max_delay_ms: 7 };
    assert_eq!(odd.delay_ms(1), 3);
    assert_eq!(odd.delay_ms(2), 6);
    assert_eq!(odd.delay_ms(3), 7);
    let still = RetryPolicy { max_rounds: None, base_delay_ms: 0, max_delay_ms: 1000 };
    assert_eq!(still.delay_ms(u32::MAX), 0);
}

#[test]
fn check_starts_with_a_bind_on_the_connection_at_hand() {
    let (_, first) = state().check_connection();
    assert_eq!(first, bind());
}

#[test]
fn accepted_bind_makes_the_connection_ready() {
    let state = state();
    let (check, _) = state.check_connection();
    assert!(matches!(check.advance(&state, accepted()), CheckStep::Ready));
}

#[test]
fn failed_bind_reconnects_with_starttls_and_binds_once_more() {
    let state = state();
    let (check, _) = state.check_connection();
    let (check, delay, second) = expect_continue(check.advance(&state, DirectoryReply::Unreachable));
    assert_eq!(second, connect());
    assert_eq!(delay, 0);
    let (check, delay, third) = expect_continue(check.advance(&state, accepted()));
    assert_eq!(third, bind());
    assert_eq!(delay, 0);
    assert!(matches!(check.advance(&state, accepted()), CheckStep::Ready));
}

#[test]
fn rejected_bind_is_handled_like_a_broken_connection() {
    let state = state();
    let (check, _) = state.check_connection();
    let (_, _, second) = expect_continue(check.advance(&state, rejected()));
    assert_eq!(second, connect());
}

#[test]
fn unlimited_check_keeps_retrying_while_the_directory_is_down() {
    let state = state();
    let (mut check, request) = state.check_connection();
    let mut asked = vec![request];
    for _ in 0..50 {
        let (next, delay, again) = expect_continue(check.advance(&state, DirectoryReply::Unreachable));
        assert_eq!(delay, 0);
        check = next;
        asked.push(again);
    }
    assert_eq!(asked.len(), 51);
    for (i, request) in asked.iter().enumerate() {
        assert_eq!(request, &(if i % 2 == 0 { bind() } else { connect() }));
    }
    assert!(matches!(check.advance(&state, accepted()), CheckStep::Ready));
}

#[test]
fn rejected_rebind_starts_over_with_a_bind() {
    let state = state();
    let (check, _) = state.check_connection();
    let (check, _, _) = expect_continue(check.advance(&state, DirectoryReply::Unreachable));
    let (check, _, _) = expect_continue(check.advance(&state, accepted()));
    let (check, _, again) = expect_continue(check.advance(&state, rejected()));
    assert_eq!(again, bind());
    let (_, _, then) = expect_continue(check.advance(&state, rejected()));
    assert_eq!(then, connect());
}

#[test]
fn limited_check_pauses_longer_after_each_failed_round() {
    let state = limited(5);
    let (mut check, _) = state.check_connection();
    let mut pauses = Vec::new();
    for _ in 0..4 {
        let (next, delay, request) = expect_continue(check.advance(&state, DirectoryReply::Unreachable));
        assert_eq!((delay, request), (0, connect()));
        let (next, delay, request) = expect_continue(next.advance(&state, DirectoryReply::Unreachable));
        assert_eq!(request, bind());
        pauses.push(delay);
        check = next;
    }
    assert_eq!(pauses, vec![100, 200, 400, 800]);
}

#[test]
fn limited_check_gives_up_after_its_last_round() {
    let state = limited(2);
    let (check, _) = state.check_connection();
    let (check, _, _) = expect_continue(check.advance(&state, DirectoryReply::Unreachable));
    let (check, _, _) = expect_continue(check.advance(&state, DirectoryReply::Unreachable));
    let (check, _, _) = expect_continue(check.advance(&state, DirectoryReply::Unreachable));
    assert!(matches!(
        check.advance(&state, DirectoryReply::Unreachable),
        CheckStep::GaveUp(SessionError::TransportError)
    ));
}

#[test]
fn limited_check_reports_a_rejected_bind_as_auth_error() {
    let state = limited(1);
    let (check, _) = state.check_connection();
    let (check, _, _) = expect_continue(check.advance(&state, rejected()));
    let (check, _, _) = expect_continue(check.advance(&state, accepted()));
    assert!(matches!(check.advance(&state, rejected()), CheckStep::GaveUp(SessionError::AuthError)));
}

#[test]
fn limited_check_still_succeeds_when_the_directory_comes_back() {
    let state = limited(3);
    let (check, _) = state.check_connection();
    let (check, _, _) = expect_continue(check.advance(&state, DirectoryReply::Unreachable));
    let (check, _, _) = expect_continue(check.advance(&state, DirectoryReply::Unreachable));
    let (check, _, _) = expect_continue(check.advance(&state, DirectoryReply::Unreachable));
    let (check, _, _) = expect_continue(check.advance(&state, accepted()));
    assert!(matches!(check.advance(&state, accepted()), CheckStep::Ready));
}

#[test]
fn a_limit_of_zero_rounds_still_makes_one() {
    let state = limited(0);
    let (check, _) = state.check_connection();
    let (check, _, request) = expect_continue(check.advance(&state, DirectoryReply::Unreachable));
    assert_eq!(request, connect());
    assert!(matches!(
        check.advance(&state, DirectoryReply::Unreachable),
        CheckStep::GaveUp(SessionError::TransportError)
    ));
}

#[test]
fn startup_opens_the_connection_then_binds() {
    let state = state();
    let (check, first) = state.establish_ldap_connection();
    assert_eq!(first, connect());
    let (check, _, second) = expect_continue(check.advance(&state, accepted()));
    assert_eq!(second, bind());
    assert!(matches!(check.advance(&state, accepted()), CheckStep::Ready));
}

#[test]
fn startup_without_a_directory_is_fatal() {
    let state = state();
    let (check, _) = state.establish_ldap_connection();
    assert!(matches!(
        check.advance(&state, DirectoryReply::Unreachable),
        CheckStep::Fatal(SessionError::TransportError)
    ));
}

#[test]
fn startup_with_rejected_credentials_is_fatal() {
    let state = state();
    let (check, _) = state.establish_ldap_connection();
    let (check, _, _) = expect_continue(check.advance(&state, accepted()));
    assert!(matches!(check.advance(&state, rejected()), CheckStep::Fatal(SessionError::AuthError)));
}
