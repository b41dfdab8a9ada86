use roboat::error::RoboatError;
use roboat::retry::{AuthRetry, RetryPhase, RetryStep};

/// Runs the protocol against scripted outcomes; returns the attempts made,
/// the final token and the outcome handed back.
fn run(outcomes: Vec<Result<u32, RoboatError>>, token: &mut String) -> (u8, Option<Result<u32, RoboatError>>) {
    let mut m = AuthRetry::new();
    let mut script = outcomes.into_iter();
    while m.ready_to_send() {
        m.begin_attempt();
        let outcome = match script.next() {
            Some(o) => o,
            None => return (m.attempts, None),
        };
        match m.on_outcome(outcome, token) {
            RetryStep::Retry => continue,
            RetryStep::Finish(r) => return (m.attempts, Some(r)),
        }
    }
    (m.attempts, None)
}

#[test]
fn two_stale_tokens_make_two_attempts() {
    let mut token = "old".to_string();
    let (attempts, result) = run(
        vec![
            Err(RoboatError::InvalidXcsrf("t1".to_string())),
            Err(RoboatError::InvalidXcsrf("t2".to_string())),
            Ok(3),
        ],
        &mut token,
    );
    assert_eq!(attempts, 2);
    assert_eq!(result, Some(Err(RoboatError::InvalidXcsrf("t2".to_string()))));
    assert_eq!(token, "t1");
}

#[test]
fn stale_then_success() {
    let mut token = String::new();
    let (attempts, result) = run(
        vec![Err(RoboatError::InvalidXcsrf("fresh".to_string())), Ok(42)],
        &mut token,
    );
    assert_eq!(attempts, 2);
    assert_eq!(result, Some(Ok(42)));
    assert_eq!(token, "fresh");
}

#[test]
fn success_needs_one_attempt() {
    let mut token = "keep".to_string();
    let (attempts, result) = run(vec![Ok(1), Ok(2)], &mut token);
    assert_eq!(attempts, 1);
    assert_eq!(result, Some(Ok(1)));
    assert_eq!(token, "keep");
}

#[test]
fn other_errors_are_not_retried() {
    let mut token = "keep".to_string();
    let (attempts, result) = run(
        vec![Err(RoboatError::XcsrfNotReturned), Ok(2)],
        &mut token,
    );
    assert_eq!(attempts, 1);
    assert_eq!(result, Some(Err(RoboatError::XcsrfNotReturned)));
    assert_eq!(token, "keep");
}

#[test]
fn phases_follow_the_protocol() {
    let mut token = String::new();
    let mut m = AuthRetry::new();
    assert_eq!(m.phase, RetryPhase::Idle);
    assert!(m.ready_to_send());
    m.begin_attempt();
    assert_eq!(m.phase, RetryPhase::Attempted);
    assert!(!m.ready_to_send());
    let step = m.on_outcome::<()>(Err(RoboatError::InvalidXcsrf("n".to_string())), &mut token);
    assert!(matches!(step, RetryStep::Retry));
    assert_eq!(m.phase, RetryPhase::RefreshedRetried);
    assert!(m.ready_to_send());
    m.begin_attempt();
    assert_eq!(m.attempts, 2);
    let step = m.on_outcome::<()>(Err(RoboatError::TooManyRequests), &mut token);
    assert!(matches!(step, RetryStep::Finish(Err(RoboatError::TooManyRequests))));
    assert_eq!(m.phase, RetryPhase::Done);
    assert!(!m.ready_to_send());
}
