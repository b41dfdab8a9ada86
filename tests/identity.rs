use roboat::error::RoboatError;
use roboat::users::{resolve_finish, resolve_start, IdentityStep, UserInformation};

fn user(id: u64, name: &str) -> UserInformation {
    UserInformation {
        user_id: id,
        username: name.to_string(),
        display_name: format!("{} display", name),
    }
}

#[test]
fn empty_cache_fetches_once_then_serves_cache() {
    let credential = Some("SECRET-REDACTED".to_string());
    let mut cache: Option<UserInformation> = None;
    let mut network_calls = 0;

    match resolve_start(&credential, &cache) {
        IdentityStep::Fetch => {
            network_calls += 1;
            assert_eq!(resolve_finish(&mut cache, Ok(user(1, "alice"))), Ok(user(1, "alice")));
        }
        _ => panic!("expected a fetch"),
    }
    assert_eq!(cache, Some(user(1, "alice")));

    match resolve_start(&credential, &cache) {
        IdentityStep::Cached(u) => assert_eq!(u, user(1, "alice")),
        _ => panic!("expected the cached identity"),
    }
    assert_eq!(network_calls, 1);
}

#[test]
fn missing_credential_fails_without_request() {
    match resolve_start(&None, &None) {
        IdentityStep::Fail(e) => assert_eq!(e, RoboatError::RoblosecurityNotSet),
        _ => panic!("expected a failure"),
    }
}

#[test]
fn failed_fetch_leaves_cache_empty() {
    let mut cache: Option<UserInformation> = None;
    assert_eq!(
        resolve_finish(&mut cache, Err(RoboatError::InvalidRoblosecurity)),
        Err(RoboatError::InvalidRoblosecurity)
    );
    assert_eq!(cache, None);
}

#[test]
fn concurrent_first_access_leaves_one_value() {
    let credential = Some("SECRET-REDACTED".to_string());
    let shared = std::sync::Mutex::new(None::<UserInformation>);
    let n: u64 = 16;
    // every caller observes the empty cache before any of them stores
    let mut pending = Vec::new();
    for i in 0..n {
        let guard = shared.lock().unwrap();
        assert!(matches!(resolve_start(&credential, &guard), IdentityStep::Fetch));
        pending.push(user(i, &format!("user{}", i)));
    }
    // they finish in an interleaved order
    let order: Vec<usize> = (0..n as usize).rev().step_by(2).chain((0..n as usize).step_by(2)).collect();
    for &i in &order {
        let mut guard = shared.lock().unwrap();
        let got = resolve_finish(&mut guard, Ok(pending[i].clone()));
        assert_eq!(got, Ok(pending[i].clone()));
    }
    let last = *order.last().unwrap();
    let cached = shared.lock().unwrap().clone().unwrap();
    assert!(pending.contains(&cached));
    assert_eq!(cached, pending[last]);
}

#[test]
fn copy_keeps_fields() {
    let u = user(99, "bob");
    assert_eq!(u.copy(), u);
}
