use sshtrap::policy::{AcceptancePolicy, CredentialStore, DRAW_BOUND};

#[test]
fn zero_threshold_rejects_unseen_passwords() {
    let mut policy = AcceptancePolicy::new(0, CredentialStore::new());
    for _ in 0..200 {
        assert!(!policy.decide("hunter2"));
    }
}

#[test]
fn full_threshold_accepts_first_attempt() {
    let mut policy = AcceptancePolicy::new(DRAW_BOUND, CredentialStore::new());
    assert!(policy.decide("first-try"));
}

#[test]
fn accepted_password_is_stored() {
    let mut policy = AcceptancePolicy::new(DRAW_BOUND, CredentialStore::new());
    assert!(policy.decide("abc123"));
    let store = policy.into_store();
    assert!(store.seen("abc123"));
    assert!(!store.seen("abc124"));
}

#[test]
fn replay_accepts_even_at_zero_threshold() {
    let mut store = CredentialStore::new();
    store.store("abc123");
    let mut policy = AcceptancePolicy::new(0, store);
    assert!(policy.decide("abc123"));
    assert!(!policy.decide("other"));
}

#[test]
fn replay_across_connections() {
    // Two connections share one policy. Whichever attempt is accepted first
    // puts the password in the store; the other connection's retry with the
    // same password is then accepted deterministically.
    let mut policy = AcceptancePolicy::new(DRAW_BOUND, CredentialStore::new());
    let first_accepted = policy.decide("abc123");
    assert!(first_accepted);
    // The second connection's attempt, after the first acceptance, cannot be
    // refused even if no randomness would ever accept it again.
    let store = policy.into_store();
    assert!(store.seen("abc123"));
    let mut policy = AcceptancePolicy::new(0, store);
    assert!(policy.decide("abc123"));
}

#[test]
fn store_grows_monotonically() {
    let mut store = CredentialStore::new();
    store.store("a");
    store.store("b");
    assert!(store.seen("a"));
    assert!(store.seen("b"));
    assert!(!store.seen("c"));
}
