use classroom_auth::hasher::{set_config, Config, Hasher, HashingError};

fn hasher_with(secret: &[u8]) -> Hasher {
    set_config(Config {
        secret_key: secret.to_vec(),
        iterations: 1,
        parallelism: 1,
        memory_cost: 64,
    })
    .expect("cheap parameters are accepted")
}

#[test]
fn hash_round_trip_verifies() {
    let h = hasher_with(b"pepper-one");
    let phc = h.hash(b"correct horse").unwrap();
    assert_eq!(h.verify(b"correct horse", &phc), Ok(true));
}

#[test]
fn hash_is_self_describing_argon2id() {
    let h = hasher_with(b"pepper-one");
    let phc = h.hash(b"pw").unwrap();
    assert!(phc.starts_with("$argon2id$v=19$m=64,t=1,p=1$"), "{}", phc);
    assert_ne!(phc, "pw");
}

#[test]
fn hash_twice_differs_and_both_verify() {
    let h = hasher_with(b"pepper-one");
    let a = h.hash(b"same").unwrap();
    let b = h.hash(b"same").unwrap();
    assert_ne!(a, b);
    assert_eq!(h.verify(b"same", &a), Ok(true));
    assert_eq!(h.verify(b"same", &b), Ok(true));
}

#[test]
fn wrong_password_is_rejected_not_an_error() {
    let h = hasher_with(b"pepper-one");
    let phc = h.hash(b"p1").unwrap();
    assert_eq!(h.verify(b"p2", &phc), Ok(false));
}

#[test]
fn pepper_rotation_invalidates_old_hashes() {
    let old = hasher_with(b"pepper-one");
    let new = hasher_with(b"pepper-two");
    let phc = old.hash(b"secret").unwrap();
    assert_eq!(new.verify(b"secret", &phc), Ok(false));
    assert_eq!(old.verify(b"secret", &phc), Ok(true));
}

#[test]
fn malformed_hash_is_an_error() {
    let h = hasher_with(b"pepper-one");
    assert_eq!(h.verify(b"pw", "not a phc string"), Err(HashingError::MalformedHash));
    assert_eq!(h.verify(b"pw", ""), Err(HashingError::MalformedHash));
}

#[test]
fn zero_iterations_are_refused() {
    let r = set_config(Config { secret_key: vec![1], iterations: 0, parallelism: 1, memory_cost: 64 });
    assert!(matches!(r, Err(HashingError::InvalidParams)));
}

#[test]
fn too_little_memory_per_lane_is_refused() {
    let r = set_config(Config { secret_key: vec![1], iterations: 1, parallelism: 2, memory_cost: 15 });
    assert!(matches!(r, Err(HashingError::InvalidParams)));
    let ok = set_config(Config { secret_key: vec![1], iterations: 1, parallelism: 2, memory_cost: 16 });
    assert!(ok.is_ok());
}

#[test]
fn zero_or_excess_parallelism_is_refused() {
    let zero = set_config(Config { secret_key: vec![], iterations: 1, parallelism: 0, memory_cost: 64 });
    assert!(matches!(zero, Err(HashingError::InvalidParams)));
    let many = set_config(Config {
        secret_key: vec![],
        iterations: 1,
        parallelism: 0x100_0000,
        memory_cost: u32::MAX,
    });
    assert!(matches!(many, Err(HashingError::InvalidParams)));
}

#[test]
fn hash_records_configured_costs_not_pepper() {
    let h = set_config(Config { secret_key: b"pepper-xyz".to_vec(), iterations: 2, parallelism: 2, memory_cost: 32 }).unwrap();
    let phc = h.hash(b"pw").unwrap();
    assert!(phc.starts_with("$argon2id$v=19$m=32,t=2,p=2$"), "{}", phc);
    assert!(!phc.contains("pepper-xyz"));
    assert_eq!(phc.split('$').count(), 6);
}

#[test]
fn empty_password_hashes() {
    let h = hasher_with(b"pepper-one");
    let phc = h.hash(b"").unwrap();
    assert_eq!(h.verify(b"", &phc), Ok(true));
}

#[test]
fn huge_lane_count_is_malformed_not_a_panic() {
    let h = hasher_with(b"pepper-one");
    let corrupted = "$argon2id$v=19$m=65536,t=2,p=536870912$c2FsdHNhbHRzYWx0$aGFzaGhhc2hoYXNoaGFzaGhhc2hoYXNoaGFzaGhhc2g";
    assert_eq!(h.verify(b"pw", corrupted), Err(HashingError::MalformedHash));
}

#[test]
fn other_password_or_pepper_gets_a_verdict_not_an_error() {
    let maker = hasher_with(b"pepper-one");
    let checker = hasher_with(b"pepper-two");
    let phc = maker.hash(b"p1").unwrap();
    assert!(maker.verify(b"p2", &phc).is_ok());
    assert!(checker.verify(b"p1", &phc).is_ok());
}
