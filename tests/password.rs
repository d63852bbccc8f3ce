use peppered_argon2::{
    get_params, hash, hash_with, hash_with_salt, verdict, verify, verify_with, Checked, HashError,
    HashParams, PasswordSalt, VerifyError,
};

fn s(x: &str) -> String {
    x.to_string()
}

fn config(m: u32, t: u32, p: u32, len: usize) -> HashParams {
    HashParams { memory_cost_kib: m, iterations: t, parallelism: p, output_len: len }
}

#[test]
fn round_trip() {
    let h = hash(s("pepper"), s("hunter2")).unwrap();
    assert!(verify(s("pepper"), s("hunter2"), h).is_ok());
}

#[test]
fn round_trip_unicode_inputs() {
    let h = hash(s("p\u{e9}pper \u{1f512}"), s("p\u{e4}ssw\u{f6}rd")).unwrap();
    assert!(verify(s("p\u{e9}pper \u{1f512}"), s("p\u{e4}ssw\u{f6}rd"), h).is_ok());
}

#[test]
fn wrong_password_is_mismatch() {
    let h = hash(s("pepper"), s("hunter2")).unwrap();
    assert!(matches!(verify(s("pepper"), s("hunter3"), h), Err(VerifyError::Mismatch)));
}

#[test]
fn other_pepper_is_not_ok() {
    let h = hash(s("pepper-one"), s("hunter2")).unwrap();
    let r = verify(s("pepper-two"), s("hunter2"), h);
    assert!(r.is_err());
    assert!(matches!(r, Err(VerifyError::Mismatch)));
}

#[test]
fn empty_pepper_differs_from_nonempty_pepper() {
    let h = hash(s(""), s("hunter2")).unwrap();
    assert!(verify(s(""), s("hunter2"), h.clone()).is_ok());
    assert!(matches!(verify(s("x"), s("hunter2"), h), Err(VerifyError::Mismatch)));
}

#[test]
fn two_hashes_have_different_salts() {
    let a = hash(s("pepper"), s("hunter2")).unwrap();
    let b = hash(s("pepper"), s("hunter2")).unwrap();
    assert_ne!(a, b);
    let salt_a = a.split('$').nth(4).unwrap().to_string();
    let salt_b = b.split('$').nth(4).unwrap().to_string();
    assert_ne!(salt_a, salt_b);
    assert!(verify(s("pepper"), s("hunter2"), a).is_ok());
    assert!(verify(s("pepper"), s("hunter2"), b).is_ok());
}

#[test]
fn malformed_hash_is_parse_error() {
    let r = verify(s("pepper"), s("hunter2"), s("not-a-valid-hash"));
    assert!(matches!(r, Err(VerifyError::Parse(_))));
}

#[test]
fn empty_hash_is_parse_error() {
    let r = verify(s("pepper"), s("hunter2"), s(""));
    assert!(matches!(r, Err(VerifyError::Parse(_))));
}

#[test]
fn empty_password_round_trips() {
    let h = hash(s("pepper"), s("")).unwrap();
    assert!(verify(s("pepper"), s(""), h.clone()).is_ok());
    assert!(matches!(verify(s("pepper"), s(" "), h), Err(VerifyError::Mismatch)));
}

#[test]
fn concrete_scenario() {
    let pepper = "site-secret";
    let password = "correct horse battery staple";
    let h = hash(s(pepper), s(password)).unwrap();
    assert!(!h.is_empty());
    assert!(h.starts_with("$argon2id$"));
    assert!(verify(s(pepper), s(password), h.clone()).is_ok());
    let r = verify(s(pepper), s("correct horse battery staplee"), h);
    assert!(matches!(r, Err(VerifyError::Mismatch)));
}

#[test]
fn encoded_hash_records_fixed_parameters() {
    let h = hash(s("pepper"), s("hunter2")).unwrap();
    assert!(h.starts_with("$argon2id$v=19$m=1024,t=1,p=1$"));
    assert!(!h.contains("hunter2"));
    assert!(!h.contains("pepper"));
}

#[test]
fn same_salt_gives_same_hash() {
    let salt = PasswordSalt::parse("c29tZXNhbHRzb21lc2FsdA").unwrap();
    let fixed = HashParams::fixed();
    let a = hash_with_salt(&fixed, "pepper", "hunter2", &salt).unwrap();
    let b = hash_with_salt(&fixed, "pepper", "hunter2", &salt).unwrap();
    assert_eq!(a, b);
    assert!(a.starts_with("$argon2id$v=19$m=1024,t=1,p=1$c29tZXNhbHRzb21lc2FsdA$"));
    let digest = a.split('$').nth(5).unwrap();
    assert_eq!(digest.len(), 43);
}

#[test]
fn same_salt_other_pepper_gives_other_hash() {
    let salt = PasswordSalt::parse("c29tZXNhbHRzb21lc2FsdA").unwrap();
    let fixed = HashParams::fixed();
    let a = hash_with_salt(&fixed, "pepper-one", "hunter2", &salt).unwrap();
    let b = hash_with_salt(&fixed, "pepper-two", "hunter2", &salt).unwrap();
    assert_ne!(a, b);
}

#[test]
fn short_salt_is_derivation_error() {
    let salt = PasswordSalt::parse("somesalt").unwrap();
    let r = hash_with_salt(&HashParams::fixed(), "pepper", "hunter2", &salt);
    assert!(matches!(r, Err(HashError::Derivation(_))));
}

#[test]
fn fixed_parameters_are_valid() {
    let p = get_params().ok().unwrap();
    let p = p.as_argon2();
    assert_eq!(p.m_cost(), 1024);
    assert_eq!(p.t_cost(), 1);
    assert_eq!(p.p_cost(), 1);
    assert_eq!(p.output_len(), Some(32));
    let fixed = HashParams::fixed();
    assert_eq!(fixed, config(1024, 1, 1, 32));
}

#[test]
fn config_errors_follow_argon2_rules() {
    let cases = [
        (config(4, 1, 1, 32), argon2::Error::MemoryTooLittle),
        (config(15, 1, 2, 32), argon2::Error::MemoryTooLittle),
        (config(8, 0, 1, 32), argon2::Error::TimeTooSmall),
        (config(8, 1, 0, 32), argon2::Error::ThreadsTooFew),
        (config(u32::MAX, 1, 0x100_0000, 32), argon2::Error::ThreadsTooMany),
        (config(u32::MAX, 1, 0x2000_0000, 32), argon2::Error::MemoryTooLittle),
        (config(8, 1, 1, 3), argon2::Error::OutputTooShort),
    ];
    for (c, expected) in cases {
        match c.to_argon2() {
            Err(e) => assert_eq!(e.cause, expected),
            Ok(_) => panic!("accepted {:?}", c),
        }
        match hash_with(&c, "pepper", "hunter2") {
            Err(HashError::Config(e)) => assert_eq!(e.cause, expected),
            other => panic!("unexpected result {:?}", other),
        }
    }
}

#[test]
fn output_too_long_is_config_error() {
    if usize::MAX as u64 > 0xFFFF_FFFF {
        let c = config(8, 1, 1, (0xFFFF_FFFFu64 + 1) as usize);
        match c.to_argon2() {
            Err(e) => assert_eq!(e.cause, argon2::Error::OutputTooLong),
            Ok(_) => panic!("accepted {:?}", c),
        }
    }
}

#[test]
fn smallest_valid_config_hashes() {
    let c = config(8, 1, 1, 4);
    assert!(c.to_argon2().is_ok());
    // argon2 accepts a 4-byte digest, but the encoded form holds at least 10
    assert!(matches!(hash_with(&c, "pepper", "hunter2"), Err(HashError::Derivation(_))));
    let c = config(8, 1, 1, 10);
    let h = hash_with(&c, "pepper", "hunter2").unwrap();
    assert!(h.starts_with("$argon2id$v=19$m=8,t=1,p=1$"));
    assert!(verify_with(&c, "pepper", "hunter2", &h).is_ok());
}

#[test]
fn verify_uses_parameters_recorded_in_hash() {
    let c = config(64, 2, 2, 16);
    let h = hash_with(&c, "pepper", "hunter2").unwrap();
    assert!(h.starts_with("$argon2id$v=19$m=64,t=2,p=2$"));
    assert!(verify(s("pepper"), s("hunter2"), h.clone()).is_ok());
    assert!(matches!(verify(s("pepper"), s("hunter1"), h), Err(VerifyError::Mismatch)));
}

#[test]
fn verify_with_invalid_config_is_config_error() {
    let h = hash(s("pepper"), s("hunter2")).unwrap();
    let r = verify_with(&config(8, 0, 1, 32), "pepper", "hunter2", &h);
    match r {
        Err(VerifyError::Config(e)) => assert_eq!(e.cause, argon2::Error::TimeTooSmall),
        other => panic!("unexpected result {:?}", other),
    }
}

#[test]
fn parse_error_comes_before_config_error() {
    let r = verify_with(&config(8, 0, 1, 32), "pepper", "hunter2", "not-a-valid-hash");
    assert!(matches!(r, Err(VerifyError::Parse(_))));
}

#[test]
fn unknown_algorithm_is_unusable() {
    let h = "$argon2x$v=19$m=1024,t=1,p=1$c29tZXNhbHRzb21lc2FsdA$AAAAAAAAAAAAAAAAAAAAAAAAAAAAAAAAAAAAAAAAAAA";
    let r = verify(s("pepper"), s("hunter2"), s(h));
    assert!(matches!(r, Err(VerifyError::Unusable(_))));
}

#[test]
fn hash_without_digest_is_mismatch() {
    let h = "$argon2id$v=19$m=1024,t=1,p=1$c29tZXNhbHRzb21lc2FsdA";
    let r = verify(s("pepper"), s("hunter2"), s(h));
    assert!(matches!(r, Err(VerifyError::Mismatch)));
}

#[test]
fn verdict_maps_each_outcome() {
    assert!(matches!(verdict(Checked::Matched), Ok(())));
    assert!(matches!(verdict(Checked::Mismatched), Err(VerifyError::Mismatch)));
    let e = argon2::password_hash::Error::Algorithm;
    assert!(matches!(verdict(Checked::Failed(e)), Err(VerifyError::Unusable(_))));
}

#[test]
fn oversized_recorded_parallelism_is_refused() {
    let h = "$argon2id$v=19$m=1024,t=1,p=536870912$c29tZXNhbHRzb21lc2FsdA$AAAAAAAAAAAAAAAAAAAAAAAAAAAAAAAAAAAAAAAAAAA";
    let r = verify(s("pepper"), s("hunter2"), s(h));
    assert!(matches!(r, Err(VerifyError::RecordedParams(argon2::Error::ThreadsTooMany))));
}

#[test]
fn largest_recorded_parallelism_is_checked() {
    let h = "$argon2id$v=19$m=1024,t=1,p=16777216$c29tZXNhbHRzb21lc2FsdA$AAAAAAAAAAAAAAAAAAAAAAAAAAAAAAAAAAAAAAAAAAA";
    let r = verify(s("pepper"), s("hunter2"), s(h));
    assert!(matches!(r, Err(VerifyError::Unusable(_))));
}

#[test]
fn salt_text_is_kept() {
    let salt = PasswordSalt::parse("c29tZXNhbHRzb21lc2FsdA").unwrap();
    assert_eq!(salt.as_text(), "c29tZXNhbHRzb21lc2FsdA");
}

#[test]
fn repeated_recorded_parallelism_is_refused() {
    let h = "$argon2id$v=19$m=1024,t=1,p=1,p=536870912$c29tZXNhbHRzb21lc2FsdA$AAAAAAAAAAAAAAAAAAAAAAAAAAAAAAAAAAAAAAAAAAA";
    let r = verify(s("pepper"), s("hunter2"), s(h));
    assert!(matches!(r, Err(VerifyError::RepeatedParallelism)));
}

#[test]
fn encoded_hash_has_fixed_shape() {
    let h = hash(s("pepper"), s("hunter2")).unwrap();
    assert!(h.is_ascii());
    assert_eq!(h.len(), 96);
    let fields: Vec<&str> = h.split('$').collect();
    assert_eq!(fields.len(), 6);
    assert_eq!(fields[0], "");
    assert_eq!(fields[1], "argon2id");
    assert_eq!(fields[2], "v=19");
    assert_eq!(fields[3], "m=1024,t=1,p=1");
    assert_eq!(fields[4].len(), 22);
    assert_eq!(fields[5].len(), 43);
}

#[test]
fn salt_stands_in_hash() {
    let salt = PasswordSalt::parse("c29tZXNhbHRzb21lc2FsdA").unwrap();
    let fixed = HashParams::fixed();
    let a = hash_with_salt(&fixed, "pepper-one", "hunter2", &salt).unwrap();
    let b = hash_with_salt(&fixed, "pepper-two", "other", &salt).unwrap();
    assert_eq!(&a[..53], &b[..53]);
    assert_eq!(&a[30..52], "c29tZXNhbHRzb21lc2FsdA");
    let other = PasswordSalt::parse("b3RoZXJzYWx0b3RoZXJzYQ").unwrap();
    let c = hash_with_salt(&fixed, "pepper-one", "hunter2", &other).unwrap();
    assert_ne!(a, c);
}
