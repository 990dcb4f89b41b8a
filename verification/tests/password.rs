use jrep::error::ExternalFailure;
use jrep::password::{check_password, hash_password};

#[test]
fn a_hash_verifies_its_own_password_only() {
    let h = hash_password("correct horse").unwrap();
    assert_ne!(h, "correct horse");
    assert!(h.starts_with("$2b$12$"));
    assert_eq!(h.len(), 60);
    assert_eq!(check_password("correct horse", &h).unwrap(), true);
    assert_eq!(check_password("wrong horse", &h).unwrap(), false);
}

#[test]
fn a_malformed_hash_is_a_verification_failure() {
    match check_password("pw", "not a bcrypt hash") {
        Err(f) => {
            assert!(matches!(f, ExternalFailure::PasswordVerification(_)));
            let e = f.to_app_error();
            assert_eq!(e.status, 500);
            assert_eq!(
                e.message,
                "Password verification error: Invalid hash: the hash format is malformed; expected 60 ASCII bytes"
            );
        }
        Ok(_) => panic!("a malformed hash was read"),
    }
}

#[test]
fn a_hash_with_a_bad_prefix_names_the_prefix() {
    let h = hash_password("pw").unwrap();
    let bad = format!("$3b{}", &h[3..]);
    match check_password("pw", &bad) {
        Err(ExternalFailure::PasswordVerification(d)) => {
            assert_eq!(d, "Invalid hash: the hash prefix is not a bcrypt prefix")
        }
        _ => panic!("a foreign prefix was read"),
    }
}
