use sha2::{Digest, Sha256};
use lock_screen::password::{hash_password, has_password, set_password, verify_password, PasswordError};

const ABC_SHA256: &str = "ba7816bf8f01cfea414140de5dae2223b00361a396177a9cb410ff61f20015ad";
const EMPTY_SHA256: &str = "e3b0c44298fc1c149afbf4c8996fb92427ae41e4649b934ca495991b7852b855";

#[test]
fn hashes_are_lowercase_sha256_hex() {
    assert_eq!(hash_password("abc"), ABC_SHA256);
    assert_eq!(hash_password(""), EMPTY_SHA256);
    assert_eq!(hash_password("密码").len(), 64);
}

#[test]
fn hash_matches_the_outside_crates() {
    for p in ["hunter2", "锁屏", "a b c"] {
        assert_eq!(hash_password(p), hex::encode(Sha256::digest(p.as_bytes())));
    }
}

#[test]
fn first_password_needs_no_old_one() {
    let mut stored = None;
    assert!(!has_password(&stored));
    assert!(!verify_password(&stored, "anything"));
    assert_eq!(set_password(&mut stored, "abc", None), Ok(()));
    assert_eq!(stored.as_deref(), Some(ABC_SHA256));
    assert!(has_password(&stored));
    assert!(verify_password(&stored, "abc"));
    assert!(!verify_password(&stored, "abd"));
}

#[test]
fn change_requires_current_password() {
    let mut stored = None;
    set_password(&mut stored, "first", None).unwrap();
    let before = stored.clone();
    assert_eq!(set_password(&mut stored, "second", None), Err(PasswordError::OldPasswordRequired));
    assert_eq!(stored, before);
    assert_eq!(
        set_password(&mut stored, "second", Some("wrong")),
        Err(PasswordError::WrongOldPassword)
    );
    assert_eq!(stored, before);
    assert!(verify_password(&stored, "first"));
    assert_eq!(set_password(&mut stored, "second", Some("first")), Ok(()));
    assert!(verify_password(&stored, "second"));
    assert!(!verify_password(&stored, "first"));
}

#[test]
fn error_messages() {
    assert_eq!(PasswordError::OldPasswordRequired.message(), "需要输入原密码");
    assert_eq!(PasswordError::WrongOldPassword.message(), "原密码错误");
}
