//! The unlock password: it is stored only as the lowercase hexadecimal text
//! of its SHA-256 digest, replaced only on proof of the current one, and
//! checked by comparing digests.

use sha2::{Digest, Sha256};
use vstd::prelude::*;
use vstd::string::StringSliceAdditionalSpecFns;
use crate::text::{encode_hex, hex_text};

verus! {

/// The SHA-256 digest of `data`.
pub uninterp spec fn sha256(data: Seq<u8>) -> Seq<u8>;

/// `Sha256::new`, `update` and `finalize` of the `sha2` crate on `data`:
/// the result is the 32-byte SHA-256 digest of `data`, a function of the
/// bytes alone (the named `sha256`), nothing more is claimed of it.
#[verifier::external_body]
fn sha256_digest(data: &[u8]) -> (digest: Vec<u8>)
    ensures
        digest@ == sha256(data@),
        digest@.len() == 32,
{
    let mut hasher = Sha256::new();
    hasher.update(data);
    hasher.finalize().to_vec()
}

/// The stored form of a password given as its UTF-8 bytes.
pub open spec fn spec_hash(password: Seq<u8>) -> Seq<char> {
    hex_text(sha256(password))
}

/// The stored form of `password`: the lowercase hexadecimal text of the
/// SHA-256 digest of its UTF-8 bytes (64 characters).
pub fn hash_password(password: &str) -> (hash: String)
    ensures
        hash@ == spec_hash(password.spec_bytes()),
        hash@.len() == 64,
{
    let digest = sha256_digest(password.as_bytes());
    encode_hex(digest.as_slice())
}

/// Why a new password was refused.
#[derive(Clone, Copy, PartialEq, Eq, Structural, Debug)]
pub enum PasswordError {
    /// A password is set, and the current one was not given.
    OldPasswordRequired,
    /// A password is set, and the one given as current does not match it.
    WrongOldPassword,
}

pub open spec fn spec_error_message(e: PasswordError) -> Seq<char> {
    match e {
        PasswordError::OldPasswordRequired => "需要输入原密码"@,
        PasswordError::WrongOldPassword => "原密码错误"@,
    }
}

impl PasswordError {
    /// The message shown to the user.
    pub fn message(&self) -> (m: String)
        ensures
            m@ == spec_error_message(*self),
    {
        match self {
            PasswordError::OldPasswordRequired => "需要输入原密码".to_owned(),
            PasswordError::WrongOldPassword => "原密码错误".to_owned(),
        }
    }
}

/// The stored hash as text, if any.
pub open spec fn hash_view(stored: Option<String>) -> Option<Seq<char>> {
    match stored {
        Some(h) => Some(h@),
        None => None,
    }
}

/// The UTF-8 bytes of an optional password.
pub open spec fn optional_bytes(password: Option<&str>) -> Option<Seq<u8>> {
    match password {
        Some(p) => Some(p.spec_bytes()),
        None => None,
    }
}

/// Outcome of setting `password` over the stored hash `stored`, with `old`
/// given as the current password: the new stored hash, or the refusal.
pub open spec fn spec_set_password(
    stored: Option<Seq<char>>,
    password: Seq<u8>,
    old: Option<Seq<u8>>,
) -> Result<Option<Seq<char>>, PasswordError> {
    match stored {
        None => Ok(Some(spec_hash(password))),
        Some(current) => match old {
            None => Err(PasswordError::OldPasswordRequired),
            Some(o) => if spec_hash(o) == current {
                Ok(Some(spec_hash(password)))
            } else {
                Err(PasswordError::WrongOldPassword)
            },
        },
    }
}

/// Whether `password` unlocks with the stored hash `stored`.
pub open spec fn spec_verify_password(stored: Option<Seq<char>>, password: Seq<u8>) -> bool {
    match stored {
        Some(current) => spec_hash(password) == current,
        None => false,
    }
}

/// Replaces the stored password by `password`. Where one is set already,
/// `old_password` must be given and must match it; otherwise the stored
/// hash stays as it was and the refusal is returned.
pub fn set_password(stored_hash: &mut Option<String>, password: &str, old_password: Option<&str>) -> (r: Result<(), PasswordError>)
    ensures
        match spec_set_password(
            hash_view(*old(stored_hash)),
            password.spec_bytes(),
            optional_bytes(old_password),
        ) {
            Ok(next) => r is Ok && hash_view(*final(stored_hash)) == next,
            Err(e) => r == Err::<(), PasswordError>(e) && *final(stored_hash) == *old(stored_hash),
        },
{
    if let Some(existing) = stored_hash {
        match old_password {
            None => {
                return Err(PasswordError::OldPasswordRequired);
            },
            Some(provided_old) => {
                let provided_hash = hash_password(provided_old);
                if provided_hash != *existing {
                    return Err(PasswordError::WrongOldPassword);
                }
            },
        }
    }
    let hash = hash_password(password);
    *stored_hash = Some(hash);
    Ok(())
}

/// Whether `password` matches the stored one; false where none is set.
pub fn verify_password(stored_hash: &Option<String>, password: &str) -> (ok: bool)
    ensures
        ok == spec_verify_password(hash_view(*stored_hash), password.spec_bytes()),
{
    match stored_hash {
        Some(hash) => {
            let input_hash = hash_password(password);
            input_hash == *hash
        },
        None => false,
    }
}

/// Whether a password is set.
pub fn has_password(stored_hash: &Option<String>) -> (set: bool)
    ensures
        set == (*stored_hash is Some),
{
    stored_hash.is_some()
}

/// A password that has just been set unlocks.
pub proof fn lemma_set_then_verify(stored: Option<Seq<char>>, password: Seq<u8>, old: Option<Seq<u8>>)
    requires
        spec_set_password(stored, password, old) is Ok,
    ensures
        spec_verify_password(spec_set_password(stored, password, old)->Ok_0, password),
{
}

/// Once a password is set, replacing it takes that password: with it the
/// change goes through, without any the change is refused.
pub proof fn lemma_change_needs_current_password(password: Seq<u8>, next: Seq<u8>)
    ensures
        spec_set_password(Some(spec_hash(password)), next, Some(password)) == Ok::<
            Option<Seq<char>>,
            PasswordError,
        >(Some(spec_hash(next))),
        spec_set_password(Some(spec_hash(password)), next, None) == Err::<
            Option<Seq<char>>,
            PasswordError,
        >(PasswordError::OldPasswordRequired),
{
}

/// Without a stored password nothing unlocks, and the first password is set
/// without asking for an old one.
pub proof fn lemma_no_password_set(password: Seq<u8>, old: Option<Seq<u8>>)
    ensures
        !spec_verify_password(None, password),
        spec_set_password(None, password, old) == Ok::<Option<Seq<char>>, PasswordError>(
            Some(spec_hash(password)),
        ),
{
}

} // verus!
