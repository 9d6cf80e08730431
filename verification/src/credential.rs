//! The Wi-Fi credential record: an ssid of at most 32 bytes and a password of
//! at most 64 bytes, both free of NUL (the store keeps values as C strings, so
//! a NUL byte could not survive a round trip). A record is built only through
//! `Credential::new`, which rejects over-limit or NUL-carrying input with a
//! defined error instead of truncating.

use vstd::prelude::*;

verus! {

/// Longest ssid, in bytes.
pub const MAX_SSID_LEN: usize = 32;

/// Longest password, in bytes.
pub const MAX_PASSWORD_LEN: usize = 64;

/// Why a pair of byte strings was refused as a credential.
#[derive(Clone, Copy, Debug, PartialEq, Eq, Structural)]
pub enum CredentialError {
    SsidTooLong,
    PasswordTooLong,
    SsidHasNul,
    PasswordHasNul,
}

/// Does `s` contain a NUL byte?
pub open spec fn has_nul(s: Seq<u8>) -> bool {
    exists|i: int| 0 <= i < s.len() && s[i] == 0u8
}

/// An acceptable ssid: within the length cap and NUL-free.
pub open spec fn valid_ssid(s: Seq<u8>) -> bool {
    s.len() <= MAX_SSID_LEN && !has_nul(s)
}

/// An acceptable password: within the length cap and NUL-free.
pub open spec fn valid_password(s: Seq<u8>) -> bool {
    s.len() <= MAX_PASSWORD_LEN && !has_nul(s)
}

/// One Wi-Fi credential. Both fields are set together at construction and
/// never mutated afterwards: a record is never partially valid.
#[derive(Debug, Clone, PartialEq, Eq)]
pub struct Credential {
    pub ssid: Vec<u8>,
    pub password: Vec<u8>,
}

impl Credential {
    /// Well-formedness: both fields pass their validity checks.
    pub open spec fn wf(&self) -> bool {
        valid_ssid(self.ssid@) && valid_password(self.password@)
    }

    /// View of the ssid bytes.
    pub open spec fn ssid_spec(&self) -> Seq<u8> {
        self.ssid@
    }

    /// View of the password bytes.
    pub open spec fn password_spec(&self) -> Seq<u8> {
        self.password@
    }

    /// Build a record, refusing over-limit or NUL-carrying input: success
    /// exactly on valid pairs, and the error names the first field at fault
    /// (ssid checked before password, length before NUL).
    pub fn new(ssid: Vec<u8>, password: Vec<u8>) -> (r: Result<Credential, CredentialError>)
        ensures
            valid_ssid(ssid@) && valid_password(password@) ==> (r matches Ok(c)
                && c.ssid@ == ssid@ && c.password@ == password@ && c.wf()),
            ssid@.len() > MAX_SSID_LEN ==> r == Err::<Credential, CredentialError>(
                CredentialError::SsidTooLong),
            ssid@.len() <= MAX_SSID_LEN && has_nul(ssid@) ==> r == Err::<
                Credential,
                CredentialError,
            >(CredentialError::SsidHasNul),
            valid_ssid(ssid@) && password@.len() > MAX_PASSWORD_LEN ==> r == Err::<
                Credential,
                CredentialError,
            >(CredentialError::PasswordTooLong),
            valid_ssid(ssid@) && password@.len() <= MAX_PASSWORD_LEN && has_nul(password@) ==> r
                == Err::<Credential, CredentialError>(CredentialError::PasswordHasNul),
    {
        if ssid.len() > MAX_SSID_LEN {
            return Err(CredentialError::SsidTooLong);
        }
        if contains_nul(&ssid) {
            return Err(CredentialError::SsidHasNul);
        }
        if password.len() > MAX_PASSWORD_LEN {
            return Err(CredentialError::PasswordTooLong);
        }
        if contains_nul(&password) {
            return Err(CredentialError::PasswordHasNul);
        }
        Ok(Credential { ssid, password })
    }

    /// The ssid bytes.
    pub fn ssid(&self) -> (r: &Vec<u8>)
        ensures
            r@ == self.ssid@,
    {
        &self.ssid
    }

    /// The password bytes.
    pub fn password(&self) -> (r: &Vec<u8>)
        ensures
            r@ == self.password@,
    {
        &self.password
    }
}

/// Scan for a NUL byte.
fn contains_nul(s: &Vec<u8>) -> (r: bool)
    ensures
        r == has_nul(s@),
{
    let mut i: usize = 0;
    while i < s.len()
        invariant
            0 <= i <= s@.len(),
            forall|j: int| 0 <= j < i ==> s@[j] != 0u8,
        decreases s@.len() - i,
    {
        if s[i] == 0u8 {
            return true;
        }
        i = i + 1;
    }
    false
}

} // verus!
