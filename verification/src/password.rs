//! Passwords at rest: either plain text, or an opaque machine-bound blob.

use vstd::prelude::*;
use vstd::utf8::{encode_utf8, valid_utf8};
use crate::protection::{
    is_machine_key, protects, unprotect_spec, LocalMachineDataProtection,
    LocalMachineDataProtectionError,
};

verus! {

/// Where a protected password may be recovered.
#[derive(Debug)]
pub enum PasswordScope {
    /// No protection: the plain text is stored as is.
    Anywhere,
    /// Recoverable only on the machine that protected it.
    LocalMachine,
    /// Recoverable only by the protecting user; unsupported on this
    /// operating-system family.
    CurrentUser,
}

/// A password as it is held in configuration.
#[derive(Debug)]
pub enum Password {
    /// Plain text.
    Basic(String),
    /// Machine-bound: recoverable only where it was protected.
    LocalMachineDataProtection { data_protection: LocalMachineDataProtection },
}

/// Why a password could not be protected or recovered.
#[derive(Debug)]
pub enum PasswordError {
    /// The requested scope is not supported on this operating-system family.
    ScopeNotSupported(PasswordScope),
    /// Machine-bound encryption or decryption failed.
    LocalMachineCryptographyError(LocalMachineDataProtectionError),
}

/// Relies on std's `String::from_utf8`: succeeds exactly on valid UTF-8,
/// returning the string those bytes encode.
#[verifier::external_body]
fn bytes_to_string(v: Vec<u8>) -> (r: Option<String>)
    ensures
        (r is Some) == valid_utf8(v@),
        r matches Some(s) ==> encode_utf8(s@) == v@,
{
    String::from_utf8(v).ok()
}

impl Password {
    /// A plain-text password.
    pub fn new_basic(s: String) -> (r: Self)
        ensures
            r == Password::Basic(s),
    {
        Password::Basic(s)
    }

    /// Protect `s` for the given scope.  `Anywhere` keeps the plain text;
    /// `LocalMachine` encrypts under this machine's key; `CurrentUser` is
    /// reported unsupported rather than silently downgraded.
    pub fn try_new(s: String, scope: PasswordScope) -> (r: Result<Self, PasswordError>)
        ensures
            scope is Anywhere ==> r == Ok::<Password, PasswordError>(Password::Basic(s)),
            scope is CurrentUser ==> (r matches Err(PasswordError::ScopeNotSupported(sc)) && sc
                is CurrentUser),
            scope is LocalMachine ==> match r {
                Ok(p) => p matches Password::LocalMachineDataProtection { data_protection }
                    && exists|key: Seq<u8>|
                    #![auto]
                    is_machine_key(key) && protects(key, encode_utf8(s@), data_protection),
                Err(e) => e is LocalMachineCryptographyError,
            },
    {
        match scope {
            PasswordScope::Anywhere => Ok(Password::Basic(s)),
            PasswordScope::LocalMachine => {
                match LocalMachineDataProtection::protect(s.as_str().as_bytes()) {
                    Ok(data_protection) => Ok(
                        Password::LocalMachineDataProtection { data_protection },
                    ),
                    Err(e) => Err(PasswordError::LocalMachineCryptographyError(e)),
                }
            },
            PasswordScope::CurrentUser => Err(
                PasswordError::ScopeNotSupported(PasswordScope::CurrentUser),
            ),
        }
    }

    /// The plain text of this password.  A plain password is returned as
    /// is; a protected one is decrypted under this machine's key, and any
    /// failure surfaces as a typed error — never as a substitute secret.
    pub fn get(&self) -> (r: Result<String, PasswordError>)
        ensures
            self matches Password::Basic(s) ==> r matches Ok(t) && t@ == s@,
            self matches Password::LocalMachineDataProtection { data_protection } ==> (r matches Ok(
                t,
            ) ==> exists|key: Seq<u8>|
                #![auto]
                is_machine_key(key) && unprotect_spec(key, *data_protection) == Some(
                    encode_utf8(t@),
                )),
    {
        match self {
            Password::Basic(s) => Ok(s.clone()),
            Password::LocalMachineDataProtection { data_protection } => {
                let bytes = match data_protection.unprotect() {
                    Ok(b) => b,
                    Err(e) => {
                        return Err(PasswordError::LocalMachineCryptographyError(e));
                    },
                };
                match bytes_to_string(bytes) {
                    Some(t) => Ok(t),
                    None => Err(
                        PasswordError::LocalMachineCryptographyError(
                            LocalMachineDataProtectionError::AeadError,
                        ),
                    ),
                }
            },
        }
    }
}

} // verus!
