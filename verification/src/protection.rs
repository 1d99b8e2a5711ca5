//! Machine-bound protection of secrets.
//!
//! A secret is encrypted with ChaCha20-Poly1305 under a key derived from
//! the host's stable machine identifier (the SHA-256 digest of its UTF-8
//! bytes), with a fresh random nonce per encryption.  Decrypting on another
//! machine, or after the blob was tampered with, fails with a typed error:
//! it never quietly yields a substitute secret.

use vstd::prelude::*;
use chacha20poly1305::aead::{Aead, Generate};
use chacha20poly1305::KeyInit;
use sha2::Digest;

verus! {

/// Errors of machine-bound protection.
#[derive(Debug)]
pub enum LocalMachineDataProtectionError {
    /// The stable machine identifier could not be read.
    MachineIdError { message: String },
    /// Authenticated encryption or decryption failed.
    AeadError,
}

/// What ChaCha20-Poly1305 encryption returns for a given key, nonce and
/// plaintext; it depends on those three alone.
pub uninterp spec fn chacha_ciphertext_of(key: Seq<u8>, nonce: Seq<u8>, plaintext: Seq<u8>) -> Seq<
    u8,
>;

/// What ChaCha20-Poly1305 authenticated decryption returns for a given key,
/// nonce and ciphertext: the plaintext, or nothing when authentication
/// fails; it depends on those three alone.
pub uninterp spec fn chacha_plaintext_of(
    key: Seq<u8>,
    nonce: Seq<u8>,
    ciphertext: Seq<u8>,
) -> Option<Seq<u8>>;

/// What SHA-256 returns for a byte string; it depends on the bytes alone.
pub uninterp spec fn sha256_of(bytes: Seq<u8>) -> Seq<u8>;

/// A key derived as this machine's: the digest of some identifier text.
pub open spec fn is_machine_key(key: Seq<u8>) -> bool {
    exists|id: Seq<char>| key == sha256_of(vstd::utf8::encode_utf8(id))
}

/// Relies on `machine_uid::machine_id::get_machine_id`: reads the OS's
/// stable machine identifier.  The value depends on the host, so nothing
/// is promised of it.
#[verifier::external_body]
fn read_machine_id() -> Result<String, String> {
    machine_uid::machine_id::get_machine_id().map_err(|e| e.to_string())
}

/// Relies on `sha2::Sha256::digest`: the 32-byte SHA-256 digest, a function
/// of the input bytes alone.
#[verifier::external_body]
fn sha256(bytes: &[u8]) -> (r: Vec<u8>)
    ensures
        r@ == sha256_of(bytes@),
        r@.len() == 32,
{
    sha2::Sha256::digest(bytes).to_vec()
}

/// Relies on `crypto_common::Generate` for `chacha20poly1305::Nonce`:
/// 12 fresh bytes from the system RNG; being random, nothing else is
/// promised of them.
#[verifier::external_body]
fn generate_nonce() -> (r: Option<Vec<u8>>)
    ensures
        r matches Some(v) ==> v@.len() == 12,
{
    match chacha20poly1305::Nonce::try_generate() {
        Ok(nonce) => Some(nonce.to_vec()),
        Err(_) => None,
    }
}

/// Relies on `chacha20poly1305`'s `Aead::encrypt`: deterministic in key,
/// nonce and plaintext, and inverted by `Aead::decrypt` under the same key
/// and nonce (RFC 8439 authenticated encryption).  It fails only on a
/// message long enough to exhaust the ChaCha20 block counter.
#[verifier::external_body]
fn chacha_encrypt(key: &[u8], nonce: &[u8], plaintext: &[u8]) -> (r: Option<Vec<u8>>)
    requires
        key@.len() == 32,
        nonce@.len() == 12,
    ensures
        plaintext@.len() / 64 < 0xffff_ffff ==> r is Some,
        r matches Some(c) ==> c@ == chacha_ciphertext_of(key@, nonce@, plaintext@)
            && chacha_plaintext_of(key@, nonce@, c@) == Some(plaintext@),
{
    let key: &chacha20poly1305::Key = match key.try_into() {
        Ok(k) => k,
        Err(_) => {
            return None;
        },
    };
    let nonce: &chacha20poly1305::Nonce = match nonce.try_into() {
        Ok(n) => n,
        Err(_) => {
            return None;
        },
    };
    chacha20poly1305::ChaCha20Poly1305::new(key).encrypt(nonce, plaintext).ok()
}

/// Relies on `chacha20poly1305`'s `Aead::decrypt`: authenticated decryption
/// returns the plaintext exactly when key, nonce and ciphertext authenticate
/// together, and fails otherwise.
#[verifier::external_body]
fn chacha_decrypt(key: &[u8], nonce: &[u8], ciphertext: &[u8]) -> (r: Option<Vec<u8>>)
    requires
        key@.len() == 32,
        nonce@.len() == 12,
    ensures
        (r is Some) == (chacha_plaintext_of(key@, nonce@, ciphertext@) is Some),
        r matches Some(p) ==> chacha_plaintext_of(key@, nonce@, ciphertext@) == Some(p@),
{
    let key: &chacha20poly1305::Key = match key.try_into() {
        Ok(k) => k,
        Err(_) => {
            return None;
        },
    };
    let nonce: &chacha20poly1305::Nonce = match nonce.try_into() {
        Ok(n) => n,
        Err(_) => {
            return None;
        },
    };
    chacha20poly1305::ChaCha20Poly1305::new(key).decrypt(nonce, ciphertext).ok()
}

/// A machine-bound protected secret: the nonce drawn at encryption time
/// and the ciphertext of the plaintext under the machine key.
#[derive(Debug)]
pub struct LocalMachineDataProtection {
    pub nonce: Vec<u8>,
    pub secret: Vec<u8>,
}

/// `p` is a faithful protection of `plaintext` under `key`: its ciphertext
/// is the encryption under its own nonce, and decrypting it gives the
/// plaintext back.
pub open spec fn protects(key: Seq<u8>, plaintext: Seq<u8>, p: LocalMachineDataProtection) -> bool {
    &&& p.nonce@.len() == 12
    &&& p.secret@ == chacha_ciphertext_of(key, p.nonce@, plaintext)
    &&& chacha_plaintext_of(key, p.nonce@, p.secret@) == Some(plaintext)
}

/// What unprotecting `p` under `key` yields: the authenticated plaintext,
/// or nothing when the nonce is malformed or authentication fails.
pub open spec fn unprotect_spec(key: Seq<u8>, p: LocalMachineDataProtection) -> Option<Seq<u8>> {
    if p.nonce@.len() == 12 {
        chacha_plaintext_of(key, p.nonce@, p.secret@)
    } else {
        None
    }
}

/// This machine's protection key, when its identifier is readable.
fn machine_key() -> (r: Result<Vec<u8>, LocalMachineDataProtectionError>)
    ensures
        r matches Ok(k) ==> k@.len() == 32 && is_machine_key(k@),
{
    match read_machine_id() {
        Ok(id) => {
            let digest = sha256(id.as_str().as_bytes());
            proof {
                assert(digest@ == sha256_of(vstd::utf8::encode_utf8(id@)));
            }
            Ok(digest)
        },
        Err(message) => Err(LocalMachineDataProtectionError::MachineIdError { message }),
    }
}

impl LocalMachineDataProtection {
    /// Encrypt `plaintext` under `key` with a fresh random nonce.
    pub fn protect_with_key(key: &[u8], plaintext: &[u8]) -> (r: Result<
        LocalMachineDataProtection,
        LocalMachineDataProtectionError,
    >)
        requires
            key@.len() == 32,
        ensures
            r matches Ok(p) ==> protects(key@, plaintext@, p),
    {
        let nonce = match generate_nonce() {
            Some(n) => n,
            None => {
                return Err(LocalMachineDataProtectionError::AeadError);
            },
        };
        match chacha_encrypt(key, nonce.as_slice(), plaintext) {
            Some(secret) => Ok(LocalMachineDataProtection { nonce, secret }),
            None => Err(LocalMachineDataProtectionError::AeadError),
        }
    }

    /// Decrypt this protection under `key`.  `Ok` exactly when key, nonce
    /// and ciphertext authenticate together; never a substitute plaintext.
    pub fn unprotect_with_key(&self, key: &[u8]) -> (r: Result<
        Vec<u8>,
        LocalMachineDataProtectionError,
    >)
        requires
            key@.len() == 32,
        ensures
            (r is Ok) == (unprotect_spec(key@, *self) is Some),
            r matches Ok(b) ==> unprotect_spec(key@, *self) == Some(b@),
    {
        if self.nonce.len() != 12 {
            return Err(LocalMachineDataProtectionError::AeadError);
        }
        match chacha_decrypt(key, self.nonce.as_slice(), self.secret.as_slice()) {
            Some(b) => Ok(b),
            None => Err(LocalMachineDataProtectionError::AeadError),
        }
    }

    /// Encrypt `plaintext` under this machine's key.
    pub fn protect(plaintext: &[u8]) -> (r: Result<
        LocalMachineDataProtection,
        LocalMachineDataProtectionError,
    >)
        ensures
            r matches Ok(p) ==> exists|key: Seq<u8>|
                #![auto]
                is_machine_key(key) && protects(key, plaintext@, p),
    {
        let key = match machine_key() {
            Ok(k) => k,
            Err(e) => {
                return Err(e);
            },
        };
        let r = Self::protect_with_key(key.as_slice(), plaintext);
        proof {
            if r is Ok {
                assert(is_machine_key(key@) && protects(key@, plaintext@, r->Ok_0));
            }
        }
        r
    }

    /// Decrypt this protection under this machine's key.  A wrong machine,
    /// a corrupted blob, or an unreadable machine identity surfaces a typed
    /// error; an empty or substitute secret is never returned.
    pub fn unprotect(&self) -> (r: Result<Vec<u8>, LocalMachineDataProtectionError>)
        ensures
            r matches Ok(b) ==> exists|key: Seq<u8>|
                #![auto]
                is_machine_key(key) && unprotect_spec(key, *self) == Some(b@),
    {
        let key = match machine_key() {
            Ok(k) => k,
            Err(e) => {
                return Err(e);
            },
        };
        let r = self.unprotect_with_key(key.as_slice());
        proof {
            if r is Ok {
                assert(is_machine_key(key@) && unprotect_spec(key@, *self) == Some(r->Ok_0@));
            }
        }
        r
    }
}

/// Protecting a secret and unprotecting the result under the same key gives
/// exactly the secret back, whatever nonce the encryption drew.
pub proof fn lemma_protect_unprotect_round_trip(
    key: Seq<u8>,
    plaintext: Seq<u8>,
    p: LocalMachineDataProtection,
)
    requires
        protects(key, plaintext, p),
    ensures
        unprotect_spec(key, p) == Some(plaintext),
{
}

} // verus!
