//! Daemon tokens: random generation, salted one-way hashing, verification,
//! and the append-only store of enrolled hashes.

use vstd::prelude::*;

verus! {

/// A failure while hashing a token.
#[derive(Debug, Clone)]
pub struct TokenError {
    pub message: String,
}

/// Whether argon2's password verification accepts `token` against the
/// stored `hash` string. This is a function of the two arguments alone:
/// verification re-derives the hash using the salt and parameters carried
/// inside the hash string and compares the outputs.
pub uninterp spec fn spec_token_matches(token: Seq<char>, hash: Seq<char>) -> bool;

/// Relies on argon2's `PasswordHash::new` and
/// `PasswordVerifier::verify_password`: acceptance is re-derivation and
/// comparison, so it depends on the token and hash strings alone; an
/// unparseable hash string is rejected.
#[verifier::external_body]
pub fn verify_token(token: &str, hash: &str) -> (r: bool)
    ensures
        r == spec_token_matches(token@, hash@),
{
    let parsed_hash = match argon2::PasswordHash::new(hash) {
        Ok(h) => h,
        Err(_) => return false,
    };
    argon2::PasswordVerifier::verify_password(
        &argon2::Argon2::default(),
        token.as_bytes(),
        &parsed_hash,
    )
        .is_ok()
}

/// Relies on argon2's `PasswordHasher::hash_password` with a fresh random
/// salt: per the crate's documentation, verifying the hashed password
/// against the returned hash string succeeds, whatever salt was drawn.
#[verifier::external_body]
pub fn hash_token(token: &str) -> (r: Result<String, TokenError>)
    ensures
        r matches Ok(h) ==> spec_token_matches(token@, h@),
{
    let salt = argon2::password_hash::SaltString::generate(
        &mut argon2::password_hash::rand_core::OsRng,
    );
    match argon2::PasswordHasher::hash_password(&argon2::Argon2::default(), token.as_bytes(), &salt) {
        Ok(h) => Ok(h.to_string()),
        Err(e) => Err(TokenError { message: format!("Hash error: {}", e) }),
    }
}

/// Relies on rand's `thread_rng` and `RngCore::fill_bytes`: fills the
/// buffer with random bytes; nothing is promised of the values drawn.
#[verifier::external_body]
fn random_bytes_32() -> (r: Vec<u8>)
    ensures
        r@.len() == 32,
{
    let mut bytes = [0u8; 32];
    rand::RngCore::fill_bytes(&mut rand::thread_rng(), &mut bytes);
    bytes.to_vec()
}

/// The lowercase hex encoding of a byte sequence, a function of the bytes
/// alone.
pub uninterp spec fn spec_hex_of(b: Seq<u8>) -> Seq<char>;

/// Relies on `hex::encode`: two lowercase hex digits for each byte, read
/// from the bytes alone.
#[verifier::external_body]
fn to_hex(b: &Vec<u8>) -> (r: String)
    ensures
        r@ == spec_hex_of(b@),
        r@.len() == 2 * b@.len(),
{
    hex::encode(b)
}

/// A fresh high-entropy secret: 64 hex characters covering 32 random bytes.
pub fn generate_token() -> (r: String)
    ensures
        r@.len() == 64,
{
    let bytes = random_bytes_32();
    to_hex(&bytes)
}

/// One enrollment step: a fresh token and its salted hash. The daemon will
/// keep only the hash; the client keeps the plaintext. Whatever salt was
/// drawn, the token verifies against the produced hash.
pub fn prepare_enrollment() -> (r: Result<(String, String), TokenError>)
    ensures
        r matches Ok(p) ==> p.0@.len() == 64 && spec_token_matches(p.0@, p.1@),
{
    let token = generate_token();
    let hash = match hash_token(token.as_str()) {
        Ok(h) => h,
        Err(e) => {
            return Err(e);
        },
    };
    Ok((token, hash))
}

/// The daemon's persisted set of enrolled token hashes.
#[derive(Debug, Clone)]
pub struct TokenStore {
    pub tokens: Vec<String>,
}

/// Whether the store accepts a presented token: some enrolled hash matches
/// it. An absent or empty token is always rejected.
pub open spec fn spec_store_accepts(store: TokenStore, token: Option<String>) -> bool {
    match token {
        Some(t) => t@.len() > 0 && exists|i: int|
            0 <= i < store.tokens@.len() && spec_token_matches(t@, store.tokens@[i]@),
        None => false,
    }
}

impl TokenStore {
    /// A store with no enrolled hashes; it accepts nothing.
    pub fn new() -> (r: TokenStore)
        ensures
            r.tokens@.len() == 0,
            forall|t: Option<String>| !spec_store_accepts(r, t),
    {
        TokenStore { tokens: Vec::new() }
    }

    /// Enrollment: appends the hash. Hashes are append-only; nothing is
    /// revoked or overwritten, and every previously accepted token stays
    /// accepted.
    pub fn register(&mut self, token_hash: String)
        ensures
            final(self).tokens@ == old(self).tokens@.push(token_hash),
            forall|t: Option<String>|
                spec_store_accepts(*old(self), t) ==> spec_store_accepts(*final(self), t),
    {
        self.tokens.push(token_hash);
        assert forall|t: Option<String>|
            spec_store_accepts(*old(self), t) implies spec_store_accepts(*self, t) by {
            if t is Some {
                let s = t->0;
                if s@.len() > 0 {
                    let i = choose|i: int|
                        0 <= i < old(self).tokens@.len() && spec_token_matches(
                            s@,
                            old(self).tokens@[i]@,
                        );
                    assert(self.tokens@[i]@ == old(self).tokens@[i]@);
                }
            }
        }
    }

    /// The deploy gate: accepts exactly when some enrolled hash matches the
    /// presented token; an absent or empty token is rejected outright.
    pub fn accepts(&self, token: &Option<String>) -> (r: bool)
        ensures
            r == spec_store_accepts(*self, *token),
    {
        let t = match token {
            Some(t) => t,
            None => {
                return false;
            },
        };
        if t.as_str().is_empty() {
            return false;
        }
        let n = self.tokens.len();
        let mut i: usize = 0;
        while i < n
            invariant
                i <= n,
                n == self.tokens@.len(),
                t@.len() > 0,
                token is Some,
                (*token)->0 == *t,
                forall|j: int| 0 <= j < i ==> !spec_token_matches(t@, self.tokens@[j]@),
            decreases n - i,
        {
            if verify_token(t.as_str(), self.tokens[i].as_str()) {
                assert(spec_token_matches(t@, self.tokens@[i as int]@));
                return true;
            }
            i += 1;
        }
        false
    }
}

} // verus!
