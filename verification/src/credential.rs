//! Accounts, and how a password is kept: salted and hashed.

use crate::chance::is_alphanumeric;
use crate::connection::UID;
use crate::message::ANONYMOUS;
use sha2::{Digest, Sha512};
use vstd::prelude::*;
use vstd::string::StringSliceAdditionalSpecFns;

verus! {

/// How many characters a salt has.
pub const SALT_LEN: usize = 5;

/// How many bytes a password hash has.
pub const HASH_LEN: usize = 64;

/// An account as the credential store keeps it.
#[derive(Debug, Clone, PartialEq, Eq)]
pub struct Account {
    pub id: UID,
    pub name: String,
    pub salt: String,
    pub hash: Vec<u8>,
}

/// An `Account` with its strings and bytes as sequences.
pub struct AccountView {
    pub id: UID,
    pub name: Seq<char>,
    pub salt: Seq<char>,
    pub hash: Seq<u8>,
}

impl View for Account {
    type V = AccountView;

    open spec fn view(&self) -> AccountView {
        AccountView { id: self.id, name: self.name@, salt: self.salt@, hash: self.hash@ }
    }
}

/// The SHA-512 digest of `data`: what `sha512` returns, by name.
pub uninterp spec fn sha512_digest(data: Seq<u8>) -> Seq<u8>;

/// The SHA-512 digest of `data`, computed by `sha2::Sha512` through
/// `Digest::new`, `update` and `finalize`. The contract names the result and
/// claims its length, 64 bytes; that it is SHA-512 is taken on trust.
#[verifier::external_body]
pub(crate) fn sha512(data: &[u8]) -> (digest: Vec<u8>)
    ensures
        digest@ == sha512_digest(data@),
        digest@.len() == HASH_LEN,
{
    let mut hasher = Sha512::new();
    hasher.update(data);
    hasher.finalize().to_vec()
}

/// What is kept of a password: the digest of the password followed by the
/// salt, both as UTF-8.
pub open spec fn salted_hash(password: Seq<char>, salt: Seq<char>) -> Seq<u8> {
    sha512_digest(vstd::utf8::encode_utf8(password + salt))
}

/// Whether `salt` is what a new account is salted with: `SALT_LEN` ASCII
/// letters or digits.
pub open spec fn is_salt(salt: Seq<char>) -> bool {
    salt.len() == SALT_LEN && forall|i: int|
        0 <= i < salt.len() ==> is_alphanumeric(#[trigger] salt[i])
}

/// The identity that a draw stands for. No account has the identity
/// `ANONYMOUS`: a draw of it stands for 1.
pub open spec fn durable_id(draw: u64) -> UID {
    if draw == ANONYMOUS {
        1
    } else {
        draw
    }
}

/// Hashes a password with a salt.
pub fn hash_password(password: &str, salt: &str) -> (hash: Vec<u8>)
    ensures
        hash@ == salted_hash(password@, salt@),
        hash@.len() == HASH_LEN,
{
    let mut salted = password.to_owned();
    salted.append(salt);
    sha512(salted.as_str().as_bytes())
}

/// Whether two byte strings are the same.
pub fn same_bytes(a: &[u8], b: &[u8]) -> (same: bool)
    ensures
        same == (a@ == b@),
{
    if a.len() != b.len() {
        return false;
    }
    let mut i: usize = 0;
    while i < a.len()
        invariant
            a@.len() == b@.len(),
            i <= a@.len(),
            a@.subrange(0, i as int) == b@.subrange(0, i as int),
        decreases a@.len() - i,
    {
        if a[i] != b[i] {
            assert(a@[i as int] != b@[i as int]);
            return false;
        }
        i += 1;
        assert(a@.subrange(0, i as int) =~= a@.subrange(0, i - 1).push(a@[i - 1]));
        assert(b@.subrange(0, i as int) =~= b@.subrange(0, i - 1).push(b@[i - 1]));
    }
    assert(a@ =~= a@.subrange(0, i as int));
    assert(b@ =~= b@.subrange(0, i as int));
    true
}

/// The identity for a draw: see `durable_id`.
pub fn identity_for(draw: u64) -> (id: UID)
    ensures
        id == durable_id(draw),
        id != ANONYMOUS,
{
    if draw == ANONYMOUS {
        1
    } else {
        draw
    }
}

impl Account {
    /// Whether `digest` is the hash that this account keeps.
    pub fn keeps(&self, digest: &[u8]) -> (b: bool)
        ensures
            b == (self.hash@ == digest@),
    {
        same_bytes(self.hash.as_slice(), digest)
    }

    /// Whether `password` is the password of this account: hashed with the
    /// account's salt, it gives the hash that the account keeps.
    pub fn admits(&self, password: &str) -> (b: bool)
        ensures
            b == (self.hash@ == salted_hash(password@, self.salt@)),
    {
        let digest = hash_password(password, self.salt.as_str());
        self.keeps(digest.as_slice())
    }
}

} // verus!
