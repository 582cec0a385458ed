//! What the library takes from chance: the calls into `rand`.
//!
//! Nothing is proved of these two functions. A caller learns from their
//! contracts what holds of every draw, and nothing more.

use rand::distributions::Alphanumeric;
use rand::Rng;
use vstd::prelude::*;

verus! {

/// Whether `c` is an ASCII letter or digit.
pub open spec fn is_alphanumeric(c: char) -> bool {
    ('a' <= c && c <= 'z') || ('A' <= c && c <= 'Z') || ('0' <= c && c <= '9')
}

/// One draw of `rand::random::<u64>()`. Any value may come back, and two
/// draws need not agree: the contract promises nothing.
#[verifier::external_body]
pub(crate) fn random_u64() -> u64 {
    rand::random::<u64>()
}

/// `len` draws from `rand::distributions::Alphanumeric`, which gives ASCII
/// letters and digits only, as a string. The contract claims the length and
/// the kind of character, not which characters come.
#[verifier::external_body]
pub(crate) fn random_alphanumeric(len: usize) -> (text: String)
    ensures
        text@.len() == len,
        forall|i: int| 0 <= i < text@.len() ==> is_alphanumeric(#[trigger] text@[i]),
{
    rand::thread_rng().sample_iter(&Alphanumeric).take(len).map(char::from).collect()
}

} // verus!
