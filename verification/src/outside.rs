//! The calls that leave this crate. Verus takes the contract of each on
//! trust; the doc comment says what is claimed.
use vstd::prelude::*;
use vstd::string::*;
use vstd::utf8::{decode_utf8, valid_utf8};

verus! {

/// `n` is where the valid UTF-8 at the front of `bytes` ends: the first `n`
/// bytes are valid, and no longer front of `bytes` is.
pub open spec fn valid_up_to(bytes: Seq<u8>, n: int) -> bool {
    &&& 0 <= n <= bytes.len()
    &&& valid_utf8(bytes.take(n))
    &&& forall|k: int| n < k <= bytes.len() ==> !valid_utf8(#[trigger] bytes.take(k))
}

/// The one index at which the valid UTF-8 at the front of `bytes` ends.
pub open spec fn utf8_error_at(bytes: Seq<u8>) -> usize {
    choose|n: usize| valid_up_to(bytes, n as int)
}

/// Only one index is where the valid front ends.
pub proof fn lemma_valid_up_to_unique(bytes: Seq<u8>, n: usize)
    requires
        valid_up_to(bytes, n as int),
    ensures
        utf8_error_at(bytes) == n,
{
    let m = utf8_error_at(bytes);
    assert(valid_up_to(bytes, m as int));
    if m < n {
        assert(!valid_utf8(bytes.take(n as int)));
    }
    if n < m {
        assert(!valid_utf8(bytes.take(m as int)));
    }
}

/// `String::from_utf8` of std, with `Utf8Error::valid_up_to` for the error.
/// Claimed: bytes that are valid UTF-8 give the string they encode; others
/// give the largest index up to which they are valid.
#[verifier::external_body]
pub(crate) fn decode(bytes: &[u8]) -> (r: Result<String, usize>)
    ensures
        match r {
            Ok(text) => valid_utf8(bytes@) && text@ == decode_utf8(bytes@),
            Err(n) => !valid_utf8(bytes@) && valid_up_to(bytes@, n as int),
        },
{
    match String::from_utf8(bytes.to_vec()) {
        Ok(text) => Ok(text),
        Err(e) => Err(e.utf8_error().valid_up_to()),
    }
}

/// `Uid::is_root` of nix. Claimed: a user id is root's exactly when it is 0.
#[verifier::external_body]
pub(crate) fn uid_is_root(uid: u32) -> (r: bool)
    ensures
        r == (uid == 0),
{
    nix::unistd::Uid::from_raw(uid).is_root()
}

/// Whether the events that a poll reported hold a hang-up.
pub open spec fn hung_up(revents: i16) -> bool {
    revents & 0x10 == 0x10
}

/// `PollFlags::contains` of nix, asked for `POLLHUP`. Claimed: it holds
/// exactly when the bit of `POLLHUP`, which is 0x10 on Linux, is set.
#[verifier::external_body]
pub(crate) fn has_hung_up(revents: i16) -> (r: bool)
    ensures
        r == hung_up(revents),
{
    nix::poll::PollFlags::from_bits_truncate(revents).contains(nix::poll::PollFlags::POLLHUP)
}

} // verus!
