//! Request framing: splitting a raw read chunk into preamble and payload.
//!
//! A chunk frames successfully when it is valid UTF-8 text and holds the
//! blank-line separator `\r\n\r\n`; the payload is everything after the
//! first separator.  Both failure modes are soft: the caller answers
//! `400 Bad Request` and keeps the connection open.

use vstd::prelude::*;
use vstd::slice::{slice_subrange, slice_to_vec};
use vstd::utf8::valid_utf8;

verus! {

/// Why a read chunk could not be framed.
#[derive(Clone, Copy, Debug, PartialEq, Eq, Structural)]
pub enum FrameError {
    /// The bytes are not valid UTF-8 text.
    InvalidEncoding,
    /// No blank-line separator occurs in the chunk.
    MalformedFraming,
}

/// The four-byte blank-line separator `\r\n\r\n`.
pub open spec fn separator() -> Seq<u8> {
    seq![13u8, 10u8, 13u8, 10u8]
}

/// True when the four-byte blank-line separator `\r\n\r\n` stands at `i`.
pub open spec fn sep_at(bytes: Seq<u8>, i: int) -> bool {
    &&& 0 <= i
    &&& i + 4 <= bytes.len()
    &&& bytes[i] == 13u8
    &&& bytes[i + 1] == 10u8
    &&& bytes[i + 2] == 13u8
    &&& bytes[i + 3] == 10u8
}

/// The position of the first separator at or after `k`, scanning left to
/// right.
pub open spec fn find_sep_from(bytes: Seq<u8>, k: int) -> Option<int>
    decreases bytes.len() - k,
{
    if k + 4 > bytes.len() {
        None
    } else if sep_at(bytes, k) {
        Some(k)
    } else {
        find_sep_from(bytes, k + 1)
    }
}

/// The position of the first separator in the chunk, if any.
pub open spec fn find_sep(bytes: Seq<u8>) -> Option<int> {
    find_sep_from(bytes, 0)
}

/// The payload of a framed chunk: everything after the first separator.
pub open spec fn payload_of(bytes: Seq<u8>) -> Seq<u8> {
    match find_sep(bytes) {
        Some(i) => bytes.subrange(i + 4, bytes.len() as int),
        None => Seq::empty(),
    }
}

/// Law: the scan finds the leftmost separator, and finds none exactly
/// when no position holds one.
pub proof fn lemma_find_sep_characterizes(bytes: Seq<u8>, k: int)
    ensures
        match find_sep_from(bytes, k) {
            Some(i) => {
                &&& k <= i
                &&& sep_at(bytes, i)
                &&& forall|j: int| k <= j < i ==> !sep_at(bytes, j)
            },
            None => forall|j: int| j >= k ==> !sep_at(bytes, j),
        },
    decreases bytes.len() - k,
{
    if k + 4 > bytes.len() {
    } else if sep_at(bytes, k) {
    } else {
        lemma_find_sep_characterizes(bytes, k + 1);
    }
}

/// Law: a message assembled as preamble, blank-line separator, payload
/// frames back to exactly that payload, provided no separator occurs
/// earlier in the assembled bytes (the preamble must not conspire with
/// the separator to form an earlier blank line).
pub proof fn lemma_framing_round_trip(preamble: Seq<u8>, payload: Seq<u8>)
    requires
        forall|j: int|
            0 <= j < preamble.len() ==> !sep_at(preamble + separator() + payload, j),
    ensures
        find_sep(preamble + separator() + payload) == Some(preamble.len() as int),
        payload_of(preamble + separator() + payload) == payload,
{
    let bytes = preamble + separator() + payload;
    let p = preamble.len() as int;
    assert(bytes[p] == 13u8);
    assert(bytes[p + 1] == 10u8);
    assert(bytes[p + 2] == 13u8);
    assert(bytes[p + 3] == 10u8);
    assert(sep_at(bytes, p));
    lemma_find_sep_characterizes(bytes, 0);
    match find_sep_from(bytes, 0) {
        Some(i) => {
            assert(!(i < p)) by {
                if i < p {
                    assert(sep_at(bytes, i));
                }
            }
            assert(!(i > p)) by {
                if i > p {
                    assert(!sep_at(bytes, p));
                }
            }
            assert(i == p);
        },
        None => {
            assert(!sep_at(bytes, p));
        },
    }
    assert(bytes.subrange(p + 4, bytes.len() as int) =~= payload);
}

/// Finds the first occurrence of the blank-line separator.
pub fn find_separator(bytes: &[u8]) -> (r: Option<usize>)
    ensures
        match r {
            Some(i) => find_sep(bytes@) == Some(i as int),
            None => find_sep(bytes@) is None,
        },
{
    let n = bytes.len();
    if n < 4 {
        proof {
            assert(find_sep_from(bytes@, 0) is None);
        }
        return None;
    }
    let mut k: usize = 0;
    while k <= n - 4
        invariant
            n == bytes@.len(),
            4 <= n,
            0 <= k <= n - 3,
            find_sep_from(bytes@, 0) == find_sep_from(bytes@, k as int),
        decreases n - k,
    {
        if bytes[k] == 13 && bytes[k + 1] == 10 && bytes[k + 2] == 13 && bytes[k + 3] == 10 {
            proof {
                assert(sep_at(bytes@, k as int));
                assert(find_sep_from(bytes@, k as int) == Some(k as int));
            }
            return Some(k);
        }
        proof {
            assert(!sep_at(bytes@, k as int));
            assert(find_sep_from(bytes@, k as int) == find_sep_from(bytes@, k as int + 1));
        }
        k = k + 1;
    }
    proof {
        assert(find_sep_from(bytes@, k as int) is None);
    }
    None
}

/// Relies on `core::str::from_utf8`: it returns `Ok` exactly when the
/// byte slice is valid UTF-8, as `vstd::utf8::valid_utf8` defines it.
#[verifier::external_body]
fn utf8_check(bytes: &[u8]) -> (r: bool)
    ensures
        r == valid_utf8(bytes@),
{
    core::str::from_utf8(bytes).is_ok()
}

/// Frames a raw read chunk: checks that it is text, locates the first
/// blank-line separator, and returns everything after it as the call
/// payload.
pub fn frame_request(bytes: &[u8]) -> (r: Result<Vec<u8>, FrameError>)
    ensures
        match r {
            Ok(payload) => valid_utf8(bytes@) && find_sep(bytes@) is Some && payload@
                == payload_of(bytes@),
            Err(FrameError::InvalidEncoding) => !valid_utf8(bytes@),
            Err(FrameError::MalformedFraming) => valid_utf8(bytes@) && find_sep(bytes@) is None,
        },
{
    if !utf8_check(bytes) {
        return Err(FrameError::InvalidEncoding);
    }
    match find_separator(bytes) {
        None => Err(FrameError::MalformedFraming),
        Some(i) => {
            let n = bytes.len();
            proof {
                lemma_find_sep_characterizes(bytes@, 0);
                assert(sep_at(bytes@, i as int));
            }
            let sub = slice_subrange(bytes, i + 4, n);
            Ok(slice_to_vec(sub))
        },
    }
}

} // verus!
