use vstd::prelude::*;
use vstd::string::StrSliceExecFns;
use vstd::string::StringSliceAdditionalSpecFns;
use vstd::utf8::decode_utf8;
use vstd::utf8::encode_utf8;
use vstd::utf8::encode_utf8_decode_utf8;
use vstd::utf8::encode_utf8_valid_utf8;
use vstd::utf8::valid_utf8;

use crate::buffer::from_boxed_byte_slice_raw;
use crate::handle::RawHandle;
use crate::trim::is_whitespace_char;
use crate::trim::lemma_drop_leading_ws_subrange;
use crate::trim::lemma_drop_trailing_ws_subrange;
use crate::trim::lemma_trim_ws_no_surrounding_ws;
use crate::trim::trim_ws;
use crate::trim::whitespace_char;

verus! {

/// The text a reclaim yields from a handle holding `bytes`: the octets
/// decoded as UTF-8, with surrounding whitespace removed when `trim` is set.
pub open spec fn reclaimed_text(bytes: Seq<u8>, trim: bool) -> Seq<char> {
    if trim {
        trim_ws(decode_utf8(bytes))
    } else {
        decode_utf8(bytes)
    }
}

/// Release a textual value to the host: the handle carries a copy of the
/// text's UTF-8 octets, with no terminator appended. Empty text collapses to
/// the canonical empty handle.
pub fn string_into_boxed_byte_slice_raw(src: String) -> (h: RawHandle)
    ensures
        h@ == encode_utf8(src@),
{
    if src.as_str().is_empty() {
        proof {
            assert(src@ =~= Seq::<char>::empty());
            assert(encode_utf8(src@) =~= Seq::<u8>::empty());
        }
        RawHandle::from_bytes(Vec::new())
    } else {
        RawHandle::from_bytes(src.as_str().as_bytes_vec())
    }
}

/// Relies on std::str::from_utf8: returns `Some` exactly when the octets are
/// valid UTF-8, and then a string viewing exactly those octets.
#[verifier::external_body]
fn str_from_utf8(bytes: &[u8]) -> (r: Option<&str>)
    ensures
        r is Some <==> valid_utf8(bytes@),
        r matches Some(s) ==> s.spec_bytes() == bytes@,
{
    std::str::from_utf8(bytes).ok()
}

/// `s` with leading and trailing Unicode whitespace removed, as `str::trim`
/// leaves it.
fn trim_str(s: &str) -> (t: String)
    ensures
        t@ == trim_ws(s@),
{
    let n = s.unicode_len();
    let mut start: usize = 0;
    while start < n && is_whitespace_char(s.get_char(start))
        invariant
            n == s@.len(),
            start <= n,
            forall|k: int| 0 <= k < start ==> whitespace_char(s@[k]),
        decreases n - start,
    {
        start = start + 1;
    }
    let mut end: usize = n;
    while end > start && is_whitespace_char(s.get_char(end - 1))
        invariant
            n == s@.len(),
            start <= end <= n,
            forall|k: int| end <= k < n ==> whitespace_char(s@[k]),
        decreases end,
    {
        end = end - 1;
    }
    let kept = s.substring_char(start, end);
    proof {
        lemma_drop_leading_ws_subrange(s@, start as int);
        let after_leading = s@.subrange(start as int, n as int);
        lemma_drop_trailing_ws_subrange(after_leading, end - start);
        assert(after_leading.subrange(0, end - start) =~= s@.subrange(
            start as int,
            end as int,
        ));
    }
    kept.to_owned()
}

/// Reclaim a raw handle as text, restoring the managed regime. The host is
/// bound to have supplied valid UTF-8; with `trim` set, leading and trailing
/// Unicode whitespace is removed from the result. A zero-length handle yields
/// the empty text and touches no allocation.
pub fn string_from_boxed_byte_slice_raw(h: RawHandle, trim: bool) -> (s: String)
    requires
        valid_utf8(h@),
    ensures
        s@ == reclaimed_text(h@, trim),
{
    if h.is_null() {
        proof {
            assert(h@ =~= Seq::<u8>::empty());
            assert(decode_utf8(h@) =~= Seq::<char>::empty());
            lemma_trim_ws_no_surrounding_ws(decode_utf8(h@));
        }
        return String::new();
    }
    let ghost handle_bytes = h@;
    let bytes = from_boxed_byte_slice_raw(h);
    match str_from_utf8(bytes.as_slice()) {
        Some(text) => {
            proof {
                encode_utf8_decode_utf8(text@);
                assert(decode_utf8(handle_bytes) == text@);
            }
            if trim {
                trim_str(text)
            } else {
                text.to_owned()
            }
        },
        None => {
            proof {
                assert(false);
            }
            String::new()
        },
    }
}

/// Text round-trip: releasing any text yields a handle that is valid UTF-8,
/// and reclaiming that handle untrimmed yields the text unchanged. `t` is the
/// view of the released text; the release ensures its handle views
/// `encode_utf8(t)`, and the untrimmed reclaim of that handle yields
/// `reclaimed_text(encode_utf8(t), false)`.
pub proof fn text_round_trip(t: Seq<char>)
    ensures
        valid_utf8(encode_utf8(t)),
        reclaimed_text(encode_utf8(t), false) == t,
{
    encode_utf8_valid_utf8(t);
    encode_utf8_decode_utf8(t);
}

/// Trim semantics: reclaiming a released text with trimming yields the text
/// without its leading and trailing whitespace; for text with no surrounding
/// whitespace the trimmed reclaim returns it unchanged.
pub proof fn trim_round_trip(t: Seq<char>)
    ensures
        reclaimed_text(encode_utf8(t), true) == trim_ws(t),
        (t.len() == 0 || (!whitespace_char(t.first()) && !whitespace_char(t.last())))
            ==> reclaimed_text(encode_utf8(t), true) == t,
{
    encode_utf8_decode_utf8(t);
    if t.len() == 0 || (!whitespace_char(t.first()) && !whitespace_char(t.last())) {
        lemma_trim_ws_no_surrounding_ws(t);
    }
}

} // verus!
