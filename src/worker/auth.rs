//! The auth gate's header side: reading the token out of an
//! `Authorization: Bearer <token>` header.

use vstd::prelude::*;
use vstd::utf8::{
    decode_utf8, encode_utf8, encode_utf8_decode_utf8, encode_utf8_valid_utf8, is_char_boundary,
    valid_utf8,
};
use crate::worker::state::opt_text;

verus! {

/// The scheme prefix of a bearer header: `Bearer` and one space.
pub open spec fn bearer_prefix() -> Seq<char> {
    seq!['B', 'e', 'a', 'r', 'e', 'r', ' ']
}

/// The token of a header value that starts with the bearer prefix: all that
/// follows the prefix. `None` for any other value.
pub open spec fn bearer_of(h: Seq<char>) -> Option<Seq<char>> {
    if h.len() >= 7 && h.subrange(0, 7) == bearer_prefix() {
        Some(h.subrange(7, h.len() as int))
    } else {
        None
    }
}

/// The token that a request carries: none without a header, else what
/// `bearer_of` reads from it.
pub open spec fn header_token(header: Option<Seq<char>>) -> Option<Seq<char>> {
    match header {
        None => None,
        Some(h) => bearer_of(h),
    }
}

proof fn lemma_mask_low_u32(v: u32)
    requires
        v <= 0x7f,
    ensures
        v & 0x7f == v,
{
    assert(v <= 0x7f ==> v & 0x7f == v) by (bit_vector);
}

proof fn lemma_mask_low_u8(b: u8)
    requires
        b <= 0x7f,
    ensures
        b & 0x7f == b,
{
    assert(b <= 0x7f ==> b & 0x7f == b) by (bit_vector);
}

/// Encoding chars whose first `k` are ASCII gives one byte for each of them,
/// then the encoding of the rest.
proof fn lemma_encode_ascii_prefix(s: Seq<char>, k: int)
    requires
        0 <= k <= s.len(),
        forall|i: int| 0 <= i < k ==> (s[i] as u32) <= 0x7f,
    ensures
        encode_utf8(s) == Seq::new(k as nat, |i: int| (s[i] as u32) as u8) + encode_utf8(
            s.subrange(k, s.len() as int),
        ),
    decreases k,
{
    if k == 0 {
        assert(s.subrange(0, s.len() as int) =~= s);
        assert(encode_utf8(s) =~= Seq::new(0, |i: int| (s[i] as u32) as u8) + encode_utf8(s));
    } else {
        let t = s.drop_first();
        lemma_mask_low_u32(s[0] as u32);
        lemma_encode_ascii_prefix(t, k - 1);
        assert(t.subrange(k - 1, t.len() as int) =~= s.subrange(k, s.len() as int));
        assert(encode_utf8(s) =~= Seq::new(k as nat, |i: int| (s[i] as u32) as u8) + encode_utf8(
            s.subrange(k, s.len() as int),
        ));
    }
}

/// Decoding bytes whose first `k` are ASCII gives one char for each of
/// them, then the decoding of the rest; the rest starts on a char boundary.
proof fn lemma_decode_ascii_prefix(b: Seq<u8>, k: int)
    requires
        valid_utf8(b),
        0 <= k <= b.len(),
        forall|i: int| 0 <= i < k ==> b[i] <= 0x7f,
    ensures
        valid_utf8(b.subrange(k, b.len() as int)),
        is_char_boundary(b, k),
        decode_utf8(b) == Seq::new(k as nat, |i: int| b[i] as char) + decode_utf8(
            b.subrange(k, b.len() as int),
        ),
    decreases k,
{
    if k == 0 {
        assert(b.subrange(0, b.len() as int) =~= b);
        assert(decode_utf8(b) =~= Seq::new(0, |i: int| b[i] as char) + decode_utf8(b));
    } else {
        let t = b.subrange(1, b.len() as int);
        lemma_mask_low_u8(b[0]);
        lemma_decode_ascii_prefix(t, k - 1);
        assert(t.subrange(k - 1, t.len() as int) =~= b.subrange(k, b.len() as int));
        assert(decode_utf8(b) =~= Seq::new(k as nat, |i: int| b[i] as char) + decode_utf8(
            b.subrange(k, b.len() as int),
        ));
    }
}

/// The token of one header value, as `bearer_of` states it.
fn bearer_from_value(h: &str) -> (r: Option<String>)
    ensures
        opt_text(r) == bearer_of(h@),
{
    let bytes = h.as_bytes();
    proof {
        encode_utf8_valid_utf8(h@);
        encode_utf8_decode_utf8(h@);
    }
    if bytes.len() < 7 || bytes[0] != 66 || bytes[1] != 101 || bytes[2] != 97 || bytes[3] != 114
        || bytes[4] != 101 || bytes[5] != 114 || bytes[6] != 32 {
        proof {
            if h@.len() >= 7 && h@.subrange(0, 7) == bearer_prefix() {
                assert forall|i: int| 0 <= i < 7 implies (h@[i] as u32) <= 0x7f by {
                    assert(h@[i] == h@.subrange(0, 7)[i]);
                }
                assert(h@[0] == 'B' && h@[1] == 'e' && h@[2] == 'a' && h@[3] == 'r');
                assert(h@[4] == 'e' && h@[5] == 'r' && h@[6] == ' ');
                lemma_encode_ascii_prefix(h@, 7);
            }
        }
        return None;
    }
    proof {
        lemma_decode_ascii_prefix(bytes@, 7);
        assert(Seq::new(7, |i: int| bytes@[i] as char) =~= bearer_prefix());
    }
    let (_, rest) = h.split_at(7);
    proof {
        encode_utf8_decode_utf8(rest@);
        assert(h@.subrange(0, 7) =~= bearer_prefix());
        assert(h@.subrange(7, h@.len() as int) =~= rest@);
    }
    Some(rest.to_owned())
}

/// The bearer token of a request's `Authorization` header value: `None`
/// where there is no header or it does not start with `Bearer `.
pub fn get_bearer_token(header: Option<&str>) -> (r: Option<String>)
    ensures
        opt_text(r) == header_token(
            match header {
                None => None,
                Some(h) => Some(h@),
            },
        ),
{
    match header {
        None => None,
        Some(h) => bearer_from_value(h),
    }
}

} // verus!
