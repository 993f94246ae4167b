//! Assembly of a concrete proof-of-work header: the caller-supplied pre-nonce
//! and post-nonce fragments are hexadecimal text; a solve attempt splices the
//! little-endian bytes of a freshly drawn nonce between their decoded bytes.

use vstd::prelude::*;

verus! {

/// Whether `c` is an ASCII hexadecimal digit.
pub open spec fn is_hex_digit(c: char) -> bool {
    ||| 48 <= c as u32 <= 57
    ||| 97 <= c as u32 <= 102
    ||| 65 <= c as u32 <= 70
}

/// Numeric value of a hexadecimal digit.
pub open spec fn hex_digit_value(c: char) -> u8
    recommends
        is_hex_digit(c),
{
    if 48 <= c as u32 <= 57 {
        (c as u32 - 48) as u8
    } else if 97 <= c as u32 <= 102 {
        (c as u32 - 87) as u8
    } else if 65 <= c as u32 <= 70 {
        (c as u32 - 55) as u8
    } else {
        0
    }
}

/// A header fragment is well formed when it has an even number of characters,
/// all hexadecimal digits.
pub open spec fn hex_fragment_valid(s: Seq<char>) -> bool {
    &&& s.len() % 2 == 0
    &&& forall|k: int| 0 <= k < s.len() ==> is_hex_digit(s[k])
}

/// The bytes a well-formed hexadecimal fragment denotes, two digits per byte.
pub open spec fn hex_fragment_bytes(s: Seq<char>) -> Seq<u8>
    recommends
        hex_fragment_valid(s),
{
    Seq::new(
        (s.len() / 2) as nat,
        |k: int| (hex_digit_value(s[2 * k]) * 16 + hex_digit_value(s[2 * k + 1])) as u8,
    )
}

fn hex_value(c: char) -> (r: Option<u8>)
    ensures
        r is Some <==> is_hex_digit(c),
        r matches Some(v) ==> v == hex_digit_value(c) && v <= 15,
{
    let u = c as u32;
    if 48 <= u && u <= 57 {
        Some((u - 48) as u8)
    } else if 97 <= u && u <= 102 {
        Some((u - 87) as u8)
    } else if 65 <= u && u <= 70 {
        Some((u - 55) as u8)
    } else {
        None
    }
}

/// Decodes a hexadecimal header fragment into the bytes it denotes.
pub fn decode_hex_fragment(s: &str) -> (r: Option<Vec<u8>>)
    ensures
        r is Some <==> hex_fragment_valid(s@),
        r matches Some(v) ==> v@ == hex_fragment_bytes(s@),
{
    let n = s.unicode_len();
    if n % 2 != 0 {
        return None;
    }
    let mut out: Vec<u8> = Vec::new();
    let mut i: usize = 0;
    while i < n
        invariant
            i % 2 == 0,
            i <= n,
            n == s@.len(),
            n % 2 == 0,
            forall|k: int| 0 <= k < i ==> is_hex_digit(s@[k]),
            out@.len() == i as int / 2,
            forall|k: int| 0 <= k < i as int / 2 ==> out@[k] == (hex_digit_value(s@[2 * k]) * 16
                + hex_digit_value(s@[2 * k + 1])) as u8,
        decreases n - i,
    {
        let c0 = s.get_char(i);
        let c1 = s.get_char(i + 1);
        let v0 = match hex_value(c0) {
            Some(v) => v,
            None => {
                return None;
            },
        };
        let v1 = match hex_value(c1) {
            Some(v) => v,
            None => {
                return None;
            },
        };
        out.push(v0 * 16 + v1);
        i = i + 2;
    }
    proof {
        assert(out@ =~= hex_fragment_bytes(s@));
    }
    Some(out)
}

/// The proof-of-work header obtained by splicing the little-endian bytes of
/// the nonce between the decoded pre-nonce and post-nonce fragments.
pub open spec fn spec_header(pre: Seq<char>, post: Seq<char>, nonce: u64) -> Seq<u8>
    recommends
        hex_fragment_valid(pre),
        hex_fragment_valid(post),
{
    hex_fragment_bytes(pre) + vstd::bytes::spec_u64_to_le_bytes(nonce)
        + hex_fragment_bytes(post)
}

/// Builds the concrete header for one solve attempt with the given nonce.
pub fn build_header(pre: &str, post: &str, nonce: u64) -> (r: Option<Vec<u8>>)
    ensures
        r is Some <==> hex_fragment_valid(pre@) && hex_fragment_valid(post@),
        r matches Some(h) ==> h@ == spec_header(pre@, post@, nonce),
{
    let mut bytes = match decode_hex_fragment(pre) {
        Some(v) => v,
        None => {
            return None;
        },
    };
    let mut post_bytes = match decode_hex_fragment(post) {
        Some(v) => v,
        None => {
            return None;
        },
    };
    let mut nonce_bytes = vstd::bytes::u64_to_le_bytes(nonce);
    bytes.append(&mut nonce_bytes);
    bytes.append(&mut post_bytes);
    Some(bytes)
}

/// Relies on rand::random: draws one nonce; nothing is promised of its value.
#[verifier::external_body]
fn random_nonce() -> u64 {
    rand::random::<u64>()
}

/// Derives a fresh nonce and assembles the concrete header for one solve
/// attempt.  Succeeds exactly when both fragments are well-formed hexadecimal
/// text; whatever nonce was drawn, the returned header is the splice of that
/// nonce between the two decoded fragments.
pub fn get_next_header_data(pre: &str, post: &str) -> (r: Option<(u64, Vec<u8>)>)
    ensures
        r is Some <==> hex_fragment_valid(pre@) && hex_fragment_valid(post@),
        r matches Some((nonce, h)) ==> h@ == spec_header(pre@, post@, nonce),
{
    let nonce = random_nonce();
    match build_header(pre, post, nonce) {
        Some(h) => Some((nonce, h)),
        None => None,
    }
}

} // verus!
