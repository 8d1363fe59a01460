//! The keyed tamper-evidence primitive behind token signatures: an HMAC-SHA256
//! tag over the token payload, rendered as lowercase hex. The MAC computation
//! itself is an outside call; turning its bytes into hex characters is
//! verified here.

use vstd::prelude::*;

verus! {

/// The HMAC-SHA256 tag of `msg` under `key` (both as UTF-8 bytes): a pure
/// function of its two arguments, computed by an outside crate.
pub uninterp spec fn tag_of(key: Seq<char>, msg: Seq<char>) -> Seq<u8>;

/// Relies on hmac's `Hmac<Sha256>` (`new_from_slice`, `chain_update`,
/// `finalize`): a deterministic 32-byte MAC of the message bytes under the
/// key bytes. `new_from_slice` accepts keys of any length, so the `unwrap`
/// cannot fail.
#[verifier::external_body]
fn hmac_sha256(key: &str, msg: &str) -> (r: Vec<u8>)
    ensures
        r@ == tag_of(key@, msg@),
        r@.len() == 32,
{
    let m = <hmac::Hmac<sha2::Sha256> as hmac::KeyInit>::new_from_slice(key.as_bytes())
        .unwrap();
    let m = hmac::Mac::chain_update(m, msg.as_bytes());
    hmac::Mac::finalize(m).into_bytes().as_slice().to_vec()
}

/// The lowercase hex character for a value below 16.
pub open spec fn hex_digit(d: nat) -> char {
    if d < 10 {
        crate::text::char_of_digit(d)
    } else if d == 10 { 'a' }
    else if d == 11 { 'b' }
    else if d == 12 { 'c' }
    else if d == 13 { 'd' }
    else if d == 14 { 'e' }
    else { 'f' }
}

/// Lowercase hex rendering of a byte sequence: two characters per byte,
/// high nibble first.
pub open spec fn hex_chars(bytes: Seq<u8>) -> Seq<char>
    decreases bytes.len(),
{
    if bytes.len() == 0 {
        Seq::empty()
    } else {
        hex_chars(bytes.drop_last()) + seq![
            hex_digit((bytes.last() / 16) as nat),
            hex_digit((bytes.last() % 16) as nat),
        ]
    }
}

fn hex_digit_str(d: u8) -> (r: &'static str)
    requires
        d < 16,
    ensures
        r@ =~= seq![hex_digit(d as nat)],
{
    proof {
        reveal_strlit("a");
        reveal_strlit("b");
        reveal_strlit("c");
        reveal_strlit("d");
        reveal_strlit("e");
        reveal_strlit("f");
    }
    if d < 10 {
        crate::text::digit_str(d as u64)
    } else {
        match d {
            10 => "a",
            11 => "b",
            12 => "c",
            13 => "d",
            14 => "e",
            _ => "f",
        }
    }
}

/// Render bytes as lowercase hex.
pub fn bytes_to_hex(bytes: &Vec<u8>) -> (r: String)
    ensures
        r@ == hex_chars(bytes@),
{
    let mut out = String::new();
    let mut i: usize = 0;
    while i < bytes.len()
        invariant
            0 <= i <= bytes@.len(),
            out@ == hex_chars(bytes@.subrange(0, i as int)),
        decreases bytes@.len() - i,
    {
        let b = bytes[i];
        out.append(hex_digit_str(b / 16));
        out.append(hex_digit_str(b % 16));
        proof {
            let p = bytes@.subrange(0, i + 1);
            assert(p.drop_last() =~= bytes@.subrange(0, i as int));
            assert(p.last() == bytes@[i as int]);
            assert(out@ =~= hex_chars(p));
        }
        i += 1;
    }
    proof {
        assert(bytes@.subrange(0, bytes@.len() as int) =~= bytes@);
    }
    out
}

/// The hex-rendered signature tag of `msg` under `key`.
pub open spec fn signature_tag(key: Seq<char>, msg: Seq<char>) -> Seq<char> {
    hex_chars(tag_of(key, msg))
}

/// Compute the signature tag for a payload.
pub fn compute_signature_tag(key: &str, msg: &str) -> (r: String)
    ensures
        r@ == signature_tag(key@, msg@),
{
    let raw = hmac_sha256(key, msg);
    bytes_to_hex(&raw)
}

} // verus!
