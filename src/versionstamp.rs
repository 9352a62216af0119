use vstd::prelude::*;

use crate::error::KvError;

verus! {

/// The value of an ASCII hexadecimal digit of either case.
pub open spec fn hex_value(c: u8) -> Option<u8> {
    if 48 <= c <= 57 {
        Some((c - 48) as u8)
    } else if 97 <= c <= 102 {
        Some((c - 87) as u8)
    } else if 65 <= c <= 70 {
        Some((c - 55) as u8)
    } else {
        None
    }
}

/// The byte two hexadecimal digits spell, high digit first.
pub open spec fn hex_pair(hi: u8, lo: u8) -> u8 {
    (hex_value(hi)->Some_0 * 16 + hex_value(lo)->Some_0) as u8
}

/// The lowercase hexadecimal digit of a value below sixteen.
pub open spec fn lower_hex_digit(n: int) -> char {
    seq!['0', '1', '2', '3', '4', '5', '6', '7', '8', '9', 'a', 'b', 'c', 'd', 'e', 'f'][n]
}

/// Two lowercase hexadecimal digits per byte, high digit first.
pub open spec fn hex_text(b: Seq<u8>) -> Seq<char> {
    Seq::new(
        2 * b.len(),
        |i: int|
            if i % 2 == 0 {
                lower_hex_digit(b[i / 2] as int / 16)
            } else {
                lower_hex_digit(b[i / 2] as int % 16)
            },
    )
}

/// Every byte of `s` is a hexadecimal digit.
pub open spec fn all_hex(s: Seq<u8>) -> bool {
    forall|i: int| 0 <= i < s.len() ==> (#[trigger] hex_value(s[i])) is Some
}

/// Relies on faster_hex::hex_string: two lowercase hex digits per byte, high digit first.
#[verifier::external_body]
fn hex_string(src: &[u8]) -> (r: String)
    ensures
        r@ == hex_text(src@),
{
    faster_hex::hex_string(src)
}

/// Relies on faster_hex::hex_decode: with a source twice as long as the destination,
/// it succeeds exactly when every source byte is a hex digit of either case, and then
/// writes each pair's byte; on failure it writes nothing.
#[verifier::external_body]
fn hex_decode(src: &[u8], dst: &mut [u8; 10]) -> (r: bool)
    requires
        src@.len() == 20,
    ensures
        r == all_hex(src@),
        r ==> forall|i: int|
            0 <= i < 10 ==> final(dst)@[i] == hex_pair(src@[2 * i], src@[2 * i + 1]),
        !r ==> final(dst)@ == old(dst)@,
{
    faster_hex::hex_decode(src, dst).is_ok()
}

/// The versionstamp a twenty-digit hexadecimal text names.
pub fn parse_versionstamp(text: &[u8]) -> (r: Result<[u8; 10], KvError>)
    ensures
        text@.len() != 20 ==> r == Err::<[u8; 10], KvError>(KvError::InvalidVersionstampLength),
        text@.len() == 20 && !all_hex(text@) ==> r == Err::<[u8; 10], KvError>(
            KvError::InvalidVersionstamp,
        ),
        text@.len() == 20 && all_hex(text@) ==> (r matches Ok(v) && forall|i: int|
            0 <= i < 10 ==> v@[i] == hex_pair(text@[2 * i], text@[2 * i + 1])),
{
    if text.len() != 20 {
        return Err(KvError::InvalidVersionstampLength);
    }
    let mut out = [0u8; 10];
    if !hex_decode(text, &mut out) {
        return Err(KvError::InvalidVersionstamp);
    }
    Ok(out)
}

/// The twenty-digit lowercase hexadecimal text of a versionstamp.
pub fn versionstamp_to_hex(versionstamp: &[u8; 10]) -> (r: String)
    ensures
        r@ == hex_text(versionstamp@),
{
    hex_string(versionstamp.as_slice())
}

} // verus!
