//! Random identifiers for new micro-VMs.

use vstd::prelude::*;

use crate::text::{hex_digits, push_hex};

verus! {

/// A UUID value carries version 4 (random) in its version field and the
/// RFC 4122 variant (binary `10`) in its variant field.
pub open spec fn is_random_uuid(u: u128) -> bool {
    &&& (u / 0x1_0000_0000_0000_0000_000) % 16 == 4
    &&& (u / 0x4000_0000_0000_0000) % 4 == 2
}

/// `uuid::Uuid::new_v4`, read back through `Uuid::as_u128`. The crate's
/// source masks a random 128-bit value so that the version field reads 4 and
/// the variant bits read `10`; that is all this contract states, the other
/// 122 bits being random.
#[verifier::external_body]
fn new_v4_value() -> (r: u128)
    ensures
        is_random_uuid(r),
{
    uuid::Uuid::new_v4().as_u128()
}

/// A fresh random (version 4) UUID, as the 128-bit big-endian value of its
/// bytes.
pub fn generate_uuid() -> (r: u128)
    ensures
        is_random_uuid(r),
{
    new_v4_value()
}

/// `rand::random::<[u8; 6]>()`: six bytes drawn from the thread-local
/// generator. Nothing is stated of them.
#[verifier::external_body]
fn random_six_bytes() -> (r: [u8; 6]) {
    rand::random::<[u8; 6]>()
}

/// Two upper-case hexadecimal digits for a byte.
pub open spec fn hex_pair_upper(b: u8) -> Seq<char> {
    hex_digits(b as nat, 2, true)
}

/// A MAC address written as six colon-separated pairs of upper-case
/// hexadecimal digits, `XX:XX:XX:XX:XX:XX`.
pub open spec fn mac_text(b: Seq<u8>) -> Seq<char>
    recommends
        b.len() == 6,
{
    hex_pair_upper(b[0]) + ":"@ + hex_pair_upper(b[1]) + ":"@ + hex_pair_upper(b[2]) + ":"@
        + hex_pair_upper(b[3]) + ":"@ + hex_pair_upper(b[4]) + ":"@ + hex_pair_upper(b[5])
}

/// Writes the MAC address with the given six bytes.
pub fn format_mac(bytes: [u8; 6]) -> (r: String)
    ensures
        r@ == mac_text(bytes@),
{
    let mut s = String::new();
    push_hex(&mut s, bytes[0] as u128, 2, true);
    s.append(":");
    push_hex(&mut s, bytes[1] as u128, 2, true);
    s.append(":");
    push_hex(&mut s, bytes[2] as u128, 2, true);
    s.append(":");
    push_hex(&mut s, bytes[3] as u128, 2, true);
    s.append(":");
    push_hex(&mut s, bytes[4] as u128, 2, true);
    s.append(":");
    push_hex(&mut s, bytes[5] as u128, 2, true);
    s
}

/// A random MAC address, written as `format_mac` writes it.
pub fn generate_random_mac() -> (r: String)
    ensures
        exists|b: Seq<u8>| b.len() == 6 && r@ == mac_text(b),
{
    let bytes = random_six_bytes();
    let r = format_mac(bytes);
    assert(bytes@.len() == 6 && r@ == mac_text(bytes@));
    r
}

} // verus!
