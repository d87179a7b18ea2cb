//! Guest network addressing derived from the VM number.

use vstd::prelude::*;

use crate::text::{
    int_decimal,
    lemma_cancel_affixes,
    lemma_int_decimal_has_no_dot,
    lemma_int_decimal_injective,
    push_i32_decimal,
};
use crate::vm::vminfo::VMnetowrk;

verus! {

/// `n / 255` rounded toward zero, as Rust's `/` on integers does.
pub open spec fn quotient_255(n: int) -> int {
    if n >= 0 { n / 255 } else { -((-n) / 255) }
}

/// `n % 255` with the sign of `n`, as Rust's `%` on integers does.
pub open spec fn remainder_255(n: int) -> int {
    n - 255 * quotient_255(n)
}

/// Division by 255 truncated toward zero: the quotient and the remainder
/// give back `n`, and the remainder lies strictly between -255 and 255 with
/// the sign of `n`. For `n >= 0` they are the floor quotient and the
/// remainder of Euclid, so that `255 * q <= n < 255 * (q + 1)`.
pub proof fn lemma_divide_by_255(n: int)
    ensures
        255 * quotient_255(n) + remainder_255(n) == n,
        -255 < remainder_255(n) < 255,
        n >= 0 ==> 0 <= remainder_255(n) && quotient_255(n) == n / 255 && remainder_255(n) == n % 255
            && 255 * quotient_255(n) <= n < 255 * (quotient_255(n) + 1) && quotient_255(n) >= 0,
        n < 0 ==> remainder_255(n) <= 0 && 255 * (quotient_255(n) - 1) < n <= 255 * quotient_255(n)
            && quotient_255(n) <= 0,
{
    if n >= 0 {
        assert(n == 255 * (n / 255) + n % 255);
        assert(0 <= n % 255 < 255);
    } else {
        let m = -n;
        assert(m == 255 * (m / 255) + m % 255);
        assert(0 <= m % 255 < 255);
    }
}

/// The guest address of VM `seeds`: `172.16.<quotient>.<remainder>`.
pub open spec fn guest_ip(seeds: int) -> Seq<char> {
    "172.16."@ + int_decimal(quotient_255(seeds)) + "."@ + int_decimal(remainder_255(seeds))
}

/// The Firecracker interface name of VM `seeds`: `net<seeds>`.
pub open spec fn iface_name(seeds: int) -> Seq<char> {
    "net"@ + int_decimal(seeds)
}

/// The host tap device of VM `seeds`: `tap<seeds>`.
pub open spec fn tap_name(seeds: int) -> Seq<char> {
    "tap"@ + int_decimal(seeds)
}

/// The remainder and the quotient of `number` divided by 255, both rounded
/// toward zero.
pub fn calculate_mod_and_divide(number: i32) -> (r: (i32, i32))
    ensures
        r.0 == remainder_255(number as int),
        r.1 == quotient_255(number as int),
        255 * r.1 + r.0 == number,
        number >= 0 ==> 0 <= r.0 < 255 && r.1 == number / 255,
        number < 0 ==> -255 < r.0 <= 0,
{
    proof {
        lemma_divide_by_255(number as int);
    }
    let remainder: i32 = number % 255;
    let quotient: i32 = number / 255;
    (remainder, quotient)
}

fn prefixed_number(prefix: &str, n: i32) -> (r: String)
    ensures
        r@ == prefix@ + int_decimal(n as int),
{
    let mut s = String::from_str(prefix);
    push_i32_decimal(&mut s, n);
    s
}

/// The guest address text of VM `seeds`.
pub fn guest_ip_text(seeds: i32) -> (r: String)
    ensures
        r@ == guest_ip(seeds as int),
{
    let (remainder, quotient) = calculate_mod_and_divide(seeds);
    let mut s = String::from_str("172.16.");
    push_i32_decimal(&mut s, quotient);
    s.append(".");
    push_i32_decimal(&mut s, remainder);
    s
}

/// The network attachment of VM `seeds` with guest MAC address `mac`.
pub fn set_vmnetwork(seeds: i32, mac: &str) -> (r: VMnetowrk)
    ensures
        r.ip@ == guest_ip(seeds as int),
        r.iface_id@ == iface_name(seeds as int),
        r.guest_mac@ == mac@,
        r.host_dev_name@ == tap_name(seeds as int),
{
    VMnetowrk::new(
        guest_ip_text(seeds),
        prefixed_number("net", seeds),
        String::from_str(mac),
        prefixed_number("tap", seeds),
    )
}

/// A number written after a fixed prefix determines the number.
proof fn lemma_prefixed_number_injective(prefix: Seq<char>, a: int, b: int)
    requires
        prefix + int_decimal(a) == prefix + int_decimal(b),
    ensures
        a == b,
{
    assert(prefix + int_decimal(a) + Seq::<char>::empty() =~= prefix + int_decimal(a));
    assert(prefix + int_decimal(b) + Seq::<char>::empty() =~= prefix + int_decimal(b));
    lemma_cancel_affixes(prefix, int_decimal(a), int_decimal(b), Seq::<char>::empty());
    lemma_int_decimal_injective(a, b);
}

/// Two numbers written with a `.` between them determine both numbers.
proof fn lemma_dotted_pair_injective(q1: int, r1: int, q2: int, r2: int)
    requires
        int_decimal(q1) + "."@ + int_decimal(r1) == int_decimal(q2) + "."@ + int_decimal(r2),
    ensures
        q1 == q2,
        r1 == r2,
{
    let a = int_decimal(q1);
    let b = int_decimal(q2);
    let l = a + "."@ + int_decimal(r1);
    let r = b + "."@ + int_decimal(r2);
    lemma_int_decimal_has_no_dot(q1);
    lemma_int_decimal_has_no_dot(q2);
    reveal_strlit(".");
    if a.len() < b.len() {
        assert(l[a.len() as int] == '.');
        assert(r[a.len() as int] == b[a.len() as int]);
    } else if b.len() < a.len() {
        assert(r[b.len() as int] == '.');
        assert(l[b.len() as int] == a[b.len() as int]);
    } else {
        assert(l.subrange(0, a.len() as int) =~= a);
        assert(r.subrange(0, b.len() as int) =~= b);
        lemma_int_decimal_injective(q1, q2);
        assert(l.subrange((a.len() + 1) as int, l.len() as int) =~= int_decimal(r1));
        assert(r.subrange((b.len() + 1) as int, r.len() as int) =~= int_decimal(r2));
        lemma_int_decimal_injective(r1, r2);
    }
}

/// Different VM numbers get different interface names, tap devices and
/// guest addresses.
pub proof fn lemma_distinct_vms_distinct_network(s1: int, s2: int)
    requires
        s1 != s2,
    ensures
        iface_name(s1) != iface_name(s2),
        tap_name(s1) != tap_name(s2),
        guest_ip(s1) != guest_ip(s2),
{
    if iface_name(s1) == iface_name(s2) {
        lemma_prefixed_number_injective("net"@, s1, s2);
    }
    if tap_name(s1) == tap_name(s2) {
        lemma_prefixed_number_injective("tap"@, s1, s2);
    }
    if guest_ip(s1) == guest_ip(s2) {
        let p = "172.16."@;
        let x1 = int_decimal(quotient_255(s1)) + "."@ + int_decimal(remainder_255(s1));
        let x2 = int_decimal(quotient_255(s2)) + "."@ + int_decimal(remainder_255(s2));
        assert(guest_ip(s1) =~= p + x1 + Seq::<char>::empty());
        assert(guest_ip(s2) =~= p + x2 + Seq::<char>::empty());
        lemma_cancel_affixes(p, x1, x2, Seq::<char>::empty());
        lemma_dotted_pair_injective(quotient_255(s1), remainder_255(s1), quotient_255(s2), remainder_255(s2));
    }
}

} // verus!
