//! Text building blocks: decimal and hexadecimal renderings of integers and
//! comparison of string slices.

use vstd::prelude::*;

verus! {

/// The ASCII digit for `d`, for `0 <= d < 10`.
pub open spec fn digit_char(d: int) -> char {
    if d == 0 { '0' }
    else if d == 1 { '1' }
    else if d == 2 { '2' }
    else if d == 3 { '3' }
    else if d == 4 { '4' }
    else if d == 5 { '5' }
    else if d == 6 { '6' }
    else if d == 7 { '7' }
    else if d == 8 { '8' }
    else { '9' }
}

/// Decimal rendering of a natural number, without leading zeros.
pub open spec fn nat_decimal(n: nat) -> Seq<char>
    decreases n,
{
    if n < 10 {
        seq![digit_char(n as int)]
    } else {
        nat_decimal(n / 10).push(digit_char((n % 10) as int))
    }
}

/// Decimal rendering of an integer, as Rust's `Display` writes it.
pub open spec fn int_decimal(n: int) -> Seq<char> {
    if n < 0 {
        seq!['-'] + nat_decimal((-n) as nat)
    } else {
        nat_decimal(n as nat)
    }
}

/// Whether a character is an ASCII decimal digit.
pub open spec fn is_digit(c: char) -> bool {
    '0' <= c <= '9'
}

/// Every character of a decimal rendering of a natural number is a digit.
pub proof fn lemma_nat_decimal_digits(n: nat)
    ensures
        nat_decimal(n).len() >= 1,
        n >= 10 ==> nat_decimal(n).len() >= 2,
        forall|i: int| 0 <= i < nat_decimal(n).len() ==> is_digit(#[trigger] nat_decimal(n)[i]),
    decreases n,
{
    if n >= 10 {
        lemma_nat_decimal_digits(n / 10);
        let p = nat_decimal(n / 10);
        assert forall|i: int| 0 <= i < nat_decimal(n).len() implies is_digit(#[trigger] nat_decimal(n)[i]) by {
            if i < p.len() {
                assert(nat_decimal(n)[i] == p[i]);
            }
        }
    }
}

/// Different natural numbers have different decimal renderings.
pub proof fn lemma_nat_decimal_injective(a: nat, b: nat)
    requires
        nat_decimal(a) == nat_decimal(b),
    ensures
        a == b,
    decreases a,
{
    lemma_nat_decimal_digits(a);
    lemma_nat_decimal_digits(b);
    if a >= 10 && b >= 10 {
        let da = nat_decimal(a);
        assert(da.drop_last() == nat_decimal(a / 10));
        assert(nat_decimal(b).drop_last() == nat_decimal(b / 10));
        assert(da.last() == digit_char((a % 10) as int));
        assert(nat_decimal(b).last() == digit_char((b % 10) as int));
        lemma_nat_decimal_injective(a / 10, b / 10);
    } else if a < 10 && b < 10 {
        assert(nat_decimal(a)[0] == digit_char(a as int));
        assert(nat_decimal(b)[0] == digit_char(b as int));
    }
}

/// No character of an integer's decimal rendering is a `.`.
pub proof fn lemma_int_decimal_has_no_dot(n: int)
    ensures
        forall|i: int| 0 <= i < int_decimal(n).len() ==> #[trigger] int_decimal(n)[i] != '.',
{
    if n < 0 {
        let d = nat_decimal((-n) as nat);
        lemma_nat_decimal_digits((-n) as nat);
        assert forall|i: int| 0 <= i < int_decimal(n).len() implies #[trigger] int_decimal(n)[i] != '.' by {
            if i > 0 {
                assert(int_decimal(n)[i] == d[i - 1]);
            }
        }
    } else {
        lemma_nat_decimal_digits(n as nat);
    }
}

/// Different integers have different decimal renderings.
pub proof fn lemma_int_decimal_injective(a: int, b: int)
    requires
        int_decimal(a) == int_decimal(b),
    ensures
        a == b,
{
    if a < 0 && b < 0 {
        assert(int_decimal(a).drop_first() == nat_decimal((-a) as nat));
        assert(int_decimal(b).drop_first() == nat_decimal((-b) as nat));
        lemma_nat_decimal_injective((-a) as nat, (-b) as nat);
    } else if a >= 0 && b >= 0 {
        lemma_nat_decimal_injective(a as nat, b as nat);
    } else if a < 0 {
        lemma_nat_decimal_digits(b as nat);
        assert(int_decimal(a)[0] == '-');
        assert(is_digit(int_decimal(b)[0]));
    } else {
        lemma_nat_decimal_digits(a as nat);
        assert(int_decimal(b)[0] == '-');
        assert(is_digit(int_decimal(a)[0]));
    }
}

/// A common prefix and suffix can be cancelled from equal sequences.
pub proof fn lemma_cancel_affixes(prefix: Seq<char>, x: Seq<char>, y: Seq<char>, suffix: Seq<char>)
    requires
        prefix + x + suffix == prefix + y + suffix,
    ensures
        x == y,
{
    let l = prefix + x + suffix;
    let r = prefix + y + suffix;
    assert(l.len() == r.len());
    assert(l.subrange(prefix.len() as int, (prefix.len() + x.len()) as int) =~= x);
    assert(r.subrange(prefix.len() as int, (prefix.len() + y.len()) as int) =~= y);
}

fn digit_str(d: u64) -> (r: &'static str)
    requires
        d < 10,
    ensures
        r@ == seq![digit_char(d as int)],
{
    proof {
        reveal_strlit("0");
        reveal_strlit("1");
        reveal_strlit("2");
        reveal_strlit("3");
        reveal_strlit("4");
        reveal_strlit("5");
        reveal_strlit("6");
        reveal_strlit("7");
        reveal_strlit("8");
        reveal_strlit("9");
    }
    if d == 0 { "0" }
    else if d == 1 { "1" }
    else if d == 2 { "2" }
    else if d == 3 { "3" }
    else if d == 4 { "4" }
    else if d == 5 { "5" }
    else if d == 6 { "6" }
    else if d == 7 { "7" }
    else if d == 8 { "8" }
    else { "9" }
}

/// Appends the decimal rendering of `n` to `s`.
pub fn push_decimal(s: &mut String, n: u64)
    ensures
        final(s)@ == old(s)@ + nat_decimal(n as nat),
    decreases n,
{
    if n >= 10 {
        push_decimal(s, n / 10);
    }
    s.append(digit_str(n % 10));
    assert(final(s)@ == old(s)@ + nat_decimal(n as nat)) by {
        if n >= 10 {
            assert(nat_decimal(n as nat) == nat_decimal((n / 10) as nat).push(digit_char((n % 10) as int)));
        }
    }
}

/// Appends the decimal rendering of a signed 32-bit integer to `s`.
pub fn push_i32_decimal(s: &mut String, n: i32)
    ensures
        final(s)@ == old(s)@ + int_decimal(n as int),
{
    if n < 0 {
        proof { reveal_strlit("-"); }
        s.append("-");
        let magnitude: i64 = -(n as i64);
        push_decimal(s, magnitude as u64);
    } else {
        push_decimal(s, n as u64);
    }
}

/// The hexadecimal digit for `d`, for `0 <= d < 16`, in upper or lower case.
pub open spec fn hex_char(d: int, upper: bool) -> char {
    if d < 10 {
        digit_char(d)
    } else if upper {
        if d == 10 { 'A' } else if d == 11 { 'B' } else if d == 12 { 'C' }
        else if d == 13 { 'D' } else if d == 14 { 'E' } else { 'F' }
    } else {
        if d == 10 { 'a' } else if d == 11 { 'b' } else if d == 12 { 'c' }
        else if d == 13 { 'd' } else if d == 14 { 'e' } else { 'f' }
    }
}

/// The last `count` hexadecimal digits of `n`, zero-padded on the left
/// (that is, `n mod 16^count` written with exactly `count` digits).
pub open spec fn hex_digits(n: nat, count: nat, upper: bool) -> Seq<char>
    decreases count,
{
    if count == 0 {
        seq![]
    } else {
        hex_digits(n / 16, (count - 1) as nat, upper).push(hex_char((n % 16) as int, upper))
    }
}

/// Lower-case hexadecimal rendering of a byte string, two digits per byte.
pub open spec fn bytes_hex_lower(bytes: Seq<u8>) -> Seq<char>
    decreases bytes.len(),
{
    if bytes.len() == 0 {
        seq![]
    } else {
        bytes_hex_lower(bytes.drop_last()) + hex_digits(bytes.last() as nat, 2, false)
    }
}

fn hex_str(d: u128, upper: bool) -> (r: &'static str)
    requires
        d < 16,
    ensures
        r@ == seq![hex_char(d as int, upper)],
{
    if d < 10 {
        return digit_str(d as u64);
    }
    proof {
        reveal_strlit("A");
        reveal_strlit("B");
        reveal_strlit("C");
        reveal_strlit("D");
        reveal_strlit("E");
        reveal_strlit("F");
        reveal_strlit("a");
        reveal_strlit("b");
        reveal_strlit("c");
        reveal_strlit("d");
        reveal_strlit("e");
        reveal_strlit("f");
    }
    if upper {
        if d == 10 { "A" } else if d == 11 { "B" } else if d == 12 { "C" }
        else if d == 13 { "D" } else if d == 14 { "E" } else { "F" }
    } else {
        if d == 10 { "a" } else if d == 11 { "b" } else if d == 12 { "c" }
        else if d == 13 { "d" } else if d == 14 { "e" } else { "f" }
    }
}

/// Appends the last `count` hexadecimal digits of `n` to `s`.
pub fn push_hex(s: &mut String, n: u128, count: u32, upper: bool)
    ensures
        final(s)@ == old(s)@ + hex_digits(n as nat, count as nat, upper),
    decreases count,
{
    if count > 0 {
        push_hex(s, n / 16, count - 1, upper);
        s.append(hex_str(n % 16, upper));
    }
}

/// Appends the lower-case hexadecimal rendering of `bytes` to `s`.
pub fn push_bytes_hex_lower(s: &mut String, bytes: &[u8])
    ensures
        final(s)@ == old(s)@ + bytes_hex_lower(bytes@),
{
    let ghost start = s@;
    let mut i: usize = 0;
    while i < bytes.len()
        invariant
            i <= bytes.len(),
            s@ == start + bytes_hex_lower(bytes@.subrange(0, i as int)),
        decreases bytes.len() - i,
    {
        push_hex(s, bytes[i] as u128, 2, false);
        assert(bytes@.subrange(0, i + 1).drop_last() == bytes@.subrange(0, i as int));
        i = i + 1;
    }
    assert(bytes@.subrange(0, bytes.len() as int) == bytes@);
}

/// Whether two string slices hold the same characters.
pub fn str_eq(a: &str, b: &str) -> (r: bool)
    ensures
        r == (a@ == b@),
{
    let n: usize = a.unicode_len();
    if n != b.unicode_len() {
        return false;
    }
    let mut i: usize = 0;
    while i < n
        invariant
            n == a@.len(),
            n == b@.len(),
            i <= n,
            forall|j: int| 0 <= j < i ==> a@[j] == b@[j],
        decreases n - i,
    {
        if a.get_char(i) != b.get_char(i) {
            return false;
        }
        i = i + 1;
    }
    assert(a@ == b@);
    true
}

} // verus!
