//! Decimal parameter-ID paths used by flat parameter collections when
//! saving and loading state: a parameter is named by its decimal ID, or by
//! `prefix/ID` inside a group.

use vstd::prelude::*;

verus! {

/// Whether a byte is an ASCII decimal digit.
pub open spec fn is_digit(b: u8) -> bool {
    48 <= b <= 57
}

/// The decimal digits of a number, most significant first, without
/// leading zeros ("0" for zero).
pub open spec fn decimal_digits(n: nat) -> Seq<u8>
    decreases n,
{
    if n < 10 {
        seq![(48 + n) as u8]
    } else {
        decimal_digits(n / 10).push((48 + n % 10) as u8)
    }
}

/// The value of a sequence of decimal digits.
pub open spec fn digits_value(s: Seq<u8>) -> nat
    decreases s.len(),
{
    if s.len() == 0 {
        0
    } else {
        digits_value(s.drop_last()) * 10 + (s.last() - 48) as nat
    }
}

/// Whether every byte is a decimal digit.
pub open spec fn all_digits(s: Seq<u8>) -> bool {
    forall|i: int| 0 <= i < s.len() ==> is_digit(#[trigger] s[i])
}

/// The `u32` that a string denotes under Rust's `u32` parsing: an optional
/// leading `+`, then one or more decimal digits, with a value that fits in
/// 32 bits; `None` for anything else.
pub open spec fn parse_u32_spec(s: Seq<u8>) -> Option<u32> {
    let body = if s.len() > 0 && s[0] == 43u8 { s.drop_first() } else { s };
    if body.len() > 0 && all_digits(body) && digits_value(body) <= u32::MAX {
        Some(digits_value(body) as u32)
    } else {
        None
    }
}

/// The path of a parameter: its decimal ID, prefixed by `prefix/` when the
/// prefix is not empty.
pub open spec fn id_path_spec(prefix: Seq<u8>, id: u32) -> Seq<u8> {
    if prefix.len() == 0 {
        decimal_digits(id as nat)
    } else {
        prefix.push(47u8) + decimal_digits(id as nat)
    }
}

proof fn lemma_decimal_digits(n: nat)
    ensures
        decimal_digits(n).len() >= 1,
        all_digits(decimal_digits(n)),
        digits_value(decimal_digits(n)) == n,
        decimal_digits(n)[0] != 48 || n == 0,
    decreases n,
{
    if n < 10 {
        let d = decimal_digits(n);
        assert(d.drop_last() =~= Seq::<u8>::empty());
        assert(digits_value(d.drop_last()) == 0);
        assert(d.last() == (48 + n) as u8);
        assert(digits_value(d) == n);
    } else {
        lemma_decimal_digits(n / 10);
        let d = decimal_digits(n);
        assert(d.drop_last() =~= decimal_digits(n / 10));
        assert(n == (n / 10) * 10 + n % 10) by (nonlinear_arith);
        assert(d.last() == (48 + n % 10) as u8);
        assert(digits_value(d) == digits_value(d.drop_last()) * 10 + (d.last() - 48) as nat);
        assert(d[0] == decimal_digits(n / 10)[0]);
        assert forall|i: int| 0 <= i < d.len() implies is_digit(#[trigger] d[i]) by {
            if i < d.len() - 1 {
                assert(d[i] == decimal_digits(n / 10)[i]);
            }
        }
    }
}

/// The decimal form of a number is made of ASCII digits only, so it holds
/// no '/' (byte 47).
pub proof fn lemma_decimal_digits_are_digits(n: nat)
    ensures
        forall|i: int| 0 <= i < decimal_digits(n).len() ==> 48 <= #[trigger] decimal_digits(n)[i] <= 57,
{
    lemma_decimal_digits(n);
}

/// Format a number in decimal.
pub fn format_u32(n: u32) -> (r: Vec<u8>)
    ensures
        r@ == decimal_digits(n as nat),
{
    let mut digits: Vec<u8> = Vec::new();
    let mut m: u32 = n;
    while m >= 10
        invariant
            m <= n,
            decimal_digits(n as nat) == decimal_digits(m as nat) + digits@.reverse(),
        decreases m,
    {
        let ghost old_digits = digits@;
        let d: u8 = (m % 10) as u8;
        digits.push(48 + d);
        proof {
            assert(decimal_digits(m as nat) == decimal_digits((m / 10) as nat).push((48 + m % 10) as u8));
            assert(digits@.reverse() =~= seq![(48 + m % 10) as u8] + old_digits.reverse());
            assert(decimal_digits((m / 10) as nat).push((48 + m % 10) as u8) + old_digits.reverse()
                =~= decimal_digits((m / 10) as nat) + (seq![(48 + m % 10) as u8] + old_digits.reverse()));
        }
        m = m / 10;
    }
    let ghost old_digits = digits@;
    digits.push(48 + m as u8);
    proof {
        assert(decimal_digits(m as nat) == seq![(48 + m) as u8]);
        assert(digits@.reverse() =~= seq![(48 + m) as u8] + old_digits.reverse());
    }
    let mut r: Vec<u8> = Vec::new();
    let mut i: usize = digits.len();
    while i > 0
        invariant
            i <= digits@.len(),
            r@ == digits@.subrange(i as int, digits@.len() as int).reverse(),
        decreases i,
    {
        i -= 1;
        r.push(digits[i]);
        proof {
            assert(digits@.subrange(i as int, digits@.len() as int).reverse() =~= digits@.subrange(
                i + 1,
                digits@.len() as int,
            ).reverse().push(digits@[i as int]));
        }
    }
    proof {
        assert(digits@.subrange(0, digits@.len() as int) =~= digits@);
    }
    r
}

/// The value of digits never decreases when a digit is appended.
proof fn lemma_digits_value_push(s: Seq<u8>, d: u8)
    requires
        is_digit(d),
    ensures
        digits_value(s.push(d)) == digits_value(s) * 10 + (d - 48) as nat,
        digits_value(s.push(d)) >= digits_value(s),
{
    assert(s.push(d).drop_last() =~= s);
}

/// Parse a byte string as Rust parses a `u32`: an optional leading `+`,
/// then decimal digits only, at least one, with a value that fits.
pub fn parse_u32(s: &[u8]) -> (r: Option<u32>)
    ensures
        r == parse_u32_spec(s@),
{
    let start: usize = if s.len() > 0 && s[0] == 43u8 {
        1
    } else {
        0
    };
    let ghost body = if s@.len() > 0 && s@[0] == 43u8 {
        s@.drop_first()
    } else {
        s@
    };
    proof {
        assert(body =~= s@.subrange(start as int, s@.len() as int));
    }
    if start >= s.len() {
        return None;
    }
    let mut value: u64 = 0;
    let mut overflow: bool = false;
    let mut i: usize = start;
    while i < s.len()
        invariant
            start <= i <= s@.len(),
            body == s@.subrange(start as int, s@.len() as int),
            body == (if s@.len() > 0 && s@[0] == 43u8 { s@.drop_first() } else { s@ }),
            body.len() > 0,
            all_digits(s@.subrange(start as int, i as int)),
            !overflow ==> value == digits_value(s@.subrange(start as int, i as int)) && value <= u32::MAX,
            overflow ==> digits_value(s@.subrange(start as int, i as int)) > u32::MAX,
        decreases s@.len() - i,
    {
        let b = s[i];
        if b < 48 || b > 57 {
            proof {
                assert(body[i - start] == b);
                assert(!is_digit(body[(i - start) as int]));
            }
            return None;
        }
        proof {
            let pre = s@.subrange(start as int, i as int);
            assert(s@.subrange(start as int, i + 1) =~= pre.push(b));
            lemma_digits_value_push(pre, b);
        }
        if !overflow {
            let next: u64 = value * 10 + (b - 48) as u64;
            if next > 0xFFFF_FFFF {
                overflow = true;
            } else {
                value = next;
            }
        }
        i += 1;
    }
    if overflow {
        None
    } else {
        Some(value as u32)
    }
}

/// The state path of a parameter: its decimal ID, or `prefix/ID` when the
/// prefix is not empty.
pub fn id_path(prefix: &[u8], id: u32) -> (r: Vec<u8>)
    ensures
        r@ == id_path_spec(prefix@, id),
{
    let digits = format_u32(id);
    if prefix.len() == 0 {
        return digits;
    }
    let mut r: Vec<u8> = vstd::slice::slice_to_vec(prefix);
    r.push(47u8);
    let mut i: usize = 0;
    while i < digits.len()
        invariant
            i <= digits@.len(),
            r@ == prefix@.push(47u8) + digits@.subrange(0, i as int),
        decreases digits@.len() - i,
    {
        r.push(digits[i]);
        proof {
            assert(digits@.subrange(0, i + 1) =~= digits@.subrange(0, i as int).push(digits@[i as int]));
        }
        i += 1;
    }
    proof {
        assert(digits@.subrange(0, digits@.len() as int) =~= digits@);
    }
    r
}

/// The decimal digits of a 32-bit number are at most ten ASCII bytes,
/// so they form valid UTF-8.
pub proof fn lemma_u32_digits_short_ascii(n: u32)
    ensures
        decimal_digits(n as nat).len() <= 10,
        vstd::utf8::valid_utf8(decimal_digits(n as nat)),
{
    assert(vstd::arithmetic::power::pow(10, 10) == 10000000000) by {
        reveal_with_fuel(vstd::arithmetic::power::pow, 11);
    }
    lemma_digits_len(n as nat, 10);
    lemma_decimal_digits(n as nat);
    let d = decimal_digits(n as nat);
    assert(d.subrange(0, 0) =~= Seq::<u8>::empty());
    assert(vstd::utf8::partial_valid_utf8(d, 0));
    assert forall|i: int| 0 <= 0 <= i < d.len() <= d.len() implies #[trigger] vstd::utf8::is_leading_byte_width_1(d[i]) by {
        assert(is_digit(d[i]));
    }
    vstd::utf8::partial_valid_utf8_extend_ascii_block(d, 0, d.len() as int);
    assert(d.subrange(0, d.len() as int) =~= d);
}

/// A number below 10^k has at most k decimal digits.
proof fn lemma_digits_len(n: nat, k: nat)
    requires
        k >= 1,
        n < vstd::arithmetic::power::pow(10, k),
    ensures
        decimal_digits(n).len() <= k,
    decreases k,
{
    vstd::arithmetic::power::lemma_pow_positive(10, k);
    if n >= 10 {
        assert(k > 1) by {
            if k == 1 {
                vstd::arithmetic::power::lemma_pow1(10);
            }
        }
        vstd::arithmetic::power::lemma_pow_adds(10, 1, (k - 1) as nat);
        vstd::arithmetic::power::lemma_pow1(10);
        assert(n / 10 < vstd::arithmetic::power::pow(10, (k - 1) as nat)) by (nonlinear_arith)
            requires
                n < 10 * vstd::arithmetic::power::pow(10, (k - 1) as nat),
        ;
        lemma_digits_len(n / 10, (k - 1) as nat);
    }
}

/// A parameter ID written in decimal parses back to the same ID.
pub proof fn lemma_format_parse_roundtrip(id: u32)
    ensures
        parse_u32_spec(decimal_digits(id as nat)) == Some(id),
{
    lemma_decimal_digits(id as nat);
}

} // verus!
