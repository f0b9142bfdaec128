//! Decimal numerals: parsing a port number as `u16::from_str` does (an
//! optional leading `+`, then decimal digits, value at most 65535), and
//! formatting an unsigned integer in decimal.

use vstd::prelude::*;
use vstd::string::*;
use crate::codecs::push_char;

verus! {

pub open spec fn is_dec_digit(c: char) -> bool {
    48 <= c as u32 <= 57
}

/// Value of a sequence of decimal digits (most significant first).
pub open spec fn digits_val(s: Seq<char>) -> int
    decreases s.len(),
{
    if s.len() == 0 {
        0
    } else {
        digits_val(s.drop_last()) * 10 + (s.last() as u32 - 48)
    }
}

/// The digit part of a numeral: everything after one optional leading `+`.
pub open spec fn digits_part(s: Seq<char>) -> Seq<char> {
    if s.len() > 0 && s[0] == '+' {
        s.drop_first()
    } else {
        s
    }
}

/// What `u16::from_str` accepts: at least one digit after the optional
/// sign, digits only, and a value within `u16`.
pub open spec fn parse_u16_spec(s: Seq<char>) -> Option<u16> {
    let d = digits_part(s);
    if d.len() > 0 && (forall|i: int| 0 <= i < d.len() ==> is_dec_digit(d[i])) && digits_val(d)
        <= 65535 {
        Some(digits_val(d) as u16)
    } else {
        None
    }
}

/// A port numeral, a failed parse falling back to 443.
pub open spec fn port_or_default(s: Seq<char>) -> u16 {
    match parse_u16_spec(s) {
        Some(p) => p,
        None => 443,
    }
}

proof fn lemma_digits_val_nonneg(s: Seq<char>)
    requires
        forall|i: int| 0 <= i < s.len() ==> is_dec_digit(s[i]),
    ensures
        digits_val(s) >= 0,
    decreases s.len(),
{
    if s.len() > 0 {
        lemma_digits_val_nonneg(s.drop_last());
    }
}

/// Appending digits never lowers the value.
proof fn lemma_digits_val_extend(s: Seq<char>, i: int)
    requires
        0 <= i <= s.len(),
        forall|k: int| 0 <= k < s.len() ==> is_dec_digit(s[k]),
    ensures
        digits_val(s) >= digits_val(s.subrange(0, i)),
    decreases s.len() - i,
{
    if i == s.len() {
        assert(s.subrange(0, i) =~= s);
    } else {
        lemma_digits_val_extend(s, i + 1);
        let t = s.subrange(0, i + 1);
        assert(t.drop_last() =~= s.subrange(0, i));
        lemma_digits_val_nonneg(s.subrange(0, i));
    }
}

/// Parse a port numeral; anything `u16::from_str` would reject yields 443.
pub fn parse_port(s: &str) -> (r: u16)
    ensures
        r == port_or_default(s@),
{
    let n: usize = s.unicode_len();
    let start: usize = if n > 0 && s.get_char(0) == '+' {
        1
    } else {
        0
    };
    proof {
        assert(digits_part(s@) =~= s@.subrange(start as int, n as int));
    }
    if start == n {
        return 443;
    }
    let ghost d = s@.subrange(start as int, n as int);
    let mut val: u32 = 0;
    let mut i: usize = start;
    while i < n
        invariant
            n == s@.len(),
            start <= i <= n,
            start < n,
            d == s@.subrange(start as int, n as int),
            d == digits_part(s@),
            forall|k: int| 0 <= k < i - start ==> is_dec_digit(d[k]),
            val == digits_val(d.subrange(0, i - start)),
            val <= 65535,
        decreases n - i,
    {
        let c = s.get_char(i);
        let cv = c as u32;
        proof {
            assert(d[i - start] == s@[i as int]);
        }
        if cv < 48 || cv > 57 {
            proof {
                assert(!is_dec_digit(d[i - start]));
                assert(parse_u16_spec(s@) is None);
            }
            return 443;
        }
        let dv = cv - 48;
        proof {
            let t = d.subrange(0, i - start + 1);
            assert(t.drop_last() =~= d.subrange(0, i - start));
            assert(t.last() == d[i - start]);
            assert(digits_val(t) == val * 10 + dv);
        }
        if val > 6553 || (val == 6553 && dv > 5) {
            proof {
                if forall|k: int| 0 <= k < d.len() ==> is_dec_digit(d[k]) {
                    lemma_digits_val_extend(d, i - start + 1);
                    assert(digits_val(d) > 65535);
                }
                assert(parse_u16_spec(s@) is None);
            }
            return 443;
        }
        val = val * 10 + dv;
        i = i + 1;
    }
    proof {
        assert(d.subrange(0, n - start) =~= d);
    }
    val as u16
}

pub open spec fn dec_digit_char(n: int) -> char {
    if n == 0 {
        '0'
    } else if n == 1 {
        '1'
    } else if n == 2 {
        '2'
    } else if n == 3 {
        '3'
    } else if n == 4 {
        '4'
    } else if n == 5 {
        '5'
    } else if n == 6 {
        '6'
    } else if n == 7 {
        '7'
    } else if n == 8 {
        '8'
    } else {
        '9'
    }
}

/// Decimal numeral of a nonnegative integer, without sign or padding.
pub open spec fn dec_spec(n: nat) -> Seq<char>
    decreases n,
{
    if n < 10 {
        seq![dec_digit_char(n as int)]
    } else {
        dec_spec(n / 10) + seq![dec_digit_char(n as int % 10)]
    }
}

fn digit_char(d: u64) -> (c: char)
    requires
        d < 10,
    ensures
        c == dec_digit_char(d as int),
{
    if d == 0 {
        '0'
    } else if d == 1 {
        '1'
    } else if d == 2 {
        '2'
    } else if d == 3 {
        '3'
    } else if d == 4 {
        '4'
    } else if d == 5 {
        '5'
    } else if d == 6 {
        '6'
    } else if d == 7 {
        '7'
    } else if d == 8 {
        '8'
    } else {
        '9'
    }
}

/// Format an unsigned integer in decimal.
pub fn u64_to_string(n: u64) -> (r: String)
    ensures
        r@ == dec_spec(n as nat),
    decreases n,
{
    if n < 10 {
        let mut r = String::new();
        push_char(&mut r, digit_char(n));
        proof {
            assert(Seq::<char>::empty().push(dec_digit_char(n as int)) =~= seq![
                dec_digit_char(n as int),
            ]);
        }
        r
    } else {
        let mut r = u64_to_string(n / 10);
        push_char(&mut r, digit_char(n % 10));
        proof {
            assert(dec_spec((n / 10) as nat).push(dec_digit_char((n % 10) as int)) =~= dec_spec(
                (n / 10) as nat,
            ) + seq![dec_digit_char((n % 10) as int)]);
        }
        r
    }
}

} // verus!
