use vstd::prelude::*;

verus! {

/// Value of a hexadecimal digit (either case), or -1 for any other character.
pub open spec fn digit_value(c: char) -> int {
    if '0' <= c <= '9' {
        (c as int) - ('0' as int)
    } else if 'a' <= c <= 'f' {
        (c as int) - ('a' as int) + 10
    } else if 'A' <= c <= 'F' {
        (c as int) - ('A' as int) + 10
    } else {
        -1
    }
}

/// Every character of `s` is a digit below `radix`.
pub open spec fn all_digits(s: Seq<char>, radix: int) -> bool {
    forall|i: int| 0 <= i < s.len() ==> 0 <= #[trigger] digit_value(s[i]) < radix
}

/// Value of the digit string `s` in base `radix`.
pub open spec fn digits_value(s: Seq<char>, radix: int) -> int
    decreases s.len(),
{
    if s.len() == 0 {
        0
    } else {
        digits_value(s.drop_last(), radix) * radix + digit_value(s.last())
    }
}

/// A signed decimal number as `i64` reads it: an optional sign and at least one digit, the value
/// within range.
pub open spec fn decimal_i64(s: Seq<char>) -> Option<int> {
    if s.len() > 0 && s[0] == '-' {
        let d = s.drop_first();
        if d.len() > 0 && all_digits(d, 10) && digits_value(d, 10) <= 0x8000_0000_0000_0000 {
            Some(-digits_value(d, 10))
        } else {
            None
        }
    } else {
        let d = if s.len() > 0 && s[0] == '+' { s.drop_first() } else { s };
        if d.len() > 0 && all_digits(d, 10) && digits_value(d, 10) <= i64::MAX {
            Some(digits_value(d, 10))
        } else {
            None
        }
    }
}

/// An unsigned hexadecimal number as `u64` reads it: an optional `+` and at least one digit of
/// either case, the value within range.
pub open spec fn hex_u64(s: Seq<char>) -> Option<int> {
    let d = if s.len() > 0 && s[0] == '+' { s.drop_first() } else { s };
    if d.len() > 0 && all_digits(d, 16) && digits_value(d, 16) <= u64::MAX {
        Some(digits_value(d, 16))
    } else {
        None
    }
}

fn char_digit_value(c: char) -> (r: i64)
    ensures
        r == digit_value(c),
{
    if '0' <= c && c <= '9' {
        (c as u32 - '0' as u32) as i64
    } else if 'a' <= c && c <= 'f' {
        (c as u32 - 'a' as u32) as i64 + 10
    } else if 'A' <= c && c <= 'F' {
        (c as u32 - 'A' as u32) as i64 + 10
    } else {
        -1
    }
}

proof fn lemma_capped_step(v: int, cap: int, radix: int, d: int)
    requires
        v >= 0,
        cap >= 0,
        radix >= 1,
        d >= 0,
    ensures
        crate::num::min(crate::num::min(v, cap) * radix + d, cap) == crate::num::min(v * radix + d, cap),
{
    if v >= cap {
        assert(v * radix >= cap) by (nonlinear_arith)
            requires v >= cap, radix >= 1, cap >= 0;
        assert(cap * radix >= cap) by (nonlinear_arith)
            requires radix >= 1, cap >= 0;
    }
}

proof fn lemma_digits_value_nonneg(s: Seq<char>, radix: int)
    requires
        radix >= 1,
        all_digits(s, radix),
    ensures
        digits_value(s, radix) >= 0,
    decreases s.len(),
{
    if s.len() > 0 {
        assert(all_digits(s.drop_last(), radix)) by {
            assert forall|i: int| 0 <= i < s.drop_last().len() implies 0 <= #[trigger] digit_value(s.drop_last()[i]) < radix by {
                assert(s.drop_last()[i] == s[i]);
            }
        }
        lemma_digits_value_nonneg(s.drop_last(), radix);
        assert(digit_value(s[s.len() - 1]) >= 0);
        assert(digits_value(s.drop_last(), radix) * radix >= 0) by (nonlinear_arith)
            requires digits_value(s.drop_last(), radix) >= 0, radix >= 1;
    }
}

/// Reads the digits of `s` from character `start` on: `None` when one is not a digit below
/// `radix`, otherwise the value capped at `cap`.
fn read_digits(s: &str, start: usize, radix: u32, cap: u128) -> (r: Option<u128>)
    requires
        radix == 10 || radix == 16,
        start <= s@.len(),
        cap <= 0x1_0000_0000_0000_0000,
    ensures
        ({
            let d = s@.subrange(start as int, s@.len() as int);
            &&& r is None <==> !all_digits(d, radix as int)
            &&& r matches Some(v) ==> v == crate::num::min(digits_value(d, radix as int), cap as int)
        }),
{
    let n = s.unicode_len();
    let mut acc: u128 = 0;
    let mut i: usize = start;
    while i < n
        invariant
            n == s@.len(),
            start <= i <= n,
            radix == 10 || radix == 16,
            cap <= 0x1_0000_0000_0000_0000,
            all_digits(s@.subrange(start as int, i as int), radix as int),
            acc == crate::num::min(digits_value(s@.subrange(start as int, i as int), radix as int), cap as int),
        decreases n - i,
    {
        let ghost prev = s@.subrange(start as int, i as int);
        let ghost next = s@.subrange(start as int, i + 1);
        assert(next.drop_last() =~= prev);
        assert(next.last() == s@[i as int]);
        let dv = char_digit_value(s.get_char(i));
        if dv < 0 || dv >= radix as i64 {
            assert(!all_digits(s@.subrange(start as int, n as int), radix as int)) by {
                assert(s@.subrange(start as int, n as int)[i - start] == s@[i as int]);
            }
            return None;
        }
        proof {
            lemma_digits_value_nonneg(prev, radix as int);
            lemma_capped_step(digits_value(prev, radix as int), cap as int, radix as int, dv as int);
            assert forall|k: int| 0 <= k < next.len() implies 0 <= #[trigger] digit_value(next[k]) < radix as int by {
                if k < prev.len() {
                    assert(next[k] == prev[k]);
                }
            }
        }
        assert(acc * (radix as u128) <= 0x10_0000_0000_0000_0000) by (nonlinear_arith)
            requires acc <= 0x1_0000_0000_0000_0000, radix <= 16;
        let step = acc * (radix as u128) + (dv as u128);
        acc = if step < cap { step } else { cap };
        i = i + 1;
    }
    Some(acc)
}

/// Reads a signed decimal number the way `i64` parsing does.
pub fn parse_i64(s: &str) -> (r: Option<i64>)
    ensures
        r matches Some(v) ==> decimal_i64(s@) == Some(v as int),
        r is None ==> decimal_i64(s@) is None,
{
    let n = s.unicode_len();
    if n > 0 && s.get_char(0) == '-' {
        if n == 1 {
            return None;
        }
        proof {
            assert(s@.subrange(1, n as int) =~= s@.drop_first());
        }
        match read_digits(s, 1, 10, 0x8000_0000_0000_0001) {
            None => None,
            Some(v) => {
                if v > 0x8000_0000_0000_0000 {
                    None
                } else if v == 0x8000_0000_0000_0000 {
                    Some(i64::MIN)
                } else {
                    Some(-(v as i64))
                }
            },
        }
    } else {
        let start: usize = if n > 0 && s.get_char(0) == '+' { 1 } else { 0 };
        if start == n {
            return None;
        }
        proof {
            if start == 1 {
                assert(s@.subrange(1, n as int) =~= s@.drop_first());
            } else {
                assert(s@.subrange(0, n as int) =~= s@);
            }
        }
        match read_digits(s, start, 10, 0x8000_0000_0000_0000) {
            None => None,
            Some(v) => {
                if v > 0x7FFF_FFFF_FFFF_FFFF {
                    None
                } else {
                    Some(v as i64)
                }
            },
        }
    }
}

/// Reads an unsigned hexadecimal number the way `u64` parsing in base 16 does.
pub fn parse_hex_u64(s: &str) -> (r: Option<u64>)
    ensures
        r matches Some(v) ==> hex_u64(s@) == Some(v as int),
        r is None ==> hex_u64(s@) is None,
{
    let n = s.unicode_len();
    let start: usize = if n > 0 && s.get_char(0) == '+' { 1 } else { 0 };
    if start == n {
        return None;
    }
    proof {
        if start == 1 {
            assert(s@.subrange(1, n as int) =~= s@.drop_first());
        } else {
            assert(s@.subrange(0, n as int) =~= s@);
        }
    }
    match read_digits(s, start, 16, 0x1_0000_0000_0000_0000) {
        None => None,
        Some(v) => {
            if v > 0xFFFF_FFFF_FFFF_FFFF {
                None
            } else {
                Some(v as u64)
            }
        },
    }
}

} // verus!
