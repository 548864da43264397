//! Decimal integer strings, as the backing store reads and writes them.
//!
//! A stored scalar takes part in the `Add` operation only when it is a
//! decimal integer string as the store's integer parser accepts it: an
//! optional minus sign followed by one or more digits, no leading zero
//! unless the string is exactly one zero, no negative zero, and a value in
//! the `i64` range.

use vstd::prelude::*;
use vstd::arithmetic::div_mod::lemma_fundamental_div_mod;

verus! {

pub open spec fn is_digit(c: char) -> bool {
    '0' <= c && c <= '9'
}

pub open spec fn digit_val(c: char) -> int {
    c as int - '0' as int
}

/// The digit character for `d` in `0..10`.
pub open spec fn digit_char(d: int) -> char {
    if d == 0 {
        '0'
    } else if d == 1 {
        '1'
    } else if d == 2 {
        '2'
    } else if d == 3 {
        '3'
    } else if d == 4 {
        '4'
    } else if d == 5 {
        '5'
    } else if d == 6 {
        '6'
    } else if d == 7 {
        '7'
    } else if d == 8 {
        '8'
    } else {
        '9'
    }
}

pub open spec fn all_digits(s: Seq<char>) -> bool {
    forall|i: int| 0 <= i < s.len() ==> is_digit(#[trigger] s[i])
}

/// The value of a digit string, most significant digit first.
pub open spec fn digits_val(s: Seq<char>) -> int
    decreases s.len(),
{
    if s.len() == 0 {
        0
    } else {
        digits_val(s.drop_last()) * 10 + digit_val(s.last())
    }
}

/// A decimal integer string in the canonical form the store's parser
/// accepts: an optional minus sign, then one or more digits, the first of
/// them zero only in the string that is exactly one zero.
pub open spec fn is_dec_string(s: Seq<char>) -> bool {
    if s.len() > 0 && s[0] == '-' {
        &&& s.len() >= 2
        &&& all_digits(s.skip(1))
        &&& s[1] != '0'
    } else {
        &&& s.len() >= 1
        &&& all_digits(s)
        &&& (s.len() == 1 || s[0] != '0')
    }
}

/// The value of a decimal integer string.
pub open spec fn dec_value(s: Seq<char>) -> int {
    if s.len() > 0 && s[0] == '-' {
        -digits_val(s.skip(1))
    } else {
        digits_val(s)
    }
}

/// A decimal integer string whose value fits in `i64`.
pub open spec fn is_i64_dec(s: Seq<char>) -> bool {
    &&& is_dec_string(s)
    &&& i64::MIN <= dec_value(s) <= i64::MAX
}

/// The canonical digit string of `n >= 0`: no sign, no leading zeros.
pub open spec fn dec_digits(n: int) -> Seq<char>
    decreases n,
{
    if n < 10 {
        seq![digit_char(n)]
    } else {
        dec_digits(n / 10).push(digit_char(n % 10))
    }
}

/// The canonical decimal string of an integer.
pub open spec fn dec_repr(v: int) -> Seq<char> {
    if v < 0 {
        seq!['-'] + dec_digits(-v)
    } else {
        dec_digits(v)
    }
}

pub proof fn lemma_digits_val_nonneg(s: Seq<char>)
    requires
        all_digits(s),
    ensures
        digits_val(s) >= 0,
    decreases s.len(),
{
    if s.len() > 0 {
        assert(all_digits(s.drop_last()));
        lemma_digits_val_nonneg(s.drop_last());
    }
}

/// A digit string is worth at least any of its prefixes.
pub proof fn lemma_digits_val_prefix(s: Seq<char>, i: int)
    requires
        all_digits(s),
        0 <= i <= s.len(),
    ensures
        digits_val(s) >= digits_val(s.take(i)),
    decreases s.len(),
{
    if i < s.len() {
        assert(all_digits(s.drop_last()));
        assert(s.drop_last().take(i) =~= s.take(i));
        lemma_digits_val_prefix(s.drop_last(), i);
        lemma_digits_val_nonneg(s.drop_last());
        assert(digits_val(s) == digits_val(s.drop_last()) * 10 + digit_val(s.last()));
        assert(digits_val(s.drop_last()) * 10 >= digits_val(s.drop_last())) by (nonlinear_arith)
            requires
                digits_val(s.drop_last()) >= 0,
        ;
        assert(digit_val(s.last()) >= 0);
    } else {
        assert(s.take(i) =~= s);
    }
}

/// The canonical digit string of `n` is made of digits and is worth `n`.
pub proof fn lemma_dec_digits_val(n: int)
    requires
        n >= 0,
    ensures
        all_digits(dec_digits(n)),
        digits_val(dec_digits(n)) == n,
        dec_digits(n).len() >= 1,
        dec_digits(n)[0] != '-',
        n >= 1 ==> dec_digits(n)[0] != '0',
        n < 10 ==> dec_digits(n).len() == 1,
    decreases n,
{
    if n < 10 {
        let s = dec_digits(n);
        assert(s =~= seq![digit_char(n)]);
        assert(s.len() == 1);
        assert(s.last() == digit_char(n));
        assert(s.drop_last() =~= Seq::<char>::empty());
        assert(digits_val(s.drop_last()) == 0);
        assert(digits_val(s) == digits_val(s.drop_last()) * 10 + digit_val(s.last()));
        assert(digit_val(digit_char(n)) == n);
    } else {
        lemma_fundamental_div_mod(n, 10);
        lemma_dec_digits_val(n / 10);
        let p = dec_digits(n / 10);
        let s = dec_digits(n);
        assert(s == p.push(digit_char(n % 10)));
        assert(s.drop_last() =~= p);
        assert(s.last() == digit_char(n % 10));
        assert(digits_val(s) == digits_val(p) * 10 + digit_val(digit_char(n % 10)));
        assert(forall|i: int| 0 <= i < s.len() ==> is_digit(#[trigger] s[i])) by {
            assert(forall|i: int| 0 <= i < p.len() ==> is_digit(#[trigger] p[i]));
        }
        assert(s[0] == p[0]);
    }
}

/// The canonical decimal string of any `i64` value parses back to it.
pub proof fn lemma_dec_repr_val(v: int)
    requires
        i64::MIN <= v <= i64::MAX,
    ensures
        is_i64_dec(dec_repr(v)),
        dec_value(dec_repr(v)) == v,
{
    if v < 0 {
        lemma_dec_digits_val(-v);
        let s = dec_repr(v);
        assert(s[0] == '-');
        assert(s.skip(1) =~= dec_digits(-v));
    } else {
        lemma_dec_digits_val(v);
    }
}

/// Appends exactly the given character to the string.
///
/// Relies on `String::push` from std: pushing a character appends it.
#[verifier::external_body]
fn string_push(s: &mut String, c: char)
    ensures
        final(s)@ == old(s)@.push(c),
{
    s.push(c);
}

/// The digit character for a value below ten.
fn digit_char_exec(d: u64) -> (c: char)
    requires
        d < 10,
    ensures
        c == digit_char(d as int),
{
    if d == 0 {
        '0'
    } else if d == 1 {
        '1'
    } else if d == 2 {
        '2'
    } else if d == 3 {
        '3'
    } else if d == 4 {
        '4'
    } else if d == 5 {
        '5'
    } else if d == 6 {
        '6'
    } else if d == 7 {
        '7'
    } else if d == 8 {
        '8'
    } else {
        '9'
    }
}

/// Appends the canonical digit string of `n` to `s`.
fn push_digits(s: &mut String, n: u64)
    ensures
        final(s)@ == old(s)@ + dec_digits(n as int),
    decreases n,
{
    proof {
        lemma_fundamental_div_mod(n as int, 10);
    }
    if n >= 10 {
        push_digits(s, n / 10);
        let d = n % 10;
        string_push(s, digit_char_exec(d));
        proof {
            assert((old(s)@ + dec_digits(n as int / 10)).push(digit_char(n as int % 10)) =~= old(
                s,
            )@ + dec_digits(n as int));
        }
    } else {
        string_push(s, digit_char_exec(n));
        proof {
            assert(old(s)@.push(digit_char(n as int)) =~= old(s)@ + dec_digits(n as int));
        }
    }
}

/// Parses a decimal integer string; `None` on anything that is not a
/// decimal integer string with a value in the `i64` range.
pub fn parse_i64(s: &str) -> (r: Option<i64>)
    ensures
        match r {
            Some(v) => is_i64_dec(s@) && v as int == dec_value(s@),
            None => !is_i64_dec(s@),
        },
{
    let n = s.unicode_len();
    if n == 0 {
        return None;
    }
    let neg = s.get_char(0) == '-';
    let start: usize = if neg {
        1
    } else {
        0
    };
    if n == start {
        return None;
    }
    if s.get_char(start) == '0' && (neg || n - start > 1) {
        return None;
    }
    let limit: u64 = if neg {
        0x8000_0000_0000_0000
    } else {
        0x7fff_ffff_ffff_ffff
    };
    let mut acc: u64 = 0;
    let mut i: usize = start;
    while i < n
        invariant
            start <= i <= n,
            n == s@.len(),
            start == (if neg {
                1int
            } else {
                0int
            }),
            neg ==> s@[0] == '-',
            !neg ==> s@[0] != '-',
            n > start,
            all_digits(s@.subrange(start as int, i as int)),
            acc == digits_val(s@.subrange(start as int, i as int)),
            acc <= limit,
            limit == (if neg {
                0x8000_0000_0000_0000u64
            } else {
                0x7fff_ffff_ffff_ffffu64
            }),
        decreases n - i,
    {
        let c = s.get_char(i);
        let u = c as u32;
        if u < 48 || u > 57 {
            proof {
                let body = if neg {
                    s@.skip(1)
                } else {
                    s@
                };
                if is_dec_string(s@) {
                    assert(is_digit(body[i - start]));
                }
            }
            return None;
        }
        assert(is_digit(c) && digit_val(c) == u - 48);
        let d: u64 = (u - 48) as u64;
        if acc > (limit - d) / 10 {
            proof {
                assert(acc * 10 + d > limit) by (nonlinear_arith)
                    requires
                        acc > (limit - d) / 10,
                        d <= limit,
                ;
                let ext = s@.subrange(start as int, i + 1);
                assert(ext.drop_last() =~= s@.subrange(start as int, i as int));
                assert(ext.last() == s@[i as int]);
                assert(digits_val(ext) == acc * 10 + d);
                let body = if neg {
                    s@.skip(1)
                } else {
                    s@
                };
                if is_dec_string(s@) {
                    assert(all_digits(body));
                    assert(body.take(i + 1 - start) =~= ext);
                    lemma_digits_val_prefix(body, i + 1 - start);
                    assert(digits_val(body) > limit);
                }
            }
            return None;
        }
        proof {
            assert(acc * 10 + d <= limit) by (nonlinear_arith)
                requires
                    acc <= (limit - d) / 10,
                    d <= limit,
            ;
            let ext = s@.subrange(start as int, i + 1);
            assert(ext.drop_last() =~= s@.subrange(start as int, i as int));
            assert(ext.last() == s@[i as int]);
        }
        acc = acc * 10 + d;
        i = i + 1;
    }
    proof {
        let body = if neg {
            s@.skip(1)
        } else {
            s@
        };
        assert(s@.subrange(start as int, n as int) =~= body);
        assert(is_dec_string(s@));
    }
    if neg {
        if acc == 0x8000_0000_0000_0000 {
            Some(i64::MIN)
        } else {
            Some(-(acc as i64))
        }
    } else {
        Some(acc as i64)
    }
}

/// Renders `v` as its canonical decimal string.
pub fn format_i64(v: i64) -> (r: String)
    ensures
        r@ == dec_repr(v as int),
        is_i64_dec(r@),
        dec_value(r@) == v as int,
{
    proof {
        lemma_dec_repr_val(v as int);
    }
    let mut s = String::new();
    if v < 0 {
        string_push(&mut s, '-');
        let m: u64 = ((-(v + 1)) as u64) + 1;
        assert(m == -(v as int));
        push_digits(&mut s, m);
        proof {
            assert(s@ =~= dec_repr(v as int));
        }
    } else {
        push_digits(&mut s, v as u64);
        proof {
            assert(s@ =~= dec_repr(v as int));
        }
    }
    s
}

} // verus!
