//! Decimal text for integer-valued JSON fields and query parameters.
//!
//! Formatting produces the canonical decimal form (no leading zeros, `-` for
//! negative values); parsing accepts exactly that form, which is what a JSON
//! integer token holds.
use vstd::prelude::*;
use vstd::string::StringExecFns;
use vstd::string::StrSliceExecFns;

use crate::json::push_char;

verus! {

pub open spec fn is_digit(c: char) -> bool {
    '0' <= c && c <= '9'
}

pub open spec fn digit_val(c: char) -> nat {
    (c as nat - '0' as nat) as nat
}

pub open spec fn digit_char(d: nat) -> char {
    if d == 0 {
        '0'
    } else if d == 1 {
        '1'
    } else if d == 2 {
        '2'
    } else if d == 3 {
        '3'
    } else if d == 4 {
        '4'
    } else if d == 5 {
        '5'
    } else if d == 6 {
        '6'
    } else if d == 7 {
        '7'
    } else if d == 8 {
        '8'
    } else {
        '9'
    }
}

/// The canonical decimal digits of a natural number, most significant first.
pub open spec fn dec_digits(n: nat) -> Seq<char>
    decreases n,
{
    if n < 10 {
        seq![digit_char(n)]
    } else {
        dec_digits(n / 10) + seq![digit_char(n % 10)]
    }
}

/// The canonical decimal form of an integer: digits, with `-` ahead of a
/// negative value.
pub open spec fn dec_int(n: int) -> Seq<char> {
    if n < 0 {
        seq!['-'] + dec_digits((-n) as nat)
    } else {
        dec_digits(n as nat)
    }
}

pub open spec fn all_digits(s: Seq<char>) -> bool {
    forall|i: int| 0 <= i < s.len() ==> is_digit(s[i])
}

/// A canonical digit string: nonempty, digits only, no leading zero.
pub open spec fn canonical_digits(s: Seq<char>) -> bool {
    &&& s.len() > 0
    &&& all_digits(s)
    &&& (s.len() > 1 ==> s[0] != '0')
}

/// The value of a digit string, most significant digit first.
pub open spec fn digits_val(s: Seq<char>) -> nat
    decreases s.len(),
{
    if s.len() == 0 {
        0
    } else {
        digits_val(s.drop_last()) * 10 + digit_val(s.last())
    }
}

/// What a JSON integer token means as a `u64`: the canonical digits of a
/// value in range, and nothing else.
pub open spec fn parse_u64(s: Seq<char>) -> Option<u64> {
    if canonical_digits(s) && digits_val(s) <= u64::MAX {
        Some(digits_val(s) as u64)
    } else {
        None
    }
}

/// What a JSON integer token means as an `i64`.
pub open spec fn parse_i64(s: Seq<char>) -> Option<i64> {
    if s.len() > 0 && s[0] == '-' {
        let m = s.skip(1);
        if canonical_digits(m) && 0 < digits_val(m) && digits_val(m) <= 0x8000000000000000 {
            Some((-(digits_val(m) as int)) as i64)
        } else {
            None
        }
    } else {
        if canonical_digits(s) && digits_val(s) <= i64::MAX {
            Some(digits_val(s) as i64)
        } else {
            None
        }
    }
}

/// What a JSON integer token means as an `i32`.
pub open spec fn parse_i32(s: Seq<char>) -> Option<i32> {
    match parse_i64(s) {
        Some(n) => if i32::MIN <= n && n <= i32::MAX {
            Some(n as i32)
        } else {
            None
        },
        None => None,
    }
}

/// What a JSON integer token means as a `usize`.
pub open spec fn parse_usize(s: Seq<char>) -> Option<usize> {
    match parse_u64(s) {
        Some(n) => if n <= usize::MAX {
            Some(n as usize)
        } else {
            None
        },
        None => None,
    }
}

// ---------------------------------------------------------------------------
// Properties of the canonical form
// ---------------------------------------------------------------------------
/// The canonical digits of any value really are canonical.
pub proof fn lemma_dec_digits_canonical(n: nat)
    ensures
        canonical_digits(dec_digits(n)),
        n > 0 ==> dec_digits(n)[0] != '0',
    decreases n,
{
    if n < 10 {
    } else {
        lemma_dec_digits_canonical(n / 10);
        let s = dec_digits(n);
        let p = dec_digits(n / 10);
        assert(s == p + seq![digit_char(n % 10)]);
        assert(forall|i: int| 0 <= i < s.len() ==> is_digit(#[trigger] s[i])) by {
            assert(forall|i: int| 0 <= i < p.len() ==> is_digit(#[trigger] p[i]));
            assert(s.last() == digit_char(n % 10));
        }
        assert(s[0] == p[0]);
    }
}

/// Reading back the canonical digits of `n` yields `n`.
pub proof fn lemma_digits_val_of_dec(n: nat)
    ensures
        digits_val(dec_digits(n)) == n,
    decreases n,
{
    if n < 10 {
        let s = seq![digit_char(n)];
        assert(s.drop_last() =~= Seq::<char>::empty());
        assert(s.last() == digit_char(n));
        assert(digits_val(Seq::<char>::empty()) == 0);
        assert(digits_val(s) == digit_val(digit_char(n)));
    } else {
        lemma_digits_val_of_dec(n / 10);
        let s = dec_digits(n);
        let p = dec_digits(n / 10);
        assert(s.drop_last() =~= p);
        assert(s.last() == digit_char(n % 10));
        assert(digit_val(digit_char(n % 10)) == n % 10);
    }
}

/// A digit string is worth at least its own prefix.
proof fn lemma_digits_val_prefix(s: Seq<char>, k: int)
    requires
        0 <= k <= s.len(),
    ensures
        digits_val(s) >= digits_val(s.take(k)),
    decreases s.len() - k,
{
    if k < s.len() {
        lemma_digits_val_prefix(s, k + 1);
        let t = s.take(k + 1);
        assert(t.drop_last() =~= s.take(k));
        assert(digits_val(t) == digits_val(s.take(k)) * 10 + digit_val(t.last()));
    } else {
        assert(s.take(k) =~= s);
    }
}

/// Formatting then parsing a `u64` round-trips.
pub proof fn lemma_parse_dec_u64(n: u64)
    ensures
        parse_u64(dec_digits(n as nat)) == Some(n),
{
    lemma_dec_digits_canonical(n as nat);
    lemma_digits_val_of_dec(n as nat);
}

/// Formatting then parsing an `i64` round-trips.
pub proof fn lemma_parse_dec_i64(n: i64)
    ensures
        parse_i64(dec_int(n as int)) == Some(n),
{
    if n < 0 {
        let m = (-(n as int)) as nat;
        lemma_dec_digits_canonical(m);
        lemma_digits_val_of_dec(m);
        let s = dec_int(n as int);
        assert(s.skip(1) =~= dec_digits(m));
    } else {
        lemma_dec_digits_canonical(n as nat);
        lemma_digits_val_of_dec(n as nat);
    }
}

/// Formatting then parsing an `i32` round-trips.
pub proof fn lemma_parse_dec_i32(n: i32)
    ensures
        parse_i32(dec_int(n as int)) == Some(n),
{
    lemma_parse_dec_i64(n as i64);
}

/// Formatting then parsing a `usize` round-trips.
pub proof fn lemma_parse_dec_usize(n: usize)
    ensures
        parse_usize(dec_digits(n as nat)) == Some(n),
{
    lemma_parse_dec_u64(n as u64);
}

// ---------------------------------------------------------------------------
// Formatting
// ---------------------------------------------------------------------------
fn digit_to_char(d: u64) -> (c: char)
    requires
        d < 10,
    ensures
        c == digit_char(d as nat),
{
    if d == 0 {
        '0'
    } else if d == 1 {
        '1'
    } else if d == 2 {
        '2'
    } else if d == 3 {
        '3'
    } else if d == 4 {
        '4'
    } else if d == 5 {
        '5'
    } else if d == 6 {
        '6'
    } else if d == 7 {
        '7'
    } else if d == 8 {
        '8'
    } else {
        '9'
    }
}

/// Formats a `u64` in canonical decimal.
#[verifier::loop_isolation(false)]
pub fn u64_to_dec(n: u64) -> (s: String)
    ensures
        s@ == dec_digits(n as nat),
{
    let mut x: u64 = n;
    let mut buf: Vec<char> = Vec::new();
    loop
        invariant
            x > 0 ==> dec_digits(n as nat) == dec_digits(x as nat) + buf@.reverse(),
            x == 0 ==> buf@.len() > 0 && dec_digits(n as nat) == buf@.reverse() || (buf@.len() == 0
                && n == 0),
        decreases x, (if buf@.len() == 0 { 1int } else { 0int }),
    {
        if x == 0 && buf.len() > 0 {
            break ;
        }
        let ghost oldx = x as nat;
        let ghost oldbuf = buf@;
        let d = x % 10;
        let c = digit_to_char(d);
        buf.push(c);
        x = x / 10;
        proof {
            assert(buf@.reverse() =~= seq![c] + oldbuf.reverse());
            if n == 0 {
                assert(dec_digits(0) == seq![digit_char(0)]);
                assert(buf@.reverse() =~= seq![c]);
            } else {
                if oldx < 10 {
                    assert(dec_digits(oldx) == seq![digit_char(oldx)]);
                } else {
                    assert(dec_digits(oldx) == dec_digits(oldx / 10) + seq![
                        digit_char(oldx % 10),
                    ]);
                    assert(dec_digits(n as nat) =~= dec_digits(x as nat) + buf@.reverse());
                }
            }
        }
    }
    let mut s = String::new();
    let mut i: usize = buf.len();
    while i > 0
        invariant
            i <= buf@.len(),
            s@ =~= buf@.skip(i as int).reverse(),
        decreases i,
    {
        i = i - 1;
        push_char(&mut s, buf[i]);
        proof {
            assert(s@ =~= buf@.skip(i as int).reverse());
        }
    }
    proof {
        assert(buf@.skip(0).reverse() =~= buf@.reverse());
    }
    s
}

/// Formats an `i64` in canonical decimal.
pub fn i64_to_dec(n: i64) -> (s: String)
    ensures
        s@ == dec_int(n as int),
{
    if n >= 0 {
        u64_to_dec(n as u64)
    } else {
        let mag: u64 = if n == i64::MIN {
            9223372036854775808u64
        } else {
            (-n) as u64
        };
        let mut s = String::new();
        push_char(&mut s, '-');
        let digits = u64_to_dec(mag);
        s.append(digits.as_str());
        proof {
            assert(s@ =~= seq!['-'] + dec_digits(mag as nat));
        }
        s
    }
}

// ---------------------------------------------------------------------------
// Parsing
// ---------------------------------------------------------------------------
/// Parses the canonical decimal form of a `u64` from `s` starting at
/// character `from`; anything else is `None`.
#[verifier::loop_isolation(false)]
fn u64_from_dec_at(s: &str, from: usize) -> (r: Option<u64>)
    requires
        from <= s@.len(),
    ensures
        r == parse_u64(s@.skip(from as int)),
{
    let ghost body = s@.skip(from as int);
    let n = s.unicode_len();
    if n == from {
        return None;
    }
    if n - from > 1 && s.get_char(from) == '0' {
        return None;
    }
    let mut val: u64 = 0;
    let mut i: usize = from;
    while i < n
        invariant
            from <= i <= n,
            val == digits_val(body.take(i - from)),
            all_digits(body.take(i - from)),
        decreases n - i,
    {
        let c = s.get_char(i);
        if c < '0' || c > '9' {
            proof {
                assert(body[i - from] == c);
                assert(!all_digits(body));
            }
            return None;
        }
        let d: u64 = (c as u32 as u64) - 48;
        proof {
            assert(d == digit_val(c));
        }
        if val > (u64::MAX - d) / 10 {
            proof {
                let t = body.take(i - from + 1);
                assert(t.drop_last() =~= body.take(i - from));
                assert(t.last() == c);
                assert(digits_val(t) == val * 10 + d);
                assert(digits_val(t) > u64::MAX);
                lemma_digits_val_prefix(body, i - from + 1);
            }
            return None;
        }
        val = val * 10 + d;
        proof {
            let t = body.take(i - from + 1);
            assert(t.drop_last() =~= body.take(i - from));
            assert(t.last() == c);
        }
        i += 1;
    }
    proof {
        assert(body.take(n - from) =~= body);
    }
    Some(val)
}

/// Parses the canonical decimal form of a `u64`.
pub fn u64_from_dec(s: &str) -> (r: Option<u64>)
    ensures
        r == parse_u64(s@),
{
    proof {
        assert(s@.skip(0) =~= s@);
    }
    u64_from_dec_at(s, 0)
}

/// Parses the canonical decimal form of an `i64`.
pub fn i64_from_dec(s: &str) -> (r: Option<i64>)
    ensures
        r == parse_i64(s@),
{
    let n = s.unicode_len();
    if n > 0 && s.get_char(0) == '-' {
        match u64_from_dec_at(s, 1) {
            Some(mag) => {
                if mag == 0 {
                    None
                } else if mag <= 0x7fffffffffffffffu64 {
                    Some(-(mag as i64))
                } else if mag == 0x8000000000000000u64 {
                    Some(i64::MIN)
                } else {
                    None
                }
            },
            None => None,
        }
    } else {
        match u64_from_dec(s) {
            Some(v) => {
                if v <= 0x7fffffffffffffffu64 {
                    Some(v as i64)
                } else {
                    None
                }
            },
            None => None,
        }
    }
}

/// Parses the canonical decimal form of an `i32`.
pub fn i32_from_dec(s: &str) -> (r: Option<i32>)
    ensures
        r == parse_i32(s@),
{
    match i64_from_dec(s) {
        Some(v) => {
            if v >= -2147483648i64 && v <= 2147483647i64 {
                Some(v as i32)
            } else {
                None
            }
        },
        None => None,
    }
}

/// Parses the canonical decimal form of a `usize`.
pub fn usize_from_dec(s: &str) -> (r: Option<usize>)
    ensures
        r == parse_usize(s@),
{
    match u64_from_dec(s) {
        Some(v) => {
            if v <= usize::MAX as u64 {
                Some(v as usize)
            } else {
                None
            }
        },
        None => None,
    }
}

} // verus!
