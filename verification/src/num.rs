//! Reading integers written in decimal digits, as `str::parse` does for the
//! primitive integer types.

use vstd::prelude::*;
use crate::numerals::MAX_NUMBER_DIGITS;
use crate::text::{
    spec_is_digit, is_digit, digit_prefix_len, digit_prefix_len_from, lemma_digit_prefix_len, slice_prefix,
    slice_range, push_chars,
};

verus! {

/// Whether every character of `s` is an ASCII digit.
pub open spec fn all_digits(s: Seq<char>) -> bool {
    forall|i: int| 0 <= i < s.len() ==> spec_is_digit(#[trigger] s[i])
}

/// The value of a digit character.
pub open spec fn digit_value(c: char) -> int {
    c as int - '0' as int
}

/// The value of a sequence of decimal digits (0 for the empty one).
pub open spec fn digits_value(s: Seq<char>) -> int
    decreases s.len(),
{
    if s.len() == 0 {
        0
    } else {
        digits_value(s.drop_last()) * 10 + digit_value(s.last())
    }
}

/// What `str::parse` gives for an integer type whose values run from `min`
/// to `max`: an optional sign (`-` only where the type is signed), then at
/// least one digit and nothing else, and a value within the type's range.
pub open spec fn spec_parse_int(s: Seq<char>, signed: bool, min: int, max: int) -> Option<int> {
    let neg = s.len() > 0 && s[0] == '-' && signed;
    let body = if s.len() > 0 && (s[0] == '+' || (s[0] == '-' && signed)) { s.skip(1) } else { s };
    if body.len() == 0 || !all_digits(body) {
        None
    } else {
        let v = if neg { -digits_value(body) } else { digits_value(body) };
        if min <= v && v <= max { Some(v) } else { None }
    }
}

pub open spec fn spec_parse_u8(s: Seq<char>) -> Option<int> {
    spec_parse_int(s, false, 0, 255)
}

pub open spec fn spec_parse_u16(s: Seq<char>) -> Option<int> {
    spec_parse_int(s, false, 0, 65535)
}

pub open spec fn spec_parse_u32(s: Seq<char>) -> Option<int> {
    spec_parse_int(s, false, 0, 4294967295)
}

pub open spec fn spec_parse_i64(s: Seq<char>) -> Option<int> {
    spec_parse_int(s, true, -9223372036854775808, 9223372036854775807)
}

proof fn lemma_digits_value_nonneg(s: Seq<char>)
    requires
        all_digits(s),
    ensures
        digits_value(s) >= 0,
    decreases s.len(),
{
    if s.len() > 0 {
        assert(all_digits(s.drop_last()));
        lemma_digits_value_nonneg(s.drop_last());
        assert(spec_is_digit(s[s.len() - 1]));
    }
}

/// Reads the digits `s[from..]` as a number no greater than `bound`:
/// `None` when a character is not a digit or the value exceeds `bound`.
fn parse_digits(s: &[char], from: usize, bound: u64) -> (r: Option<u64>)
    requires
        from <= s@.len(),
    ensures
        match r {
            Some(v) => all_digits(s@.skip(from as int)) && v as int == digits_value(s@.skip(from as int))
                && v <= bound,
            None => !all_digits(s@.skip(from as int)) || digits_value(s@.skip(from as int)) > bound,
        },
{
    let ghost body = s@.skip(from as int);
    let mut acc: u64 = 0;
    let mut i: usize = from;
    let n = s.len();
    let mut over = false;
    while i < n
        invariant
            n == s@.len(),
            from <= i <= n,
            body == s@.skip(from as int),
            all_digits(body.take(i - from)),
            !over ==> acc as int == digits_value(body.take(i - from)) && acc <= bound,
            over ==> digits_value(body.take(i - from)) > bound,
        decreases n - i,
    {
        assert(body.take(i - from + 1).drop_last() =~= body.take(i - from));
        if !is_digit(s[i]) {
            assert(!spec_is_digit(body[i - from]));
            return None;
        }
        let d = (s[i] as u32 - '0' as u32) as u64;
        proof { lemma_digits_value_nonneg(body.take(i - from)); }
        if !over {
            if d > bound || acc > (bound - d) / 10 {
                assert(acc * 10 + d > bound) by (nonlinear_arith)
                    requires d > bound || acc > (bound - d) / 10, acc >= 0;
                over = true;
            } else {
                assert(acc * 10 + d <= bound) by (nonlinear_arith)
                    requires acc <= (bound - d) / 10, d <= 9;
                acc = acc * 10 + d;
            }
        } else {
            assert(digits_value(body.take(i - from)) * 10 + d > bound) by (nonlinear_arith)
                requires digits_value(body.take(i - from)) > bound, d >= 0;
        }
        i = i + 1;
    }
    assert(body.take(n - from) =~= body);
    if over { None } else { Some(acc) }
}


/// Reads an integer written with an optional sign and decimal digits, as
/// `str::parse` does for a type whose values run from `-neg_bound` (0 for an
/// unsigned type) to `pos_bound`.
fn parse_int(s: &[char], signed: bool, neg_bound: u64, pos_bound: u64) -> (r: Option<(bool, u64)>)
    requires
        !signed ==> neg_bound == 0,
    ensures
        match r {
            Some((neg, v)) => spec_parse_int(s@, signed, -(neg_bound as int), pos_bound as int)
                == Some(if neg { -(v as int) } else { v as int }),
            None => spec_parse_int(s@, signed, -(neg_bound as int), pos_bound as int) is None,
        },
{
    let n = s.len();
    let has_sign = n > 0 && (s[0] == '+' || (s[0] == '-' && signed));
    let neg = n > 0 && s[0] == '-' && signed;
    let from: usize = if has_sign { 1 } else { 0 };
    assert(s@.skip(0) =~= s@);
    if from == n {
        return None;
    }
    let bound = if neg { neg_bound } else { pos_bound };
    match parse_digits(s, from, bound) {
        Some(v) => {
            if neg && v == 0 {
                Some((false, 0))
            } else {
                Some((neg, v))
            }
        },
        None => {
            proof {
                let body = s@.skip(from as int);
                if all_digits(body) {
                    lemma_digits_value_nonneg(body);
                }
            }
            None
        },
    }
}

/// Reads a `u8` as `str::parse::<u8>` does.
pub fn parse_u8(s: &[char]) -> (r: Option<u8>)
    ensures
        match r {
            Some(v) => spec_parse_u8(s@) == Some(v as int),
            None => spec_parse_u8(s@) is None,
        },
{
    match parse_int(s, false, 0, 255) {
        Some((_, v)) => Some(v as u8),
        None => None,
    }
}

/// Reads a `u16` as `str::parse::<u16>` does.
pub fn parse_u16(s: &[char]) -> (r: Option<u16>)
    ensures
        match r {
            Some(v) => spec_parse_u16(s@) == Some(v as int),
            None => spec_parse_u16(s@) is None,
        },
{
    match parse_int(s, false, 0, 65535) {
        Some((_, v)) => Some(v as u16),
        None => None,
    }
}

/// Reads a `u32` as `str::parse::<u32>` does.
pub fn parse_u32(s: &[char]) -> (r: Option<u32>)
    ensures
        match r {
            Some(v) => spec_parse_u32(s@) == Some(v as int),
            None => spec_parse_u32(s@) is None,
        },
{
    match parse_int(s, false, 0, 4294967295) {
        Some((_, v)) => Some(v as u32),
        None => None,
    }
}

/// Reads an `i64` as `str::parse::<i64>` does.
pub fn parse_i64(s: &[char]) -> (r: Option<i64>)
    ensures
        match r {
            Some(v) => spec_parse_i64(s@) == Some(v as int),
            None => spec_parse_i64(s@) is None,
        },
{
    match parse_int(s, true, 9223372036854775808, 9223372036854775807) {
        Some((neg, v)) => {
            if neg {
                if v == 9223372036854775808 {
                    Some(i64::MIN)
                } else {
                    Some(-(v as i64))
                }
            } else {
                Some(v as i64)
            }
        },
        None => None,
    }
}

/// The number of '0' characters that start `s`.
pub open spec fn lead_zeros(s: Seq<char>) -> nat
    decreases s.len(),
{
    if s.len() > 0 && s[0] == '0' {
        1 + lead_zeros(s.skip(1))
    } else {
        0
    }
}

/// `n` zero digits.
pub open spec fn zeros(n: nat) -> Seq<char> {
    Seq::new(n, |i: int| '0')
}

/// The exponent that ends a float literal: 0 for none, else "e" or "E",
/// an optional sign and digits whose value is at most 9999.
pub open spec fn exponent_of(rest: Seq<char>) -> Option<int> {
    if rest.len() == 0 {
        Some(0)
    } else if rest[0] == 'e' || rest[0] == 'E' {
        let t = rest.skip(1);
        let neg = t.len() > 0 && t[0] == '-';
        let u = if t.len() > 0 && (t[0] == '+' || t[0] == '-') { t.skip(1) } else { t };
        if u.len() > 0 && all_digits(u) && digits_value(u) <= 9999 {
            Some(if neg { -digits_value(u) } else { digits_value(u) })
        } else {
            None
        }
    } else {
        None
    }
}

/// The digits of the whole number `sig` (digits without leading zeros)
/// times 10 to the power `shift`, where it is a whole number of at most
/// `MAX_NUMBER_DIGITS` digits ("0" for no digits).
pub open spec fn whole_part(sig: Seq<char>, shift: int) -> Option<Seq<char>> {
    if sig.len() == 0 {
        Some(seq!['0'])
    } else if shift >= 0 {
        if sig.len() + shift <= MAX_NUMBER_DIGITS {
            Some(sig + zeros(shift as nat))
        } else {
            None
        }
    } else if 0 < sig.len() + shift <= MAX_NUMBER_DIGITS && forall|i: int|
        sig.len() + shift <= i < sig.len() ==> #[trigger] sig[i] == '0' {
        Some(sig.take(sig.len() + shift))
    } else {
        None
    }
}

/// The digits, without leading zeros, of the whole number that a float
/// literal with an optional '+', digits with an optional decimal point, and
/// an optional exponent (of at most 9999) stands for; `None` for any other
/// text, for a number that is not whole, or one of more than
/// `MAX_NUMBER_DIGITS` digits.
pub open spec fn literal_integer(s: Seq<char>) -> Option<Seq<char>> {
    let b = if s.len() > 0 && s[0] == '+' { s.skip(1) } else { s };
    let (digits, a, c, rest) = mantissa_parts(b);
    match exponent_of(rest) {
        Some(e) => if a + c == 0 {
            None
        } else {
            whole_part(digits.skip(lead_zeros(digits) as int), e - c)
        },
        None => None,
    }
}

/// The mantissa of a float literal without sign: its digits before and
/// after an optional decimal point together, how many come before it and
/// after it, and the text after them.
pub open spec fn mantissa_parts(b: Seq<char>) -> (Seq<char>, nat, nat, Seq<char>) {
    let a = digit_prefix_len(b);
    let r = b.skip(a as int);
    let point = r.len() > 0 && r[0] == '.';
    let f = if point { r.skip(1) } else { Seq::empty() };
    let c = digit_prefix_len(f);
    let rest = if point { f.skip(c as int) } else { r };
    (b.take(a as int) + f.take(c as int), a, c, rest)
}

fn lead_zeros_exec(s: &[char]) -> (k: usize)
    ensures
        k == lead_zeros(s@),
        k <= s@.len(),
        k < s@.len() ==> s@[k as int] != '0',
{
    let mut i: usize = 0;
    assert(s@.skip(0) =~= s@);
    while i < s.len() && s[i] == '0'
        invariant
            i <= s@.len(),
            lead_zeros(s@) == i + lead_zeros(s@.skip(i as int)),
        decreases s.len() - i,
    {
        assert(s@.skip(i as int).skip(1) =~= s@.skip(i + 1));
        i = i + 1;
    }
    i
}

fn exponent_exec(s: &[char], from: usize) -> (r: Option<i64>)
    requires
        from <= s@.len(),
    ensures
        match r {
            Some(e) => exponent_of(s@.skip(from as int)) == Some(e as int) && -9999 <= e <= 9999,
            None => exponent_of(s@.skip(from as int)) is None,
        },
{
    let ghost rest = s@.skip(from as int);
    if from == s.len() {
        return Some(0);
    }
    if !(s[from] == 'e' || s[from] == 'E') {
        return None;
    }
    let mut k = from + 1;
    assert(rest.skip(1) =~= s@.skip(k as int));
    let neg = k < s.len() && s[k] == '-';
    if k < s.len() && (s[k] == '+' || s[k] == '-') {
        assert(s@.skip(k as int).skip(1) =~= s@.skip(k + 1));
        k = k + 1;
    }
    if k == s.len() {
        return None;
    }
    match parse_digits(s, k, 9999) {
        Some(v) => Some(if neg { -(v as i64) } else { v as i64 }),
        None => None,
    }
}

fn whole_part_exec(sig: &[char], shift: i128) -> (r: Option<Vec<char>>)
    requires
        sig@.len() == 0 || sig@[0] != '0',
        -0x1_0000_0000_0000_0000_0000 <= shift <= 10000,
    ensures
        match r {
            Some(v) => whole_part(sig@, shift as int) == Some(v@),
            None => whole_part(sig@, shift as int) is None,
        },
{
    let n = sig.len();
    if n == 0 {
        let v = vec!['0'];
        assert(v@ =~= seq!['0']);
        return Some(v);
    }
    if shift >= 0 {
        if (n as i128) + shift <= MAX_NUMBER_DIGITS as i128 {
            let mut v = slice_prefix(sig, n);
            assert(sig@.take(n as int) =~= sig@);
            let mut i: i128 = 0;
            while i < shift
                invariant
                    0 <= i <= shift,
                    shift <= MAX_NUMBER_DIGITS,
                    v@ == sig@ + zeros(i as nat),
                decreases shift - i,
            {
                v.push('0');
                assert(sig@ + zeros((i + 1) as nat) =~= (sig@ + zeros(i as nat)).push('0'));
                i = i + 1;
            }
            return Some(v);
        } else {
            return None;
        }
    }
    if !((n as i128) + shift > 0 && (n as i128) + shift <= MAX_NUMBER_DIGITS as i128) {
        return None;
    }
    let keep = ((n as i128) + shift) as usize;
    let mut i: usize = keep;
    while i < n
        invariant
            keep <= i <= n,
            n == sig@.len(),
            shift < 0,
            keep as int == sig@.len() + shift,
            0 < keep <= MAX_NUMBER_DIGITS,
            forall|j: int| keep <= j < i ==> #[trigger] sig@[j] == '0',
        decreases n - i,
    {
        if sig[i] != '0' {
            assert(!(sig@[i as int] == '0'));
            return None;
        }
        i = i + 1;
    }
    Some(slice_prefix(sig, keep))
}

fn mantissa_exec(b: &[char]) -> (r: (Vec<char>, usize, usize, usize))
    ensures
        r.3 <= b@.len(),
        r.1 + r.2 <= b@.len(),
        (r.0@, r.1 as nat, r.2 as nat, b@.skip(r.3 as int)) == mantissa_parts(b@),
{
    assert(b@.skip(0) =~= b@);
    let a = digit_prefix_len_from(b, 0);
    proof { lemma_digit_prefix_len(b@); }
    let ghost r = b@.skip(a as int);
    let point = a < b.len() && b[a] == '.';
    let mut digits = slice_prefix(b, a);
    if point {
        let c = digit_prefix_len_from(b, a + 1);
        assert(r.skip(1) =~= b@.skip(a + 1));
        proof { lemma_digit_prefix_len(b@.skip(a + 1)); }
        assert(r.skip(1).skip(c as int) =~= b@.skip(a + 1 + c));
        let fd = slice_range(b, a + 1, a + 1 + c);
        assert(fd@ =~= r.skip(1).take(c as int));
        push_chars(&mut digits, fd.as_slice());
        (digits, a, c, a + 1 + c)
    } else {
        assert(digit_prefix_len(Seq::<char>::empty()) == 0);
        assert(Seq::<char>::empty().take(0) =~= Seq::<char>::empty());
        assert(digits@ + Seq::<char>::empty() =~= digits@);
        (digits, a, 0, a)
    }
}

/// Reads the whole number that a float literal stands for (see
/// `literal_integer`).
pub fn literal_integer_exec(s: &[char]) -> (r: Option<Vec<char>>)
    ensures
        match r {
            Some(v) => literal_integer(s@) == Some(v@),
            None => literal_integer(s@) is None,
        },
{
    let start: usize = if s.len() > 0 && s[0] == '+' { 1 } else { 0 };
    let b = slice_range(s, start, s.len());
    assert(b@ =~= (if s@.len() > 0 && s@[0] == '+' { s@.skip(1) } else { s@ }));
    let (digits, a, c, rest_start) = mantissa_exec(b.as_slice());
    let e = match exponent_exec(b.as_slice(), rest_start) {
        Some(e) => e,
        None => {
            return None;
        },
    };
    if a + c == 0 {
        return None;
    }
    let z = lead_zeros_exec(digits.as_slice());
    let sig = slice_range(digits.as_slice(), z, digits.len());
    assert(sig@ =~= digits@.skip(z as int));
    assert(sig@.len() > 0 ==> sig@[0] == digits@[z as int]);
    whole_part_exec(sig.as_slice(), (e as i128) - (c as i128))
}

} // verus!
