//! Normalisation word by word: times and dates are rewritten in the text
//! first, then each whitespace-separated word is read with its neighbours.

use vstd::prelude::*;
use crate::normalize::generator::{date_suffix, date_suffix_str, month_name, month_name_str};
use crate::normalize::helpers::{spec_num_to_ua, num_to_ua_chars};
use crate::normalize::preprocessor::{spec_preprocess, preprocess_text_chars, number_run, number_run_end};
use crate::num::digits_value;
use crate::abbr::{
    opt_view, seq_starts_with, spec_context_noun, get_context_noun_chars, is_preposition_word,
    is_preposition_chars_any_case, spec_find_unit, find_unit_chars, spec_unit_form, get_unit_form_chars,
    spec_is_abbreviation, is_abbreviation_chars, spec_expand_abbr_contextual, expand_abbr_contextual_chars,
    spec_expand_abbreviation, expand_abbreviation_chars,
};
use crate::normalize::generator::{stress_words, stress_words_exec, as_opt_slice};
use crate::normalize::helpers::fix_apostrophe;
use crate::normalize::lexer::{spec_split_punctuation, split_punctuation_chars};
use crate::normalize::preprocessor::{spec_fix_paragraphs, step0_fix_paragraphs_chars};
use crate::numerals::{spec_analyze, analyze_number};
use crate::stress::{
    StressDict, spec_apply_stress, apply_stress_chars, spec_stress_units, with_stress_units_chars, trim, trim_chars,
};
use crate::tables::{abbr_entry, lookup_abbr};
use crate::text::{
    spec_is_digit, is_digit, to_chars, from_chars, push_str, push_chars, slice_range, last_word,
    last_word_of, digit_prefix_len, lemma_digit_prefix_len, digit_prefix_len_from, str_lowercase, lower, eq_str,
    char_is_alphanumeric, is_alphanumeric, has_digit, has_digit_exec, starts_with, replace_chars, contains_char,
    ws_words, split_ws, views_of, join_words, join_chars, squash_ws, squash_ws_chars, is_single_spaced,
    law_squash_single_spaced,
};

verus! {

/// Words for the minutes or seconds of a time, written with the two digits
/// `a` and `b`: nothing for "00", "нуль" and the second digit after a zero,
/// else the number.
pub open spec fn clock_part(a: char, b: char) -> Seq<char> {
    if a == '0' && b == '0' {
        Seq::empty()
    } else if a == '0' {
        "нуль "@ + spec_num_to_ua(seq![b], false)
    } else {
        spec_num_to_ua(seq![a, b], false)
    }
}

/// `acc`, then a space and `w` where `w` is not empty.
pub open spec fn with_part(acc: Seq<char>, w: Seq<char>) -> Seq<char> {
    if w.len() > 0 {
        acc + " "@ + w
    } else {
        acc
    }
}

/// The number of digits (one or two) before the separator `sep` at `i`,
/// or 0 where `s` has no such digits there.
pub open spec fn lead_len(s: Seq<char>, i: int, sep: char) -> int {
    if spec_is_digit(s[i]) {
        if s[i + 1] == sep {
            1
        } else if spec_is_digit(s[i + 1]) && i + 2 < s.len() && s[i + 2] == sep {
            2
        } else {
            0
        }
    } else {
        0
    }
}

/// The text from index `i` on with each time ("H:MM", "HH:MM", and the same
/// with ":SS") that does not follow a digit rewritten as its hours, then
/// the words of its minutes and seconds.
pub open spec fn times_from(s: Seq<char>, i: int) -> Seq<char>
    decreases s.len() - i,
{
    if i < 0 || i >= s.len() {
        Seq::empty()
    } else {
        let hl = if (i == 0 || !spec_is_digit(s[i - 1])) && i + 3 < s.len() { lead_len(s, i, ':') } else { 0 };
        let m = i + hl + 1;
        if hl > 0 && m + 1 < s.len() && spec_is_digit(s[m]) && spec_is_digit(s[m + 1]) && (m + 2 == s.len() || (
        !spec_is_digit(s[m + 2]) && s[m + 2] != ':')) {
            with_part(s.subrange(i, i + hl), clock_part(s[m], s[m + 1])) + times_from(s, m + 2)
        } else if hl > 0 && m + 4 < s.len() && spec_is_digit(s[m]) && spec_is_digit(s[m + 1]) && s[m + 2] == ':'
            && spec_is_digit(s[m + 3]) && spec_is_digit(s[m + 4]) && (m + 5 == s.len() || !spec_is_digit(
            s[m + 5],
        )) {
            with_part(with_part(s.subrange(i, i + hl), clock_part(s[m], s[m + 1])), clock_part(s[m + 3], s[m + 4]))
                + times_from(s, m + 5)
        } else {
            seq![s[i]] + times_from(s, i + 1)
        }
    }
}

/// The text with its times rewritten (see `times_from`).
pub open spec fn spec_replace_times(s: Seq<char>) -> Seq<char> {
    times_from(s, 0)
}

fn clock_part_exec(a: char, b: char) -> (r: Vec<char>)
    ensures
        r@ == clock_part(a, b),
{
    if a == '0' && b == '0' {
        Vec::new()
    } else if a == '0' {
        let d = vec![b];
        assert(d@ =~= seq![b]);
        let w = num_to_ua_chars(d.as_slice(), false);
        let mut r = to_chars("нуль ");
        push_chars(&mut r, w.as_slice());
        r
    } else {
        let d = vec![a, b];
        assert(d@ =~= seq![a, b]);
        num_to_ua_chars(d.as_slice(), false)
    }
}

fn with_part_exec(acc: &mut Vec<char>, w: &[char])
    ensures
        final(acc)@ == with_part(old(acc)@, w@),
{
    if w.len() > 0 {
        push_str(acc, " ");
        push_chars(acc, w);
    }
}

fn lead_len_exec(s: &[char], i: usize, sep: char) -> (r: usize)
    requires
        i + 3 < s@.len(),
    ensures
        r == lead_len(s@, i as int, sep),
        r <= 2,
{
    if is_digit(s[i]) {
        if s[i + 1] == sep {
            1
        } else if is_digit(s[i + 1]) && s[i + 2] == sep {
            2
        } else {
            0
        }
    } else {
        0
    }
}

/// Rewrites the times in a text (see `times_from`).
pub fn replace_times_chars(s: &[char]) -> (r: Vec<char>)
    ensures
        r@ == spec_replace_times(s@),
{
    let n = s.len();
    let mut out: Vec<char> = Vec::new();
    let mut i: usize = 0;
    while i < n
        invariant
            n == s@.len(),
            i <= n,
            out@ + times_from(s@, i as int) == times_from(s@, 0),
        decreases n - i,
    {
        let boundary = i == 0 || !is_digit(s[i - 1]);
        let hl: usize = if boundary && n - i > 3 { lead_len_exec(s, i, ':') } else { 0 };
        let m = i + hl + 1;
        if hl > 0 && n - m > 1 && is_digit(s[m]) && is_digit(s[m + 1]) && (n - m == 2 || (!is_digit(s[m + 2])
            && s[m + 2] != ':')) {
            let mut t = slice_range(s, i, i + hl);
            let p = clock_part_exec(s[m], s[m + 1]);
            with_part_exec(&mut t, p.as_slice());
            let ghost before = out@;
            push_chars(&mut out, t.as_slice());
            assert(out@ + times_from(s@, m + 2) =~= before + (t@ + times_from(s@, m + 2)));
            i = m + 2;
        } else if hl > 0 && n - m > 4 && is_digit(s[m]) && is_digit(s[m + 1]) && s[m + 2] == ':' && is_digit(
            s[m + 3],
        ) && is_digit(s[m + 4]) && (n - m == 5 || !is_digit(s[m + 5])) {
            let mut t = slice_range(s, i, i + hl);
            let p = clock_part_exec(s[m], s[m + 1]);
            with_part_exec(&mut t, p.as_slice());
            let q = clock_part_exec(s[m + 3], s[m + 4]);
            with_part_exec(&mut t, q.as_slice());
            let ghost before = out@;
            push_chars(&mut out, t.as_slice());
            assert(out@ + times_from(s@, m + 5) =~= before + (t@ + times_from(s@, m + 5)));
            i = m + 5;
        } else {
            let ghost before = out@;
            out.push(s[i]);
            assert(out@ + times_from(s@, i + 1) =~= before + (seq![s@[i as int]] + times_from(s@, i + 1)));
            i = i + 1;
        }
    }
    assert(out@ + Seq::<char>::empty() =~= out@);
    out
}

/// Rewrites the times in a text: each "H:MM", "HH:MM" (and with ":SS")
/// that does not follow a digit becomes its hours, then the words of its
/// minutes and seconds, the zero parts left out.
pub fn replace_times(text: &str) -> (r: String)
    ensures
        r@ == spec_replace_times(text@),
{
    let s = to_chars(text);
    let r = replace_times_chars(s.as_slice());
    from_chars(r.as_slice())
}

/// The text from index `i` on, after `acc`, with each date ("D.MM",
/// "DD.MM", and the same with ".YYYY") that does not follow a digit, whose
/// day is 1 to 31 and month 1 to 12, rewritten as the day with the ending
/// the preceding word asks for, the month's name, and the year followed by
/// "-го року".
pub open spec fn dates_from(s: Seq<char>, i: int, acc: Seq<char>) -> Seq<char>
    decreases s.len() - i,
{
    if i < 0 || i >= s.len() {
        acc
    } else {
        let dl = if (i == 0 || !spec_is_digit(s[i - 1])) && i + 3 < s.len() { lead_len(s, i, '.') } else { 0 };
        let m = i + dl + 1;
        let has_year = m + 6 < s.len() && s[m + 2] == '.' && spec_is_digit(s[m + 3]) && spec_is_digit(s[m + 4])
            && spec_is_digit(s[m + 5]) && spec_is_digit(s[m + 6]) && (m + 7 == s.len() || !spec_is_digit(s[m + 7]));
        let ends = has_year || m + 2 == s.len() || (!spec_is_digit(s[m + 2]) && s[m + 2] != '.');
        let day = digits_value(s.subrange(i, i + dl));
        let month = digits_value(s.subrange(m, m + 2));
        if dl > 0 && m + 1 < s.len() && spec_is_digit(s[m]) && spec_is_digit(s[m + 1]) && ends && 1 <= day <= 31
            && 1 <= month <= 12 {
            let text = s.subrange(i, i + dl) + date_suffix(Some(last_word(acc))) + " "@ + month_name(month as u8) + if has_year {
                " "@ + s.subrange(m + 3, m + 7) + "-го року"@
            } else {
                Seq::empty()
            };
            dates_from(s, m + 2 + if has_year { 5int } else { 0int }, acc + text)
        } else {
            dates_from(s, i + 1, acc.push(s[i]))
        }
    }
}

/// The text with its dates rewritten (see `dates_from`).
pub open spec fn spec_replace_dates(s: Seq<char>) -> Seq<char> {
    dates_from(s, 0, Seq::empty())
}

fn digit_val(c: char) -> (r: u32)
    requires
        spec_is_digit(c),
    ensures
        r == digits_value(seq![c]),
        r <= 9,
{
    assert(seq![c].drop_last() =~= Seq::<char>::empty());
    assert(digits_value(seq![c]) == digits_value(Seq::<char>::empty()) * 10 + (c as int - '0' as int));
    (c as u32) - ('0' as u32)
}

fn two_digit_val(a: char, b: char) -> (r: u32)
    requires
        spec_is_digit(a),
        spec_is_digit(b),
    ensures
        r == digits_value(seq![a, b]),
        r <= 99,
{
    let x = digit_val(a);
    let y = digit_val(b);
    assert(seq![a, b].drop_last() =~= seq![a]);
    x * 10 + y
}

/// Rewrites the dates in a text (see `dates_from`).
pub fn replace_dates_chars(s: &[char]) -> (r: Vec<char>)
    ensures
        r@ == spec_replace_dates(s@),
{
    let n = s.len();
    let mut out: Vec<char> = Vec::new();
    let mut i: usize = 0;
    while i < n
        invariant
            n == s@.len(),
            i <= n,
            dates_from(s@, i as int, out@) == dates_from(s@, 0, Seq::empty()),
        decreases n - i,
    {
        let boundary = i == 0 || !is_digit(s[i - 1]);
        let dl: usize = if boundary && n - i > 3 { lead_len_exec(s, i, '.') } else { 0 };
        let m = i + dl + 1;
        let mut done = false;
        let ghost before = out@;
        let ghost sv = s@;
        let ghost gm = m as int;
        let ghost g_has_year = gm + 6 < sv.len() && sv[gm + 2] == '.' && spec_is_digit(sv[gm + 3]) && spec_is_digit(sv[gm + 4])
            && spec_is_digit(sv[gm + 5]) && spec_is_digit(sv[gm + 6]) && (gm + 7 == sv.len() || !spec_is_digit(sv[gm + 7]));
        let ghost g_ends = g_has_year || gm + 2 == sv.len() || (!spec_is_digit(sv[gm + 2]) && sv[gm + 2] != '.');
        let ghost g_day = digits_value(sv.subrange(i as int, i + dl));
        let ghost g_month = digits_value(sv.subrange(gm, gm + 2));
        let ghost g_date = dl > 0 && gm + 1 < sv.len() && spec_is_digit(sv[gm]) && spec_is_digit(sv[gm + 1]) && g_ends
            && 1 <= g_day <= 31 && 1 <= g_month <= 12;
        if dl > 0 && n - m > 1 && is_digit(s[m]) && is_digit(s[m + 1]) {
            let has_year = n - m > 6 && s[m + 2] == '.' && is_digit(s[m + 3]) && is_digit(s[m + 4]) && is_digit(
                s[m + 5],
            ) && is_digit(s[m + 6]) && (n - m == 7 || !is_digit(s[m + 7]));
            let ends = has_year || n - m == 2 || (!is_digit(s[m + 2]) && s[m + 2] != '.');
            let day = if dl == 1 { digit_val(s[i]) } else { two_digit_val(s[i], s[i + 1]) };
            let month = two_digit_val(s[m], s[m + 1]);
            proof {
                if dl == 1 {
                    assert(s@.subrange(i as int, i + dl) =~= seq![s@[i as int]]);
                } else {
                    assert(s@.subrange(i as int, i + dl) =~= seq![s@[i as int], s@[i + 1]]);
                }
                assert(s@.subrange(m as int, m + 2) =~= seq![s@[m as int], s@[m + 1]]);
            }
            if ends && 1 <= day && day <= 31 && 1 <= month && month <= 12 {
                let lw = last_word_of(out.as_slice());
                let mut t = slice_range(s, i, i + dl);
                push_str(&mut t, date_suffix_str(Some(lw.as_slice())));
                push_str(&mut t, " ");
                push_str(&mut t, month_name_str(month as u8));
                if has_year {
                    push_str(&mut t, " ");
                    let y = slice_range(s, m + 3, m + 7);
                    push_chars(&mut t, y.as_slice());
                    push_str(&mut t, "-го року");
                }
                push_chars(&mut out, t.as_slice());
                assert(has_year == g_has_year);
                assert(g_date);
                assert(t@ =~= sv.subrange(i as int, i + dl) + date_suffix(Some(last_word(before))) + " "@ + month_name(
                    g_month as u8,
                ) + if g_has_year {
                    " "@ + sv.subrange(gm + 3, gm + 7) + "-го року"@
                } else {
                    Seq::empty()
                });
                i = if has_year { m + 7 } else { m + 2 };
                done = true;
            }
        }
        if !done {
            assert(!g_date);
            out.push(s[i]);
            i = i + 1;
        }
    }
    out
}

/// Rewrites the dates in a text: each "D.MM", "DD.MM" (and with ".YYYY")
/// that does not follow a digit and names a real day and month becomes the
/// day with an ordinal ending, the month's name and the year.
pub fn replace_dates(text: &str) -> (r: String)
    ensures
        r@ == spec_replace_dates(text@),
{
    let s = to_chars(text);
    let r = replace_dates_chars(s.as_slice());
    from_chars(r.as_slice())
}

/// What the text becomes before it is cut into words: times rewritten,
/// then dates, then the first "N-M" read as a range or a subtraction.
pub open spec fn spec_prepare(s: Seq<char>) -> Seq<char> {
    spec_preprocess(spec_replace_dates(spec_replace_times(s)))
}

/// Prepares a text to be cut into words (see `spec_prepare`).
pub fn preprocess_text(text: &str) -> (r: String)
    ensures
        r@ == spec_prepare(text@),
{
    let s = to_chars(text);
    let t = replace_times_chars(s.as_slice());
    let d = replace_dates_chars(t.as_slice());
    let p = preprocess_text_chars(d.as_slice());
    from_chars(p.as_slice())
}

/// A character with an ASCII capital turned into its small letter.
pub open spec fn ascii_lower(c: char) -> char {
    if 'A' <= c && c <= 'Z' {
        ((c as int) + 32) as char
    } else {
        c
    }
}

/// Whether `s` equals the lower-case ASCII word `lit` when the case of
/// ASCII letters is ignored.
pub open spec fn eq_ignore_ascii_case(s: Seq<char>, lit: Seq<char>) -> bool {
    s.len() == lit.len() && forall|i: int| 0 <= i < s.len() ==> ascii_lower(#[trigger] s[i]) == lit[i]
}

/// Whether `s` is empty or an exponent: "e" or "E", an optional sign, and
/// at least one digit with nothing after them.
pub open spec fn is_exponent_or_empty(s: Seq<char>) -> bool {
    s.len() == 0 || ((s[0] == 'e' || s[0] == 'E') && {
        let t = s.skip(1);
        let u = if t.len() > 0 && (t[0] == '+' || t[0] == '-') { t.skip(1) } else { t };
        u.len() > 0 && digit_prefix_len(u) == u.len()
    })
}

/// Whether `b` is digits with at most one decimal point, at least one
/// digit, and an optional exponent.
pub open spec fn is_decimal_number(b: Seq<char>) -> bool {
    let a = digit_prefix_len(b);
    let r = b.skip(a as int);
    if r.len() > 0 && r[0] == '.' {
        let c = digit_prefix_len(r.skip(1));
        (a > 0 || c > 0) && is_exponent_or_empty(r.skip(1).skip(c as int))
    } else {
        a > 0 && is_exponent_or_empty(r)
    }
}

/// Whether `s` reads as a floating-point number the way `f64::from_str`
/// documents it: an optional sign, then "inf", "infinity" or "nan" in any
/// ASCII case, or digits with at most one decimal point (at least one
/// digit) and an optional exponent.
pub open spec fn is_float_literal(s: Seq<char>) -> bool {
    let b = if s.len() > 0 && (s[0] == '+' || s[0] == '-') { s.skip(1) } else { s };
    eq_ignore_ascii_case(b, "inf"@) || eq_ignore_ascii_case(b, "infinity"@) || eq_ignore_ascii_case(b, "nan"@)
        || is_decimal_number(b)
}

fn ascii_lower_exec(c: char) -> (r: char)
    ensures
        r == ascii_lower(c),
{
    if 'A' <= c && c <= 'Z' {
        ((c as u32 + 32) as u8) as char
    } else {
        c
    }
}

fn eq_ignore_ascii_case_exec(s: &[char], lit: &str) -> (b: bool)
    ensures
        b == eq_ignore_ascii_case(s@, lit@),
{
    let l = to_chars(lit);
    if s.len() != l.len() {
        return false;
    }
    let mut i: usize = 0;
    while i < s.len()
        invariant
            i <= s@.len(),
            s@.len() == l@.len(),
            l@ == lit@,
            forall|j: int| 0 <= j < i ==> ascii_lower(#[trigger] s@[j]) == l@[j],
        decreases s.len() - i,
    {
        if ascii_lower_exec(s[i]) != l[i] {
            return false;
        }
        i = i + 1;
    }
    true
}

fn is_exponent_or_empty_exec(s: &[char], from: usize) -> (b: bool)
    requires
        from <= s@.len(),
    ensures
        b == is_exponent_or_empty(s@.skip(from as int)),
{
    let ghost t0 = s@.skip(from as int);
    if from == s.len() {
        return true;
    }
    if !(s[from] == 'e' || s[from] == 'E') {
        return false;
    }
    let mut k = from + 1;
    assert(t0.skip(1) =~= s@.skip(k as int));
    if k < s.len() && (s[k] == '+' || s[k] == '-') {
        assert(s@.skip(k as int).skip(1) =~= s@.skip(k + 1));
        k = k + 1;
    }
    let d = digit_prefix_len_from(s, k);
    proof { lemma_digit_prefix_len(s@.skip(k as int)); }
    k < s.len() && d == s.len() - k
}

fn is_float_literal_exec(s: &[char]) -> (b: bool)
    ensures
        b == is_float_literal(s@),
{
    let start: usize = if s.len() > 0 && (s[0] == '+' || s[0] == '-') { 1 } else { 0 };
    let body = slice_range(s, start, s.len());
    assert(body@ =~= (if s@.len() > 0 && (s@[0] == '+' || s@[0] == '-') { s@.skip(1) } else { s@ }));
    if eq_ignore_ascii_case_exec(body.as_slice(), "inf") || eq_ignore_ascii_case_exec(body.as_slice(), "infinity")
        || eq_ignore_ascii_case_exec(body.as_slice(), "nan") {
        return true;
    }
    let b = body.as_slice();
    let a = digit_prefix_len_from(b, 0);
    assert(b@.skip(0) =~= b@);
    proof { lemma_digit_prefix_len(b@); }
    let ghost r = b@.skip(a as int);
    if a < b.len() && b[a] == '.' {
        let c = digit_prefix_len_from(b, a + 1);
        assert(r.skip(1) =~= b@.skip(a + 1));
        proof { lemma_digit_prefix_len(b@.skip(a + 1)); }
        assert(r.skip(1).skip(c as int) =~= b@.skip(a + 1 + c));
        (a > 0 || c > 0) && is_exponent_or_empty_exec(b, a + 1 + c)
    } else {
        a > 0 && is_exponent_or_empty_exec(b, a)
    }
}

/// A word cut into a number (digits, '.' and ',') and the unit written
/// right after it ("220V"): `None` where the word does not start with a
/// number, is nothing but one, the rest starts with a hyphen, or the number
/// is not a floating-point literal.
pub open spec fn spec_split_number_unit(w: Seq<char>) -> Option<(Seq<char>, Seq<char>)> {
    let k = number_run(w);
    if 0 < k && k < w.len() {
        let num = w.take(k as int);
        let unit = w.skip(k as int);
        if unit[0] == '-' {
            None
        } else if is_float_literal(num) {
            Some((num, unit))
        } else {
            None
        }
    } else {
        None
    }
}

/// Cuts a word into a number and the unit written right after it (see
/// `spec_split_number_unit`).
pub fn split_number_unit_chars(w: &[char]) -> (r: Option<(Vec<char>, Vec<char>)>)
    ensures
        match r {
            Some((a, b)) => spec_split_number_unit(w@) == Some((a@, b@)),
            None => spec_split_number_unit(w@) is None,
        },
{
    let k = number_run_end(w, 0);
    assert(w@.skip(0) =~= w@);
    if 0 < k && k < w.len() {
        let num = slice_range(w, 0, k);
        let unit = slice_range(w, k, w.len());
        assert(num@ =~= w@.take(k as int));
        assert(unit@ =~= w@.skip(k as int));
        if unit[0] == '-' {
            None
        } else if is_float_literal_exec(num.as_slice()) {
            Some((num, unit))
        } else {
            None
        }
    } else {
        None
    }
}

/// Cuts a word into a number and the unit written right after it (see
/// `spec_split_number_unit`).
pub fn split_number_unit(word: &str) -> (r: Option<(String, String)>)
    ensures
        match r {
            Some((a, b)) => spec_split_number_unit(word@) == Some((a@, b@)),
            None => spec_split_number_unit(word@) is None,
        },
{
    let w = to_chars(word);
    match split_number_unit_chars(w.as_slice()) {
        Some((a, b)) => Some((from_chars(a.as_slice()), from_chars(b.as_slice()))),
        None => None,
    }
}

/// The (lower-case) number words that are no noun for a number to agree
/// with.
pub open spec fn is_number_word_lower(l: Seq<char>) -> bool {
    l == "нуль"@ || l == "один"@ || l == "одна"@ || l == "одне"@ || l == "два"@ || l == "дві"@ || l == "три"@
        || l == "чотири"@ || l == "п'ять"@ || l == "пʼять"@ || l == "шість"@ || l == "сім"@ || l == "вісім"@
        || l == "дев'ять"@ || l == "девʼять"@ || l == "десять"@ || l == "одинадцять"@ || l == "дванадцять"@
        || l == "тринадцять"@ || l == "чотирнадцять"@ || l == "п'ятнадцять"@ || l == "пʼятнадцять"@
        || l == "шістнадцять"@ || l == "сімнадцять"@ || l == "вісімнадцять"@ || l == "дев'ятнадцять"@
        || l == "девʼятнадцять"@ || l == "двадцять"@ || l == "тридцяти"@ || l == "тридцять"@ || l == "сорок"@
        || l == "п'ятдесят"@ || l == "пʼятдесят"@ || l == "шістдесят"@ || l == "сімдесят"@ || l == "вісімдесят"@
        || l == "дев'яносто"@ || l == "девʼяносто"@ || l == "сто"@ || l == "двісті"@ || l == "триста"@
        || l == "чотириста"@ || l == "п'ятсот"@ || l == "пʼятсот"@ || l == "шістсот"@ || l == "сімсот"@
        || l == "вісімсот"@ || l == "дев'ятсот"@ || l == "девʼятсот"@ || l == "тисяча"@ || l == "тисячі"@
        || l == "тисяч"@ || l == "мільйон"@ || l == "мільйони"@ || l == "мільйонів"@ || l == "мільярд"@
        || l == "мільярди"@ || l == "мільярдів"@
}

/// Whether a word, lower-cased, is a number word.
pub open spec fn spec_is_number_word(w: Seq<char>) -> bool {
    is_number_word_lower(str_lowercase(w))
}

/// Whether a word, lower-cased, is a number word.
pub fn is_number_word_chars(w: &[char]) -> (b: bool)
    ensures
        b == spec_is_number_word(w@),
{
    let l = lower(w);
    let l = l.as_slice();
    eq_str(l, "нуль") || eq_str(l, "один") || eq_str(l, "одна") || eq_str(l, "одне") || eq_str(l, "два")
        || eq_str(l, "дві") || eq_str(l, "три") || eq_str(l, "чотири") || eq_str(l, "п'ять") || eq_str(l, "пʼять")
        || eq_str(l, "шість") || eq_str(l, "сім") || eq_str(l, "вісім") || eq_str(l, "дев'ять")
        || eq_str(l, "девʼять") || eq_str(l, "десять") || eq_str(l, "одинадцять") || eq_str(l, "дванадцять")
        || eq_str(l, "тринадцять") || eq_str(l, "чотирнадцять") || eq_str(l, "п'ятнадцять")
        || eq_str(l, "пʼятнадцять") || eq_str(l, "шістнадцять") || eq_str(l, "сімнадцять")
        || eq_str(l, "вісімнадцять") || eq_str(l, "дев'ятнадцять") || eq_str(l, "девʼятнадцять")
        || eq_str(l, "двадцять") || eq_str(l, "тридцяти") || eq_str(l, "тридцять") || eq_str(l, "сорок")
        || eq_str(l, "п'ятдесят") || eq_str(l, "пʼятдесят") || eq_str(l, "шістдесят") || eq_str(l, "сімдесят")
        || eq_str(l, "вісімдесят") || eq_str(l, "дев'яносто") || eq_str(l, "девʼяносто") || eq_str(l, "сто")
        || eq_str(l, "двісті") || eq_str(l, "триста") || eq_str(l, "чотириста") || eq_str(l, "п'ятсот")
        || eq_str(l, "пʼятсот") || eq_str(l, "шістсот") || eq_str(l, "сімсот") || eq_str(l, "вісімсот")
        || eq_str(l, "дев'ятсот") || eq_str(l, "девʼятсот") || eq_str(l, "тисяча") || eq_str(l, "тисячі")
        || eq_str(l, "тисяч") || eq_str(l, "мільйон") || eq_str(l, "мільйони") || eq_str(l, "мільйонів")
        || eq_str(l, "мільярд") || eq_str(l, "мільярди") || eq_str(l, "мільярдів")
}

/// Whether a word, lower-cased, is a number word.
pub fn is_number_word(word: &str) -> (b: bool)
    ensures
        b == spec_is_number_word(word@),
{
    let w = to_chars(word);
    is_number_word_chars(w.as_slice())
}

/// Whether no character of `s` is alphanumeric.
pub open spec fn no_alphanumeric(s: Seq<char>) -> bool {
    forall|i: int| 0 <= i < s.len() ==> !char_is_alphanumeric(#[trigger] s[i])
}

fn no_alphanumeric_exec(s: &[char]) -> (b: bool)
    ensures
        b == no_alphanumeric(s@),
{
    let mut i: usize = 0;
    while i < s.len()
        invariant
            i <= s@.len(),
            forall|j: int| 0 <= j < i ==> !char_is_alphanumeric(#[trigger] s@[j]),
        decreases s.len() - i,
    {
        if is_alphanumeric(s[i]) {
            return false;
        }
        i = i + 1;
    }
    true
}

/// The core (the word without the punctuation around it) of word `j`.
pub open spec fn core_at(words: Seq<Seq<char>>, j: int) -> Seq<char> {
    spec_split_punctuation(words[j]).1
}

/// The noun a number agrees with: "годині" after "о" or "об", else what
/// the next word gives — the class of a known abbreviation or unit, nothing
/// for a preposition, a number word, a word with a digit or with no letter
/// or digit at all, and the word itself otherwise.
pub open spec fn noun_for_number(prev: Option<Seq<char>>, next: Option<Seq<char>>) -> Option<Seq<char>> {
    if prev matches Some(p) && (str_lowercase(p) == "о"@ || str_lowercase(p) == "об"@) {
        Some("годині"@)
    } else {
        match next {
            Some(n) => match spec_context_noun(n) {
                Some(m) => Some(m),
                None => if is_preposition_word(str_lowercase(n)) || spec_is_number_word(n) || has_digit(n)
                    || no_alphanumeric(n) {
                    None
                } else {
                    Some(n)
                },
            },
            None => None,
        }
    }
}

/// Whether a word reads as a temperature unit: it starts with a degree
/// sign or, lower-cased, with "град".
pub open spec fn is_degree_word(w: Seq<char>) -> bool {
    (w.len() > 0 && w[0] == '°') || seq_starts_with(str_lowercase(w), "град"@)
}

/// A number written together with its unit ("220V"): the number in words
/// agreeing with the unit's class (or "поверхів" for an unknown one), then
/// the unit in the form that agrees with it where the whole rest is a known
/// unit.
pub open spec fn number_unit_words(num: Seq<char>, unit: Seq<char>, prev: Option<Seq<char>>) -> Seq<char> {
    let mapped = match spec_context_noun(unit) {
        Some(m) => m,
        None => "поверхів"@,
    };
    let nw = match spec_analyze(prev, num, Some(mapped)) {
        Some(w) => w,
        None => spec_num_to_ua(num, is_degree_word(unit)),
    };
    let tail = match spec_find_unit(str_lowercase(unit)) {
        Some((end, u)) => if end == unit.len() {
            spec_stress_units(spec_unit_form(nw, u, prev))
        } else {
            Seq::empty()
        },
        None => Seq::empty(),
    };
    trim(nw + " "@ + tail)
}

/// `s` without the marks . , ! ? : ;
pub open spec fn drop_marks(s: Seq<char>) -> Seq<char>
    decreases s.len(),
{
    if s.len() == 0 {
        Seq::empty()
    } else {
        let rest = drop_marks(s.drop_last());
        let c = s.last();
        if c == '.' || c == ',' || c == '!' || c == '?' || c == ':' || c == ';' {
            rest
        } else {
            rest.push(c)
        }
    }
}

/// A word that is no number: a unit (agreeing with the words written out
/// just before it where a number precedes), an abbreviation (expanded in
/// context, from the dictionary, or spelled out), or a word given its
/// stress.
pub open spec fn plain_word(words: Seq<Seq<char>>, i: int, last: Seq<char>, d: Map<Seq<char>, Seq<char>>) -> Seq<char> {
    let core = core_at(words, i);
    let l = str_lowercase(core);
    let prev = if i > 0 { Some(core_at(words, i - 1)) } else { None };
    let before_prev = if i > 1 { Some(core_at(words, i - 2)) } else { None };
    let whole_unit = match spec_find_unit(l) {
        Some((end, u)) => if end == l.len() { Some(u) } else { None },
        None => None,
    };
    match whole_unit {
        Some(u) => {
            let form = match prev {
                Some(p) => if is_float_literal(p) {
                    spec_unit_form(drop_marks(last_word(last)), u, before_prev)
                } else {
                    u
                },
                None => u,
            };
            spec_stress_units(form)
        },
        None => if spec_is_abbreviation(core) || abbr_entry(l) is Some {
            if abbr_entry(l) is Some {
                stress_words(spec_expand_abbr_contextual(core, prev, before_prev), d)
            } else if d.contains_key(l) {
                d[l]
            } else {
                stress_words(spec_expand_abbreviation(core), d)
            }
        } else {
            spec_apply_stress(core, d)
        },
    }
}

/// What word `i` is read out as, between its leading and trailing
/// punctuation; `last` is what the word before it was read out as.
pub open spec fn word_middle(words: Seq<Seq<char>>, i: int, last: Seq<char>, d: Map<Seq<char>, Seq<char>>) -> Seq<char> {
    let core = core_at(words, i);
    let prev = if i > 0 { Some(core_at(words, i - 1)) } else { None };
    let next = if i + 1 < words.len() { Some(core_at(words, i + 1)) } else { None };
    match spec_split_number_unit(core) {
        Some((num, unit)) => number_unit_words(num, unit, prev),
        None => match spec_analyze(prev, core, noun_for_number(prev, next)) {
            Some(w) => fix_apostrophe(w),
            None => if (core.contains('.') || core.contains(',')) && is_float_literal(core) {
                spec_num_to_ua(
                    core,
                    match next {
                        Some(n) => is_degree_word(n),
                        None => false,
                    },
                )
            } else {
                plain_word(words, i, last, d)
            },
        },
    }
}

/// What word `i` is read out as, its punctuation kept around it.
pub open spec fn word_out(words: Seq<Seq<char>>, i: int, last: Seq<char>, d: Map<Seq<char>, Seq<char>>) -> Seq<char> {
    let (prefix, core, suffix) = spec_split_punctuation(words[i]);
    if core.len() == 0 {
        prefix + suffix
    } else {
        prefix + word_middle(words, i, last, d) + suffix
    }
}

/// What the first `n` words are read out as, one entry each.
pub open spec fn words_out(words: Seq<Seq<char>>, n: int, d: Map<Seq<char>, Seq<char>>) -> Seq<Seq<char>>
    decreases n,
{
    if n <= 0 {
        Seq::empty()
    } else {
        let before = words_out(words, n - 1, d);
        before.push(word_out(words, n - 1, if before.len() > 0 { before.last() } else { Seq::empty() }, d))
    }
}

pub proof fn lemma_words_out_len(words: Seq<Seq<char>>, n: int, d: Map<Seq<char>, Seq<char>>)
    ensures
        words_out(words, n, d).len() == if n <= 0 { 0 } else { n },
    decreases n,
{
    if n > 0 {
        lemma_words_out_len(words, n - 1, d);
    }
}

/// What the word-by-word normaliser makes of a text: paragraphs joined,
/// times, dates and the first "N-M" rewritten, each word read with its
/// neighbours, and the whitespace squashed to single spaces.
pub open spec fn spec_normalize_words(text: Seq<char>, d: Map<Seq<char>, Seq<char>>) -> Seq<char> {
    let words = ws_words(spec_prepare(spec_fix_paragraphs(text)));
    squash_ws(join_words(words_out(words, words.len() as int, d), " "@))
}

fn core_exec(words: &Vec<Vec<char>>, j: usize) -> (r: Vec<char>)
    requires
        j < words@.len(),
    ensures
        r@ == core_at(views_of(words@), j as int),
{
    let (_, c, _) = split_punctuation_chars(words[j].as_slice());
    c
}

fn noun_for_number_exec(prev: Option<&[char]>, next: Option<&[char]>) -> (r: Option<Vec<char>>)
    ensures
        match r {
            Some(v) => noun_for_number(opt_view(prev), opt_view(next)) == Some(v@),
            None => noun_for_number(opt_view(prev), opt_view(next)) is None,
        },
{
    let is_hour = match prev {
        Some(p) => {
            let l = lower(p);
            eq_str(l.as_slice(), "о") || eq_str(l.as_slice(), "об")
        },
        None => false,
    };
    if is_hour {
        return Some(to_chars("годині"));
    }
    match next {
        Some(n) => match get_context_noun_chars(n) {
            Some(m) => Some(to_chars(m)),
            None => if is_preposition_chars_any_case(n) || is_number_word_chars(n) || has_digit_exec(n)
                || no_alphanumeric_exec(n) {
                None
            } else {
                Some(slice_range(n, 0, n.len()))
            },
        },
        None => None,
    }
}

fn is_degree_word_exec(w: &[char]) -> (b: bool)
    ensures
        b == is_degree_word(w@),
{
    if w.len() > 0 && w[0] == '°' {
        return true;
    }
    let l = lower(w);
    starts_with(l.as_slice(), "град")
}

fn number_unit_words_exec(num: &[char], unit: &[char], prev: Option<&[char]>) -> (r: Vec<char>)
    ensures
        r@ == number_unit_words(num@, unit@, opt_view(prev)),
{
    let mapped = match get_context_noun_chars(unit) {
        Some(m) => to_chars(m),
        None => to_chars("поверхів"),
    };
    let nw = match analyze_number(prev, num, Some(mapped.as_slice())) {
        Some(w) => w,
        None => num_to_ua_chars(num, is_degree_word_exec(unit)),
    };
    let mut out = slice_range(nw.as_slice(), 0, nw.len());
    assert(out@ =~= nw@);
    push_str(&mut out, " ");
    let lu = lower(unit);
    match find_unit_chars(lu.as_slice()) {
        Some((end, u)) => {
            if end == unit.len() {
                let uc = to_chars(u);
                let form = get_unit_form_chars(nw.as_slice(), uc.as_slice(), prev);
                let st = with_stress_units_chars(form.as_slice());
                push_chars(&mut out, st.as_slice());
            }
        },
        None => {},
    }
    trim_chars(out.as_slice())
}

fn drop_marks_exec(s: &[char]) -> (r: Vec<char>)
    ensures
        r@ == drop_marks(s@),
{
    let mut r: Vec<char> = Vec::new();
    let mut i: usize = 0;
    while i < s.len()
        invariant
            i <= s@.len(),
            r@ == drop_marks(s@.take(i as int)),
        decreases s.len() - i,
    {
        let c = s[i];
        assert(s@.take(i + 1).drop_last() =~= s@.take(i as int));
        if !(c == '.' || c == ',' || c == '!' || c == '?' || c == ':' || c == ';') {
            r.push(c);
        }
        i = i + 1;
    }
    assert(s@.take(s@.len() as int) =~= s@);
    r
}

fn plain_word_exec(words: &Vec<Vec<char>>, i: usize, last: &[char], dict: &StressDict) -> (r: Vec<char>)
    requires
        i < words@.len(),
    ensures
        r@ == plain_word(views_of(words@), i as int, last@, dict@),
{
    let core = core_exec(words, i);
    let l = lower(core.as_slice());
    let prev = if i > 0 { Some(core_exec(words, i - 1)) } else { None };
    let before_prev = if i > 1 { Some(core_exec(words, i - 2)) } else { None };
    let whole_unit: Option<&'static str> = match find_unit_chars(l.as_slice()) {
        Some((end, u)) => if end == l.len() { Some(u) } else { None },
        None => None,
    };
    match whole_unit {
        Some(u) => {
            let uc = to_chars(u);
            let form = match &prev {
                Some(p) => if is_float_literal_exec(p.as_slice()) {
                    let lw = last_word_of(last);
                    let clean = drop_marks_exec(lw.as_slice());
                    get_unit_form_chars(clean.as_slice(), uc.as_slice(), as_opt_slice(&before_prev))
                } else {
                    uc
                },
                None => uc,
            };
            with_stress_units_chars(form.as_slice())
        },
        None => {
            let known = lookup_abbr(l.as_slice()).is_some();
            if is_abbreviation_chars(core.as_slice()) || known {
                if known {
                    let e = expand_abbr_contextual_chars(core.as_slice(), as_opt_slice(&prev), as_opt_slice(&before_prev));
                    stress_words_exec(e.as_slice(), dict)
                } else {
                    match dict.get(l.as_slice()) {
                        Some(v) => v,
                        None => {
                            let e = expand_abbreviation_chars(core.as_slice());
                            stress_words_exec(e.as_slice(), dict)
                        },
                    }
                }
            } else {
                apply_stress_chars(core.as_slice(), dict)
            }
        },
    }
}

fn word_middle_exec(words: &Vec<Vec<char>>, i: usize, last: &[char], dict: &StressDict) -> (r: Vec<char>)
    requires
        i < words@.len(),
    ensures
        r@ == word_middle(views_of(words@), i as int, last@, dict@),
{
    let core = core_exec(words, i);
    let prev = if i > 0 { Some(core_exec(words, i - 1)) } else { None };
    let next = if words.len() - i > 1 { Some(core_exec(words, i + 1)) } else { None };
    match split_number_unit_chars(core.as_slice()) {
        Some((num, unit)) => number_unit_words_exec(num.as_slice(), unit.as_slice(), as_opt_slice(&prev)),
        None => {
            let noun = noun_for_number_exec(as_opt_slice(&prev), as_opt_slice(&next));
            match analyze_number(as_opt_slice(&prev), core.as_slice(), as_opt_slice(&noun)) {
                Some(w) => replace_chars(w.as_slice(), "ʼ", "'"),
                None => {
                    if (contains_char(core.as_slice(), '.') || contains_char(core.as_slice(), ','))
                        && is_float_literal_exec(core.as_slice()) {
                        let is_temp = match &next {
                            Some(n) => is_degree_word_exec(n.as_slice()),
                            None => false,
                        };
                        num_to_ua_chars(core.as_slice(), is_temp)
                    } else {
                        plain_word_exec(words, i, last, dict)
                    }
                },
            }
        },
    }
}

fn word_out_exec(words: &Vec<Vec<char>>, i: usize, last: &[char], dict: &StressDict) -> (r: Vec<char>)
    requires
        i < words@.len(),
    ensures
        r@ == word_out(views_of(words@), i as int, last@, dict@),
{
    let (prefix, core, suffix) = split_punctuation_chars(words[i].as_slice());
    let mut out = prefix;
    if core.len() > 0 {
        let m = word_middle_exec(words, i, last, dict);
        push_chars(&mut out, m.as_slice());
    }
    push_chars(&mut out, suffix.as_slice());
    out
}

/// Normalises a text for speech word by word, with the stress dictionary
/// `dict` (see `spec_normalize_words`).
pub fn normalize_text(text: &str, dict: &StressDict) -> (r: String)
    ensures
        r@ == spec_normalize_words(text@, dict@),
{
    let t = to_chars(text);
    let prepared = step0_fix_paragraphs_chars(t.as_slice());
    let p1 = replace_times_chars(prepared.as_slice());
    let p2 = replace_dates_chars(p1.as_slice());
    let pre = preprocess_text_chars(p2.as_slice());
    let words = split_ws(pre.as_slice());
    let ghost ws = views_of(words@);
    let mut result: Vec<Vec<char>> = Vec::new();
    let mut i: usize = 0;
    while i < words.len()
        invariant
            i <= words@.len(),
            ws == views_of(words@),
            views_of(result@) == words_out(ws, i as int, dict@),
        decreases words.len() - i,
    {
        proof { lemma_words_out_len(ws, i as int, dict@); }
        let w = if result.len() > 0 {
            let k = result.len() - 1;
            assert(views_of(result@)[k as int] == result@[k as int]@);
            word_out_exec(&words, i, result[k].as_slice(), dict)
        } else {
            let e: Vec<char> = Vec::new();
            word_out_exec(&words, i, e.as_slice(), dict)
        };
        let ghost before = result@;
        result.push(w);
        assert(views_of(result@) =~= views_of(before).push(w@));
        i = i + 1;
    }
    let joined = join_chars(&result, " ");
    let squashed = squash_ws_chars(joined.as_slice());
    from_chars(squashed.as_slice())
}


proof fn lemma_times_from_plain(s: Seq<char>, i: int)
    requires
        0 <= i <= s.len(),
        forall|j: int| 0 <= j < s.len() ==> #[trigger] s[j] != ':',
    ensures
        times_from(s, i) == s.skip(i),
    decreases s.len() - i,
{
    if i < s.len() {
        lemma_times_from_plain(s, i + 1);
        if i + 3 < s.len() {
            assert(s[i + 1] != ':');
            assert(s[i + 2] != ':');
        }
        assert(seq![s[i]] + s.skip(i + 1) =~= s.skip(i));
    } else {
        assert(s.skip(i) =~= Seq::<char>::empty());
    }
}

/// A text without a colon has no time to rewrite: it is left as it is.
pub proof fn law_replace_times_keeps_text_without_colon(s: Seq<char>)
    requires
        forall|j: int| 0 <= j < s.len() ==> #[trigger] s[j] != ':',
    ensures
        spec_replace_times(s) == s,
{
    lemma_times_from_plain(s, 0);
    assert(s.skip(0) =~= s);
}

proof fn lemma_dates_from_plain(s: Seq<char>, i: int, acc: Seq<char>)
    requires
        0 <= i <= s.len(),
        forall|j: int| 0 <= j < s.len() ==> #[trigger] s[j] != '.',
    ensures
        dates_from(s, i, acc) == acc + s.skip(i),
    decreases s.len() - i,
{
    if i < s.len() {
        lemma_dates_from_plain(s, i + 1, acc.push(s[i]));
        if i + 3 < s.len() {
            assert(s[i + 1] != '.');
            assert(s[i + 2] != '.');
        }
        assert(acc.push(s[i]) + s.skip(i + 1) =~= acc + s.skip(i));
    } else {
        assert(acc + s.skip(i) =~= acc);
    }
}

/// A text without a full stop has no date to rewrite: it is left as it is.
pub proof fn law_replace_dates_keeps_text_without_full_stop(s: Seq<char>)
    requires
        forall|j: int| 0 <= j < s.len() ==> #[trigger] s[j] != '.',
    ensures
        spec_replace_dates(s) == s,
{
    lemma_dates_from_plain(s, 0, Seq::empty());
    assert(Seq::<char>::empty() + s.skip(0) =~= s);
}

/// What the word-by-word normaliser gives is single-spaced: words joined by
/// one plain space, with no whitespace at the ends.
pub proof fn law_normalize_words_single_spaced(text: Seq<char>, d: Map<Seq<char>, Seq<char>>)
    ensures
        is_single_spaced(spec_normalize_words(text, d)),
{
    let words = ws_words(spec_prepare(spec_fix_paragraphs(text)));
    law_squash_single_spaced(join_words(words_out(words, words.len() as int, d), " "@));
}

/// The word-by-word normaliser reads each word into exactly one piece of
/// its output, in order.
pub proof fn law_words_out_one_per_word(words: Seq<Seq<char>>, d: Map<Seq<char>, Seq<char>>)
    ensures
        words_out(words, words.len() as int, d).len() == words.len(),
{
    lemma_words_out_len(words, words.len() as int, d);
}

} // verus!
