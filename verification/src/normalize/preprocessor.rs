//! Preparing text before it is cut into tokens: paragraph breaks become
//! sentence breaks, and a first "N-M" becomes a range or a subtraction.

use vstd::prelude::*;
use crate::abbr::longest_unit_prefix;
use crate::tables::{unit_name, lookup_unit};
use crate::text::{
    spec_is_digit, is_digit, char_is_whitespace, is_whitespace, str_lowercase, lower, to_chars, from_chars,
    push_str, push_chars, slice_prefix, slice_range, trim_start_ws, run_len, lemma_run_len, run_end,
};

verus! {

/// Characters after which a paragraph break needs no added full stop.
pub open spec fn is_terminal(c: char) -> bool {
    c == '.' || c == '!' || c == '?' || c == '…' || c == ':' || c == ';'
}

/// What joins two paragraphs: nothing for fewer than two line breaks, ". "
/// after a character that does not end a sentence, " " otherwise.
pub open spec fn paragraph_joint(prev: Option<char>, newlines: nat) -> Seq<char> {
    if newlines >= 2 {
        match prev {
            Some(p) => if !is_terminal(p) { ". "@ } else { " "@ },
            None => " "@,
        }
    } else {
        Seq::empty()
    }
}

/// The output so far, the last character kept and the number of line
/// breaks since it, after reading `s`.
pub open spec fn paragraphs_state(s: Seq<char>) -> (Seq<char>, Option<char>, nat)
    decreases s.len(),
{
    if s.len() == 0 {
        (Seq::empty(), None, 0)
    } else {
        let (r, p, n) = paragraphs_state(s.drop_last());
        let c = s.last();
        if c == '\n' {
            (r, p, n + 1)
        } else if c == '\r' {
            (r, p, n)
        } else {
            (r + paragraph_joint(p, n) + seq![c], Some(c), 0)
        }
    }
}

/// Text with line breaks and carriage returns removed, two or more line
/// breaks turned into a sentence break.
pub open spec fn spec_fix_paragraphs(s: Seq<char>) -> Seq<char> {
    paragraphs_state(s).0
}

/// Removes line breaks and carriage returns; two or more line breaks
/// become a sentence break (". " or, after a character that ends a
/// sentence, " ").
pub fn step0_fix_paragraphs_chars(s: &[char]) -> (r: Vec<char>)
    ensures
        r@ == spec_fix_paragraphs(s@),
{
    let mut result: Vec<char> = Vec::new();
    let mut prev: Option<char> = None;
    let mut newlines: usize = 0;
    let mut i: usize = 0;
    while i < s.len()
        invariant
            i <= s@.len(),
            paragraphs_state(s@.take(i as int)) == (result@, prev, newlines as nat),
            newlines <= i,
        decreases s.len() - i,
    {
        assert(s@.take(i + 1).drop_last() =~= s@.take(i as int));
        let c = s[i];
        if c == '\n' {
            newlines = newlines + 1;
        } else if c == '\r' {
        } else {
            if newlines >= 2 {
                let needs_period = match prev {
                    None => false,
                    Some(p) => !(p == '.' || p == '!' || p == '?' || p == '…' || p == ':' || p == ';'),
                };
                if needs_period {
                    push_str(&mut result, ". ");
                } else {
                    push_str(&mut result, " ");
                }
            } else {
                proof { reveal_strlit(""); }
                assert(result@ + Seq::<char>::empty() =~= result@);
            }
            result.push(c);
            prev = Some(c);
            newlines = 0;
        }
        i = i + 1;
    }
    assert(s@.take(s@.len() as int) =~= s@);
    result
}

/// Removes line breaks and carriage returns; two or more line breaks
/// become a sentence break (". " or, after a character that ends a
/// sentence, " ").
pub fn step0_fix_paragraphs(text: &str) -> (r: String)
    ensures
        r@ == spec_fix_paragraphs(text@),
{
    let s = to_chars(text);
    let r = step0_fix_paragraphs_chars(s.as_slice());
    from_chars(r.as_slice())
}

/// Whether a character belongs to a number written with digits and
/// decimal separators.
pub open spec fn is_number_char(c: char) -> bool {
    spec_is_digit(c) || c == '.' || c == ','
}

/// Length of the run of number characters that starts `s`.
pub open spec fn number_run(s: Seq<char>) -> nat
    decreases s.len(),
{
    if s.len() > 0 && is_number_char(s[0]) {
        1 + number_run(s.skip(1))
    } else {
        0
    }
}

pub proof fn lemma_number_run(s: Seq<char>)
    ensures
        number_run(s) <= s.len(),
        s.len() > 0 && is_number_char(s[0]) ==> number_run(s) >= 1,
    decreases s.len(),
{
    if s.len() > 0 && is_number_char(s[0]) {
        lemma_number_run(s.skip(1));
    }
}

pub(crate) fn number_run_end(s: &[char], from: usize) -> (e: usize)
    requires
        from <= s@.len(),
    ensures
        e == from + number_run(s@.skip(from as int)),
        e <= s@.len(),
{
    let mut i: usize = from;
    assert(s@.skip(from as int).skip(0) =~= s@.skip(from as int));
    while i < s.len() && (is_digit(s[i]) || s[i] == '.' || s[i] == ',')
        invariant
            from <= i <= s@.len(),
            number_run(s@.skip(from as int)) == (i - from) + number_run(s@.skip(i as int)),
        decreases s.len() - i,
    {
        assert(s@.skip(i as int).skip(1) =~= s@.skip(i + 1));
        i = i + 1;
    }
    i
}

/// The first word of what follows a number, lower-cased.
pub open spec fn following_word(remaining: Seq<char>) -> Seq<char> {
    let t = trim_start_ws(remaining);
    str_lowercase(t.take(run_len(t, false) as int))
}

/// Whether some prefix of `u`, no longer than `n`, is a known unit.
pub open spec fn has_unit_prefix(u: Seq<char>, n: nat) -> bool
    decreases n,
{
    n > 0 && (unit_name(u.take(n as int)) is Some || has_unit_prefix(u, (n - 1) as nat))
}

/// Whether the word after "N-M" names a unit (up to ten characters of it
/// are looked up), or starts with a degree sign: then "N-M" is a range.
pub open spec fn is_range_unit(u: Seq<char>) -> bool {
    (u.len() > 0 && u[0] == '°') || has_unit_prefix(u, if u.len() < 10 { u.len() } else { 10 })
}

/// Text with its first "N-M" (numbers with digits, '.' and ',') turned into
/// "від N до M" where a unit follows, or "N мінус M" where none does; the
/// rest after it is kept as it is.
pub open spec fn spec_preprocess(s: Seq<char>) -> Seq<char>
    decreases s.len(),
{
    if s.len() == 0 {
        Seq::empty()
    } else if spec_is_digit(s[0]) {
        let e1 = number_run(s);
        proof {
            lemma_number_run(s);
        }
        let num1 = s.take(e1 as int);
        if e1 + 1 < s.len() && s[e1 as int] == '-' && spec_is_digit(s[e1 as int + 1]) {
            let rest2 = s.skip(e1 as int + 1);
            let e2 = number_run(rest2);
            let num2 = rest2.take(e2 as int);
            let remaining = rest2.skip(e2 as int);
            if is_range_unit(following_word(remaining)) {
                "від "@ + num1 + " до "@ + num2 + remaining
            } else {
                num1 + " мінус "@ + num2 + remaining
            }
        } else {
            num1 + spec_preprocess(s.skip(e1 as int))
        }
    } else {
        seq![s[0]] + spec_preprocess(s.skip(1))
    }
}

fn following_word_exec(s: &[char], from: usize) -> (r: Vec<char>)
    requires
        from <= s@.len(),
    ensures
        r@ == following_word(s@.skip(from as int)),
{
    let mut i: usize = from;
    assert(s@.skip(from as int) =~= s@.skip(i as int));
    while i < s.len() && is_whitespace(s[i])
        invariant
            from <= i <= s@.len(),
            trim_start_ws(s@.skip(from as int)) == trim_start_ws(s@.skip(i as int)),
        decreases s.len() - i,
    {
        assert(s@.skip(i as int).skip(1) =~= s@.skip(i + 1));
        i = i + 1;
    }
    let ghost t = s@.skip(i as int);
    assert(trim_start_ws(t) == t);
    let e = run_end(s, i, false);
    let w = slice_range(s, i, e);
    assert(w@ =~= t.take(run_len(t, false) as int));
    lower(w.as_slice())
}

fn has_unit_prefix_exec(u: &[char], n: usize) -> (b: bool)
    requires
        n <= u@.len(),
    ensures
        b == has_unit_prefix(u@, n as nat),
{
    let mut k: usize = n;
    while k > 0
        invariant
            k <= n <= u@.len(),
            has_unit_prefix(u@, n as nat) == has_unit_prefix(u@, k as nat),
        decreases k,
    {
        let c = slice_prefix(u, k);
        if lookup_unit(c.as_slice()).is_some() {
            return true;
        }
        k = k - 1;
    }
    false
}

fn is_range_unit_exec(u: &[char]) -> (b: bool)
    ensures
        b == is_range_unit(u@),
{
    if u.len() > 0 && u[0] == '°' {
        return true;
    }
    let n = if u.len() < 10 { u.len() } else { 10 };
    has_unit_prefix_exec(u, n)
}

/// Turns the first "N-M" into a range or a subtraction (see
/// `spec_preprocess`).
pub fn preprocess_text_chars(s: &[char]) -> (r: Vec<char>)
    ensures
        r@ == spec_preprocess(s@),
{
    let mut result: Vec<char> = Vec::new();
    let n = s.len();
    let mut i: usize = 0;
    assert(s@.skip(0) =~= s@);
    while i < n
        invariant
            n == s@.len(),
            i <= n,
            result@ + spec_preprocess(s@.skip(i as int)) == spec_preprocess(s@),
        decreases n - i,
    {
        let ghost rest = s@.skip(i as int);
        if is_digit(s[i]) {
            let e1 = number_run_end(s, i);
            proof { lemma_number_run(rest); }
            let num1 = slice_range(s, i, e1);
            assert(num1@ =~= rest.take((e1 - i) as int));
            if e1 < n && n - e1 > 1 && s[e1] == '-' && is_digit(s[e1 + 1]) {
                let after_dash = e1 + 1;
                let e2 = number_run_end(s, after_dash);
                proof { lemma_number_run(s@.skip(after_dash as int)); }
                let num2 = slice_range(s, after_dash, e2);
                let remaining = slice_range(s, e2, n);
                let ghost rest2 = rest.skip((e1 - i) + 1);
                assert(rest2 =~= s@.skip(after_dash as int));
                assert(num2@ =~= rest2.take((e2 - after_dash) as int));
                assert(remaining@ =~= rest2.skip((e2 - after_dash) as int));
                assert(remaining@ =~= s@.skip(e2 as int));
                let u = following_word_exec(s, e2);
                if is_range_unit_exec(u.as_slice()) {
                    push_str(&mut result, "від ");
                    push_chars(&mut result, num1.as_slice());
                    push_str(&mut result, " до ");
                    push_chars(&mut result, num2.as_slice());
                    push_chars(&mut result, remaining.as_slice());
                } else {
                    push_chars(&mut result, num1.as_slice());
                    push_str(&mut result, " мінус ");
                    push_chars(&mut result, num2.as_slice());
                    push_chars(&mut result, remaining.as_slice());
                }
                assert(result@ =~= result@ + Seq::<char>::empty());
                assert(s@.skip(n as int) =~= Seq::<char>::empty());
                return result;
            }
            assert(rest.skip((e1 - i) as int) =~= s@.skip(e1 as int));
            let ghost before = result@;
            push_chars(&mut result, num1.as_slice());
            assert(result@ + spec_preprocess(s@.skip(e1 as int)) =~= before + spec_preprocess(rest));
            i = e1;
        } else {
            assert(rest.skip(1) =~= s@.skip(i + 1));
            let ghost before = result@;
            result.push(s[i]);
            assert(result@ + spec_preprocess(s@.skip(i + 1)) =~= before + spec_preprocess(rest));
            i = i + 1;
        }
    }
    assert(s@.skip(n as int) =~= Seq::<char>::empty());
    assert(result@ + Seq::<char>::empty() =~= result@);
    result
}

/// Turns the first "N-M" into a range or a subtraction (see
/// `spec_preprocess`).
pub fn preprocess_text(text: &str) -> (r: String)
    ensures
        r@ == spec_preprocess(text@),
{
    let s = to_chars(text);
    let r = preprocess_text_chars(s.as_slice());
    from_chars(r.as_slice())
}


/// Whether `s` has no line break and no carriage return.
pub open spec fn no_line_breaks(s: Seq<char>) -> bool {
    forall|j: int| 0 <= j < s.len() ==> #[trigger] s[j] != '\n' && s[j] != '\r'
}

proof fn lemma_paragraphs_no_breaks(s: Seq<char>)
    ensures
        no_line_breaks(paragraphs_state(s).0),
    decreases s.len(),
{
    reveal_strlit(". ");
    reveal_strlit(" ");
    if s.len() > 0 {
        lemma_paragraphs_no_breaks(s.drop_last());
        let (r, p, n) = paragraphs_state(s.drop_last());
        let c = s.last();
        if c != '\n' && c != '\r' {
            let j = paragraph_joint(p, n);
            assert(no_line_breaks(j));
            let t = r + j + seq![c];
            assert forall|k: int| 0 <= k < t.len() implies #[trigger] t[k] != '\n' && t[k] != '\r' by {
                if k < r.len() {
                    assert(t[k] == r[k]);
                } else if k < r.len() + j.len() {
                    assert(t[k] == j[k - r.len()]);
                }
            }
        }
    }
}

/// Joining paragraphs leaves no line break and no carriage return in the
/// text.
pub proof fn law_fix_paragraphs_no_line_breaks(s: Seq<char>)
    ensures
        no_line_breaks(spec_fix_paragraphs(s)),
{
    lemma_paragraphs_no_breaks(s);
}

proof fn lemma_paragraphs_plain(s: Seq<char>)
    requires
        no_line_breaks(s),
    ensures
        paragraphs_state(s) == (s, if s.len() > 0 { Some(s.last()) } else { None::<char> }, 0nat),
    decreases s.len(),
{
    if s.len() > 0 {
        let init = s.drop_last();
        assert forall|j: int| 0 <= j < init.len() implies #[trigger] init[j] != '\n' && init[j] != '\r' by {
            assert(init[j] == s[j]);
        }
        lemma_paragraphs_plain(init);
        assert(s.last() == s[s.len() - 1]);
        assert(init + Seq::<char>::empty() + seq![s.last()] =~= s);
    }
}

/// A text without line breaks and carriage returns is left as it is by
/// paragraph joining.
pub proof fn law_fix_paragraphs_keeps_plain_text(s: Seq<char>)
    requires
        no_line_breaks(s),
    ensures
        spec_fix_paragraphs(s) == s,
{
    lemma_paragraphs_plain(s);
}

/// A text without digits is left as it is by range preprocessing.
pub proof fn law_preprocess_keeps_text_without_digits(s: Seq<char>)
    requires
        forall|j: int| 0 <= j < s.len() ==> !spec_is_digit(#[trigger] s[j]),
    ensures
        spec_preprocess(s) == s,
    decreases s.len(),
{
    if s.len() > 0 {
        let t = s.skip(1);
        assert forall|j: int| 0 <= j < t.len() implies !spec_is_digit(#[trigger] t[j]) by {
            assert(t[j] == s[j + 1]);
        }
        law_preprocess_keeps_text_without_digits(t);
        assert(!spec_is_digit(s[0]));
        assert(seq![s[0]] + t =~= s);
    }
}

} // verus!
