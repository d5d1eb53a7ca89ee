//! Cutting text into raw tokens: words, numbers, times, dates, punctuation
//! and whitespace.

use vstd::prelude::*;
use crate::normalize::types::{RawToken, RawTok, raw_views, lemma_raw_views_push};
use crate::num::{all_digits, spec_parse_u8, spec_parse_u16, parse_u8, parse_u16};
use crate::text::{
    spec_is_digit, is_digit, char_is_whitespace, is_whitespace, to_chars, from_chars, slice_prefix,
    slice_range, split_char, split_at_char, views_of, contains_char, digit_prefix_len,
    lemma_digit_prefix_len, digit_prefix_len_from, run_len, lemma_run_len, run_end, join_words, lemma_split_join,
};

verus! {

/// Whether every piece is non-empty and made of digits only.
pub open spec fn digit_pieces(parts: Seq<Seq<char>>) -> bool {
    forall|i: int| 0 <= i < parts.len() ==> (#[trigger] parts[i]).len() > 0 && all_digits(parts[i])
}

fn digit_pieces_exec(parts: &Vec<Vec<char>>) -> (b: bool)
    ensures
        b == digit_pieces(views_of(parts@)),
{
    let mut i: usize = 0;
    while i < parts.len()
        invariant
            i <= parts@.len(),
            forall|k: int| 0 <= k < i ==> (#[trigger] views_of(parts@)[k]).len() > 0
                && all_digits(views_of(parts@)[k]),
        decreases parts.len() - i,
    {
        let p = &parts[i];
        assert(views_of(parts@)[i as int] == p@);
        if p.len() == 0 {
            assert(!((views_of(parts@)[i as int]).len() > 0));
            return false;
        }
        let mut j: usize = 0;
        while j < p.len()
            invariant
                j <= p@.len(),
                i < parts@.len(),
                views_of(parts@)[i as int] == p@,
                forall|k: int| 0 <= k < j ==> spec_is_digit(#[trigger] p@[k]),
            decreases p.len() - j,
        {
            if !is_digit(p[j]) {
                assert(views_of(parts@)[i as int][j as int] == p@[j as int]);
                assert(!all_digits(views_of(parts@)[i as int]));
                return false;
            }
            j = j + 1;
        }
        i = i + 1;
    }
    true
}

/// A time "H:MM" or "H:MM:SS" (hours to 23, minutes and seconds to 59,
/// every piece digits only).
pub open spec fn spec_try_parse_time(w: Seq<char>) -> Option<RawTok> {
    let parts = split_char(w, ':');
    if !w.contains(':') || !(parts.len() == 2 || parts.len() == 3) || !digit_pieces(parts) {
        None
    } else {
        match (spec_parse_u8(parts[0]), spec_parse_u8(parts[1])) {
            (Some(h), Some(m)) => if h <= 23 && m <= 59 {
                if parts.len() == 3 {
                    match spec_parse_u8(parts[2]) {
                        Some(s) => if s > 59 {
                            None
                        } else {
                            Some(RawTok::Time { hours: parts[0], minutes: parts[1], seconds: Some(parts[2]) })
                        },
                        None => None,
                    }
                } else {
                    Some(RawTok::Time { hours: parts[0], minutes: parts[1], seconds: None })
                }
            } else {
                None
            },
            _ => None,
        }
    }
}

/// Reads a time "H:MM" or "H:MM:SS" (see `spec_try_parse_time`).
pub fn try_parse_time_chars(w: &[char]) -> (r: Option<RawToken>)
    ensures
        match r {
            Some(t) => spec_try_parse_time(w@) == Some(t@),
            None => spec_try_parse_time(w@) is None,
        },
{
    if !contains_char(w, ':') {
        return None;
    }
    let parts = split_at_char(w, ':');
    let ghost ps = views_of(parts@);
    if !(parts.len() == 2 || parts.len() == 3) || !digit_pieces_exec(&parts) {
        return None;
    }
    assert(ps[0] == parts[0]@ && ps[1] == parts[1]@);
    let h = parse_u8(parts[0].as_slice());
    let m = parse_u8(parts[1].as_slice());
    match (h, m) {
        (Some(h), Some(m)) => {
            if h <= 23 && m <= 59 {
                let seconds = if parts.len() == 3 {
                    assert(ps[2] == parts[2]@);
                    match parse_u8(parts[2].as_slice()) {
                        Some(s) => {
                            if s > 59 {
                                return None;
                            }
                            Some(from_chars(parts[2].as_slice()))
                        },
                        None => {
                            return None;
                        },
                    }
                } else {
                    None
                };
                Some(RawToken::Time {
                    hours: from_chars(parts[0].as_slice()),
                    minutes: from_chars(parts[1].as_slice()),
                    seconds,
                })
            } else {
                None
            }
        },
        _ => None,
    }
}

/// Reads a time "H:MM" or "H:MM:SS" (see `spec_try_parse_time`).
pub fn try_parse_time(word: &str) -> (r: Option<RawToken>)
    ensures
        match r {
            Some(t) => spec_try_parse_time(word@) == Some(t@),
            None => spec_try_parse_time(word@) is None,
        },
{
    let w = to_chars(word);
    try_parse_time_chars(w.as_slice())
}

/// A date "D.MM" or "D.MM.YYYY" (day 1 to 31, month 01 to 12 in two
/// digits, year in four digits, every piece digits only).
pub open spec fn spec_try_parse_date(w: Seq<char>) -> Option<RawTok> {
    let parts = split_char(w, '.');
    if !w.contains('.') || !(parts.len() == 2 || parts.len() == 3) || !digit_pieces(parts) {
        None
    } else {
        match (spec_parse_u8(parts[0]), spec_parse_u8(parts[1])) {
            (Some(d), Some(m)) => if 1 <= d && d <= 31 && 1 <= m && m <= 12 && parts[1].len() == 2 {
                if parts.len() == 3 {
                    if parts[2].len() != 4 || spec_parse_u16(parts[2]) is None {
                        None
                    } else {
                        Some(RawTok::Date { day: parts[0], month: parts[1], year: Some(parts[2]) })
                    }
                } else {
                    Some(RawTok::Date { day: parts[0], month: parts[1], year: None })
                }
            } else {
                None
            },
            _ => None,
        }
    }
}

/// Reads a date "D.MM" or "D.MM.YYYY" (see `spec_try_parse_date`).
pub fn try_parse_date_chars(w: &[char]) -> (r: Option<RawToken>)
    ensures
        match r {
            Some(t) => spec_try_parse_date(w@) == Some(t@),
            None => spec_try_parse_date(w@) is None,
        },
{
    if !contains_char(w, '.') {
        return None;
    }
    let parts = split_at_char(w, '.');
    let ghost ps = views_of(parts@);
    if !(parts.len() == 2 || parts.len() == 3) || !digit_pieces_exec(&parts) {
        return None;
    }
    assert(ps[0] == parts[0]@ && ps[1] == parts[1]@);
    let d = parse_u8(parts[0].as_slice());
    let m = parse_u8(parts[1].as_slice());
    match (d, m) {
        (Some(d), Some(m)) => {
            if d >= 1 && d <= 31 && m >= 1 && m <= 12 && parts[1].len() == 2 {
                let year = if parts.len() == 3 {
                    assert(ps[2] == parts[2]@);
                    if parts[2].len() != 4 || parse_u16(parts[2].as_slice()).is_none() {
                        return None;
                    }
                    Some(from_chars(parts[2].as_slice()))
                } else {
                    None
                };
                Some(RawToken::Date {
                    day: from_chars(parts[0].as_slice()),
                    month: from_chars(parts[1].as_slice()),
                    year,
                })
            } else {
                None
            }
        },
        _ => None,
    }
}

/// Reads a date "D.MM" or "D.MM.YYYY" (see `spec_try_parse_date`).
pub fn try_parse_date(word: &str) -> (r: Option<RawToken>)
    ensures
        match r {
            Some(t) => spec_try_parse_date(word@) == Some(t@),
            None => spec_try_parse_date(word@) is None,
        },
{
    let w = to_chars(word);
    try_parse_date_chars(w.as_slice())
}

/// A number: an optional '-', at least one digit, optionally a '.' or ','
/// followed by at least one digit, and whatever follows as its suffix.
pub open spec fn spec_try_parse_number(w: Seq<char>) -> Option<RawTok> {
    if w.len() == 0 {
        None
    } else {
        let neg = w[0] == '-';
        let start: int = if neg { 1 } else { 0 };
        let k = digit_prefix_len(w.skip(start));
        if k == 0 {
            None
        } else {
            let idx = start + k;
            let has_dec = idx + 1 < w.len() && (w[idx] == '.' || w[idx] == ',') && spec_is_digit(w[idx + 1]);
            let end = if has_dec { idx + 1 + digit_prefix_len(w.skip(idx + 1)) } else { idx };
            Some(RawTok::Number {
                raw: w,
                is_negative: neg,
                int_part: w.subrange(start, idx),
                dec_part: if has_dec { Some(w.subrange(idx + 1, end)) } else { None },
                suffix: if end < w.len() { Some(w.skip(end)) } else { None },
            })
        }
    }
}

/// Reads a number with an optional sign, decimal part and suffix (see
/// `spec_try_parse_number`).
pub fn try_parse_number_chars(w: &[char]) -> (r: Option<RawToken>)
    ensures
        match r {
            Some(t) => spec_try_parse_number(w@) == Some(t@),
            None => spec_try_parse_number(w@) is None,
        },
{
    let n = w.len();
    if n == 0 {
        return None;
    }
    let neg = w[0] == '-';
    let start: usize = if neg { 1 } else { 0 };
    let k = digit_prefix_len_from(w, start);
    if k == 0 {
        return None;
    }
    let idx = start + k;
    let has_dec = idx < n && n - idx > 1 && (w[idx] == '.' || w[idx] == ',') && is_digit(w[idx + 1]);
    let end = if has_dec { idx + 1 + digit_prefix_len_from(w, idx + 1) } else { idx };
    let int_part = slice_range(w, start, idx);
    let dec_part = if has_dec {
        let d = slice_range(w, idx + 1, end);
        Some(from_chars(d.as_slice()))
    } else {
        None
    };
    let suffix = if end < n {
        let s = slice_range(w, end, n);
        assert(s@ =~= w@.skip(end as int));
        Some(from_chars(s.as_slice()))
    } else {
        None
    };
    Some(RawToken::Number {
        raw: from_chars(w),
        is_negative: neg,
        int_part: from_chars(int_part.as_slice()),
        dec_part,
        suffix,
    })
}

/// Reads a number with an optional sign, decimal part and suffix (see
/// `spec_try_parse_number`).
pub fn try_parse_number(word: &str) -> (r: Option<RawToken>)
    ensures
        match r {
            Some(t) => spec_try_parse_number(word@) == Some(t@),
            None => spec_try_parse_number(word@) is None,
        },
{
    let w = to_chars(word);
    try_parse_number_chars(w.as_slice())
}

/// A word read as a time, else a date, else a number, else a plain word.
pub open spec fn spec_parse_word_token(w: Seq<char>) -> RawTok {
    match spec_try_parse_time(w) {
        Some(t) => t,
        None => match spec_try_parse_date(w) {
            Some(d) => d,
            None => match spec_try_parse_number(w) {
                Some(n) => n,
                None => RawTok::Word(w),
            },
        },
    }
}

/// Reads a word as a time, else a date, else a number, else a plain word.
pub fn parse_word_token_chars(w: &[char]) -> (r: RawToken)
    ensures
        r@ == spec_parse_word_token(w@),
{
    if let Some(t) = try_parse_time_chars(w) {
        return t;
    }
    if let Some(d) = try_parse_date_chars(w) {
        return d;
    }
    if let Some(n) = try_parse_number_chars(w) {
        return n;
    }
    RawToken::Word(from_chars(w))
}

/// Reads a word as a time, else a date, else a number, else a plain word.
pub fn parse_word_token(word: &str) -> (r: RawToken)
    ensures
        r@ == spec_parse_word_token(word@),
{
    let w = to_chars(word);
    parse_word_token_chars(w.as_slice())
}

/// The punctuation marks that are split off a word.
pub open spec fn is_punct(c: char) -> bool {
    c == '.' || c == ',' || c == '!' || c == '?' || c == ':' || c == ';' || c == '"' || c == '\'' || c == '`'
        || c == 'ʼ' || c == '’' || c == '(' || c == ')' || c == '[' || c == ']' || c == '{' || c == '}'
        || c == '«' || c == '»' || c == '—' || c == '-'
}

fn is_punct_exec(c: char) -> (b: bool)
    ensures
        b == is_punct(c),
{
    c == '.' || c == ',' || c == '!' || c == '?' || c == ':' || c == ';' || c == '"' || c == '\'' || c == '`'
        || c == 'ʼ' || c == '’' || c == '(' || c == ')' || c == '[' || c == ']' || c == '{' || c == '}'
        || c == '«' || c == '»' || c == '—' || c == '-'
}

/// Length of the punctuation that leads `w`; a '-' right before a digit
/// (a minus sign) ends it.
pub open spec fn lead_punct_len(w: Seq<char>) -> nat
    decreases w.len(),
{
    if w.len() > 0 && is_punct(w[0]) && !(w[0] == '-' && w.len() > 1 && spec_is_digit(w[1])) {
        1 + lead_punct_len(w.skip(1))
    } else {
        0
    }
}

/// Where the punctuation that trails `w` begins, not before `start`.
pub open spec fn trail_punct_start(w: Seq<char>, start: nat) -> nat
    decreases w.len(),
{
    if w.len() > start && is_punct(w.last()) {
        trail_punct_start(w.drop_last(), start)
    } else {
        w.len()
    }
}

/// A word cut into leading punctuation, core and trailing punctuation.
pub open spec fn spec_split_punctuation(w: Seq<char>) -> (Seq<char>, Seq<char>, Seq<char>) {
    let start = lead_punct_len(w);
    let end = trail_punct_start(w, start);
    (w.take(start as int), w.subrange(start as int, end as int), w.skip(end as int))
}

proof fn lemma_punct_bounds(w: Seq<char>, start: nat)
    ensures
        lead_punct_len(w) <= w.len(),
        start <= w.len() ==> start <= trail_punct_start(w, start) <= w.len(),
    decreases w.len(),
{
    if w.len() > 0 && is_punct(w[0]) && !(w[0] == '-' && w.len() > 1 && spec_is_digit(w[1])) {
        lemma_punct_bounds(w.skip(1), start);
    }
    if w.len() > start && is_punct(w.last()) {
        lemma_punct_bounds(w.drop_last(), start);
    }
}

/// Cuts a word into leading punctuation, core and trailing punctuation.
pub fn split_punctuation_chars(w: &[char]) -> (r: (Vec<char>, Vec<char>, Vec<char>))
    ensures
        (r.0@, r.1@, r.2@) == spec_split_punctuation(w@),
{
    let n = w.len();
    let mut start: usize = 0;
    assert(w@.skip(0) =~= w@);
    while start < n && is_punct_exec(w[start]) && !(w[start] == '-' && start + 1 < n && is_digit(w[start + 1]))
        invariant
            n == w@.len(),
            start <= n,
            lead_punct_len(w@) == start + lead_punct_len(w@.skip(start as int)),
        decreases n - start,
    {
        assert(w@.skip(start as int).skip(1) =~= w@.skip(start + 1));
        start = start + 1;
    }
    let mut end: usize = n;
    assert(w@.take(n as int) =~= w@);
    while end > start && is_punct_exec(w[end - 1])
        invariant
            n == w@.len(),
            start <= end <= n,
            trail_punct_start(w@, start as nat) == trail_punct_start(w@.take(end as int), start as nat),
        decreases end,
    {
        assert(w@.take(end as int).drop_last() =~= w@.take(end - 1));
        end = end - 1;
    }
    let prefix = slice_prefix(w, start);
    let core = slice_range(w, start, end);
    let suffix = slice_range(w, end, n);
    assert(suffix@ =~= w@.skip(end as int));
    (prefix, core, suffix)
}

/// Cuts a word into leading punctuation, core and trailing punctuation.
pub fn split_punctuation(word: &str) -> (r: (String, String, String))
    ensures
        (r.0@, r.1@, r.2@) == spec_split_punctuation(word@),
{
    let w = to_chars(word);
    let (p, c, s) = split_punctuation_chars(w.as_slice());
    (from_chars(p.as_slice()), from_chars(c.as_slice()), from_chars(s.as_slice()))
}

/// The punctuation token of a character.
pub open spec fn punct_tok(c: char) -> RawTok {
    RawTok::Punctuation(c)
}

/// One punctuation token per character.
pub open spec fn punct_tokens(s: Seq<char>) -> Seq<RawTok>
    decreases s.len(),
{
    if s.len() == 0 {
        Seq::empty()
    } else {
        punct_tokens(s.drop_last()).push(punct_tok(s.last()))
    }
}

/// The tokens of one whitespace-free word: its leading punctuation marks,
/// its core (when not empty) and its trailing punctuation marks.
pub open spec fn spec_tokenize_word(w: Seq<char>) -> Seq<RawTok> {
    let (p, c, s) = spec_split_punctuation(w);
    punct_tokens(p) + (if c.len() > 0 { seq![spec_parse_word_token(c)] } else { Seq::empty() }) + punct_tokens(s)
}

fn push_punct(out: &mut Vec<RawToken>, s: &[char])
    ensures
        raw_views(final(out)@) == raw_views(old(out)@) + punct_tokens(s@),
{
    let ghost start = out@;
    let mut i: usize = 0;
    assert(punct_tokens(s@.take(0)) =~= Seq::<RawTok>::empty());
    assert(raw_views(start) + Seq::<RawTok>::empty() =~= raw_views(start));
    while i < s.len()
        invariant
            i <= s@.len(),
            start == old(out)@,
            raw_views(out@) == raw_views(start) + punct_tokens(s@.take(i as int)),
        decreases s.len() - i,
    {
        let ghost before = out@;
        let c = s[i];
        let tok = RawToken::Punctuation(c);
        out.push(tok);
        proof {
            lemma_raw_views_push(before, tok);
            assert(s@.take(i + 1).drop_last() =~= s@.take(i as int));
            assert(raw_views(start) + punct_tokens(s@.take(i + 1)) =~= (raw_views(start) + punct_tokens(s@.take(i as int))).push(punct_tok(c)));
        }
        i = i + 1;
    }
    assert(s@.take(s@.len() as int) =~= s@);
}

fn tokenize_word_into(out: &mut Vec<RawToken>, w: &[char])
    ensures
        raw_views(final(out)@) == raw_views(old(out)@) + spec_tokenize_word(w@),
{
    let (p, c, s) = split_punctuation_chars(w);
    push_punct(out, p.as_slice());
    if c.len() > 0 {
        let ghost before = out@;
        let tok = parse_word_token_chars(c.as_slice());
        out.push(tok);
        proof { lemma_raw_views_push(before, tok); }
    }
    push_punct(out, s.as_slice());
    assert(raw_views(out@) =~= raw_views(old(out)@) + spec_tokenize_word(w@));
}

/// The tokens of one whitespace-free word (see `spec_tokenize_word`).
pub fn tokenize_word(word: &str) -> (r: Vec<RawToken>)
    ensures
        raw_views(r@) == spec_tokenize_word(word@),
{
    let w = to_chars(word);
    let mut out: Vec<RawToken> = Vec::new();
    tokenize_word_into(&mut out, w.as_slice());
    assert(raw_views(Seq::<RawToken>::empty()) =~= Seq::<RawTok>::empty());
    out
}

/// The tokens of a text: each run of whitespace is one token, each word is
/// cut as `spec_tokenize_word` says.
pub open spec fn spec_tokenize(s: Seq<char>) -> Seq<RawTok>
    decreases s.len(),
{
    if s.len() == 0 {
        Seq::empty()
    } else {
        let ws = char_is_whitespace(s[0]);
        let k = run_len(s, ws);
        proof {
            lemma_run_len(s, ws);
        }
        (if ws { seq![RawTok::Whitespace(s.take(k as int))] } else { spec_tokenize_word(s.take(k as int)) })
            + spec_tokenize(s.skip(k as int))
    }
}

/// The tokens of a text (see `spec_tokenize`).
pub fn tokenize_chars(s: &[char]) -> (r: Vec<RawToken>)
    ensures
        raw_views(r@) == spec_tokenize(s@),
{
    let mut out: Vec<RawToken> = Vec::new();
    let n = s.len();
    let mut i: usize = 0;
    assert(s@.skip(0) =~= s@);
    assert(raw_views(out@) =~= Seq::<RawTok>::empty());
    while i < n
        invariant
            n == s@.len(),
            i <= n,
            raw_views(out@) + spec_tokenize(s@.skip(i as int)) == spec_tokenize(s@),
        decreases n - i,
    {
        let ghost rest = s@.skip(i as int);
        let ws = is_whitespace(s[i]);
        let j = run_end(s, i, ws);
        proof { lemma_run_len(rest, ws); }
        let piece = slice_range(s, i, j);
        assert(piece@ =~= rest.take((j - i) as int));
        assert(rest.skip((j - i) as int) =~= s@.skip(j as int));
        let ghost before = out@;
        if ws {
            let tok = RawToken::Whitespace(from_chars(piece.as_slice()));
            out.push(tok);
            proof { lemma_raw_views_push(before, tok); }
        } else {
            tokenize_word_into(&mut out, piece.as_slice());
        }
        assert(raw_views(out@) + spec_tokenize(s@.skip(j as int)) =~= raw_views(before) + spec_tokenize(rest));
        i = j;
    }
    assert(s@.skip(n as int) =~= Seq::<char>::empty());
    assert(raw_views(out@) + Seq::<RawTok>::empty() =~= raw_views(out@));
    out
}

/// The tokens of a text (see `spec_tokenize`).
pub fn tokenize(text: &str) -> (r: Vec<RawToken>)
    ensures
        raw_views(r@) == spec_tokenize(text@),
{
    let s = to_chars(text);
    tokenize_chars(s.as_slice())
}


/// Cutting a word into leading punctuation, core and trailing punctuation
/// loses nothing: the three pieces, put back together, are the word, and
/// the outer two are punctuation only.
pub proof fn law_split_punctuation_reassembles(w: Seq<char>)
    ensures
        ({
            let (p, c, s) = spec_split_punctuation(w);
            &&& p + c + s == w
            &&& forall|j: int| 0 <= j < p.len() ==> is_punct(#[trigger] p[j])
            &&& forall|j: int| 0 <= j < s.len() ==> is_punct(#[trigger] s[j])
        }),
{
    let start = lead_punct_len(w);
    lemma_punct_bounds(w, start);
    let end = trail_punct_start(w, start);
    lemma_lead_punct(w);
    lemma_trail_punct(w, start);
    let (p, c, s) = spec_split_punctuation(w);
    assert(p + c + s =~= w);
    assert forall|j: int| 0 <= j < p.len() implies is_punct(#[trigger] p[j]) by {
        assert(p[j] == w[j]);
    }
    assert forall|j: int| 0 <= j < s.len() implies is_punct(#[trigger] s[j]) by {
        assert(s[j] == w[end + j]);
    }
}

proof fn lemma_lead_punct(w: Seq<char>)
    ensures
        forall|j: int| 0 <= j < lead_punct_len(w) ==> is_punct(#[trigger] w[j]),
    decreases w.len(),
{
    lemma_punct_bounds(w, 0);
    if w.len() > 0 && is_punct(w[0]) && !(w[0] == '-' && w.len() > 1 && spec_is_digit(w[1])) {
        lemma_lead_punct(w.skip(1));
        assert forall|j: int| 0 <= j < lead_punct_len(w) implies is_punct(#[trigger] w[j]) by {
            if j > 0 {
                assert(w[j] == w.skip(1)[j - 1]);
            }
        }
    }
}

proof fn lemma_trail_punct(w: Seq<char>, start: nat)
    ensures
        forall|j: int| trail_punct_start(w, start) <= j < w.len() ==> is_punct(#[trigger] w[j]),
    decreases w.len(),
{
    if w.len() > start && is_punct(w.last()) {
        lemma_trail_punct(w.drop_last(), start);
        assert forall|j: int| trail_punct_start(w, start) <= j < w.len() implies is_punct(#[trigger] w[j]) by {
            if j < w.len() - 1 {
                assert(w[j] == w.drop_last()[j]);
            }
        }
    }
}


/// The text a raw token stands for.
pub open spec fn raw_text(t: RawTok) -> Seq<char> {
    match t {
        RawTok::Word(w) => w,
        RawTok::Number { raw, .. } => raw,
        RawTok::Time { hours, minutes, seconds } => hours + seq![':'] + minutes + match seconds {
            Some(s) => seq![':'] + s,
            None => Seq::empty(),
        },
        RawTok::Date { day, month, year } => day + seq!['.'] + month + match year {
            Some(y) => seq!['.'] + y,
            None => Seq::empty(),
        },
        RawTok::Punctuation(c) => seq![c],
        RawTok::Whitespace(w) => w,
    }
}

/// The texts of the tokens, one after the other.
pub open spec fn tokens_text(ts: Seq<RawTok>) -> Seq<char>
    decreases ts.len(),
{
    if ts.len() == 0 {
        Seq::empty()
    } else {
        tokens_text(ts.drop_last()) + raw_text(ts.last())
    }
}

proof fn lemma_tokens_text_concat(a: Seq<RawTok>, b: Seq<RawTok>)
    ensures
        tokens_text(a + b) == tokens_text(a) + tokens_text(b),
    decreases b.len(),
{
    if b.len() == 0 {
        assert(a + b =~= a);
        assert(tokens_text(a) + Seq::<char>::empty() =~= tokens_text(a));
    } else {
        lemma_tokens_text_concat(a, b.drop_last());
        assert((a + b).drop_last() =~= a + b.drop_last());
        assert((a + b).last() == b.last());
        assert(tokens_text(a) + tokens_text(b.drop_last()) + raw_text(b.last()) =~= tokens_text(a) + (tokens_text(
            b.drop_last(),
        ) + raw_text(b.last())));
    }
}

proof fn lemma_punct_tokens_text(s: Seq<char>)
    ensures
        tokens_text(punct_tokens(s)) == s,
    decreases s.len(),
{
    if s.len() > 0 {
        lemma_punct_tokens_text(s.drop_last());
        let ts = punct_tokens(s);
        assert(ts == punct_tokens(s.drop_last()).push(punct_tok(s.last())));
        assert(ts.drop_last() =~= punct_tokens(s.drop_last()));
        assert(s.drop_last() + seq![s.last()] =~= s);
    } else {
        assert(s =~= Seq::<char>::empty());
    }
}

proof fn lemma_parse_word_token_text(w: Seq<char>)
    ensures
        raw_text(spec_parse_word_token(w)) == w,
{
    match spec_try_parse_time(w) {
        Some(t) => {
            let parts = split_char(w, ':');
            lemma_split_join(w, ':');
            if parts.len() == 2 {
                assert(parts.drop_last().drop_last().len() == 0);
                assert(join_words(parts.drop_last(), seq![':']) == parts[0]);
                assert(join_words(parts, seq![':']) == parts[0] + seq![':'] + parts[1]);
                assert(raw_text(t) =~= parts[0] + seq![':'] + parts[1]);
            } else {
                let p2 = parts.drop_last();
                assert(p2.drop_last().len() == 1);
                assert(join_words(p2.drop_last(), seq![':']) == parts[0]);
                assert(join_words(p2, seq![':']) == parts[0] + seq![':'] + parts[1]);
                assert(join_words(parts, seq![':']) == parts[0] + seq![':'] + parts[1] + seq![':'] + parts[2]);
                assert(raw_text(t) =~= parts[0] + seq![':'] + parts[1] + seq![':'] + parts[2]);
            }
        },
        None => match spec_try_parse_date(w) {
            Some(t) => {
                let parts = split_char(w, '.');
                lemma_split_join(w, '.');
                if parts.len() == 2 {
                    assert(join_words(parts.drop_last(), seq!['.']) == parts[0]);
                    assert(join_words(parts, seq!['.']) == parts[0] + seq!['.'] + parts[1]);
                    assert(raw_text(t) =~= parts[0] + seq!['.'] + parts[1]);
                } else {
                    let p2 = parts.drop_last();
                    assert(join_words(p2.drop_last(), seq!['.']) == parts[0]);
                    assert(join_words(p2, seq!['.']) == parts[0] + seq!['.'] + parts[1]);
                    assert(join_words(parts, seq!['.']) == parts[0] + seq!['.'] + parts[1] + seq!['.'] + parts[2]);
                    assert(raw_text(t) =~= parts[0] + seq!['.'] + parts[1] + seq!['.'] + parts[2]);
                }
            },
            None => {},
        },
    }
}

proof fn lemma_tokenize_word_text(w: Seq<char>)
    ensures
        tokens_text(spec_tokenize_word(w)) == w,
{
    let (p, c, s) = spec_split_punctuation(w);
    law_split_punctuation_reassembles(w);
    let core: Seq<RawTok> = if c.len() > 0 { seq![spec_parse_word_token(c)] } else { Seq::empty() };
    lemma_tokens_text_concat(punct_tokens(p), core);
    lemma_tokens_text_concat(punct_tokens(p) + core, punct_tokens(s));
    lemma_punct_tokens_text(p);
    lemma_punct_tokens_text(s);
    if c.len() > 0 {
        lemma_parse_word_token_text(c);
        assert(core.drop_last() =~= Seq::<RawTok>::empty());
        assert(tokens_text(Seq::<RawTok>::empty()) =~= Seq::<char>::empty());
        assert(tokens_text(core) == tokens_text(core.drop_last()) + raw_text(core.last()));
        assert(tokens_text(core) =~= c);
    } else {
        assert(tokens_text(core) =~= c);
    }
}

/// The lexer loses no character: the texts of the tokens of a text, one
/// after the other, are the text.
pub proof fn law_tokenize_keeps_text(s: Seq<char>)
    ensures
        tokens_text(spec_tokenize(s)) == s,
    decreases s.len(),
{
    if s.len() > 0 {
        let ws = char_is_whitespace(s[0]);
        let k = run_len(s, ws);
        lemma_run_len(s, ws);
        let head: Seq<RawTok> = if ws { seq![RawTok::Whitespace(s.take(k as int))] } else { spec_tokenize_word(s.take(k as int)) };
        law_tokenize_keeps_text(s.skip(k as int));
        lemma_tokens_text_concat(head, spec_tokenize(s.skip(k as int)));
        if ws {
            assert(head.drop_last() =~= Seq::<RawTok>::empty());
            assert(tokens_text(Seq::<RawTok>::empty()) =~= Seq::<char>::empty());
            assert(tokens_text(head) == tokens_text(head.drop_last()) + raw_text(head.last()));
            assert(tokens_text(head) =~= s.take(k as int));
        } else {
            lemma_tokenize_word_text(s.take(k as int));
        }
        assert(s.take(k as int) + s.skip(k as int) =~= s);
    }
}

} // verus!
