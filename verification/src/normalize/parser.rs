//! Reading the context of each token: prepositions before numbers, times
//! and dates, units and nouns after numbers, and the gender a numeral
//! takes.

use vstd::prelude::*;
use vstd::utf8::encode_utf8;
use crate::abbr::{
    Gender, spec_is_abbreviation, is_abbreviation_chars, is_preposition_word, is_preposition_chars_any_case,
    spec_find_unit, find_unit_chars, spec_context_noun, get_context_noun_chars, seq_ends_with,
    seq_starts_with,
};
use crate::normalize::types::{
    NumberValue, RawToken, RawTok, Token, Tok, raw_views, tok_views, opt_string_view,
    lemma_tok_views_push, lemma_tok_views_len,
};
use crate::num::{spec_parse_u8, spec_parse_u16, spec_parse_u32, spec_parse_i64, parse_u8, parse_u16, parse_u32, parse_i64};
use crate::tables::{abbr_entry, lookup_abbr};
use crate::text::{
    str_lowercase, lower, to_chars, from_chars, eq_str, ends_with, starts_with, has_digit, has_digit_exec,
    all_alphanumeric, all_alphanumeric_exec,
};

verus! {

/// A `u8` read from digits, 0 where they do not form one.
pub open spec fn u8_or_zero(s: Seq<char>) -> u8 {
    match spec_parse_u8(s) {
        Some(v) => v as u8,
        None => 0,
    }
}

/// A `u16` read from digits, 0 where they do not form one.
pub open spec fn u16_or_zero(s: Seq<char>) -> u16 {
    match spec_parse_u16(s) {
        Some(v) => v as u16,
        None => 0,
    }
}

/// A `u32` read from digits, 0 where they do not form one.
pub open spec fn u32_or_zero(s: Seq<char>) -> u32 {
    match spec_parse_u32(s) {
        Some(v) => v as u32,
        None => 0,
    }
}

/// An `i64` read from digits, 0 where they do not form one.
pub open spec fn i64_or_zero(s: Seq<char>) -> i64 {
    match spec_parse_i64(s) {
        Some(v) => v as i64,
        None => 0,
    }
}

/// The token a raw token becomes before its context is read: words are
/// marked as abbreviations, times, dates and numbers get their values.
pub open spec fn initial_token(rt: RawTok) -> Tok {
    match rt {
        RawTok::Whitespace(ws) => Tok::Whitespace(ws),
        RawTok::Punctuation(c) => Tok::Punctuation(c),
        RawTok::Word(w) => Tok::Word {
            text: w,
            is_abbr: spec_is_abbreviation(w) || abbr_entry(str_lowercase(w)) is Some,
        },
        RawTok::Time { hours, minutes, seconds } => Tok::Time {
            hours: u8_or_zero(hours),
            minutes: u8_or_zero(minutes),
            seconds: match seconds {
                Some(s) => Some(u8_or_zero(s)),
                None => None,
            },
            preposition: None,
        },
        RawTok::Date { day, month, year } => Tok::Date {
            day: u8_or_zero(day),
            month: u8_or_zero(month),
            year: match year {
                Some(y) => Some(u16_or_zero(y)),
                None => None,
            },
            preposition: None,
        },
        RawTok::Number { raw, is_negative, int_part, dec_part, suffix } => Tok::Number {
            raw,
            is_negative,
            value: match dec_part {
                None => NumberValue::Integer(i64_or_zero(int_part)),
                Some(dp) => NumberValue::Decimal {
                    int_part: i64_or_zero(int_part),
                    dec_part: u32_or_zero(dp),
                    dec_places: encode_utf8(dp).len() as usize,
                },
            },
            suffix,
            unit: None,
            context_noun: None,
            preposition: None,
            governed_by_decimal: false,
            gender: Gender::Masculine,
        },
    }
}

/// The text of the nearest word before index `i`, across punctuation and
/// whitespace only.
pub open spec fn preceding_word(ts: Seq<Tok>, i: int) -> Option<Seq<char>>
    decreases i,
{
    if i <= 0 || i > ts.len() {
        None
    } else {
        match ts[i - 1] {
            Tok::Word { text, .. } => Some(text),
            Tok::Punctuation(_) | Tok::Whitespace(_) => preceding_word(ts, i - 1),
            _ => None,
        }
    }
}

/// Index and text of the nearest word after index `i`, across punctuation
/// and whitespace only.
pub open spec fn following_word(ts: Seq<Tok>, i: int) -> Option<(int, Seq<char>)>
    decreases ts.len() - i,
{
    if i + 1 >= ts.len() || i + 1 < 0 {
        None
    } else {
        match ts[i + 1] {
            Tok::Word { text, .. } => Some((i + 1, text)),
            Tok::Punctuation(_) | Tok::Whitespace(_) => following_word(ts, i + 1),
            _ => None,
        }
    }
}

pub proof fn lemma_following_word(ts: Seq<Tok>, i: int)
    ensures
        following_word(ts, i) matches Some((j, w)) ==> i < j < ts.len() && 0 <= j,
    decreases ts.len() - i,
{
    if !(i + 1 >= ts.len() || i + 1 < 0) {
        lemma_following_word(ts, i + 1);
    }
}

/// Whether a unit name is one of temperature.
pub open spec fn is_temperature_unit(u: Option<Seq<char>>) -> bool {
    match u {
        Some(u) => seq_starts_with(u, "градус"@) || seq_starts_with(u, "кельвін"@),
        None => false,
    }
}

/// A unit and the noun class for a number, read from its suffix ("5кг").
pub open spec fn unit_from_suffix(suffix: Option<Seq<char>>) -> (Option<Seq<char>>, Option<Seq<char>>) {
    match suffix {
        Some(s) => {
            let l = str_lowercase(s);
            match spec_find_unit(l) {
                Some((_, u)) => (Some(u), spec_context_noun(l)),
                None => (None, None),
            }
        },
        None => (None, None),
    }
}

/// A noun class read from the word after a number: a known class, or the
/// word itself when it is no preposition and is letters only.
pub open spec fn noun_from_word(w: Seq<char>) -> Option<Seq<char>> {
    match spec_context_noun(str_lowercase(w)) {
        Some(m) => Some(m),
        None => if !is_preposition_word(str_lowercase(w)) && !has_digit(w) && all_alphanumeric(w) {
            Some(w)
        } else {
            None
        },
    }
}

/// The gender of an integer with an ordinal suffix ("1-а", "1-е").
pub open spec fn suffix_gender(suffix: Option<Seq<char>>, g: Gender) -> Gender {
    match suffix {
        Some(s) => if seq_ends_with(s, "а"@) || seq_ends_with(s, "я"@) {
            Gender::Feminine
        } else if seq_ends_with(s, "е"@) || seq_ends_with(s, "є"@) {
            Gender::Neuter
        } else {
            g
        },
        None => g,
    }
}

/// Whether a word is the thousands mark "к" (in either case).
pub open spec fn is_thousands_mark(w: Seq<char>) -> bool {
    str_lowercase(w) == "к"@
}

/// What one unit of the last of `places` decimal places is worth in
/// thousandths (for up to three places).
pub open spec fn thousandths(places: usize) -> int {
    if places == 0 {
        1000
    } else if places == 1 {
        100
    } else if places == 2 {
        10
    } else {
        1
    }
}

/// A number's value times a thousand, where that is a whole number that
/// fits an `i64`: an integer, or a decimal with at most three places.
pub open spec fn times_thousand(v: NumberValue) -> Option<NumberValue> {
    let m = match v {
        NumberValue::Integer(n) => Some(n * 1000),
        NumberValue::Decimal { int_part, dec_part, dec_places } => if dec_places <= 3 {
            Some(int_part * 1000 + dec_part * thousandths(dec_places))
        } else {
            None
        },
    };
    match m {
        Some(x) => if i64::MIN <= x && x <= i64::MAX {
            Some(NumberValue::Integer(x as i64))
        } else {
            None
        },
        None => None,
    }
}

/// A number followed by the thousands mark, as its suffix ("1.5к") or as
/// the next word ("2.5 к"), is read as that many thousands: the value, the
/// suffix and the tokens after the mark is taken (the mark's word becomes
/// empty whitespace).
pub open spec fn thousands_step(ts: Seq<Tok>, idx: int, value: NumberValue, suffix: Option<Seq<char>>) -> (
    NumberValue,
    Option<Seq<char>>,
    Seq<Tok>,
) {
    match times_thousand(value) {
        Some(v2) => match suffix {
            Some(s) => if is_thousands_mark(s) {
                (v2, None, ts)
            } else {
                (value, suffix, ts)
            },
            None => match following_word(ts, idx) {
                Some((ni, nw)) => if is_thousands_mark(nw) {
                    (v2, None, ts.update(ni, Tok::Whitespace(Seq::empty())))
                } else {
                    (value, suffix, ts)
                },
                None => (value, suffix, ts),
            },
        },
        None => (value, suffix, ts),
    }
}

/// The tokens, and the token at `idx`, after the context of that token has
/// been read; a unit word taken by a number becomes empty whitespace.
pub open spec fn context_step(ts: Seq<Tok>, idx: int) -> (Seq<Tok>, Tok) {
    let cur = ts[idx];
    match cur {
        Tok::Time { hours, minutes, seconds, preposition } => {
            let p = match preceding_word(ts, idx) {
                Some(w) => if str_lowercase(w) == "о"@ || str_lowercase(w) == "об"@ { Some(w) } else { preposition },
                None => preposition,
            };
            (ts, Tok::Time { hours, minutes, seconds, preposition: p })
        },
        Tok::Date { day, month, year, preposition } => {
            let p = match preceding_word(ts, idx) {
                Some(w) => Some(w),
                None => preposition,
            };
            (ts, Tok::Date { day, month, year, preposition: p })
        },
        Tok::Number { raw, is_negative, value, suffix, unit, context_noun, preposition, governed_by_decimal, gender } => {
            let p = match preceding_word(ts, idx) {
                Some(w) => if is_preposition_word(str_lowercase(w)) { Some(w) } else { preposition },
                None => preposition,
            };
            let (value, suffix, ts) = thousands_step(ts, idx, value, suffix);
            let (u1, c1) = unit_from_suffix(suffix);
            let (u2, c2, ts2) = if u1 is None {
                match following_word(ts, idx) {
                    Some((ni, nw)) => {
                        let ln = str_lowercase(nw);
                        match spec_find_unit(ln) {
                            Some((end, u)) => if end == ln.len() {
                                (Some(u), spec_context_noun(ln), ts.update(ni, Tok::Whitespace(Seq::empty())))
                            } else {
                                (u1, c1, ts)
                            },
                            None => (u1, c1, ts),
                        }
                    },
                    None => (u1, c1, ts),
                }
            } else {
                (u1, c1, ts)
            };
            let c3 = if c2 is None {
                match following_word(ts2, idx) {
                    Some((_, nw)) => noun_from_word(nw),
                    None => c2,
                }
            } else {
                c2
            };
            let (gov, g) = match value {
                NumberValue::Decimal { int_part, dec_places, .. } => {
                    let simplified = is_temperature_unit(u2) && int_part > 9 && dec_places == 1;
                    (!simplified, if simplified { Gender::Masculine } else { Gender::Feminine })
                },
                NumberValue::Integer(_) => (false, suffix_gender(suffix, gender)),
            };
            (ts2, Tok::Number {
                raw,
                is_negative,
                value,
                suffix,
                unit: u2,
                context_noun: c3,
                preposition: p,
                governed_by_decimal: gov,
                gender: g,
            })
        },
        _ => (ts, cur),
    }
}

/// The tokens from index `idx` on, each after its context was read.
pub open spec fn context_from(ts: Seq<Tok>, idx: int, n: int) -> Seq<Tok>
    decreases n - idx,
{
    if idx >= n || idx < 0 || idx >= ts.len() {
        Seq::empty()
    } else {
        let (ts2, cur) = context_step(ts, idx);
        seq![cur] + context_from(ts2, idx + 1, n)
    }
}

/// Whether a token is whitespace with no characters.
pub open spec fn is_empty_ws(t: Tok) -> bool {
    t matches Tok::Whitespace(w) && w.len() == 0
}

/// The tokens without empty whitespace.
pub open spec fn drop_empty_ws(ts: Seq<Tok>) -> Seq<Tok>
    decreases ts.len(),
{
    if ts.len() == 0 {
        ts
    } else if is_empty_ws(ts.last()) {
        drop_empty_ws(ts.drop_last())
    } else {
        drop_empty_ws(ts.drop_last()).push(ts.last())
    }
}

/// The initial tokens of raw tokens.
pub open spec fn initial_tokens(rs: Seq<RawTok>) -> Seq<Tok>
    decreases rs.len(),
{
    if rs.len() == 0 {
        Seq::empty()
    } else {
        initial_tokens(rs.drop_last()).push(initial_token(rs.last()))
    }
}

/// The tokens of a text with their context read (see `context_step`),
/// units that were taken by numbers removed.
pub open spec fn spec_parse_context(rs: Seq<RawTok>) -> Seq<Tok> {
    let ts = initial_tokens(rs);
    drop_empty_ws(context_from(ts, 0, ts.len() as int))
}

fn clone_opt_string(o: &Option<String>) -> (r: Option<String>)
    ensures
        opt_string_view(r) == opt_string_view(*o),
{
    match o {
        Some(s) => Some(s.clone()),
        None => None,
    }
}

/// A copy of a token.
pub fn clone_token(t: &Token) -> (r: Token)
    ensures
        r@ == t@,
{
    match t {
        Token::Word { text, is_abbr } => Token::Word { text: text.clone(), is_abbr: *is_abbr },
        Token::Number {
            raw,
            is_negative,
            value,
            suffix,
            unit,
            context_noun,
            preposition,
            governed_by_decimal,
            gender,
        } => Token::Number {
            raw: raw.clone(),
            is_negative: *is_negative,
            value: match value {
                NumberValue::Integer(v) => NumberValue::Integer(*v),
                NumberValue::Decimal { int_part, dec_part, dec_places } => NumberValue::Decimal {
                    int_part: *int_part,
                    dec_part: *dec_part,
                    dec_places: *dec_places,
                },
            },
            suffix: clone_opt_string(suffix),
            unit: clone_opt_string(unit),
            context_noun: clone_opt_string(context_noun),
            preposition: clone_opt_string(preposition),
            governed_by_decimal: *governed_by_decimal,
            gender: *gender,
        },
        Token::Time { hours, minutes, seconds, preposition } => Token::Time {
            hours: *hours,
            minutes: *minutes,
            seconds: *seconds,
            preposition: clone_opt_string(preposition),
        },
        Token::Date { day, month, year, preposition } => Token::Date {
            day: *day,
            month: *month,
            year: *year,
            preposition: clone_opt_string(preposition),
        },
        Token::Punctuation(c) => Token::Punctuation(*c),
        Token::Whitespace(w) => Token::Whitespace(w.clone()),
    }
}

fn u8_or_zero_exec(s: &String) -> (v: u8)
    ensures
        v == u8_or_zero(s@),
{
    let c = to_chars(s.as_str());
    match parse_u8(c.as_slice()) {
        Some(v) => v,
        None => 0,
    }
}

fn i64_or_zero_exec(s: &String) -> (v: i64)
    ensures
        v == i64_or_zero(s@),
{
    let c = to_chars(s.as_str());
    match parse_i64(c.as_slice()) {
        Some(v) => v,
        None => 0,
    }
}

/// The token a raw token becomes before its context is read.
pub fn initial_token_exec(rt: &RawToken) -> (t: Token)
    ensures
        t@ == initial_token(rt@),
{
    match rt {
        RawToken::Whitespace(ws) => Token::Whitespace(ws.clone()),
        RawToken::Punctuation(c) => Token::Punctuation(*c),
        RawToken::Word(w) => {
            let wc = to_chars(w.as_str());
            let l = lower(wc.as_slice());
            let is_abbr = is_abbreviation_chars(wc.as_slice()) || lookup_abbr(l.as_slice()).is_some();
            Token::Word { text: w.clone(), is_abbr }
        },
        RawToken::Time { hours, minutes, seconds } => {
            let h = u8_or_zero_exec(hours);
            let m = u8_or_zero_exec(minutes);
            let s = match seconds {
                Some(s) => Some(u8_or_zero_exec(s)),
                None => None,
            };
            Token::Time { hours: h, minutes: m, seconds: s, preposition: None }
        },
        RawToken::Date { day, month, year } => {
            let d = u8_or_zero_exec(day);
            let m = u8_or_zero_exec(month);
            let y = match year {
                Some(y) => {
                    let c = to_chars(y.as_str());
                    Some(match parse_u16(c.as_slice()) {
                        Some(v) => v,
                        None => 0,
                    })
                },
                None => None,
            };
            Token::Date { day: d, month: m, year: y, preposition: None }
        },
        RawToken::Number { raw, is_negative, int_part, dec_part, suffix } => {
            let ip = i64_or_zero_exec(int_part);
            let value = match dec_part {
                None => NumberValue::Integer(ip),
                Some(dp) => {
                    let c = to_chars(dp.as_str());
                    let d = match parse_u32(c.as_slice()) {
                        Some(v) => v,
                        None => 0,
                    };
                    NumberValue::Decimal { int_part: ip, dec_part: d, dec_places: dp.as_str().len() }
                },
            };
            Token::Number {
                raw: raw.clone(),
                is_negative: *is_negative,
                value,
                suffix: clone_opt_string(suffix),
                unit: None,
                context_noun: None,
                preposition: None,
                governed_by_decimal: false,
                gender: Gender::Masculine,
            }
        },
    }
}

/// The text of the nearest word before index `start_idx`, across
/// punctuation and whitespace only.
pub fn find_preceding_word(tokens: &[Token], start_idx: usize) -> (r: Option<String>)
    requires
        start_idx <= tokens@.len(),
    ensures
        opt_string_view(r) == preceding_word(tok_views(tokens@), start_idx as int),
{
    proof { lemma_tok_views_len(tokens@); }
    let mut i: usize = start_idx;
    while i > 0
        invariant
            i <= start_idx <= tokens@.len(),
            tok_views(tokens@).len() == tokens@.len(),
            forall|k: int| 0 <= k < tokens@.len() ==> tok_views(tokens@)[k] == (#[trigger] tokens@[k])@,
            preceding_word(tok_views(tokens@), start_idx as int) == preceding_word(tok_views(tokens@), i as int),
        decreases i,
    {
        let ghost old_i = i;
        i = i - 1;
        assert(tok_views(tokens@)[i as int] == tokens@[i as int]@);
        match &tokens[i] {
            Token::Word { text, .. } => {
                return Some(text.clone());
            },
            Token::Punctuation(_) | Token::Whitespace(_) => {},
            _ => {
                return None;
            },
        }
    }
    None
}

/// Index and text of the nearest word after index `start_idx`, across
/// punctuation and whitespace only.
pub fn find_following_word(tokens: &[Token], start_idx: usize) -> (r: Option<(usize, String)>)
    ensures
        match r {
            Some((i, w)) => following_word(tok_views(tokens@), start_idx as int) == Some((i as int, w@)),
            None => following_word(tok_views(tokens@), start_idx as int) is None,
        },
{
    proof { lemma_tok_views_len(tokens@); }
    if start_idx >= tokens.len() {
        return None;
    }
    let mut i: usize = start_idx + 1;
    while i < tokens.len()
        invariant
            start_idx < i <= tokens@.len(),
            tok_views(tokens@).len() == tokens@.len(),
            forall|k: int| 0 <= k < tokens@.len() ==> tok_views(tokens@)[k] == (#[trigger] tokens@[k])@,
            following_word(tok_views(tokens@), start_idx as int) == following_word(tok_views(tokens@), i - 1),
        decreases tokens.len() - i,
    {
        assert(tok_views(tokens@)[i as int] == tokens@[i as int]@);
        match &tokens[i] {
            Token::Word { text, .. } => {
                return Some((i, text.clone()));
            },
            Token::Punctuation(_) | Token::Whitespace(_) => {},
            _ => {
                return None;
            },
        }
        i = i + 1;
    }
    None
}


proof fn lemma_tok_views_update(ts: Seq<Token>, i: int, t: Token)
    requires
        0 <= i < ts.len(),
    ensures
        tok_views(ts.update(i, t)) == tok_views(ts).update(i, t@),
{
    lemma_tok_views_len(ts);
    lemma_tok_views_len(ts.update(i, t));
    assert forall|k: int| 0 <= k < ts.len() implies #[trigger] tok_views(ts.update(i, t))[k] == tok_views(ts).update(i, t@)[k] by {
        assert(tok_views(ts.update(i, t))[k] == ts.update(i, t)[k]@);
    }
    assert(tok_views(ts.update(i, t)) =~= tok_views(ts).update(i, t@));
}

fn string_of_static(s: &'static str) -> (r: String)
    ensures
        r@ == s@,
{
    String::from_str(s)
}

fn unit_from_suffix_exec(suffix: &Option<String>) -> (r: (Option<String>, Option<String>))
    ensures
        (opt_string_view(r.0), opt_string_view(r.1)) == unit_from_suffix(opt_string_view(*suffix)),
{
    match suffix {
        Some(s) => {
            let sc = to_chars(s.as_str());
            let l = lower(sc.as_slice());
            match find_unit_chars(l.as_slice()) {
                Some((_, u)) => {
                    let c = match get_context_noun_chars(l.as_slice()) {
                        Some(m) => Some(string_of_static(m)),
                        None => None,
                    };
                    (Some(string_of_static(u)), c)
                },
                None => (None, None),
            }
        },
        None => (None, None),
    }
}

fn noun_from_word_exec(w: &String) -> (r: Option<String>)
    ensures
        opt_string_view(r) == noun_from_word(w@),
{
    let wc = to_chars(w.as_str());
    let l = lower(wc.as_slice());
    match get_context_noun_chars(l.as_slice()) {
        Some(m) => Some(string_of_static(m)),
        None => {
            if !is_preposition_chars_any_case(wc.as_slice()) && !has_digit_exec(wc.as_slice())
                && all_alphanumeric_exec(wc.as_slice()) {
                Some(w.clone())
            } else {
                None
            }
        },
    }
}

fn suffix_gender_exec(suffix: &Option<String>, g: Gender) -> (r: Gender)
    ensures
        r == suffix_gender(opt_string_view(*suffix), g),
{
    match suffix {
        Some(s) => {
            let sc = to_chars(s.as_str());
            let sc = sc.as_slice();
            if ends_with(sc, "а") || ends_with(sc, "я") {
                Gender::Feminine
            } else if ends_with(sc, "е") || ends_with(sc, "є") {
                Gender::Neuter
            } else {
                g
            }
        },
        None => g,
    }
}

fn is_temperature_unit_exec(u: &Option<String>) -> (b: bool)
    ensures
        b == is_temperature_unit(opt_string_view(*u)),
{
    match u {
        Some(s) => {
            let sc = to_chars(s.as_str());
            starts_with(sc.as_slice(), "градус") || starts_with(sc.as_slice(), "кельвін")
        },
        None => false,
    }
}

fn is_thousands_mark_exec(w: &String) -> (b: bool)
    ensures
        b == is_thousands_mark(w@),
{
    let wc = to_chars(w.as_str());
    let l = lower(wc.as_slice());
    eq_str(l.as_slice(), "к")
}

fn times_thousand_exec(v: &NumberValue) -> (r: Option<NumberValue>)
    ensures
        r == times_thousand(*v),
{
    let m: Option<i128> = match v {
        NumberValue::Integer(n) => Some((*n as i128) * 1000),
        NumberValue::Decimal { int_part, dec_part, dec_places } => {
            if *dec_places <= 3 {
                let t: i128 = if *dec_places == 0 {
                    1000
                } else if *dec_places == 1 {
                    100
                } else if *dec_places == 2 {
                    10
                } else {
                    1
                };
                Some((*int_part as i128) * 1000 + (*dec_part as i128) * t)
            } else {
                None
            }
        },
    };
    match m {
        Some(x) => if -9223372036854775808i128 <= x && x <= 9223372036854775807i128 {
            Some(NumberValue::Integer(x as i64))
        } else {
            None
        },
        None => None,
    }
}

/// Reads a number followed by the thousands mark as thousands (see
/// `thousands_step`).
fn thousands_step_exec(temp: &mut Vec<Token>, idx: usize, value: NumberValue, suffix: Option<String>) -> (r: (
    NumberValue,
    Option<String>,
))
    requires
        idx < old(temp)@.len(),
    ensures
        (r.0, opt_string_view(r.1), tok_views(final(temp)@)) == thousands_step(
            tok_views(old(temp)@),
            idx as int,
            value,
            opt_string_view(suffix),
        ),
        final(temp)@.len() == old(temp)@.len(),
{
    proof { lemma_tok_views_len(temp@); }
    match times_thousand_exec(&value) {
        Some(v2) => match &suffix {
            Some(s) => {
                if is_thousands_mark_exec(s) {
                    (v2, None)
                } else {
                    (value, suffix)
                }
            },
            None => {
                proof { lemma_following_word(tok_views(temp@), idx as int); }
                match find_following_word(temp.as_slice(), idx) {
                    Some((ni, nw)) => {
                        if is_thousands_mark_exec(&nw) {
                            let ghost before = temp@;
                            let ws = Token::Whitespace(String::new());
                            temp.set(ni, ws);
                            proof { lemma_tok_views_update(before, ni as int, ws); }
                            (v2, None)
                        } else {
                            (value, suffix)
                        }
                    },
                    None => (value, suffix),
                }
            },
        },
        None => (value, suffix),
    }
}

/// Reads the context of the token at `idx` (see `context_step`); a unit
/// word taken by a number is replaced by empty whitespace in `temp`.
fn context_step_exec(temp: &mut Vec<Token>, idx: usize) -> (cur: Token)
    requires
        idx < old(temp)@.len(),
    ensures
        (tok_views(final(temp)@), cur@) == context_step(tok_views(old(temp)@), idx as int),
        final(temp)@.len() == old(temp)@.len(),
{
    proof { lemma_tok_views_len(temp@); }
    let current = clone_token(&temp[idx]);
    assert(current@ == tok_views(temp@)[idx as int]);
    match current {
        Token::Time { hours, minutes, seconds, preposition } => {
            let p = match find_preceding_word(temp.as_slice(), idx) {
                Some(w) => {
                    let wc = to_chars(w.as_str());
                    let wl = lower(wc.as_slice());
                    if eq_str(wl.as_slice(), "о") || eq_str(wl.as_slice(), "об") { Some(w) } else { preposition }
                },
                None => preposition,
            };
            Token::Time { hours, minutes, seconds, preposition: p }
        },
        Token::Date { day, month, year, preposition } => {
            let p = match find_preceding_word(temp.as_slice(), idx) {
                Some(w) => Some(w),
                None => preposition,
            };
            Token::Date { day, month, year, preposition: p }
        },
        Token::Number { raw, is_negative, value, suffix, unit, context_noun, preposition, governed_by_decimal, gender } => {
            let p = match find_preceding_word(temp.as_slice(), idx) {
                Some(w) => {
                    let wc = to_chars(w.as_str());
                    if is_preposition_chars_any_case(wc.as_slice()) { Some(w) } else { preposition }
                },
                None => preposition,
            };
            let (value, suffix) = thousands_step_exec(temp, idx, value, suffix);
            proof { lemma_tok_views_len(temp@); }
            let (u1, c1) = unit_from_suffix_exec(&suffix);
            let mut u2 = u1;
            let mut c2 = c1;
            if u2.is_none() {
                proof { lemma_following_word(tok_views(temp@), idx as int); }
                if let Some((ni, nw)) = find_following_word(temp.as_slice(), idx) {
                    let nc = to_chars(nw.as_str());
                    let ln = lower(nc.as_slice());
                    if let Some((end, u)) = find_unit_chars(ln.as_slice()) {
                        if end == ln.len() {
                            u2 = Some(string_of_static(u));
                            c2 = match get_context_noun_chars(ln.as_slice()) {
                                Some(m) => Some(string_of_static(m)),
                                None => None,
                            };
                            let ghost before = temp@;
                            let ws = Token::Whitespace(String::new());
                            temp.set(ni, ws);
                            proof { lemma_tok_views_update(before, ni as int, ws); }
                        }
                    }
                }
            }
            let c3 = if c2.is_none() {
                match find_following_word(temp.as_slice(), idx) {
                    Some((_, nw)) => noun_from_word_exec(&nw),
                    None => c2,
                }
            } else {
                c2
            };
            let simplified = match &value {
                NumberValue::Decimal { int_part, dec_places, .. } => {
                    is_temperature_unit_exec(&u2) && *int_part > 9 && *dec_places == 1
                },
                NumberValue::Integer(_) => false,
            };
            let (gov, g) = match &value {
                NumberValue::Decimal { .. } => (!simplified, if simplified { Gender::Masculine } else { Gender::Feminine }),
                NumberValue::Integer(_) => (false, suffix_gender_exec(&suffix, gender)),
            };
            Token::Number {
                raw,
                is_negative,
                value,
                suffix,
                unit: u2,
                context_noun: c3,
                preposition: p,
                governed_by_decimal: gov,
                gender: g,
            }
        },
        other => other,
    }
}

proof fn lemma_initial_tokens_push(rs: Seq<RawTok>, r: RawTok)
    ensures
        initial_tokens(rs.push(r)) == initial_tokens(rs).push(initial_token(r)),
{
    assert(rs.push(r).drop_last() =~= rs);
}

proof fn lemma_raw_views_len(ts: Seq<RawToken>)
    ensures
        raw_views(ts).len() == ts.len(),
        forall|i: int| 0 <= i < ts.len() ==> raw_views(ts)[i] == (#[trigger] ts[i])@,
    decreases ts.len(),
{
    if ts.len() > 0 {
        lemma_raw_views_len(ts.drop_last());
        assert forall|i: int| 0 <= i < ts.len() implies raw_views(ts)[i] == (#[trigger] ts[i])@ by {
            if i < ts.len() - 1 {
                assert(ts[i] == ts.drop_last()[i]);
            }
        }
    }
}

/// Reads the context of every token (see `spec_parse_context`).
pub fn parse_context(raw_tokens: Vec<RawToken>) -> (r: Vec<Token>)
    ensures
        tok_views(r@) == spec_parse_context(raw_views(raw_tokens@)),
{
    let ghost rs = raw_views(raw_tokens@);
    proof { lemma_raw_views_len(raw_tokens@); }
    let mut temp: Vec<Token> = Vec::new();
    let mut k: usize = 0;
    assert(rs.take(0) =~= Seq::<RawTok>::empty());
    while k < raw_tokens.len()
        invariant
            k <= raw_tokens@.len(),
            rs == raw_views(raw_tokens@),
            rs.len() == raw_tokens@.len(),
            forall|i: int| 0 <= i < raw_tokens@.len() ==> rs[i] == (#[trigger] raw_tokens@[i])@,
            tok_views(temp@) == initial_tokens(rs.take(k as int)),
        decreases raw_tokens.len() - k,
    {
        let ghost before = temp@;
        let t = initial_token_exec(&raw_tokens[k]);
        temp.push(t);
        proof {
            lemma_tok_views_push(before, t);
            assert(rs.take(k + 1) =~= rs.take(k as int).push(rs[k as int]));
            lemma_initial_tokens_push(rs.take(k as int), rs[k as int]);
        }
        k = k + 1;
    }
    assert(rs.take(rs.len() as int) =~= rs);
    let ghost init = tok_views(temp@);
    proof { lemma_tok_views_len(temp@); }
    let n = temp.len();
    let mut out: Vec<Token> = Vec::new();
    let mut idx: usize = 0;
    assert(tok_views(out@) =~= Seq::<Tok>::empty());
    while idx < n
        invariant
            n == temp@.len(),
            idx <= n,
            init.len() == n,
            tok_views(out@) + context_from(tok_views(temp@), idx as int, n as int) == context_from(init, 0, n as int),
        decreases n - idx,
    {
        proof { lemma_tok_views_len(temp@); }
        let ghost tv = tok_views(temp@);
        let ghost ob = out@;
        let cur = context_step_exec(&mut temp, idx);
        proof {
            lemma_tok_views_len(temp@);
            lemma_tok_views_push(ob, cur);
            assert(tok_views(out@.push(cur)) + context_from(tok_views(temp@), idx + 1, n as int)
                =~= tok_views(ob) + context_from(tv, idx as int, n as int));
        }
        out.push(cur);
        idx = idx + 1;
    }
    proof { lemma_tok_views_len(temp@); }
    assert(tok_views(out@) =~= context_from(init, 0, n as int));
    let ghost all = out@;
    let mut result: Vec<Token> = Vec::new();
    let mut j: usize = 0;
    proof { lemma_tok_views_len(all); }
    assert(tok_views(result@) =~= drop_empty_ws(tok_views(all).take(0)));
    while j < out.len()
        invariant
            j <= out@.len(),
            all == out@,
            tok_views(all).len() == all.len(),
            forall|i: int| 0 <= i < all.len() ==> tok_views(all)[i] == (#[trigger] all[i])@,
            tok_views(result@) == drop_empty_ws(tok_views(all).take(j as int)),
        decreases out.len() - j,
    {
        assert(tok_views(all).take(j + 1).drop_last() =~= tok_views(all).take(j as int));
        assert(tok_views(all).take(j + 1).last() == out@[j as int]@);
        let keep = match &out[j] {
            Token::Whitespace(w) => !w.as_str().is_empty(),
            _ => true,
        };
        if keep {
            let ghost rb = result@;
            let t = clone_token(&out[j]);
            result.push(t);
            proof { lemma_tok_views_push(rb, t); }
        }
        j = j + 1;
    }
    assert(tok_views(all).take(all.len() as int) =~= tok_views(all));
    result
}

} // verus!
