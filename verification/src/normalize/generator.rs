//! Writing the tokens out as words to be spoken.

use vstd::prelude::*;
use crate::abbr::{
    seq_starts_with, spec_find_unit, find_unit_chars, spec_expand_abbr_contextual, expand_abbr_contextual_chars,
    spec_expand_abbreviation, expand_abbreviation_chars, spec_unit_form, get_unit_form_chars, opt_view,
};
use crate::normalize::helpers::{
    fix_apostrophe, spec_num_to_ua, num_to_ua_chars, spec_decimal_to_ua, decimal_to_ua_chars,
};
use crate::normalize::parser::{is_temperature_unit, lemma_following_word};
use crate::normalize::types::{NumberValue, Token, Tok, tok_views, opt_string_view, lemma_tok_views_len};
use crate::numerals::{spec_analyze, analyze_number};
use crate::stress::{StressDict, spec_apply_stress, apply_stress_chars, spec_stress_units, with_stress_units_chars};
use crate::tables::{abbr_entry, lookup_abbr};
use crate::text::{
    str_lowercase, lower, to_chars, from_chars, eq_str, starts_with, push_str, push_chars, slice_prefix,
    replace_chars, join_words, join_chars, views_of, ws_words, split_ws, nat_digits, int_digits,
    u64_to_chars, i64_to_chars,
};

verus! {

/// The name of a month in the genitive (January for anything out of range).
pub open spec fn month_name(m: u8) -> Seq<char> {
    if m == 2 { "лютого"@ }
    else if m == 3 { "березня"@ }
    else if m == 4 { "квітня"@ }
    else if m == 5 { "травня"@ }
    else if m == 6 { "червня"@ }
    else if m == 7 { "липня"@ }
    else if m == 8 { "серпня"@ }
    else if m == 9 { "вересня"@ }
    else if m == 10 { "жовтня"@ }
    else if m == 11 { "листопада"@ }
    else if m == 12 { "грудня"@ }
    else { "січня"@ }
}

pub(crate) fn month_name_str(m: u8) -> (s: &'static str)
    ensures
        s@ == month_name(m),
{
    if m == 2 { "лютого" }
    else if m == 3 { "березня" }
    else if m == 4 { "квітня" }
    else if m == 5 { "травня" }
    else if m == 6 { "червня" }
    else if m == 7 { "липня" }
    else if m == 8 { "серпня" }
    else if m == 9 { "вересня" }
    else if m == 10 { "жовтня" }
    else if m == 11 { "листопада" }
    else if m == 12 { "грудня" }
    else { "січня" }
}

/// The ending of a day's ordinal after the word before the date.
pub open spec fn date_suffix(prep: Option<Seq<char>>) -> Seq<char> {
    match prep {
        Some(p) => {
            let l = str_lowercase(p);
            if l == "до"@ || l == "з"@ || l == "від"@ || l == "після"@ || l == "для"@ || l == "коло"@
                || l == "проти"@ || l == "біля"@ {
                "-го"@
            } else if l == "на"@ || l == "о"@ || l == "об"@ || l == "при"@ {
                "-му"@
            } else {
                "-е"@
            }
        },
        None => "-е"@,
    }
}

pub(crate) fn date_suffix_str(prep: Option<&[char]>) -> (s: &'static str)
    ensures
        s@ == date_suffix(opt_view(prep)),
{
    match prep {
        Some(p) => {
            let l = lower(p);
            let l = l.as_slice();
            if eq_str(l, "до") || eq_str(l, "з") || eq_str(l, "від") || eq_str(l, "після") || eq_str(l, "для")
                || eq_str(l, "коло") || eq_str(l, "проти") || eq_str(l, "біля") {
                "-го"
            } else if eq_str(l, "на") || eq_str(l, "о") || eq_str(l, "об") || eq_str(l, "при") {
                "-му"
            } else {
                "-е"
            }
        },
        None => "-е",
    }
}

/// Words from context where there are some, else the plain reading of the
/// digits.
pub open spec fn or_num_words(r: Option<Seq<char>>, digits: Seq<char>) -> Seq<char> {
    match r {
        Some(w) => w,
        None => spec_num_to_ua(digits, false),
    }
}

fn or_num_words_exec(r: Option<Vec<char>>, digits: &[char]) -> (w: Vec<char>)
    ensures
        w@ == or_num_words(
            match r {
                Some(v) => Some(v@),
                None => None,
            },
            digits@,
        ),
{
    match r {
        Some(v) => v,
        None => num_to_ua_chars(digits, false),
    }
}

/// Whether the word before a time is "о" or "об" (case aside).
pub open spec fn is_hour_prep(p: Option<Seq<char>>) -> bool {
    match p {
        Some(x) => str_lowercase(x) == "о"@ || str_lowercase(x) == "об"@,
        None => false,
    }
}

/// Minutes or seconds read out, "нуль" before a single digit.
pub open spec fn two_digit_words(v: u8) -> Seq<char> {
    if v < 10 {
        "нуль "@ + spec_num_to_ua(nat_digits(v as nat), false)
    } else {
        spec_num_to_ua(nat_digits(v as nat), false)
    }
}

/// A time read out: the hour (an ordinal after "о"/"об"), then the minutes
/// and the seconds where they are not zero.
pub open spec fn time_words(h: u8, m: u8, s: Option<u8>, prep: Option<Seq<char>>) -> Seq<char> {
    let hd = nat_digits(h as nat);
    let hw = if is_hour_prep(prep) {
        or_num_words(spec_analyze(prep, hd, Some("годині"@)), hd)
    } else {
        spec_num_to_ua(hd, false)
    };
    let parts = seq![fix_apostrophe(hw)] + (if m > 0 { seq![two_digit_words(m)] } else { Seq::empty() }) + (
    match s {
        Some(sv) => if sv > 0 { seq![two_digit_words(sv)] } else { Seq::empty() },
        None => Seq::empty(),
    });
    join_words(parts, " "@)
}

/// A date read out: the day as an ordinal, the month's name, and the year
/// as an ordinal followed by "року".
pub open spec fn date_words(d: u8, m: u8, y: Option<u16>, prep: Option<Seq<char>>) -> Seq<char> {
    let mn = month_name(m);
    let dd = nat_digits(d as nat);
    let dw = or_num_words(spec_analyze(prep, dd + date_suffix(prep), Some(mn)), dd);
    let parts = seq![fix_apostrophe(dw), mn] + match y {
        Some(yv) => {
            let yd = nat_digits(yv as nat);
            seq![fix_apostrophe(or_num_words(spec_analyze(None, yd + "-го"@, Some("року"@)), yd)) + " року"@]
        },
        None => Seq::empty(),
    };
    join_words(parts, " "@)
}

/// The nearest two words (or numbers, as written) before index `i`, across
/// punctuation and whitespace; a time or a date stops the search.
pub open spec fn preceding_words_from(ts: Seq<Tok>, i: int, first: Option<Seq<char>>) -> (Option<Seq<char>>, Option<Seq<char>>)
    decreases i,
{
    if i <= 0 || i > ts.len() {
        (first, None)
    } else {
        let found = match ts[i - 1] {
            Tok::Word { text, .. } => Some(text),
            Tok::Number { raw, .. } => Some(raw),
            _ => None,
        };
        match found {
            Some(w) => if first is None { preceding_words_from(ts, i - 1, Some(w)) } else { (first, Some(w)) },
            None => match ts[i - 1] {
                Tok::Punctuation(_) | Tok::Whitespace(_) => preceding_words_from(ts, i - 1, first),
                _ => (first, None),
            },
        }
    }
}

/// The nearest two words (or numbers, as written) before index `i`.
pub open spec fn preceding_words(ts: Seq<Tok>, i: int) -> (Option<Seq<char>>, Option<Seq<char>>) {
    preceding_words_from(ts, i, None)
}

/// Each word of `s` given its stress, the words joined with spaces.
pub open spec fn stress_words(s: Seq<char>, d: Map<Seq<char>, Seq<char>>) -> Seq<char> {
    join_words(ws_words(s).map_values(|w: Seq<char>| spec_apply_stress(w, d)), " "@)
}

/// A word read out: a unit by its name, a known abbreviation expanded in
/// context, another abbreviation from the dictionary or spelled out, any
/// other word with its stress.
pub open spec fn word_words(ts: Seq<Tok>, i: int, text: Seq<char>, is_abbr: bool, d: Map<Seq<char>, Seq<char>>) -> Seq<char> {
    let l = str_lowercase(text);
    let whole_unit = match spec_find_unit(l) {
        Some((end, u)) => if end == l.len() { Some(u) } else { None },
        None => None,
    };
    match whole_unit {
        Some(u) => spec_apply_stress(u, d),
        None => if is_abbr {
            if abbr_entry(l) is Some {
                let (p, b) = preceding_words(ts, i);
                stress_words(spec_expand_abbr_contextual(text, p, b), d)
            } else if d.contains_key(l) {
                d[l]
            } else {
                stress_words(spec_expand_abbreviation(text), d)
            }
        } else {
            spec_apply_stress(text, d)
        },
    }
}

/// A number read out with its sign, and its unit in the form that agrees
/// with it.
pub open spec fn number_words(
    ts: Seq<Tok>,
    i: int,
    is_negative: bool,
    value: NumberValue,
    suffix: Option<Seq<char>>,
    unit: Option<Seq<char>>,
    ctx: Option<Seq<char>>,
    prep: Option<Seq<char>>,
    governed: bool,
) -> Seq<char> {
    let sign = if is_negative { "мінус "@ } else { ""@ };
    let nw = match value {
        NumberValue::Integer(v) => {
            let vd = int_digits(v as int);
            match suffix {
                Some(s) => if seq_starts_with(s, "-"@) {
                    or_num_words(spec_analyze(None, vd + s, None), vd)
                } else {
                    or_num_words(spec_analyze(prep, vd, ctx), vd)
                },
                None => or_num_words(spec_analyze(prep, vd, ctx), vd),
            }
        },
        NumberValue::Decimal { int_part, dec_part, .. } => spec_decimal_to_ua(
            int_digits(int_part as int),
            nat_digits(dec_part as nat),
            is_temperature_unit(unit),
        ),
    };
    let out = sign + fix_apostrophe(nw);
    match unit {
        Some(u) => {
            let pw = preceding_words(ts, i).0;
            out + " "@ + spec_stress_units(
                if governed { spec_unit_form("десятих"@, u, pw) } else { spec_unit_form(out, u, pw) },
            )
        },
        None => out,
    }
}

/// What the token at index `i` is read out as.
pub open spec fn token_words(ts: Seq<Tok>, i: int, d: Map<Seq<char>, Seq<char>>) -> Seq<char> {
    match ts[i] {
        Tok::Whitespace(ws) => ws,
        Tok::Punctuation(c) => seq![c],
        Tok::Word { text, is_abbr } => word_words(ts, i, text, is_abbr, d),
        Tok::Time { hours, minutes, seconds, preposition } => time_words(hours, minutes, seconds, preposition),
        Tok::Date { day, month, year, preposition } => date_words(day, month, year, preposition),
        Tok::Number { is_negative, value, suffix, unit, context_noun, preposition, governed_by_decimal, .. } =>
            number_words(ts, i, is_negative, value, suffix, unit, context_noun, preposition, governed_by_decimal),
    }
}

/// What the first `n` tokens are read out as, one after the other.
pub open spec fn tokens_words(ts: Seq<Tok>, n: int, d: Map<Seq<char>, Seq<char>>) -> Seq<char>
    decreases n,
{
    if n <= 0 {
        Seq::empty()
    } else {
        tokens_words(ts, n - 1, d) + token_words(ts, n - 1, d)
    }
}

/// What the tokens are read out as.
pub open spec fn spec_generate(ts: Seq<Tok>, d: Map<Seq<char>, Seq<char>>) -> Seq<char> {
    tokens_words(ts, ts.len() as int, d)
}

fn opt_chars_of(o: &Option<String>) -> (r: Option<Vec<char>>)
    ensures
        match r {
            Some(v) => opt_string_view(*o) == Some(v@),
            None => o is None,
        },
{
    match o {
        Some(s) => Some(to_chars(s.as_str())),
        None => None,
    }
}

pub(crate) fn as_opt_slice(o: &Option<Vec<char>>) -> (r: Option<&[char]>)
    ensures
        opt_view(r) == match o {
            Some(v) => Some(v@),
            None => None::<Seq<char>>,
        },
{
    match o {
        Some(v) => Some(v.as_slice()),
        None => None,
    }
}

/// The nearest two words (or numbers, as written) before `start_idx`,
/// across punctuation and whitespace; a time or a date stops the search.
pub fn find_preceding_words(tokens: &[Token], start_idx: usize) -> (r: (Option<String>, Option<String>))
    requires
        start_idx <= tokens@.len(),
    ensures
        (opt_string_view(r.0), opt_string_view(r.1)) == preceding_words(tok_views(tokens@), start_idx as int),
{
    proof { lemma_tok_views_len(tokens@); }
    let ghost tv = tok_views(tokens@);
    let mut first: Option<String> = None;
    let mut i: usize = start_idx;
    while i > 0
        invariant
            i <= start_idx <= tokens@.len(),
            tv == tok_views(tokens@),
            tv.len() == tokens@.len(),
            forall|k: int| 0 <= k < tokens@.len() ==> tv[k] == (#[trigger] tokens@[k])@,
            preceding_words(tv, start_idx as int) == preceding_words_from(tv, i as int, opt_string_view(first)),
        decreases i,
    {
        i = i - 1;
        assert(tv[i as int] == tokens@[i as int]@);
        let found = match &tokens[i] {
            Token::Word { text, .. } => Some(text.clone()),
            Token::Number { raw, .. } => Some(raw.clone()),
            Token::Punctuation(_) | Token::Whitespace(_) => None,
            _ => {
                return (first, None);
            },
        };
        match found {
            Some(w) => {
                if first.is_none() {
                    first = Some(w);
                } else {
                    return (first, Some(w));
                }
            },
            None => {},
        }
    }
    (first, None)
}

pub(crate) fn stress_words_exec(s: &[char], dict: &StressDict) -> (r: Vec<char>)
    ensures
        r@ == stress_words(s@, dict@),
{
    let words = split_ws(s);
    let ghost ws = views_of(words@);
    let ghost expected = ws.map_values(|w: Seq<char>| spec_apply_stress(w, dict@));
    let mut out: Vec<Vec<char>> = Vec::new();
    let mut i: usize = 0;
    while i < words.len()
        invariant
            i <= words@.len(),
            ws == views_of(words@),
            expected == ws.map_values(|w: Seq<char>| spec_apply_stress(w, dict@)),
            views_of(out@) =~= expected.take(i as int),
        decreases words.len() - i,
    {
        let w = apply_stress_chars(words[i].as_slice(), dict);
        assert(w@ == expected[i as int]);
        let ghost before = out@;
        out.push(w);
        assert(views_of(out@) =~= views_of(before).push(w@));
        assert(expected.take(i + 1) =~= expected.take(i as int).push(expected[i as int]));
        i = i + 1;
    }
    assert(expected.take(words@.len() as int) =~= expected);
    join_chars(&out, " ")
}

fn word_words_exec(tokens: &[Token], i: usize, text: &String, is_abbr: bool, dict: &StressDict) -> (r: Vec<char>)
    requires
        i < tokens@.len(),
    ensures
        r@ == word_words(tok_views(tokens@), i as int, text@, is_abbr, dict@),
{
    let t = to_chars(text.as_str());
    let l = lower(t.as_slice());
    if let Some((end, u)) = find_unit_chars(l.as_slice()) {
        if end == l.len() {
            let uc = to_chars(u);
            return apply_stress_chars(uc.as_slice(), dict);
        }
    }
    if is_abbr {
        if lookup_abbr(l.as_slice()).is_some() {
            let (p, b) = find_preceding_words(tokens, i);
            let pc = opt_chars_of(&p);
            let bc = opt_chars_of(&b);
            let e = expand_abbr_contextual_chars(t.as_slice(), as_opt_slice(&pc), as_opt_slice(&bc));
            stress_words_exec(e.as_slice(), dict)
        } else {
            match dict.get(l.as_slice()) {
                Some(s) => s,
                None => {
                    let e = expand_abbreviation_chars(t.as_slice());
                    stress_words_exec(e.as_slice(), dict)
                },
            }
        }
    } else {
        apply_stress_chars(t.as_slice(), dict)
    }
}

fn two_digit_words_exec(v: u8) -> (r: Vec<char>)
    ensures
        r@ == two_digit_words(v),
{
    let d = u64_to_chars(v as u64);
    let w = num_to_ua_chars(d.as_slice(), false);
    if v < 10 {
        let mut r = to_chars("нуль ");
        push_chars(&mut r, w.as_slice());
        r
    } else {
        w
    }
}

fn time_words_exec(h: u8, m: u8, s: Option<u8>, prep: &Option<String>) -> (r: Vec<char>)
    ensures
        r@ == time_words(h, m, s, opt_string_view(*prep)),
{
    let hd = u64_to_chars(h as u64);
    let pc = opt_chars_of(prep);
    let is_hour = match &pc {
        Some(p) => {
            let l = lower(p.as_slice());
            eq_str(l.as_slice(), "о") || eq_str(l.as_slice(), "об")
        },
        None => false,
    };
    let hw = if is_hour {
        let noun = to_chars("годині");
        let a = analyze_number(as_opt_slice(&pc), hd.as_slice(), Some(noun.as_slice()));
        or_num_words_exec(a, hd.as_slice())
    } else {
        num_to_ua_chars(hd.as_slice(), false)
    };
    let mut parts: Vec<Vec<char>> = Vec::new();
    parts.push(replace_chars(hw.as_slice(), "ʼ", "'"));
    if m > 0 {
        parts.push(two_digit_words_exec(m));
    }
    match s {
        Some(sv) => {
            if sv > 0 {
                parts.push(two_digit_words_exec(sv));
            }
        },
        None => {},
    }
    let ghost expected = seq![fix_apostrophe(if is_hour_prep(opt_string_view(*prep)) {
        or_num_words(spec_analyze(opt_string_view(*prep), hd@, Some("годині"@)), hd@)
    } else {
        spec_num_to_ua(hd@, false)
    })] + (if m > 0 { seq![two_digit_words(m)] } else { Seq::empty() }) + (
    match s {
        Some(sv) => if sv > 0 { seq![two_digit_words(sv)] } else { Seq::empty() },
        None => Seq::empty(),
    });
    assert(views_of(parts@) =~= expected);
    join_chars(&parts, " ")
}

fn date_words_exec(d: u8, m: u8, y: Option<u16>, prep: &Option<String>) -> (r: Vec<char>)
    ensures
        r@ == date_words(d, m, y, opt_string_view(*prep)),
{
    let mn = month_name_str(m);
    let mnc = to_chars(mn);
    let dd = u64_to_chars(d as u64);
    let pc = opt_chars_of(prep);
    let mut q = slice_prefix(dd.as_slice(), dd.len());
    assert(dd@.take(dd@.len() as int) =~= dd@);
    push_str(&mut q, date_suffix_str(as_opt_slice(&pc)));
    let a = analyze_number(as_opt_slice(&pc), q.as_slice(), Some(mnc.as_slice()));
    let dw = or_num_words_exec(a, dd.as_slice());
    let mut parts: Vec<Vec<char>> = Vec::new();
    parts.push(replace_chars(dw.as_slice(), "ʼ", "'"));
    parts.push(to_chars(mn));
    match y {
        Some(yv) => {
            let yd = u64_to_chars(yv as u64);
            let mut yq = slice_prefix(yd.as_slice(), yd.len());
            assert(yd@.take(yd@.len() as int) =~= yd@);
            push_str(&mut yq, "-го");
            let noun = to_chars("року");
            let ya = analyze_number(None, yq.as_slice(), Some(noun.as_slice()));
            let yw = or_num_words_exec(ya, yd.as_slice());
            let mut yr = replace_chars(yw.as_slice(), "ʼ", "'");
            push_str(&mut yr, " року");
            parts.push(yr);
        },
        None => {},
    }
    assert(views_of(parts@) =~= seq![
        fix_apostrophe(or_num_words(spec_analyze(opt_string_view(*prep), dd@ + date_suffix(opt_string_view(*prep)), Some(month_name(m))), dd@)),
        month_name(m),
    ] + match y {
        Some(yv) => {
            let yd = nat_digits(yv as nat);
            seq![fix_apostrophe(or_num_words(spec_analyze(None, yd + "-го"@, Some("року"@)), yd)) + " року"@]
        },
        None => Seq::empty(),
    });
    join_chars(&parts, " ")
}

fn number_words_exec(
    tokens: &[Token],
    i: usize,
    is_negative: bool,
    value: &NumberValue,
    suffix: &Option<String>,
    unit: &Option<String>,
    ctx: &Option<String>,
    prep: &Option<String>,
    governed: bool,
) -> (r: Vec<char>)
    requires
        i <= tokens@.len(),
    ensures
        r@ == number_words(
            tok_views(tokens@),
            i as int,
            is_negative,
            *value,
            opt_string_view(*suffix),
            opt_string_view(*unit),
            opt_string_view(*ctx),
            opt_string_view(*prep),
            governed,
        ),
{
    let pc = opt_chars_of(prep);
    let nw = match value {
        NumberValue::Integer(v) => {
            let vd = i64_to_chars(*v);
            let sc = opt_chars_of(suffix);
            let ordinal = match &sc {
                Some(s) => starts_with(s.as_slice(), "-"),
                None => false,
            };
            if ordinal {
                let mut q = slice_prefix(vd.as_slice(), vd.len());
                assert(vd@.take(vd@.len() as int) =~= vd@);
                match &sc {
                    Some(s) => push_chars(&mut q, s.as_slice()),
                    None => {},
                }
                let a = analyze_number(None, q.as_slice(), None);
                or_num_words_exec(a, vd.as_slice())
            } else {
                let cc = opt_chars_of(ctx);
                let a = analyze_number(as_opt_slice(&pc), vd.as_slice(), as_opt_slice(&cc));
                or_num_words_exec(a, vd.as_slice())
            }
        },
        NumberValue::Decimal { int_part, dec_part, .. } => {
            let ip = i64_to_chars(*int_part);
            let dp = u64_to_chars(*dec_part as u64);
            let is_temp = match unit {
                Some(u) => {
                    let uc = to_chars(u.as_str());
                    starts_with(uc.as_slice(), "градус") || starts_with(uc.as_slice(), "кельвін")
                },
                None => false,
            };
            decimal_to_ua_chars(ip.as_slice(), dp.as_slice(), is_temp)
        },
    };
    let mut out = if is_negative { to_chars("мінус ") } else { to_chars("") };
    let fixed = replace_chars(nw.as_slice(), "ʼ", "'");
    push_chars(&mut out, fixed.as_slice());
    match unit {
        Some(u) => {
            let uc = to_chars(u.as_str());
            let (pw, _) = find_preceding_words(tokens, i);
            let pwc = opt_chars_of(&pw);
            let form = if governed {
                let g = to_chars("десятих");
                get_unit_form_chars(g.as_slice(), uc.as_slice(), as_opt_slice(&pwc))
            } else {
                get_unit_form_chars(out.as_slice(), uc.as_slice(), as_opt_slice(&pwc))
            };
            let st = with_stress_units_chars(form.as_slice());
            push_str(&mut out, " ");
            push_chars(&mut out, st.as_slice());
            out
        },
        None => out,
    }
}

fn token_words_exec(tokens: &[Token], i: usize, dict: &StressDict) -> (r: Vec<char>)
    requires
        i < tokens@.len(),
    ensures
        r@ == token_words(tok_views(tokens@), i as int, dict@),
{
    proof { lemma_tok_views_len(tokens@); }
    match &tokens[i] {
        Token::Whitespace(ws) => to_chars(ws.as_str()),
        Token::Punctuation(c) => {
            let mut v: Vec<char> = Vec::new();
            v.push(*c);
            v
        },
        Token::Word { text, is_abbr } => word_words_exec(tokens, i, text, *is_abbr, dict),
        Token::Time { hours, minutes, seconds, preposition } => time_words_exec(*hours, *minutes, *seconds, preposition),
        Token::Date { day, month, year, preposition } => date_words_exec(*day, *month, *year, preposition),
        Token::Number { is_negative, value, suffix, unit, context_noun, preposition, governed_by_decimal, .. } =>
            number_words_exec(tokens, i, *is_negative, value, suffix, unit, context_noun, preposition, *governed_by_decimal),
    }
}

/// Writes the tokens out as text to be spoken: words with their stress,
/// abbreviations expanded, numbers, times and dates in words agreeing with
/// their context.
pub fn generate_text(tokens: Vec<Token>, dict: &StressDict) -> (r: String)
    ensures
        r@ == spec_generate(tok_views(tokens@), dict@),
{
    proof { lemma_tok_views_len(tokens@); }
    let ghost tv = tok_views(tokens@);
    let mut out: Vec<char> = Vec::new();
    let mut i: usize = 0;
    while i < tokens.len()
        invariant
            i <= tokens@.len(),
            tv == tok_views(tokens@),
            tv.len() == tokens@.len(),
            out@ == tokens_words(tv, i as int, dict@),
        decreases tokens.len() - i,
    {
        let w = token_words_exec(tokens.as_slice(), i, dict);
        push_chars(&mut out, w.as_slice());
        i = i + 1;
    }
    from_chars(out.as_slice())
}


/// Month `m` (1 to 12) is named by the `m`-th of the genitive month names,
/// from "січня" to "грудня", and no two months share a name.
pub proof fn law_month_names(m: u8, k: u8)
    requires
        1 <= m <= 12,
        1 <= k <= 12,
    ensures
        month_name(m) == seq!["січня"@, "лютого"@, "березня"@, "квітня"@, "травня"@, "червня"@, "липня"@, "серпня"@, "вересня"@, "жовтня"@, "листопада"@, "грудня"@][m - 1],
        m != k ==> month_name(m) != month_name(k),
{
    reveal_strlit("січня");
    reveal_strlit("лютого");
    reveal_strlit("березня");
    reveal_strlit("квітня");
    reveal_strlit("травня");
    reveal_strlit("червня");
    reveal_strlit("липня");
    reveal_strlit("серпня");
    reveal_strlit("вересня");
    reveal_strlit("жовтня");
    reveal_strlit("листопада");
    reveal_strlit("грудня");
    let names = seq!["січня"@, "лютого"@, "березня"@, "квітня"@, "травня"@, "червня"@, "липня"@, "серпня"@, "вересня"@, "жовтня"@, "листопада"@, "грудня"@];
    assert(month_name(m) == names[m - 1]);
    if m != k {
        assert(month_name(k) == names[k - 1]);
        assert(names[m - 1].len() != names[k - 1].len() || names[m - 1][0] != names[k - 1][0]
            || names[m - 1][1] != names[k - 1][1] || names[m - 1][2] != names[k - 1][2]);
    }
}

} // verus!
