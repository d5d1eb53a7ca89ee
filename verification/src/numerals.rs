//! Ukrainian number words: the calls into `num2words`, and the choice of
//! case, gender and cardinal or ordinal form from the words around a number.

use vstd::prelude::*;
use num2words::{Lang, Num2Words};
use crate::abbr::{Declension, Gender, spec_get_declension, get_declension_chars, opt_view};
use crate::num::all_digits;
use crate::text::{
    digit_prefix_len, digit_prefix_len_exec, lemma_digit_prefix_len, eq_str, is_digit, to_chars, from_chars,
    slice_prefix, slice_range,
};

verus! {

/// The most digits a number handed to `num2words` may have: its Ukrainian
/// names of the powers of a thousand end at 10^63, and past them its
/// ordinals index beyond its table.
pub const MAX_NUMBER_DIGITS: usize = 63;

/// Whether `s` is a number that `num2words` is given: one to
/// `MAX_NUMBER_DIGITS` ASCII digits and nothing else.
pub open spec fn is_convertible(s: Seq<char>) -> bool {
    0 < s.len() <= MAX_NUMBER_DIGITS && all_digits(s)
}

/// Whether `s` is a number that `num2words` is given (see `is_convertible`).
pub fn is_convertible_exec(s: &[char]) -> (b: bool)
    ensures
        b == is_convertible(s@),
{
    if s.len() == 0 || s.len() > MAX_NUMBER_DIGITS {
        return false;
    }
    let mut i: usize = 0;
    while i < s.len()
        invariant
            i <= s@.len(),
            forall|j: int| 0 <= j < i ==> crate::text::spec_is_digit(#[trigger] s@[j]),
        decreases s.len() - i,
    {
        if !is_digit(s[i]) {
            return false;
        }
        i = i + 1;
    }
    true
}

/// The cardinal `num2words` gives for a convertible number with the three
/// preferences; `None` for any other text.
pub open spec fn cardinal_of(number: Seq<char>, case_pref: Seq<char>, gender_pref: Seq<char>, count_pref: Seq<char>) -> Option<Seq<char>> {
    if is_convertible(number) { uk_cardinal(number, case_pref, gender_pref, count_pref) } else { None }
}

/// The ordinal `num2words` gives for a convertible number with the three
/// preferences; `None` for any other text.
pub open spec fn ordinal_of(number: Seq<char>, case_pref: Seq<char>, gender_pref: Seq<char>, count_pref: Seq<char>) -> Option<Seq<char>> {
    if is_convertible(number) { uk_ordinal(number, case_pref, gender_pref, count_pref) } else { None }
}

/// Name for what `num2words` gives, in Ukrainian, for the cardinal of the
/// number written in `number`, with the three preferences given (case,
/// gender, grammatical number); `None` when the text is not a number or the
/// number cannot be converted.
pub uninterp spec fn uk_cardinal(number: Seq<char>, case_pref: Seq<char>, gender_pref: Seq<char>, count_pref: Seq<char>) -> Option<Seq<char>>;

/// Name for what `num2words` gives, in Ukrainian, for the ordinal of the
/// number written in `number`, with the three preferences given (case,
/// gender, grammatical number); `None` when the text is not a number or the
/// number has no ordinal.
pub uninterp spec fn uk_ordinal(number: Seq<char>, case_pref: Seq<char>, gender_pref: Seq<char>, count_pref: Seq<char>) -> Option<Seq<char>>;

/// Calls `Num2Words::parse` on `number`, then `lang(Lang::Ukrainian)`, one
/// `prefer` for each preference in turn, and `to_words`. It is given only
/// one to 63 ASCII digits: on other texts `num2words` may panic (a number
/// in floating-point notation goes through its ordinals, whose table of
/// powers of a thousand ends). The contract ties the result to the name
/// `uk_cardinal` of exactly these arguments; what the words are is not
/// stated here.
#[verifier::external_body]
pub(crate) fn cardinal_words(number: &str, case_pref: &str, gender_pref: &str, count_pref: &str) -> (r: Option<String>)
    requires
        is_convertible(number@),
    ensures
        match r {
            Some(s) => uk_cardinal(number@, case_pref@, gender_pref@, count_pref@) == Some(s@),
            None => uk_cardinal(number@, case_pref@, gender_pref@, count_pref@) is None,
        },
{
    let builder = Num2Words::parse(number)?;
    builder.lang(Lang::Ukrainian).prefer(case_pref).prefer(gender_pref).prefer(count_pref).to_words().ok()
}

/// Calls `Num2Words::parse` on `number`, then `lang(Lang::Ukrainian)`, one
/// `prefer` for each preference in turn, `ordinal` and `to_words`. It is
/// given only one to 63 ASCII digits: for a number of 64 digits or more
/// `num2words` indexes past its table of powers of a thousand and panics.
/// The contract ties the result to the name `uk_ordinal` of exactly these
/// arguments; what the words are is not stated here.
#[verifier::external_body]
pub(crate) fn ordinal_words(number: &str, case_pref: &str, gender_pref: &str, count_pref: &str) -> (r: Option<String>)
    requires
        is_convertible(number@),
    ensures
        match r {
            Some(s) => uk_ordinal(number@, case_pref@, gender_pref@, count_pref@) == Some(s@),
            None => uk_ordinal(number@, case_pref@, gender_pref@, count_pref@) is None,
        },
{
    let builder = Num2Words::parse(number)?;
    builder.lang(Lang::Ukrainian).prefer(case_pref).prefer(gender_pref).prefer(count_pref).ordinal().to_words().ok()
}

/// The case preference that `num2words` understands for a case.
pub open spec fn case_pref(d: Declension) -> Seq<char> {
    match d {
        Declension::Nominative => "н"@,
        Declension::Genitive => "р"@,
        Declension::Dative => "д"@,
        Declension::Accusative => "з"@,
        Declension::Instrumental => "о"@,
        Declension::Locative => "м"@,
    }
}

fn case_pref_str(d: Declension) -> (s: &'static str)
    ensures
        s@ == case_pref(d),
{
    match d {
        Declension::Nominative => "н",
        Declension::Genitive => "р",
        Declension::Dative => "д",
        Declension::Accusative => "з",
        Declension::Instrumental => "о",
        Declension::Locative => "м",
    }
}

/// The gender preference that `num2words` understands for a gender.
pub open spec fn gender_pref(g: Gender) -> Seq<char> {
    match g {
        Gender::Masculine => "ч"@,
        Gender::Feminine => "ж"@,
        Gender::Neuter => "с"@,
    }
}

fn gender_pref_str(g: Gender) -> (s: &'static str)
    ensures
        s@ == gender_pref(g),
{
    match g {
        Gender::Masculine => "ч",
        Gender::Feminine => "ж",
        Gender::Neuter => "с",
    }
}

/// The gender a cardinal takes before a noun: the noun classes "гривень"
/// and "годині" are feminine, "імен" and "яблук" neuter, all else
/// masculine.
pub open spec fn noun_gender(noun: Option<Seq<char>>) -> Gender {
    match noun {
        Some(n) => if n == "гривень"@ || n == "годині"@ {
            Gender::Feminine
        } else if n == "імен"@ || n == "яблук"@ {
            Gender::Neuter
        } else {
            Gender::Masculine
        },
        None => Gender::Masculine,
    }
}

fn noun_gender_exec(noun: Option<&[char]>) -> (g: Gender)
    ensures
        g == noun_gender(opt_view(noun)),
{
    match noun {
        Some(n) => if eq_str(n, "гривень") || eq_str(n, "годині") {
            Gender::Feminine
        } else if eq_str(n, "імен") || eq_str(n, "яблук") {
            Gender::Neuter
        } else {
            Gender::Masculine
        },
        None => Gender::Masculine,
    }
}

/// Case and gender of an ordinal written with a suffix after a hyphen
/// ("28-го"); "-му" is locative after a preposition that governs the
/// locative and dative otherwise.
pub open spec fn ordinal_suffix_form(suf: Seq<char>, prep_decl: Declension) -> Option<(Declension, Gender)> {
    if suf == "е"@ {
        Some((Declension::Nominative, Gender::Neuter))
    } else if suf == "й"@ || suf == "ий"@ {
        Some((Declension::Nominative, Gender::Masculine))
    } else if suf == "а"@ {
        Some((Declension::Nominative, Gender::Feminine))
    } else if suf == "го"@ || suf == "ого"@ {
        Some((Declension::Genitive, Gender::Masculine))
    } else if suf == "му"@ || suf == "ому"@ {
        Some((if prep_decl == Declension::Locative { Declension::Locative } else { Declension::Dative }, Gender::Masculine))
    } else if suf == "им"@ {
        Some((Declension::Instrumental, Gender::Masculine))
    } else if suf == "ї"@ || suf == "ої"@ {
        Some((Declension::Genitive, Gender::Feminine))
    } else if suf == "у"@ || suf == "ю"@ {
        Some((Declension::Accusative, Gender::Feminine))
    } else if suf == "ій"@ {
        Some((if prep_decl == Declension::Locative { Declension::Locative } else { Declension::Dative }, Gender::Feminine))
    } else if suf == "ою"@ {
        Some((Declension::Instrumental, Gender::Feminine))
    } else {
        None
    }
}

fn ordinal_suffix_form_exec(suf: &[char], prep_decl: Declension) -> (r: Option<(Declension, Gender)>)
    ensures
        r == ordinal_suffix_form(suf@, prep_decl),
{
    if eq_str(suf, "е") {
        Some((Declension::Nominative, Gender::Neuter))
    } else if eq_str(suf, "й") || eq_str(suf, "ий") {
        Some((Declension::Nominative, Gender::Masculine))
    } else if eq_str(suf, "а") {
        Some((Declension::Nominative, Gender::Feminine))
    } else if eq_str(suf, "го") || eq_str(suf, "ого") {
        Some((Declension::Genitive, Gender::Masculine))
    } else if eq_str(suf, "му") || eq_str(suf, "ому") {
        Some((if prep_decl == Declension::Locative { Declension::Locative } else { Declension::Dative }, Gender::Masculine))
    } else if eq_str(suf, "им") {
        Some((Declension::Instrumental, Gender::Masculine))
    } else if eq_str(suf, "ї") || eq_str(suf, "ої") {
        Some((Declension::Genitive, Gender::Feminine))
    } else if eq_str(suf, "у") || eq_str(suf, "ю") {
        Some((Declension::Accusative, Gender::Feminine))
    } else if eq_str(suf, "ій") {
        Some((if prep_decl == Declension::Locative { Declension::Locative } else { Declension::Dative }, Gender::Feminine))
    } else if eq_str(suf, "ою") {
        Some((Declension::Instrumental, Gender::Feminine))
    } else {
        None
    }
}

/// Words for a number as the words around it ask: `word` is digits, read
/// as a cardinal in the case of the preposition `prev` and the gender of
/// the noun class `noun` (an ordinal in the feminine before "годині"), or
/// digits, a hyphen and an ending, read as an ordinal in the case and
/// gender the ending shows. `None` for any other word, for more than
/// `MAX_NUMBER_DIGITS` digits, or where `num2words` gives no words.
pub open spec fn spec_analyze(prev: Option<Seq<char>>, word: Seq<char>, noun: Option<Seq<char>>) -> Option<Seq<char>> {
    let d = spec_get_declension(prev);
    let k = digit_prefix_len(word);
    if k == 0 {
        None
    } else if k == word.len() {
        if noun == Some("годині"@) {
            ordinal_of(word, case_pref(d), "ж"@, ""@)
        } else {
            cardinal_of(word, case_pref(d), gender_pref(noun_gender(noun)), ""@)
        }
    } else if word[k as int] == '-' {
        match ordinal_suffix_form(word.skip(k as int + 1), d) {
            Some((dd, g)) => ordinal_of(word.take(k as int), case_pref(dd), gender_pref(g), ""@),
            None => None,
        }
    } else {
        None
    }
}

fn opt_string_chars(r: Option<String>) -> (v: Option<Vec<char>>)
    ensures
        match r {
            Some(s) => v matches Some(x) && x@ == s@,
            None => v is None,
        },
{
    match r {
        Some(s) => Some(to_chars(s.as_str())),
        None => None,
    }
}

/// Words for a number as the words around it ask (see `spec_analyze`).
pub fn analyze_number(prev: Option<&[char]>, word: &[char], noun: Option<&[char]>) -> (r: Option<Vec<char>>)
    ensures
        match r {
            Some(v) => spec_analyze(opt_view(prev), word@, opt_view(noun)) == Some(v@),
            None => spec_analyze(opt_view(prev), word@, opt_view(noun)) is None,
        },
{
    let d = get_declension_chars(prev);
    let k = digit_prefix_len_exec(word);
    proof { lemma_digit_prefix_len(word@); }
    if k == 0 {
        return None;
    }
    if k == word.len() {
        if k > MAX_NUMBER_DIGITS {
            return None;
        }
        assert(word@.take(k as int) =~= word@);
        let w = from_chars(word);
        let is_hour = match noun {
            Some(n) => eq_str(n, "годині"),
            None => false,
        };
        assert(is_hour == (opt_view(noun) == Some("годині"@)));
        if is_hour {
            return opt_string_chars(ordinal_words(w.as_str(), case_pref_str(d), "ж", ""));
        } else {
            let g = noun_gender_exec(noun);
            return opt_string_chars(cardinal_words(w.as_str(), case_pref_str(d), gender_pref_str(g), ""));
        }
    }
    if word[k] != '-' {
        return None;
    }
    let suf = slice_range(word, k + 1, word.len());
    assert(suf@ =~= word@.skip(k + 1));
    match ordinal_suffix_form_exec(suf.as_slice(), d) {
        Some((dd, g)) => {
            if k > MAX_NUMBER_DIGITS {
                return None;
            }
            let digits = slice_prefix(word, k);
            let w = from_chars(digits.as_slice());
            opt_string_chars(ordinal_words(w.as_str(), case_pref_str(dd), gender_pref_str(g), ""))
        },
        None => None,
    }
}

} // verus!
