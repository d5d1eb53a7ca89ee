//! Numbers written in digits, read out as Ukrainian words.

use vstd::prelude::*;
use crate::abbr::seq_ends_with;
use crate::num::{parse_i64, spec_parse_i64};
use crate::num::{literal_integer, literal_integer_exec};
use crate::numerals::{uk_cardinal, is_convertible, cardinal_words, is_convertible_exec};
use crate::text::{
    spec_is_digit, is_digit, eq_str, ends_with, to_chars, from_chars, push_str, push_chars,
    slice_prefix, slice_range, replace_all, replace_chars,
};

verus! {

/// `num2words` writes the apostrophe as 'ʼ'; the text uses '\''.
pub open spec fn fix_apostrophe(s: Seq<char>) -> Seq<char> {
    replace_all(s, "ʼ"@, "'"@)
}

/// The number that a text reading as a floating-point number is handed to
/// `num2words` as: the text itself where it is one to 63 digits, else the
/// digits of the whole number that it stands for as a float literal (see
/// `literal_integer`); `None` for any other text.
pub open spec fn number_text(u: Seq<char>) -> Option<Seq<char>> {
    if is_convertible(u) {
        Some(u)
    } else {
        match literal_integer(u) {
            Some(t) => if is_convertible(t) { Some(t) } else { None },
            None => None,
        }
    }
}

/// The cardinal, in the nominative, of the number a text stands for (see
/// `number_text`); `None` where it stands for none or `num2words` gives no
/// words.
pub open spec fn plain_cardinal(u: Seq<char>) -> Option<Seq<char>> {
    match number_text(u) {
        Some(t) => uk_cardinal(t, ""@, ""@, ""@),
        None => None,
    }
}

/// The cardinal of an unsigned number, in the nominative; the text itself
/// where it stands for no number that is read (see `number_text`) or
/// `num2words` gives no words.
pub open spec fn spec_int_to_ua(u: Seq<char>) -> Seq<char> {
    match plain_cardinal(u) {
        Some(w) => replace_all(
            replace_all(fix_apostrophe(w), "один цілих"@, "один цілий"@),
            "два цілих"@,
            "дві цілих"@,
        ),
        None => u,
    }
}

fn cardinal_plain(u: &[char]) -> (r: Option<Vec<char>>)
    ensures
        match r {
            Some(v) => plain_cardinal(u@) == Some(v@),
            None => plain_cardinal(u@) is None,
        },
{
    let t = if is_convertible_exec(u) {
        slice_prefix(u, u.len())
    } else {
        match literal_integer_exec(u) {
            Some(t) => {
                if is_convertible_exec(t.as_slice()) {
                    t
                } else {
                    return None;
                }
            },
            None => {
                return None;
            },
        }
    };
    assert(u@.take(u@.len() as int) =~= u@);
    assert(number_text(u@) == Some(t@));
    let s = from_chars(t.as_slice());
    match cardinal_words(s.as_str(), "", "", "") {
        Some(w) => Some(to_chars(w.as_str())),
        None => None,
    }
}

/// The cardinal of an unsigned number written in digits, in the
/// nominative; the text itself where `num2words` gives no words.
pub fn int_to_ua_chars(u: &[char]) -> (r: Vec<char>)
    ensures
        r@ == spec_int_to_ua(u@),
{
    match cardinal_plain(u) {
        Some(w) => {
            let a = replace_chars(w.as_slice(), "ʼ", "'");
            let b = replace_chars(a.as_slice(), "один цілих", "один цілий");
            replace_chars(b.as_slice(), "два цілих", "дві цілих")
        },
        None => slice_prefix(u, u.len()),
    }
}

/// The cardinal of an unsigned number written in digits, in the
/// nominative; the text itself where `num2words` gives no words.
pub fn int_to_ua(unsigned: &str) -> (r: String)
    ensures
        r@ == spec_int_to_ua(unsigned@),
{
    let u = to_chars(unsigned);
    let r = int_to_ua_chars(u.as_slice());
    from_chars(r.as_slice())
}

/// Whether number words end in "one" (not "eleven").
pub open spec fn ends_in_one(w: Seq<char>) -> bool {
    w == "один"@ || (seq_ends_with(w, " один"@) && !seq_ends_with(w, "одинадцять"@))
}

/// Whether number words end in "two" (not "twelve").
pub open spec fn ends_in_two(w: Seq<char>) -> bool {
    w == "два"@ || (seq_ends_with(w, " два"@) && !seq_ends_with(w, "дванадцять"@))
}

/// Number words with a final "один" or "два" in the feminine.
pub open spec fn to_feminine(w: Seq<char>) -> Seq<char> {
    if ends_in_one(w) {
        if w == "один"@ {
            "одна"@
        } else {
            w.take(w.len() - 4) + "одна"@
        }
    } else if ends_in_two(w) {
        if w == "два"@ {
            "дві"@
        } else {
            w.take(w.len() - 3) + "дві"@
        }
    } else {
        w
    }
}

fn ends_in_one_exec(w: &[char]) -> (b: bool)
    ensures
        b == ends_in_one(w@),
{
    eq_str(w, "один") || (ends_with(w, " один") && !ends_with(w, "одинадцять"))
}

fn ends_in_two_exec(w: &[char]) -> (b: bool)
    ensures
        b == ends_in_two(w@),
{
    eq_str(w, "два") || (ends_with(w, " два") && !ends_with(w, "дванадцять"))
}

fn to_feminine_exec(w: &[char]) -> (r: Vec<char>)
    ensures
        r@ == to_feminine(w@),
{
    proof { reveal_strlit(" один"); reveal_strlit(" два"); }
    if ends_in_one_exec(w) {
        if eq_str(w, "один") {
            to_chars("одна")
        } else {
            let mut r = slice_prefix(w, w.len() - 4);
            push_str(&mut r, "одна");
            r
        }
    } else if ends_in_two_exec(w) {
        if eq_str(w, "два") {
            to_chars("дві")
        } else {
            let mut r = slice_prefix(w, w.len() - 3);
            push_str(&mut r, "дві");
            r
        }
    } else {
        slice_prefix(w, w.len())
    }
}

/// The ASCII digits of `s`, in order.
pub open spec fn ascii_digits(s: Seq<char>) -> Seq<char>
    decreases s.len(),
{
    if s.len() == 0 {
        s
    } else if spec_is_digit(s.last()) {
        ascii_digits(s.drop_last()).push(s.last())
    } else {
        ascii_digits(s.drop_last())
    }
}

fn ascii_digits_exec(s: &[char]) -> (r: Vec<char>)
    ensures
        r@ == ascii_digits(s@),
{
    let mut r: Vec<char> = Vec::new();
    let mut i: usize = 0;
    while i < s.len()
        invariant
            i <= s@.len(),
            r@ == ascii_digits(s@.take(i as int)),
        decreases s.len() - i,
    {
        assert(s@.take(i + 1).drop_last() =~= s@.take(i as int));
        if is_digit(s[i]) {
            r.push(s[i]);
        }
        i = i + 1;
    }
    assert(s@.take(s@.len() as int) =~= s@);
    r
}

/// The word for a single digit.
pub open spec fn digit_word(c: char) -> Seq<char> {
    if c == '1' { "один"@ }
    else if c == '2' { "два"@ }
    else if c == '3' { "три"@ }
    else if c == '4' { "чотири"@ }
    else if c == '5' { "п'ять"@ }
    else if c == '6' { "шість"@ }
    else if c == '7' { "сім"@ }
    else if c == '8' { "вісім"@ }
    else if c == '9' { "дев'ять"@ }
    else { "нуль"@ }
}

fn digit_word_str(c: char) -> (s: &'static str)
    ensures
        s@ == digit_word(c),
{
    if c == '1' { "один" }
    else if c == '2' { "два" }
    else if c == '3' { "три" }
    else if c == '4' { "чотири" }
    else if c == '5' { "п'ять" }
    else if c == '6' { "шість" }
    else if c == '7' { "сім" }
    else if c == '8' { "вісім" }
    else if c == '9' { "дев'ять" }
    else { "нуль" }
}

/// The name of the fraction for a number of decimal places, singular after
/// "one" and genitive plural otherwise.
pub open spec fn fraction_name(places: nat, one: bool) -> Seq<char> {
    if one {
        if places == 1 { "десята"@ } else if places == 3 { "тисячна"@ } else if places == 4 { "десятитисячна"@ } else { "сота"@ }
    } else {
        if places == 1 { "десятих"@ } else if places == 3 { "тисячних"@ } else if places == 4 { "десятитисячних"@ } else { "сотих"@ }
    }
}

fn fraction_name_str(places: usize, one: bool) -> (s: &'static str)
    ensures
        s@ == fraction_name(places as nat, one),
{
    if one {
        if places == 1 { "десята" } else if places == 3 { "тисячна" } else if places == 4 { "десятитисячна" } else { "сота" }
    } else {
        if places == 1 { "десятих" } else if places == 3 { "тисячних" } else if places == 4 { "десятитисячних" } else { "сотих" }
    }
}

/// A decimal number read out from its integer and fractional digits: a
/// temperature above 9 with one decimal place as "N і D", anything else as
/// "N цілих D десятих" with the fraction's name and agreement.
pub open spec fn spec_decimal_to_ua(ip: Seq<char>, dp: Seq<char>, is_temp: bool) -> Seq<char> {
    let int_val = match spec_parse_i64(ip) {
        Some(v) => v,
        None => 0,
    };
    let iw0 = if ip.len() == 0 || ip == "0"@ { "нуль"@ } else { spec_int_to_ua(ip) };
    let dd = ascii_digits(dp);
    let iw = to_feminine(iw0);
    if is_temp && int_val > 9 && dd.len() == 1 {
        iw + " і "@ + digit_word(dd[0])
    } else {
        let dw0 = if dd.len() == 0 {
            "нуль"@
        } else {
            match plain_cardinal(dd) {
                Some(w) => fix_apostrophe(w),
                None => dd,
            }
        };
        let int_suffix = if ends_in_one(iw0) { "ціла"@ } else { "цілих"@ };
        iw + " "@ + int_suffix + " "@ + to_feminine(dw0) + " "@ + fraction_name(dd.len(), ends_in_one(dw0))
    }
}

/// Reads out a decimal number from its integer and fractional digits (see
/// `spec_decimal_to_ua`).
pub fn decimal_to_ua_chars(ip: &[char], dp: &[char], is_temp: bool) -> (r: Vec<char>)
    ensures
        r@ == spec_decimal_to_ua(ip@, dp@, is_temp),
{
    let int_val: i64 = match parse_i64(ip) {
        Some(v) => v,
        None => 0,
    };
    let iw0 = if ip.len() == 0 || eq_str(ip, "0") { to_chars("нуль") } else { int_to_ua_chars(ip) };
    let dd = ascii_digits_exec(dp);
    let iw = to_feminine_exec(iw0.as_slice());
    if is_temp && int_val > 9 && dd.len() == 1 {
        let mut r = iw;
        push_str(&mut r, " і ");
        push_str(&mut r, digit_word_str(dd[0]));
        return r;
    }
    let dw0 = if dd.len() == 0 {
        to_chars("нуль")
    } else {
        match cardinal_plain(dd.as_slice()) {
            Some(w) => replace_chars(w.as_slice(), "ʼ", "'"),
            None => slice_prefix(dd.as_slice(), dd.len()),
        }
    };
    assert(dd@.take(dd@.len() as int) =~= dd@);
    let int_suffix = if ends_in_one_exec(iw0.as_slice()) { "ціла" } else { "цілих" };
    let dw = to_feminine_exec(dw0.as_slice());
    let dec_suffix = fraction_name_str(dd.len(), ends_in_one_exec(dw0.as_slice()));
    let mut r = iw;
    push_str(&mut r, " ");
    push_str(&mut r, int_suffix);
    push_str(&mut r, " ");
    push_chars(&mut r, dw.as_slice());
    push_str(&mut r, " ");
    push_str(&mut r, dec_suffix);
    r
}

/// Reads out a decimal number from its integer and fractional digits (see
/// `spec_decimal_to_ua`).
pub fn decimal_to_ua(int_part: &str, dec_part: &str, is_temp: bool) -> (r: String)
    ensures
        r@ == spec_decimal_to_ua(int_part@, dec_part@, is_temp),
{
    let i = to_chars(int_part);
    let d = to_chars(dec_part);
    let r = decimal_to_ua_chars(i.as_slice(), d.as_slice(), is_temp);
    from_chars(r.as_slice())
}

/// Index of the first '.' or ',' in `s`.
pub open spec fn first_separator(s: Seq<char>) -> Option<nat>
    decreases s.len(),
{
    if s.len() == 0 {
        None
    } else if s[0] == '.' || s[0] == ',' {
        Some(0)
    } else {
        match first_separator(s.skip(1)) {
            Some(k) => Some(k + 1),
            None => None,
        }
    }
}

proof fn lemma_first_separator(s: Seq<char>, i: int)
    requires
        0 <= i <= s.len(),
        forall|j: int| 0 <= j < i ==> s[j] != '.' && s[j] != ',',
    ensures
        first_separator(s) == match first_separator(s.skip(i)) {
            Some(k) => Some((k + i) as nat),
            None => None::<nat>,
        },
    decreases i,
{
    if i > 0 {
        assert(s.skip(1).skip(i - 1) =~= s.skip(i));
        lemma_first_separator(s.skip(1), i - 1);
    } else {
        assert(s.skip(0) =~= s);
    }
}

fn first_separator_exec(s: &[char]) -> (r: Option<usize>)
    ensures
        match r {
            Some(k) => first_separator(s@) == Some(k as nat) && k < s@.len(),
            None => first_separator(s@) is None,
        },
{
    let mut i: usize = 0;
    while i < s.len()
        invariant
            i <= s@.len(),
            forall|j: int| 0 <= j < i ==> s@[j] != '.' && s@[j] != ',',
        decreases s.len() - i,
    {
        if s[i] == '.' || s[i] == ',' {
            proof { lemma_first_separator(s@, i as int); }
            return Some(i);
        }
        i = i + 1;
    }
    proof { lemma_first_separator(s@, i as int); }
    None
}

/// A number in digits read out: "мінус" for a leading '-', a decimal at the
/// first '.' or ',', else the cardinal (or the text where it stands for no
/// number that is read, see `number_text`, or `num2words` gives no words).
pub open spec fn spec_num_to_ua(s: Seq<char>, is_temp: bool) -> Seq<char> {
    let neg = s.len() > 0 && s[0] == '-';
    let sign = if neg { "мінус "@ } else { ""@ };
    let u = if neg { s.skip(1) } else { s };
    sign + match first_separator(u) {
        Some(k) => spec_decimal_to_ua(u.take(k as int), u.skip(k as int + 1), is_temp),
        None => match plain_cardinal(u) {
            Some(w) => fix_apostrophe(w),
            None => u,
        },
    }
}

/// Reads out a number written in digits (see `spec_num_to_ua`).
pub fn num_to_ua_chars(s: &[char], is_temp: bool) -> (r: Vec<char>)
    ensures
        r@ == spec_num_to_ua(s@, is_temp),
{
    let neg = s.len() > 0 && s[0] == '-';
    let mut r = if neg { to_chars("мінус ") } else { to_chars("") };
    let u = if neg { slice_range(s, 1, s.len()) } else { slice_prefix(s, s.len()) };
    assert(s@.take(s@.len() as int) =~= s@);
    assert(neg ==> u@ =~= s@.skip(1));
    let u = u.as_slice();
    let tail = match first_separator_exec(u) {
        Some(k) => {
            let ip = slice_prefix(u, k);
            let dp = slice_range(u, k + 1, u.len());
            assert(dp@ =~= u@.skip(k + 1));
            decimal_to_ua_chars(ip.as_slice(), dp.as_slice(), is_temp)
        },
        None => match cardinal_plain(u) {
            Some(w) => replace_chars(w.as_slice(), "ʼ", "'"),
            None => slice_prefix(u, u.len()),
        },
    };
    assert(u@.take(u@.len() as int) =~= u@);
    proof { reveal_strlit(""); }
    push_chars(&mut r, tail.as_slice());
    r
}

/// Reads out a number written in digits (see `spec_num_to_ua`).
pub fn num_to_ua(num_str: &str, is_temp: bool) -> (r: String)
    ensures
        r@ == spec_num_to_ua(num_str@, is_temp),
{
    let s = to_chars(num_str);
    let r = num_to_ua_chars(s.as_slice(), is_temp);
    from_chars(r.as_slice())
}


/// Outside the short temperature reading, a decimal is read with the name
/// of its fraction last, and that name follows the number of its decimal
/// digits: one gives tenths, two hundredths, three thousandths, four ten
/// thousandths (singular or plural), any other number hundredths.
pub proof fn law_fraction_named_by_places(ip: Seq<char>, dp: Seq<char>, is_temp: bool)
    ensures
        ({
            let r = spec_decimal_to_ua(ip, dp, is_temp);
            let n = ascii_digits(dp).len();
            let int_val = match spec_parse_i64(ip) {
                Some(v) => v,
                None => 0,
            };
            !(is_temp && int_val > 9 && n == 1) ==> (
                if n == 1 {
                    seq_ends_with(r, " десятих"@) || seq_ends_with(r, " десята"@)
                } else if n == 3 {
                    seq_ends_with(r, " тисячних"@) || seq_ends_with(r, " тисячна"@)
                } else if n == 4 {
                    seq_ends_with(r, " десятитисячних"@) || seq_ends_with(r, " десятитисячна"@)
                } else {
                    seq_ends_with(r, " сотих"@) || seq_ends_with(r, " сота"@)
                }
            )
        }),
{
    let r = spec_decimal_to_ua(ip, dp, is_temp);
    let dd = ascii_digits(dp);
    let int_val = match spec_parse_i64(ip) {
        Some(v) => v,
        None => 0,
    };
    if !(is_temp && int_val > 9 && dd.len() == 1) {
        let dw0 = if dd.len() == 0 {
            "нуль"@
        } else {
            match plain_cardinal(dd) {
                Some(w) => fix_apostrophe(w),
                None => dd,
            }
        };
        let iw0 = if ip.len() == 0 || ip == "0"@ { "нуль"@ } else { spec_int_to_ua(ip) };
        let name = fraction_name(dd.len(), ends_in_one(dw0));
        let head = to_feminine(iw0) + " "@ + (if ends_in_one(iw0) { "ціла"@ } else { "цілих"@ }) + " "@
            + to_feminine(dw0);
        assert(r == head + " "@ + name);
        let tail = " "@ + name;
        assert(r =~= head + tail);
        assert(r.subrange(r.len() - tail.len(), r.len() as int) =~= tail);
        reveal_strlit(" ");
        reveal_strlit(" десятих");
        reveal_strlit(" десята");
        reveal_strlit(" тисячних");
        reveal_strlit(" тисячна");
        reveal_strlit(" десятитисячних");
        reveal_strlit(" десятитисячна");
        reveal_strlit(" сотих");
        reveal_strlit(" сота");
        reveal_strlit("десятих");
        reveal_strlit("десята");
        reveal_strlit("тисячних");
        reveal_strlit("тисячна");
        reveal_strlit("десятитисячних");
        reveal_strlit("десятитисячна");
        reveal_strlit("сотих");
        reveal_strlit("сота");
        assert(" десятих"@ =~= " "@ + "десятих"@);
        assert(" десята"@ =~= " "@ + "десята"@);
        assert(" тисячних"@ =~= " "@ + "тисячних"@);
        assert(" тисячна"@ =~= " "@ + "тисячна"@);
        assert(" десятитисячних"@ =~= " "@ + "десятитисячних"@);
        assert(" десятитисячна"@ =~= " "@ + "десятитисячна"@);
        assert(" сотих"@ =~= " "@ + "сотих"@);
        assert(" сота"@ =~= " "@ + "сота"@);
    }
}

} // verus!
