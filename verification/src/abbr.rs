//! Context-aware expansion and declension of Ukrainian abbreviations and
//! units of measurement.

use vstd::prelude::*;
use crate::num::{parse_i64, spec_parse_i64};
use crate::tables::{
    abbr_entry, lookup_abbr, unit_name, lookup_unit, lemma_abbr_nouns, neuter_nouns_unstressed_at_end,
    stress_end_ok,
};
use crate::text::{
    is_uppercase, char_is_uppercase, lower_first, char_lower_first, join_words, join_chars, views_of,
    last_word, last_word_of, starts_with, contains_str, seq_contains_sub,
    STRESS_MARK, strip_stress, remove_stress, ends_with, ends_with_chars, to_chars, from_chars, push_str, push_chars,
    slice_prefix, replace_all, replace_chars, contains_char, str_lowercase, lower, eq_str, lemma_strip_stress_plain,
};

verus! {

/// Grammatical case.
#[derive(Debug, Clone, Copy, PartialEq, Eq, Structural)]
pub enum Declension {
    Nominative,
    Genitive,
    Dative,
    Accusative,
    Instrumental,
    Locative,
}

/// Grammatical gender.
#[derive(Debug, Clone, Copy, PartialEq, Eq, Structural)]
pub enum Gender {
    Masculine,
    Feminine,
    Neuter,
}

/// How a word of an expansion behaves when the expansion is declined.
#[derive(Debug, Clone, Copy, PartialEq, Eq, Structural)]
pub enum WordRole {
    Static,
    Adj,
    Noun,
}

/// One word of an abbreviation's expansion.
#[derive(Debug, Clone)]
pub struct WordSpec {
    pub text: &'static str,
    pub role: WordRole,
    pub gender: Gender,
    pub is_always_plural: bool,
}

/// The mathematical content of a `WordSpec`.
pub struct WordModel {
    pub text: Seq<char>,
    pub role: WordRole,
    pub gender: Gender,
    pub is_always_plural: bool,
}

impl View for WordSpec {
    type V = WordModel;

    open spec fn view(&self) -> WordModel {
        WordModel {
            text: self.text@,
            role: self.role,
            gender: self.gender,
            is_always_plural: self.is_always_plural,
        }
    }
}

impl WordSpec {
    /// A word that is never declined.
    pub fn static_word(text: &'static str) -> (w: Self)
        ensures
            w.text == text,
            w.role == WordRole::Static,
            w.gender == Gender::Masculine,
            !w.is_always_plural,
    {
        WordSpec { text, role: WordRole::Static, gender: Gender::Masculine, is_always_plural: false }
    }

    /// An adjective that agrees with the expansion's main noun.
    pub fn adj(text: &'static str) -> (w: Self)
        ensures
            w.text == text,
            w.role == WordRole::Adj,
            w.gender == Gender::Masculine,
            !w.is_always_plural,
    {
        WordSpec { text, role: WordRole::Adj, gender: Gender::Masculine, is_always_plural: false }
    }

    /// The main noun of an expansion.
    pub fn noun(text: &'static str, gender: Gender) -> (w: Self)
        ensures
            w.text == text,
            w.role == WordRole::Noun,
            w.gender == gender,
            !w.is_always_plural,
    {
        WordSpec { text, role: WordRole::Noun, gender, is_always_plural: false }
    }

    /// A main noun that exists in the plural only.
    pub fn noun_pl(text: &'static str, gender: Gender) -> (w: Self)
        ensures
            w.text == text,
            w.role == WordRole::Noun,
            w.gender == gender,
            w.is_always_plural,
    {
        WordSpec { text, role: WordRole::Noun, gender, is_always_plural: true }
    }
}

/// An abbreviation: the noun class that a preceding numeral agrees with, and
/// the words of its expansion.
#[derive(Debug, Clone)]
pub struct AbbrSpec {
    pub gender_class: &'static str,
    pub words: Vec<WordSpec>,
}

/// The mathematical content of an `AbbrSpec`.
pub struct AbbrModel {
    pub gender_class: Seq<char>,
    pub words: Seq<WordModel>,
}

impl View for AbbrSpec {
    type V = AbbrModel;

    open spec fn view(&self) -> AbbrModel {
        AbbrModel {
            gender_class: self.gender_class@,
            words: self.words@.map_values(|w: WordSpec| w@),
        }
    }
}

/// Whether `a` ends with `b`.
pub open spec fn seq_ends_with(a: Seq<char>, b: Seq<char>) -> bool {
    b.len() <= a.len() && a.subrange(a.len() - b.len(), a.len() as int) == b
}

/// Whether `a` starts with `b`.
pub open spec fn seq_starts_with(a: Seq<char>, b: Seq<char>) -> bool {
    b.len() <= a.len() && a.subrange(0, b.len() as int) == b
}

/// Length of what is left of `w` when `n` letters are cut from its end,
/// stress marks being skipped over as they are met.
pub open spec fn stem_len(w: Seq<char>, n: nat) -> nat
    decreases w.len(),
{
    if n == 0 || w.len() == 0 {
        w.len()
    } else if w.last() == STRESS_MARK {
        stem_len(w.drop_last(), n)
    } else {
        stem_len(w.drop_last(), (n - 1) as nat)
    }
}

proof fn lemma_stem_len_bound(w: Seq<char>, n: nat)
    ensures
        stem_len(w, n) <= w.len(),
    decreases w.len(),
{
    if n == 0 || w.len() == 0 {
    } else if w.last() == STRESS_MARK {
        lemma_stem_len_bound(w.drop_last(), n);
    } else {
        lemma_stem_len_bound(w.drop_last(), (n - 1) as nat);
    }
}

/// Number of characters of the stem left when `suffix_clean_len` letters
/// (stress marks not counted) are cut from the end of `word`.
pub fn get_stem_len_with_accent(word: &[char], suffix_clean_len: usize) -> (n: usize)
    ensures
        n == stem_len(word@, suffix_clean_len as nat),
{
    let mut clean_counted: usize = 0;
    let mut idx: usize = word.len();
    assert(word@.take(idx as int) =~= word@);
    while idx > 0 && clean_counted < suffix_clean_len
        invariant
            idx <= word@.len(),
            clean_counted <= suffix_clean_len,
            stem_len(word@, suffix_clean_len as nat)
                == stem_len(word@.take(idx as int), (suffix_clean_len - clean_counted) as nat),
        decreases idx,
    {
        assert(word@.take(idx as int).drop_last() =~= word@.take(idx - 1));
        idx = idx - 1;
        if word[idx] != STRESS_MARK {
            clean_counted = clean_counted + 1;
        }
    }
    assert(word@.take(idx as int).len() == idx);
    idx
}

/// Stem length and softness of an adjective in its dictionary form.
pub open spec fn adjective_shape(w: Seq<char>) -> (nat, bool) {
    let c = strip_stress(w);
    if seq_ends_with(c, "ий"@) {
        (stem_len(w, 2), false)
    } else if seq_ends_with(c, "ій"@) {
        (stem_len(w, 2), true)
    } else if seq_ends_with(c, "а"@) {
        (stem_len(w, 1), false)
    } else if seq_ends_with(c, "я"@) {
        (stem_len(w, 1), true)
    } else if seq_ends_with(c, "е"@) {
        (stem_len(w, 1), false)
    } else if seq_ends_with(c, "є"@) {
        (stem_len(w, 1), true)
    } else if seq_ends_with(c, "і"@) {
        (stem_len(w, 1), false)
    } else {
        (w.len(), false)
    }
}

/// The ending of an adjective for a case, number and gender, by softness.
pub open spec fn adjective_ending(decl: Declension, is_plural: bool, gender: Gender, soft: bool) -> Seq<char> {
    if is_plural {
        match decl {
            Declension::Nominative => "і"@,
            Declension::Genitive => if soft { "іх"@ } else { "их"@ },
            Declension::Dative => if soft { "ім"@ } else { "им"@ },
            Declension::Accusative => "і"@,
            Declension::Instrumental => if soft { "іми"@ } else { "ими"@ },
            Declension::Locative => if soft { "іх"@ } else { "их"@ },
        }
    } else {
        match gender {
            Gender::Feminine => match decl {
                Declension::Nominative => if soft { "я"@ } else { "а"@ },
                Declension::Genitive => if soft { "ьої"@ } else { "ої"@ },
                Declension::Dative => "ій"@,
                Declension::Locative => "ій"@,
                Declension::Accusative => if soft { "ю"@ } else { "у"@ },
                Declension::Instrumental => if soft { "ьою"@ } else { "ою"@ },
            },
            _ => match decl {
                Declension::Nominative | Declension::Accusative => if gender == Gender::Masculine {
                    if soft { "ій"@ } else { "ий"@ }
                } else {
                    if soft { "є"@ } else { "е"@ }
                },
                Declension::Genitive => if soft { "ього"@ } else { "ого"@ },
                Declension::Dative => if soft { "ьому"@ } else { "ому"@ },
                Declension::Instrumental => "им"@,
                Declension::Locative => if soft { "ьому"@ } else { "ому"@ },
            },
        }
    }
}

/// An adjective declined for a case, number and gender.
pub open spec fn spec_decline_adjective(w: Seq<char>, decl: Declension, is_plural: bool, gender: Gender) -> Seq<char> {
    let (n, soft) = adjective_shape(w);
    w.take(n as int) + adjective_ending(decl, is_plural, gender, soft)
}

fn adjective_ending_str(decl: Declension, is_plural: bool, gender: Gender, soft: bool) -> (s: &'static str)
    ensures
        s@ == adjective_ending(decl, is_plural, gender, soft),
{
    if is_plural {
        match decl {
            Declension::Nominative => "і",
            Declension::Genitive => if soft { "іх" } else { "их" },
            Declension::Dative => if soft { "ім" } else { "им" },
            Declension::Accusative => "і",
            Declension::Instrumental => if soft { "іми" } else { "ими" },
            Declension::Locative => if soft { "іх" } else { "их" },
        }
    } else {
        match gender {
            Gender::Feminine => match decl {
                Declension::Nominative => if soft { "я" } else { "а" },
                Declension::Genitive => if soft { "ьої" } else { "ої" },
                Declension::Dative => "ій",
                Declension::Locative => "ій",
                Declension::Accusative => if soft { "ю" } else { "у" },
                Declension::Instrumental => if soft { "ьою" } else { "ою" },
            },
            _ => match decl {
                Declension::Nominative | Declension::Accusative => if gender == Gender::Masculine {
                    if soft { "ій" } else { "ий" }
                } else {
                    if soft { "є" } else { "е" }
                },
                Declension::Genitive => if soft { "ього" } else { "ого" },
                Declension::Dative => if soft { "ьому" } else { "ому" },
                Declension::Instrumental => "им",
                Declension::Locative => if soft { "ьому" } else { "ому" },
            },
        }
    }
}

fn adjective_shape_exec(w: &[char]) -> (r: (usize, bool))
    ensures
        r.0 as nat == adjective_shape(w@).0,
        r.1 == adjective_shape(w@).1,
{
    let c = remove_stress(w);
    let c = c.as_slice();
    if ends_with(c, "ий") {
        (get_stem_len_with_accent(w, 2), false)
    } else if ends_with(c, "ій") {
        (get_stem_len_with_accent(w, 2), true)
    } else if ends_with(c, "а") {
        (get_stem_len_with_accent(w, 1), false)
    } else if ends_with(c, "я") {
        (get_stem_len_with_accent(w, 1), true)
    } else if ends_with(c, "е") {
        (get_stem_len_with_accent(w, 1), false)
    } else if ends_with(c, "є") {
        (get_stem_len_with_accent(w, 1), true)
    } else if ends_with(c, "і") {
        (get_stem_len_with_accent(w, 1), false)
    } else {
        (w.len(), false)
    }
}

/// Declines an adjective for a case, number and gender (hard and soft
/// stems); stress marks in the stem are kept.
pub fn decline_adjective_chars(w: &[char], decl: Declension, is_plural: bool, gender: Gender) -> (r: Vec<char>)
    ensures
        r@ == spec_decline_adjective(w@, decl, is_plural, gender),
{
    let (n, soft) = adjective_shape_exec(w);
    proof { lemma_stem_len_bound(w@, 2); lemma_stem_len_bound(w@, 1); }
    let mut r = slice_prefix(w, n);
    push_str(&mut r, adjective_ending_str(decl, is_plural, gender, soft));
    r
}

/// Declines an adjective for a case, number and gender (hard and soft
/// stems); stress marks in the stem are kept.
pub fn decline_adjective(orig_word: &str, decl: Declension, is_plural: bool, gender: Gender) -> (r: String)
    ensures
        r@ == spec_decline_adjective(orig_word@, decl, is_plural, gender),
{
    let w = to_chars(orig_word);
    let r = decline_adjective_chars(w.as_slice(), decl, is_plural, gender);
    from_chars(r.as_slice())
}


/// What it takes to decline a noun: its dictionary form, stem, gender,
/// softness, and the endings that differ from word to word.
#[derive(Debug, Clone)]
pub struct NounRules {
    pub nominative_sg: String,
    pub stem: String,
    pub gender: Gender,
    pub is_soft: bool,
    pub is_always_plural: bool,
    pub gen_sg_ending: String,
    pub gen_pl_ending: String,
    pub loc_sg_ending: String,
}

/// The mathematical content of `NounRules`.
pub struct NounModel {
    pub nominative_sg: Seq<char>,
    pub stem: Seq<char>,
    pub gender: Gender,
    pub is_soft: bool,
    pub is_always_plural: bool,
    pub gen_sg_ending: Seq<char>,
    pub gen_pl_ending: Seq<char>,
    pub loc_sg_ending: Seq<char>,
}

impl View for NounRules {
    type V = NounModel;

    open spec fn view(&self) -> NounModel {
        NounModel {
            nominative_sg: self.nominative_sg@,
            stem: self.stem@,
            gender: self.gender,
            is_soft: self.is_soft,
            is_always_plural: self.is_always_plural,
            gen_sg_ending: self.gen_sg_ending@,
            gen_pl_ending: self.gen_pl_ending@,
            loc_sg_ending: self.loc_sg_ending@,
        }
    }
}

/// Nouns whose genitive singular ends in -у.
pub open spec fn is_u_genitive_noun(l: Seq<char>) -> bool {
    l == "центр"@ || l == "центру"@ || l == "банк"@ || l == "союз"@ || l == "пункт"@
        || l == "комплекс"@ || l == "комітет"@ || l == "кооператив"@ || l == "тест"@ || l == "суд"@
        || l == "фонд"@ || l == "оборот"@ || l == "офіс"@ || l == "кабінет"@
}

/// Rules of a noun that exists in the plural only.
pub open spec fn plural_only_rules(w: Seq<char>, gender: Gender) -> NounModel {
    let clean = strip_stress(w);
    let soft = seq_ends_with(clean, "і"@) || seq_ends_with(clean, "я"@) || seq_ends_with(clean, "ї"@);
    let gen_pl = match gender {
        Gender::Feminine => if seq_ends_with(clean, "ї"@) || seq_ends_with(clean, "ія"@) {
            "й"@
        } else if soft {
            "ь"@
        } else {
            ""@
        },
        Gender::Neuter => if seq_ends_with(clean, "я"@) { "ь"@ } else { ""@ },
        Gender::Masculine => if soft { "ей"@ } else { "ів"@ },
    };
    NounModel {
        nominative_sg: w,
        stem: w.take(stem_len(w, 1) as int),
        gender,
        is_soft: soft,
        is_always_plural: true,
        gen_sg_ending: ""@,
        gen_pl_ending: gen_pl,
        loc_sg_ending: ""@,
    }
}

/// Softness, stem length and the genitive singular, genitive plural and
/// locative singular endings of a noun, read from its ending and gender.
pub open spec fn noun_shape(w: Seq<char>, gender: Gender) -> (bool, nat, Seq<char>, Seq<char>, Seq<char>) {
    let clean = strip_stress(w);
    match gender {
        Gender::Feminine => if seq_ends_with(clean, "ія"@) {
            (true, stem_len(w, 1), "і"@, "й"@, "і"@)
        } else if seq_ends_with(clean, "я"@) {
            (true, stem_len(w, 1), "і"@, "ь"@, "і"@)
        } else if seq_ends_with(clean, "а"@) {
            (false, stem_len(w, 1), "и"@, ""@, "і"@)
        } else {
            (false, w.len(), "а"@, "ів"@, "і"@)
        },
        Gender::Neuter => if seq_ends_with(clean, "ння"@) {
            (true, stem_len(w, 1), "я"@, "ь"@, "і"@)
        } else if seq_ends_with(clean, "я"@) {
            (true, stem_len(w, 1), "я"@, ""@, "і"@)
        } else if seq_ends_with(clean, "о"@) {
            (false, stem_len(w, 1), "а"@, ""@, "і"@)
        } else {
            (false, w.len(), "а"@, "ів"@, "і"@)
        },
        Gender::Masculine => if seq_ends_with(clean, "ь"@) || seq_ends_with(clean, "й"@) {
            (true, stem_len(w, 1), "я"@, "ів"@, "і"@)
        } else {
            let l = str_lowercase(clean);
            (
                false,
                w.len(),
                if is_u_genitive_noun(l) { "у"@ } else { "а"@ },
                "ів"@,
                if seq_ends_with(l, "к"@) { "у"@ } else { "і"@ },
            )
        },
    }
}

/// The declension rules of a noun given in its dictionary form.
pub open spec fn spec_noun_rules(w: Seq<char>, gender: Gender, is_always_plural: bool) -> NounModel {
    if is_always_plural {
        plural_only_rules(w, gender)
    } else {
        let clean = strip_stress(w);
        let (soft, n, gen_sg, gen_pl, loc_sg) = noun_shape(w, gender);
        let stem = if gender == Gender::Masculine && seq_ends_with(clean, "ець"@) {
            w.take(stem_len(w, 3) as int).push('ц')
        } else {
            w.take(n as int)
        };
        let l = str_lowercase(clean);
        let base = NounModel {
            nominative_sg: w,
            stem,
            gender,
            is_soft: soft,
            is_always_plural: false,
            gen_sg_ending: gen_sg,
            gen_pl_ending: gen_pl,
            loc_sg_ending: loc_sg,
        };
        if l == "відсоток"@ {
            NounModel {
                stem: if w.contains(STRESS_MARK) { replace_all(w, "ток"@, "тк"@) } else { "відсотк"@ },
                gen_sg_ending: "а"@,
                loc_sg_ending: "у"@,
                ..base
            }
        } else if l == "податок"@ {
            NounModel {
                stem: if w.contains(STRESS_MARK) { replace_all(w, "ток"@, "тк"@) } else { "податк"@ },
                gen_sg_ending: "у"@,
                loc_sg_ending: "у"@,
                ..base
            }
        } else if l == "внесок"@ {
            NounModel {
                stem: if w.contains(STRESS_MARK) { replace_all(w, "сок"@, "ск"@) } else { "внеск"@ },
                gen_sg_ending: "у"@,
                loc_sg_ending: "у"@,
                ..base
            }
        } else {
            base
        }
    }
}

fn string_of(s: &str) -> (r: String)
    ensures
        r@ == s@,
{
    String::from_str(s)
}

fn is_u_genitive_noun_exec(l: &[char]) -> (b: bool)
    ensures
        b == is_u_genitive_noun(l@),
{
    eq_str(l, "центр") || eq_str(l, "центру") || eq_str(l, "банк") || eq_str(l, "союз")
        || eq_str(l, "пункт") || eq_str(l, "комплекс") || eq_str(l, "комітет")
        || eq_str(l, "кооператив") || eq_str(l, "тест") || eq_str(l, "суд") || eq_str(l, "фонд")
        || eq_str(l, "оборот") || eq_str(l, "офіс") || eq_str(l, "кабінет")
}

fn plural_only_rules_exec(w: &[char], gender: Gender) -> (r: NounRules)
    ensures
        r@ == plural_only_rules(w@, gender),
{
    let clean = remove_stress(w);
    let c = clean.as_slice();
    let soft = ends_with(c, "і") || ends_with(c, "я") || ends_with(c, "ї");
    let gen_pl = match gender {
        Gender::Feminine => if ends_with(c, "ї") || ends_with(c, "ія") {
            "й"
        } else if soft {
            "ь"
        } else {
            ""
        },
        Gender::Neuter => if ends_with(c, "я") { "ь" } else { "" },
        Gender::Masculine => if soft { "ей" } else { "ів" },
    };
    let n = get_stem_len_with_accent(w, 1);
    proof { lemma_stem_len_bound(w@, 1); }
    let stem = slice_prefix(w, n);
    NounRules {
        nominative_sg: from_chars(w),
        stem: from_chars(stem.as_slice()),
        gender,
        is_soft: soft,
        is_always_plural: true,
        gen_sg_ending: string_of(""),
        gen_pl_ending: string_of(gen_pl),
        loc_sg_ending: string_of(""),
    }
}

fn noun_shape_exec(w: &[char], gender: Gender) -> (r: (bool, usize, &'static str, &'static str, &'static str))
    ensures
        r.0 == noun_shape(w@, gender).0,
        r.1 as nat == noun_shape(w@, gender).1,
        r.2@ == noun_shape(w@, gender).2,
        r.3@ == noun_shape(w@, gender).3,
        r.4@ == noun_shape(w@, gender).4,
{
    let clean = remove_stress(w);
    let c = clean.as_slice();
    match gender {
        Gender::Feminine => if ends_with(c, "ія") {
            (true, get_stem_len_with_accent(w, 1), "і", "й", "і")
        } else if ends_with(c, "я") {
            (true, get_stem_len_with_accent(w, 1), "і", "ь", "і")
        } else if ends_with(c, "а") {
            (false, get_stem_len_with_accent(w, 1), "и", "", "і")
        } else {
            (false, w.len(), "а", "ів", "і")
        },
        Gender::Neuter => if ends_with(c, "ння") {
            (true, get_stem_len_with_accent(w, 1), "я", "ь", "і")
        } else if ends_with(c, "я") {
            (true, get_stem_len_with_accent(w, 1), "я", "", "і")
        } else if ends_with(c, "о") {
            (false, get_stem_len_with_accent(w, 1), "а", "", "і")
        } else {
            (false, w.len(), "а", "ів", "і")
        },
        Gender::Masculine => if ends_with(c, "ь") || ends_with(c, "й") {
            (true, get_stem_len_with_accent(w, 1), "я", "ів", "і")
        } else {
            let l = lower(c);
            let gen_sg = if is_u_genitive_noun_exec(l.as_slice()) { "у" } else { "а" };
            let loc_sg = if ends_with(l.as_slice(), "к") { "у" } else { "і" };
            (false, w.len(), gen_sg, "ів", loc_sg)
        },
    }
}

/// The declension rules of a noun given in its dictionary form.
pub fn noun_rules_chars(w: &[char], gender: Gender, is_always_plural: bool) -> (r: NounRules)
    ensures
        r@ == spec_noun_rules(w@, gender, is_always_plural),
{
    if is_always_plural {
        return plural_only_rules_exec(w, gender);
    }
    let clean = remove_stress(w);
    let c = clean.as_slice();
    let (soft, n, gen_sg, gen_pl, loc_sg) = noun_shape_exec(w, gender);
    proof { lemma_stem_len_bound(w@, 1); lemma_stem_len_bound(w@, 3); }
    let mut stem = if gender == Gender::Masculine && ends_with(c, "ець") {
        let k = get_stem_len_with_accent(w, 3);
        let mut s = slice_prefix(w, k);
        s.push('ц');
        s
    } else {
        slice_prefix(w, n)
    };
    let mut gen_sg: &str = gen_sg;
    let mut loc_sg: &str = loc_sg;
    let l = lower(c);
    let l = l.as_slice();
    if eq_str(l, "відсоток") {
        stem = if contains_char(w, STRESS_MARK) { replace_chars(w, "ток", "тк") } else { to_chars("відсотк") };
        gen_sg = "а";
        loc_sg = "у";
    } else if eq_str(l, "податок") {
        stem = if contains_char(w, STRESS_MARK) { replace_chars(w, "ток", "тк") } else { to_chars("податк") };
        gen_sg = "у";
        loc_sg = "у";
    } else if eq_str(l, "внесок") {
        stem = if contains_char(w, STRESS_MARK) { replace_chars(w, "сок", "ск") } else { to_chars("внеск") };
        gen_sg = "у";
        loc_sg = "у";
    }
    NounRules {
        nominative_sg: from_chars(w),
        stem: from_chars(stem.as_slice()),
        gender,
        is_soft: soft,
        is_always_plural: false,
        gen_sg_ending: string_of(gen_sg),
        gen_pl_ending: string_of(gen_pl),
        loc_sg_ending: string_of(loc_sg),
    }
}

impl NounRules {
    /// Reads the declension rules of a noun from its dictionary form,
    /// gender and whether it exists in the plural only.
    pub fn build(orig_word: &str, gender: Gender, is_always_plural: bool) -> (r: Self)
        ensures
            r@ == spec_noun_rules(orig_word@, gender, is_always_plural),
    {
        let w = to_chars(orig_word);
        noun_rules_chars(w.as_slice(), gender, is_always_plural)
    }
}


/// Whether a noun is a neuter in -ння, which declines by its own pattern.
pub open spec fn is_nnya_noun(r: NounModel) -> bool {
    r.gender == Gender::Neuter && seq_ends_with(strip_stress(r.nominative_sg), "ння"@)
}

/// Whether `decline_noun` can decline by these rules: a neuter in -ння must
/// not end in a stress mark.
pub open spec fn declinable(r: NounModel) -> bool {
    is_nnya_noun(r) ==> !seq_ends_with(r.nominative_sg, seq![STRESS_MARK])
}

/// Forms of a neuter noun in -ння.
pub open spec fn nnya_form(r: NounModel, decl: Declension, plural: bool) -> Seq<char> {
    let base = r.nominative_sg;
    let cb = if seq_ends_with(base, "я"@) { base.drop_last() } else { base };
    if plural {
        match decl {
            Declension::Nominative | Declension::Accusative => base,
            Declension::Genitive => (if seq_ends_with(cb, "н"@) { cb.drop_last() } else { cb }) + "ь"@,
            Declension::Dative => cb + "ям"@,
            Declension::Instrumental => cb + "ями"@,
            Declension::Locative => cb + "ях"@,
        }
    } else {
        match decl {
            Declension::Nominative | Declension::Accusative | Declension::Genitive => base,
            Declension::Dative => cb + "ю"@,
            Declension::Instrumental => cb + "ям"@,
            Declension::Locative => cb + "і"@,
        }
    }
}

/// The ending (after the stem) of the oblique plural cases shared by all
/// genders.
pub open spec fn plural_oblique_ending(decl: Declension, soft: bool) -> Seq<char> {
    match decl {
        Declension::Dative => if soft { "ям"@ } else { "ам"@ },
        Declension::Instrumental => if soft { "ями"@ } else { "ами"@ },
        _ => if soft { "ях"@ } else { "ах"@ },
    }
}

/// A noun form before the -ії spelling is applied.
pub open spec fn noun_form(r: NounModel, decl: Declension, plural: bool) -> Seq<char> {
    let stem = r.stem;
    let soft = r.is_soft;
    if plural {
        match r.gender {
            Gender::Feminine => match decl {
                Declension::Nominative | Declension::Accusative => stem + if soft { "і"@ } else { "и"@ },
                Declension::Genitive => if r.gen_pl_ending == "й"@ {
                    stem + "й"@
                } else if r.gen_pl_ending == "ь"@ {
                    stem + "ь"@
                } else {
                    stem
                },
                _ => stem + plural_oblique_ending(decl, soft),
            },
            Gender::Neuter => match decl {
                Declension::Nominative | Declension::Accusative => stem + if soft { "я"@ } else { "а"@ },
                Declension::Genitive => if r.gen_pl_ending == "ь"@ { stem + "ь"@ } else { stem },
                _ => stem + plural_oblique_ending(decl, soft),
            },
            Gender::Masculine => match decl {
                Declension::Nominative | Declension::Accusative => stem + if soft { "і"@ } else { "и"@ },
                Declension::Genitive => stem + r.gen_pl_ending,
                _ => stem + plural_oblique_ending(decl, soft),
            },
        }
    } else {
        match r.gender {
            Gender::Feminine => match decl {
                Declension::Nominative => stem + if soft { "я"@ } else { "а"@ },
                Declension::Genitive => stem + r.gen_sg_ending,
                Declension::Dative | Declension::Locative => stem + "і"@,
                Declension::Accusative => stem + if soft { "ю"@ } else { "у"@ },
                Declension::Instrumental => stem + if soft { "єю"@ } else { "ою"@ },
            },
            Gender::Neuter => match decl {
                Declension::Nominative | Declension::Accusative => stem + if soft { "я"@ } else { "о"@ },
                Declension::Genitive => stem + r.gen_sg_ending,
                Declension::Dative => stem + if soft { "ю"@ } else { "у"@ },
                Declension::Instrumental => stem + if soft { "ям"@ } else { "ом"@ },
                Declension::Locative => stem + "і"@,
            },
            Gender::Masculine => match decl {
                Declension::Nominative | Declension::Accusative => r.nominative_sg,
                Declension::Genitive => stem + r.gen_sg_ending,
                Declension::Dative => stem + if soft { "ю"@ } else { "у"@ },
                Declension::Instrumental => stem + if soft { "ем"@ } else { "ом"@ },
                Declension::Locative => stem + r.loc_sg_ending,
            },
        }
    }
}

/// A final "і" after "і" (stressed or not) is spelled "ї".
pub open spec fn fix_double_i(s: Seq<char>) -> Seq<char> {
    if seq_ends_with(s, "іі"@) || seq_ends_with(s, seq!['і', STRESS_MARK, 'і']) {
        s.drop_last().push('ї')
    } else {
        s
    }
}

/// A noun declined for a case and number.
pub open spec fn spec_decline_noun(r: NounModel, decl: Declension, is_plural: bool) -> Seq<char> {
    let plural = is_plural || r.is_always_plural;
    if is_nnya_noun(r) {
        nnya_form(r, decl, plural)
    } else {
        fix_double_i(noun_form(r, decl, plural))
    }
}

fn plural_oblique_ending_str(decl: Declension, soft: bool) -> (s: &'static str)
    ensures
        decl != Declension::Nominative && decl != Declension::Accusative && decl != Declension::Genitive
            ==> s@ == plural_oblique_ending(decl, soft),
{
    match decl {
        Declension::Dative => if soft { "ям" } else { "ам" },
        Declension::Instrumental => if soft { "ями" } else { "ами" },
        _ => if soft { "ях" } else { "ах" },
    }
}

fn concat_str(a: &[char], s: &str) -> (r: Vec<char>)
    ensures
        r@ == a@ + s@,
{
    let mut r = slice_prefix(a, a.len());
    assert(a@.take(a@.len() as int) =~= a@);
    push_str(&mut r, s);
    r
}

fn concat_chars(a: &[char], b: &[char]) -> (r: Vec<char>)
    ensures
        r@ == a@ + b@,
{
    let mut r = slice_prefix(a, a.len());
    assert(a@.take(a@.len() as int) =~= a@);
    push_chars(&mut r, b);
    r
}

fn drop_last_char(a: &[char]) -> (r: Vec<char>)
    requires
        a@.len() > 0,
    ensures
        r@ == a@.drop_last(),
{
    slice_prefix(a, a.len() - 1)
}

fn nnya_form_exec(nom: &[char], decl: Declension, plural: bool) -> (r: Vec<char>)
    ensures
        forall|m: NounModel| m.nominative_sg == nom@ ==> r@ == nnya_form(m, decl, plural),
{
    proof { reveal_strlit("я"); reveal_strlit("н"); }
    let cb = if ends_with(nom, "я") { drop_last_char(nom) } else { slice_prefix(nom, nom.len()) };
    assert(nom@.take(nom@.len() as int) =~= nom@);
    let cb = cb.as_slice();
    if plural {
        match decl {
            Declension::Nominative | Declension::Accusative => slice_prefix(nom, nom.len()),
            Declension::Genitive => {
                let g = if ends_with(cb, "н") { drop_last_char(cb) } else { slice_prefix(cb, cb.len()) };
                assert(cb@.take(cb@.len() as int) =~= cb@);
                concat_str(g.as_slice(), "ь")
            },
            Declension::Dative => concat_str(cb, "ям"),
            Declension::Instrumental => concat_str(cb, "ями"),
            Declension::Locative => concat_str(cb, "ях"),
        }
    } else {
        match decl {
            Declension::Nominative | Declension::Accusative | Declension::Genitive => slice_prefix(nom, nom.len()),
            Declension::Dative => concat_str(cb, "ю"),
            Declension::Instrumental => concat_str(cb, "ям"),
            Declension::Locative => concat_str(cb, "і"),
        }
    }
}

fn noun_form_exec(rules: &NounRules, decl: Declension, plural: bool) -> (r: Vec<char>)
    ensures
        r@ == noun_form(rules@, decl, plural),
{
    proof { reveal_strlit(""); }
    let stem_v = to_chars(rules.stem.as_str());
    let stem = stem_v.as_slice();
    let soft = rules.is_soft;
    let gen_pl = to_chars(rules.gen_pl_ending.as_str());
    let gen_sg = to_chars(rules.gen_sg_ending.as_str());
    let is_oblique = decl != Declension::Nominative && decl != Declension::Accusative && decl != Declension::Genitive;
    if plural {
        if is_oblique {
            return concat_str(stem, plural_oblique_ending_str(decl, soft));
        }
        match rules.gender {
            Gender::Feminine => match decl {
                Declension::Genitive => if eq_str(gen_pl.as_slice(), "й") {
                    concat_str(stem, "й")
                } else if eq_str(gen_pl.as_slice(), "ь") {
                    concat_str(stem, "ь")
                } else {
                    concat_str(stem, "")
                },
                _ => concat_str(stem, if soft { "і" } else { "и" }),
            },
            Gender::Neuter => match decl {
                Declension::Genitive => if eq_str(gen_pl.as_slice(), "ь") {
                    concat_str(stem, "ь")
                } else {
                    concat_str(stem, "")
                },
                _ => concat_str(stem, if soft { "я" } else { "а" }),
            },
            Gender::Masculine => match decl {
                Declension::Genitive => concat_chars(stem, gen_pl.as_slice()),
                _ => concat_str(stem, if soft { "і" } else { "и" }),
            },
        }
    } else {
        match rules.gender {
            Gender::Feminine => match decl {
                Declension::Nominative => concat_str(stem, if soft { "я" } else { "а" }),
                Declension::Genitive => concat_chars(stem, gen_sg.as_slice()),
                Declension::Dative | Declension::Locative => concat_str(stem, "і"),
                Declension::Accusative => concat_str(stem, if soft { "ю" } else { "у" }),
                Declension::Instrumental => concat_str(stem, if soft { "єю" } else { "ою" }),
            },
            Gender::Neuter => match decl {
                Declension::Nominative | Declension::Accusative => concat_str(stem, if soft { "я" } else { "о" }),
                Declension::Genitive => concat_chars(stem, gen_sg.as_slice()),
                Declension::Dative => concat_str(stem, if soft { "ю" } else { "у" }),
                Declension::Instrumental => concat_str(stem, if soft { "ям" } else { "ом" }),
                Declension::Locative => concat_str(stem, "і"),
            },
            Gender::Masculine => match decl {
                Declension::Nominative | Declension::Accusative => to_chars(rules.nominative_sg.as_str()),
                Declension::Genitive => concat_chars(stem, gen_sg.as_slice()),
                Declension::Dative => concat_str(stem, if soft { "ю" } else { "у" }),
                Declension::Instrumental => concat_str(stem, if soft { "ем" } else { "ом" }),
                Declension::Locative => {
                    let loc = to_chars(rules.loc_sg_ending.as_str());
                    concat_chars(stem, loc.as_slice())
                },
            },
        }
    }
}

/// Declines a noun for a case and number by its rules; a noun that exists
/// in the plural only is always declined in the plural.
pub fn decline_noun(rules: &NounRules, decl: Declension, is_plural: bool) -> (r: String)
    requires
        declinable(rules@),
    ensures
        r@ == spec_decline_noun(rules@, decl, is_plural),
{
    let plural = is_plural || rules.is_always_plural;
    let nom = to_chars(rules.nominative_sg.as_str());
    let clean_nom = remove_stress(nom.as_slice());
    if rules.gender == Gender::Neuter && ends_with(clean_nom.as_slice(), "ння") {
        let r = nnya_form_exec(nom.as_slice(), decl, plural);
        return from_chars(r.as_slice());
    }
    let res = noun_form_exec(rules, decl, plural);
    proof { reveal_strlit("іі"); }
    let stressed_ii = vec!['і', STRESS_MARK, 'і'];
    assert(stressed_ii@ =~= seq!['і', STRESS_MARK, 'і']);
    let r = if ends_with(res.as_slice(), "іі") || ends_with_chars(res.as_slice(), stressed_ii.as_slice()) {
        let mut r = drop_last_char(res.as_slice());
        r.push('ї');
        r
    } else {
        res
    };
    from_chars(r.as_slice())
}


/// The prepositions the normaliser knows (in lower case).
pub open spec fn is_preposition_word(l: Seq<char>) -> bool {
    l == "о"@ || l == "об"@ || l == "на"@ || l == "при"@ || l == "до"@ || l == "від"@ || l == "після"@
        || l == "без"@ || l == "біля"@ || l == "понад"@ || l == "з"@ || l == "зі"@ || l == "із"@
        || l == "для"@ || l == "коло"@ || l == "поблизу"@ || l == "серед"@ || l == "навколо"@
        || l == "проти"@ || l == "у"@ || l == "в"@ || l == "за"@ || l == "через"@ || l == "про"@
        || l == "під"@ || l == "над"@ || l == "перед"@ || l == "між"@ || l == "разом"@
        || l == "назустріч"@ || l == "всупереч"@ || l == "завдяки"@ || l == "відповідно"@
}

/// The case a (lower-case) preposition governs; anything else gives the
/// nominative.
pub open spec fn declension_of(l: Seq<char>) -> Declension {
    if l == "о"@ || l == "об"@ || l == "на"@ || l == "при"@ {
        Declension::Locative
    } else if l == "до"@ || l == "від"@ || l == "після"@ || l == "без"@ || l == "біля"@ || l == "понад"@
        || l == "з"@ || l == "зі"@ || l == "із"@ || l == "для"@ || l == "коло"@ || l == "поблизу"@
        || l == "серед"@ || l == "навколо"@ || l == "проти"@ {
        Declension::Genitive
    } else if l == "у"@ || l == "в"@ || l == "за"@ || l == "через"@ || l == "про"@ || l == "під"@ {
        Declension::Accusative
    } else if l == "над"@ || l == "перед"@ || l == "між"@ || l == "разом"@ {
        Declension::Instrumental
    } else if l == "назустріч"@ || l == "всупереч"@ || l == "завдяки"@ || l == "відповідно"@ {
        Declension::Dative
    } else {
        Declension::Nominative
    }
}

fn is_preposition_chars(l: &[char]) -> (b: bool)
    ensures
        b == is_preposition_word(l@),
{
    eq_str(l, "о") || eq_str(l, "об") || eq_str(l, "на") || eq_str(l, "при") || eq_str(l, "до")
        || eq_str(l, "від") || eq_str(l, "після") || eq_str(l, "без") || eq_str(l, "біля")
        || eq_str(l, "понад") || eq_str(l, "з") || eq_str(l, "зі") || eq_str(l, "із") || eq_str(l, "для")
        || eq_str(l, "коло") || eq_str(l, "поблизу") || eq_str(l, "серед") || eq_str(l, "навколо")
        || eq_str(l, "проти") || eq_str(l, "у") || eq_str(l, "в") || eq_str(l, "за") || eq_str(l, "через")
        || eq_str(l, "про") || eq_str(l, "під") || eq_str(l, "над") || eq_str(l, "перед")
        || eq_str(l, "між") || eq_str(l, "разом") || eq_str(l, "назустріч") || eq_str(l, "всупереч")
        || eq_str(l, "завдяки") || eq_str(l, "відповідно")
}

fn declension_of_chars(l: &[char]) -> (d: Declension)
    ensures
        d == declension_of(l@),
{
    if eq_str(l, "о") || eq_str(l, "об") || eq_str(l, "на") || eq_str(l, "при") {
        Declension::Locative
    } else if eq_str(l, "до") || eq_str(l, "від") || eq_str(l, "після") || eq_str(l, "без")
        || eq_str(l, "біля") || eq_str(l, "понад") || eq_str(l, "з") || eq_str(l, "зі") || eq_str(l, "із")
        || eq_str(l, "для") || eq_str(l, "коло") || eq_str(l, "поблизу") || eq_str(l, "серед")
        || eq_str(l, "навколо") || eq_str(l, "проти") {
        Declension::Genitive
    } else if eq_str(l, "у") || eq_str(l, "в") || eq_str(l, "за") || eq_str(l, "через") || eq_str(l, "про")
        || eq_str(l, "під") {
        Declension::Accusative
    } else if eq_str(l, "над") || eq_str(l, "перед") || eq_str(l, "між") || eq_str(l, "разом") {
        Declension::Instrumental
    } else if eq_str(l, "назустріч") || eq_str(l, "всупереч") || eq_str(l, "завдяки")
        || eq_str(l, "відповідно") {
        Declension::Dative
    } else {
        Declension::Nominative
    }
}

/// Whether a word is a preposition (case-insensitively).
pub fn is_preposition_chars_any_case(word: &[char]) -> (b: bool)
    ensures
        b == is_preposition_word(str_lowercase(word@)),
{
    let l = lower(word);
    is_preposition_chars(l.as_slice())
}

/// Whether a word is a preposition (case-insensitively).
pub fn is_preposition(word: &str) -> (b: bool)
    ensures
        b == is_preposition_word(str_lowercase(word@)),
{
    let w = to_chars(word);
    is_preposition_chars_any_case(w.as_slice())
}

/// The case that an optional preposition governs (nominative without one).
pub open spec fn spec_get_declension(prep: Option<Seq<char>>) -> Declension {
    match prep {
        Some(p) => declension_of(str_lowercase(p)),
        None => Declension::Nominative,
    }
}

/// The case that an optional preposition governs (nominative without one).
pub fn get_declension_chars(prep: Option<&[char]>) -> (d: Declension)
    ensures
        d == spec_get_declension(opt_view(prep)),
{
    match prep {
        Some(p) => {
            let l = lower(p);
            declension_of_chars(l.as_slice())
        },
        None => Declension::Nominative,
    }
}

/// The case that an optional preposition governs (nominative without one).
pub fn get_declension(prep: Option<&str>) -> (d: Declension)
    ensures
        d == spec_get_declension(opt_str_view(prep)),
{
    match prep {
        Some(p) => {
            let v = to_chars(p);
            get_declension_chars(Some(v.as_slice()))
        },
        None => Declension::Nominative,
    }
}

/// The characters of an optional slice.
pub open spec fn opt_view(o: Option<&[char]>) -> Option<Seq<char>> {
    match o {
        Some(s) => Some(s@),
        None => None,
    }
}

/// The characters of an optional string slice.
pub open spec fn opt_str_view(o: Option<&str>) -> Option<Seq<char>> {
    match o {
        Some(s) => Some(s@),
        None => None,
    }
}

/// The lower-case form of an optional word.
pub open spec fn opt_lower(o: Option<Seq<char>>) -> Option<Seq<char>> {
    match o {
        Some(s) => Some(str_lowercase(s)),
        None => None,
    }
}

/// Remainder with the sign of the dividend, as Rust's `%` computes it.
pub open spec fn trunc_rem(n: int, m: int) -> int {
    if n >= 0 { n % m } else { -((-n) % m) }
}

/// Numeral words after which an abbreviation is declined.
pub open spec fn is_numeral_word(l: Seq<char>) -> bool {
    is_one_word(l) || l == "два"@ || l == "дві"@ || l == "двох"@ || l == "двом"@ || l == "двома"@
        || l == "три"@ || l == "трьох"@ || l == "трьом"@ || l == "трьома"@ || l == "чотири"@
        || l == "чотирьох"@ || l == "чотирьом"@ || l == "чотирма"@ || l == "п'ять"@ || l == "пʼять"@
        || l == "п'яти"@ || l == "пʼяти"@ || l == "п'ятьма"@ || l == "пʼятьма"@ || l == "шість"@
        || l == "шести"@ || l == "сім"@ || l == "семи"@ || l == "вісім"@ || l == "восьми"@
        || l == "дев'ять"@ || l == "девʼять"@ || l == "дев'яти"@ || l == "девʼяти"@ || l == "десять"@
        || l == "десяти"@ || l == "одинадцять"@ || l == "одинадцяти"@ || l == "дванадцять"@
        || l == "дванадцяти"@ || l == "двадцять"@ || l == "двадцяти"@ || l == "тридцять"@
        || l == "тридцяти"@ || l == "сорок"@ || l == "сорока"@ || l == "п'ятдесят"@ || l == "пʼятдесят"@
        || l == "п'ятдесяти"@ || l == "пʼятдесяти"@ || l == "шістдесят"@ || l == "шістдесяти"@
        || l == "сімдесят"@ || l == "сімдесяти"@ || l == "вісімдесят"@ || l == "вісімдесяти"@
        || l == "дев'яносто"@ || l == "девʼяносто"@ || l == "дев'яноста"@ || l == "девʼяноста"@
        || l == "сто"@ || l == "ста"@ || l == "двісті"@ || l == "двохсот"@ || l == "триста"@
        || l == "трьохсот"@ || l == "чотириста"@ || l == "чотирьохсот"@ || l == "п'ятсот"@
        || l == "пʼятсот"@ || l == "п'ятисот"@ || l == "пʼятисот"@ || l == "тисяча"@ || l == "тисячі"@
        || l == "тисяч"@ || l == "мільйон"@ || l == "мільйони"@ || l == "мільйонів"@ || l == "мільярд"@
        || l == "мільярди"@ || l == "мільярдів"@
}

/// Forms of "one" after which an abbreviation stays singular.
pub open spec fn is_one_word(l: Seq<char>) -> bool {
    l == "один"@ || l == "одна"@ || l == "одне"@ || l == "одного"@ || l == "однієї"@ || l == "одному"@
        || l == "одній"@ || l == "одним"@ || l == "однією"@
}

/// Nouns after which an abbreviation stands in the genitive.
pub open spec fn is_governing_noun(l: Seq<char>) -> bool {
    l == "рішення"@ || l == "заява"@ || l == "указ"@ || l == "постанова"@ || l == "наказ"@ || l == "лист"@
        || l == "рапорт"@ || l == "закон"@ || l == "код"@ || l == "стаття"@ || l == "вимога"@
        || l == "орган"@ || l == "центр"@ || l == "офіс"@ || l == "служба"@ || l == "рада"@
        || l == "заступник"@ || l == "начальник"@ || l == "керівник"@ || l == "працівник"@
        || l == "радник"@ || l == "директор"@ || l == "інспектор"@ || l == "прокурор"@
        || l == "президент"@ || l == "голова"@ || l == "депутат"@ || l == "секретар"@ || l == "міністр"@
        || l == "агент"@ || l == "бійці"@ || l == "сили"@ || l == "підрозділи"@ || l == "командування"@
        || l == "керівництво"@ || l == "представник"@ || l == "співробітник"@ || l == "співробітники"@
        || l == "представники"@ || l == "воїни"@ || l == "солдати"@ || l == "офіцери"@
        || l == "підрозділ"@ || l == "агентство"@ || l == "установа"@ || l == "організація"@
        || l == "комісія"@ || l == "комітет"@ || l == "фонд"@ || l == "товариство"@ || l == "гвардія"@
        || l == "сплата"@ || l == "оплата"@ || l == "результати"@
}

/// Words before "на" after which it governs the accusative.
pub open spec fn is_accusative_na_head(l: Seq<char>) -> bool {
    seq_ends_with(l, "ння"@) || seq_ends_with(l, "ня"@) || l == "скарга"@ || l == "план"@ || l == "напад"@
        || l == "вплив"@ || l == "перевірка"@ || l == "дослідження"@ || l == "відповідь"@
        || l == "посилання"@
}

/// Case and number read from the ending of the preceding word.
pub open spec fn declension_by_ending(l: Seq<char>) -> (Declension, bool) {
    if l.len() == 0 {
        (Declension::Nominative, false)
    } else if seq_ends_with(l, "ого"@) {
        (Declension::Genitive, false)
    } else if seq_ends_with(l, "ої"@) || seq_ends_with(l, "оі"@) {
        (Declension::Genitive, false)
    } else if seq_ends_with(l, "ому"@) {
        (Declension::Dative, false)
    } else if seq_ends_with(l, "ій"@) || seq_ends_with(l, "іі"@) {
        (Declension::Locative, false)
    } else if seq_ends_with(l, "им"@) {
        (Declension::Instrumental, false)
    } else if seq_ends_with(l, "ою"@) || seq_ends_with(l, "ею"@) || seq_ends_with(l, "єю"@) {
        (Declension::Instrumental, false)
    } else if seq_ends_with(l, "их"@) {
        (Declension::Genitive, true)
    } else if seq_ends_with(l, "ими"@) {
        (Declension::Instrumental, true)
    } else {
        (Declension::Nominative, false)
    }
}

/// Case and number after a number written in digits, by its last digits
/// and an optional preposition before it.
pub open spec fn declension_after_number(num: int, prep: Option<Seq<char>>) -> (Declension, bool) {
    let decl = spec_get_declension(prep);
    let last_digit = trunc_rem(num, 10);
    let last_two = trunc_rem(num, 100);
    if 11 <= last_two && last_two <= 19 {
        (if prep is Some { decl } else { Declension::Genitive }, true)
    } else if last_digit == 1 {
        (decl, false)
    } else if 2 <= last_digit && last_digit <= 4 {
        (if prep is Some { decl } else { Declension::Nominative }, true)
    } else {
        (if prep is Some { decl } else { Declension::Genitive }, true)
    }
}

/// Case and number of an abbreviation deduced from the word before it and
/// the word before that.
pub open spec fn spec_deduce(prev: Option<Seq<char>>, before_prev: Option<Seq<char>>) -> (Declension, bool) {
    let pl = match prev {
        Some(p) => str_lowercase(p),
        None => Seq::empty(),
    };
    let prep = opt_lower(before_prev);
    if spec_parse_i64(pl) is Some {
        declension_after_number(spec_parse_i64(pl).unwrap(), prep)
    } else if is_numeral_word(pl) {
        (if prep is Some { spec_get_declension(prep) } else { Declension::Genitive }, !is_one_word(pl))
    } else if is_preposition_word(str_lowercase(pl)) {
        let d = spec_get_declension(Some(pl));
        if pl == "на"@ && prep is Some && is_accusative_na_head(prep.unwrap()) {
            (Declension::Accusative, false)
        } else {
            (d, false)
        }
    } else if is_governing_noun(pl) || seq_ends_with(pl, "ння"@) || seq_ends_with(pl, "ство"@)
        || seq_ends_with(pl, "ник"@) {
        (Declension::Genitive, false)
    } else {
        declension_by_ending(pl)
    }
}

fn is_one_word_exec(l: &[char]) -> (b: bool)
    ensures
        b == is_one_word(l@),
{
    eq_str(l, "один") || eq_str(l, "одна") || eq_str(l, "одне") || eq_str(l, "одного") || eq_str(l, "однієї") || eq_str(l, "одному")
        || eq_str(l, "одній") || eq_str(l, "одним") || eq_str(l, "однією")
}
fn is_numeral_word_exec(l: &[char]) -> (b: bool)
    ensures
        b == is_numeral_word(l@),
{
    is_one_word_exec(l) || eq_str(l, "два") || eq_str(l, "дві") || eq_str(l, "двох") || eq_str(l, "двом") || eq_str(l, "двома")
        || eq_str(l, "три") || eq_str(l, "трьох") || eq_str(l, "трьом") || eq_str(l, "трьома") || eq_str(l, "чотири")
        || eq_str(l, "чотирьох") || eq_str(l, "чотирьом") || eq_str(l, "чотирма") || eq_str(l, "п'ять") || eq_str(l, "пʼять")
        || eq_str(l, "п'яти") || eq_str(l, "пʼяти") || eq_str(l, "п'ятьма") || eq_str(l, "пʼятьма") || eq_str(l, "шість")
        || eq_str(l, "шести") || eq_str(l, "сім") || eq_str(l, "семи") || eq_str(l, "вісім") || eq_str(l, "восьми")
        || eq_str(l, "дев'ять") || eq_str(l, "девʼять") || eq_str(l, "дев'яти") || eq_str(l, "девʼяти") || eq_str(l, "десять")
        || eq_str(l, "десяти") || eq_str(l, "одинадцять") || eq_str(l, "одинадцяти") || eq_str(l, "дванадцять")
        || eq_str(l, "дванадцяти") || eq_str(l, "двадцять") || eq_str(l, "двадцяти") || eq_str(l, "тридцять")
        || eq_str(l, "тридцяти") || eq_str(l, "сорок") || eq_str(l, "сорока") || eq_str(l, "п'ятдесят") || eq_str(l, "пʼятдесят")
        || eq_str(l, "п'ятдесяти") || eq_str(l, "пʼятдесяти") || eq_str(l, "шістдесят") || eq_str(l, "шістдесяти")
        || eq_str(l, "сімдесят") || eq_str(l, "сімдесяти") || eq_str(l, "вісімдесят") || eq_str(l, "вісімдесяти")
        || eq_str(l, "дев'яносто") || eq_str(l, "девʼяносто") || eq_str(l, "дев'яноста") || eq_str(l, "девʼяноста")
        || eq_str(l, "сто") || eq_str(l, "ста") || eq_str(l, "двісті") || eq_str(l, "двохсот") || eq_str(l, "триста")
        || eq_str(l, "трьохсот") || eq_str(l, "чотириста") || eq_str(l, "чотирьохсот") || eq_str(l, "п'ятсот")
        || eq_str(l, "пʼятсот") || eq_str(l, "п'ятисот") || eq_str(l, "пʼятисот") || eq_str(l, "тисяча") || eq_str(l, "тисячі")
        || eq_str(l, "тисяч") || eq_str(l, "мільйон") || eq_str(l, "мільйони") || eq_str(l, "мільйонів") || eq_str(l, "мільярд")
        || eq_str(l, "мільярди") || eq_str(l, "мільярдів")
}
fn is_governing_noun_exec(l: &[char]) -> (b: bool)
    ensures
        b == is_governing_noun(l@),
{
    eq_str(l, "рішення") || eq_str(l, "заява") || eq_str(l, "указ") || eq_str(l, "постанова") || eq_str(l, "наказ") || eq_str(l, "лист")
        || eq_str(l, "рапорт") || eq_str(l, "закон") || eq_str(l, "код") || eq_str(l, "стаття") || eq_str(l, "вимога")
        || eq_str(l, "орган") || eq_str(l, "центр") || eq_str(l, "офіс") || eq_str(l, "служба") || eq_str(l, "рада")
        || eq_str(l, "заступник") || eq_str(l, "начальник") || eq_str(l, "керівник") || eq_str(l, "працівник")
        || eq_str(l, "радник") || eq_str(l, "директор") || eq_str(l, "інспектор") || eq_str(l, "прокурор")
        || eq_str(l, "президент") || eq_str(l, "голова") || eq_str(l, "депутат") || eq_str(l, "секретар") || eq_str(l, "міністр")
        || eq_str(l, "агент") || eq_str(l, "бійці") || eq_str(l, "сили") || eq_str(l, "підрозділи") || eq_str(l, "командування")
        || eq_str(l, "керівництво") || eq_str(l, "представник") || eq_str(l, "співробітник") || eq_str(l, "співробітники")
        || eq_str(l, "представники") || eq_str(l, "воїни") || eq_str(l, "солдати") || eq_str(l, "офіцери")
        || eq_str(l, "підрозділ") || eq_str(l, "агентство") || eq_str(l, "установа") || eq_str(l, "організація")
        || eq_str(l, "комісія") || eq_str(l, "комітет") || eq_str(l, "фонд") || eq_str(l, "товариство") || eq_str(l, "гвардія")
        || eq_str(l, "сплата") || eq_str(l, "оплата") || eq_str(l, "результати")
}
fn is_accusative_na_head_exec(l: &[char]) -> (b: bool)
    ensures
        b == is_accusative_na_head(l@),
{
    ends_with(l, "ння") || ends_with(l, "ня") || eq_str(l, "скарга") || eq_str(l, "план") || eq_str(l, "напад")
        || eq_str(l, "вплив") || eq_str(l, "перевірка") || eq_str(l, "дослідження") || eq_str(l, "відповідь")
        || eq_str(l, "посилання")
}

fn declension_by_ending_exec(l: &[char]) -> (r: (Declension, bool))
    ensures
        r == declension_by_ending(l@),
{
    if l.len() == 0 {
        (Declension::Nominative, false)
    } else if ends_with(l, "ого") {
        (Declension::Genitive, false)
    } else if ends_with(l, "ої") || ends_with(l, "оі") {
        (Declension::Genitive, false)
    } else if ends_with(l, "ому") {
        (Declension::Dative, false)
    } else if ends_with(l, "ій") || ends_with(l, "іі") {
        (Declension::Locative, false)
    } else if ends_with(l, "им") {
        (Declension::Instrumental, false)
    } else if ends_with(l, "ою") || ends_with(l, "ею") || ends_with(l, "єю") {
        (Declension::Instrumental, false)
    } else if ends_with(l, "их") {
        (Declension::Genitive, true)
    } else if ends_with(l, "ими") {
        (Declension::Instrumental, true)
    } else {
        (Declension::Nominative, false)
    }
}

fn declension_after_number_exec(num: i64, prep: Option<&[char]>) -> (r: (Declension, bool))
    ensures
        r == declension_after_number(num as int, opt_view(prep)),
{
    let decl = get_declension_chars(prep);
    let n = num as i128;
    let last_digit: i128 = if n >= 0 { n % 10 } else { -((-n) % 10) };
    let last_two: i128 = if n >= 0 { n % 100 } else { -((-n) % 100) };
    if last_two >= 11 && last_two <= 19 {
        (if prep.is_some() { decl } else { Declension::Genitive }, true)
    } else if last_digit == 1 {
        (decl, false)
    } else if last_digit >= 2 && last_digit <= 4 {
        (if prep.is_some() { decl } else { Declension::Nominative }, true)
    } else {
        (if prep.is_some() { decl } else { Declension::Genitive }, true)
    }
}

/// Case and number of an abbreviation deduced from the word before it and
/// the word before that.
pub fn deduce_declension_and_number_chars(prev_word: Option<&[char]>, before_prev: Option<&[char]>) -> (r: (Declension, bool))
    ensures
        r == spec_deduce(opt_view(prev_word), opt_view(before_prev)),
{
    let pl = match prev_word {
        Some(p) => lower(p),
        None => Vec::new(),
    };
    let pl = pl.as_slice();
    let bpl_v = match before_prev {
        Some(b) => Some(lower(b)),
        None => None,
    };
    let prep: Option<&[char]> = match &bpl_v {
        Some(v) => Some(v.as_slice()),
        None => None,
    };
    assert(opt_view(prep) == opt_lower(opt_view(before_prev)));
    if let Some(num) = parse_i64(pl) {
        return declension_after_number_exec(num, prep);
    }
    if is_numeral_word_exec(pl) {
        let decl = if prep.is_some() { get_declension_chars(prep) } else { Declension::Genitive };
        return (decl, !is_one_word_exec(pl));
    }
    if is_preposition_chars_any_case(pl) {
        let d = get_declension_chars(Some(pl));
        if eq_str(pl, "на") {
            if let Some(bp) = prep {
                if is_accusative_na_head_exec(bp) {
                    return (Declension::Accusative, false);
                }
            }
        }
        return (d, false);
    }
    if is_governing_noun_exec(pl) || ends_with(pl, "ння") || ends_with(pl, "ство") || ends_with(pl, "ник") {
        return (Declension::Genitive, false);
    }
    declension_by_ending_exec(pl)
}

/// Case and number of an abbreviation deduced from the word before it and
/// the word before that.
pub fn deduce_declension_and_number(prev_word: Option<&str>, before_prev: Option<&str>) -> (r: (Declension, bool))
    ensures
        r == spec_deduce(opt_str_view(prev_word), opt_str_view(before_prev)),
{
    let pv = match prev_word {
        Some(p) => Some(to_chars(p)),
        None => None,
    };
    let bv = match before_prev {
        Some(b) => Some(to_chars(b)),
        None => None,
    };
    let p: Option<&[char]> = match &pv {
        Some(v) => Some(v.as_slice()),
        None => None,
    };
    let b: Option<&[char]> = match &bv {
        Some(v) => Some(v.as_slice()),
        None => None,
    };
    deduce_declension_and_number_chars(p, b)
}

/// The name of a letter as it is spelled out (for a lower-case letter).
pub open spec fn letter_name(c: char) -> Option<Seq<char>> {
    if c == 'а' {
        Some("а"@)
    } else if c == 'б' {
        Some("бе"@)
    } else if c == 'в' {
        Some("ве"@)
    } else if c == 'г' {
        Some("ге"@)
    } else if c == 'ґ' {
        Some("ґе"@)
    } else if c == 'д' {
        Some("де"@)
    } else if c == 'е' {
        Some("е"@)
    } else if c == 'є' {
        Some("є"@)
    } else if c == 'ж' {
        Some("же"@)
    } else if c == 'з' {
        Some("зе"@)
    } else if c == 'и' {
        Some("и"@)
    } else if c == 'і' {
        Some("і"@)
    } else if c == 'ї' {
        Some("ї"@)
    } else if c == 'й' {
        Some("йот"@)
    } else if c == 'к' {
        Some("ка"@)
    } else if c == 'л' {
        Some("ел"@)
    } else if c == 'м' {
        Some("ем"@)
    } else if c == 'н' {
        Some("ен"@)
    } else if c == 'о' {
        Some("о"@)
    } else if c == 'п' {
        Some("пе"@)
    } else if c == 'р' {
        Some("ер"@)
    } else if c == 'с' {
        Some("ес"@)
    } else if c == 'т' {
        Some("те"@)
    } else if c == 'у' {
        Some("у"@)
    } else if c == 'ф' {
        Some("еф"@)
    } else if c == 'х' {
        Some("ха"@)
    } else if c == 'ц' {
        Some("це"@)
    } else if c == 'ч' {
        Some("че"@)
    } else if c == 'ш' {
        Some("ша"@)
    } else if c == 'щ' {
        Some("ща"@)
    } else if c == 'ь' {
        Some("м'який знак"@)
    } else if c == 'ю' {
        Some("ю"@)
    } else if c == 'я' {
        Some("я"@)
    } else if c == 'ъ' {
        Some("твердий знак"@)
    } else if c == 'a' {
        Some("ей"@)
    } else if c == 'b' {
        Some("бі"@)
    } else if c == 'c' {
        Some("сі"@)
    } else if c == 'd' {
        Some("ді"@)
    } else if c == 'e' {
        Some("і"@)
    } else if c == 'f' {
        Some("еф"@)
    } else if c == 'g' {
        Some("джі"@)
    } else if c == 'h' {
        Some("ейч"@)
    } else if c == 'i' {
        Some("ай"@)
    } else if c == 'j' {
        Some("джей"@)
    } else if c == 'k' {
        Some("кей"@)
    } else if c == 'l' {
        Some("ел"@)
    } else if c == 'm' {
        Some("ем"@)
    } else if c == 'n' {
        Some("ен"@)
    } else if c == 'o' {
        Some("оу"@)
    } else if c == 'p' {
        Some("пі"@)
    } else if c == 'q' {
        Some("к'ю"@)
    } else if c == 'r' {
        Some("ар"@)
    } else if c == 's' {
        Some("ес"@)
    } else if c == 't' {
        Some("ті"@)
    } else if c == 'u' {
        Some("ю"@)
    } else if c == 'v' {
        Some("ві"@)
    } else if c == 'w' {
        Some("дабл-ю"@)
    } else if c == 'x' {
        Some("екс"@)
    } else if c == 'y' {
        Some("вай"@)
    } else if c == 'z' {
        Some("зі"@)
    } else {
        None
    }
}

fn letter_name_exec(c: char) -> (r: Option<&'static str>)
    ensures
        match r {
            Some(s) => letter_name(c) == Some(s@),
            None => letter_name(c) is None,
        },
{
    match c {
        'а' => Some("а"),
        'б' => Some("бе"),
        'в' => Some("ве"),
        'г' => Some("ге"),
        'ґ' => Some("ґе"),
        'д' => Some("де"),
        'е' => Some("е"),
        'є' => Some("є"),
        'ж' => Some("же"),
        'з' => Some("зе"),
        'и' => Some("и"),
        'і' => Some("і"),
        'ї' => Some("ї"),
        'й' => Some("йот"),
        'к' => Some("ка"),
        'л' => Some("ел"),
        'м' => Some("ем"),
        'н' => Some("ен"),
        'о' => Some("о"),
        'п' => Some("пе"),
        'р' => Some("ер"),
        'с' => Some("ес"),
        'т' => Some("те"),
        'у' => Some("у"),
        'ф' => Some("еф"),
        'х' => Some("ха"),
        'ц' => Some("це"),
        'ч' => Some("че"),
        'ш' => Some("ша"),
        'щ' => Some("ща"),
        'ь' => Some("м'який знак"),
        'ю' => Some("ю"),
        'я' => Some("я"),
        'ъ' => Some("твердий знак"),
        'a' => Some("ей"),
        'b' => Some("бі"),
        'c' => Some("сі"),
        'd' => Some("ді"),
        'e' => Some("і"),
        'f' => Some("еф"),
        'g' => Some("джі"),
        'h' => Some("ейч"),
        'i' => Some("ай"),
        'j' => Some("джей"),
        'k' => Some("кей"),
        'l' => Some("ел"),
        'm' => Some("ем"),
        'n' => Some("ен"),
        'o' => Some("оу"),
        'p' => Some("пі"),
        'q' => Some("к'ю"),
        'r' => Some("ар"),
        's' => Some("ес"),
        't' => Some("ті"),
        'u' => Some("ю"),
        'v' => Some("ві"),
        'w' => Some("дабл-ю"),
        'x' => Some("екс"),
        'y' => Some("вай"),
        'z' => Some("зі"),
        _ => None,
    }
}

proof fn lemma_declinable(w: Seq<char>, g: Gender, p: bool)
    requires
        g != Gender::Neuter || stress_end_ok(w),
    ensures
        declinable(spec_noun_rules(w, g, p)),
{
    let r = spec_noun_rules(w, g, p);
    assert(r.nominative_sg == w && r.gender == g);
    if seq_ends_with(w, seq![STRESS_MARK]) {
        assert(w.subrange(w.len() - 1, w.len() as int)[0] == w.last());
        if g == Gender::Neuter {
            let d = w.drop_last();
            assert(d.last() == w[w.len() - 2]);
            assert(strip_stress(w) == strip_stress(d));
            assert(strip_stress(d) == strip_stress(d.drop_last()).push(d.last()));
            let x = strip_stress(w);
            reveal_strlit("ння");
            if seq_ends_with(x, "ння"@) {
                assert(x.subrange(x.len() - 3, x.len() as int)[2] == x.last());
                assert(false);
            }
        }
    }
}

/// The first noun among the words of an expansion.
pub open spec fn first_noun(ws: Seq<WordModel>) -> Option<WordModel>
    decreases ws.len(),
{
    if ws.len() == 0 {
        None
    } else if ws[0].role == WordRole::Noun {
        Some(ws[0])
    } else {
        first_noun(ws.skip(1))
    }
}

/// A word of an expansion in the case and number asked for: adjectives
/// agree with the main noun's gender and number.
pub open spec fn expand_word(w: WordModel, decl: Declension, is_plural: bool, noun_gender: Gender, noun_plural: bool) -> Seq<char> {
    match w.role {
        WordRole::Static => w.text,
        WordRole::Adj => spec_decline_adjective(w.text, decl, noun_plural, noun_gender),
        WordRole::Noun => spec_decline_noun(spec_noun_rules(w.text, w.gender, w.is_always_plural), decl, is_plural),
    }
}

/// The expansion of a known abbreviation in the case and number deduced
/// from the words before it; an unknown abbreviation is left as it is.
pub open spec fn spec_expand_abbr_contextual(abbr: Seq<char>, prev: Option<Seq<char>>, before_prev: Option<Seq<char>>) -> Seq<char> {
    match abbr_entry(str_lowercase(abbr)) {
        None => abbr,
        Some(m) => {
            let (decl, plural) = spec_deduce(prev, before_prev);
            let (g, np) = match first_noun(m.words) {
                Some(n) => (n.gender, plural || n.is_always_plural),
                None => (Gender::Masculine, plural),
            };
            join_words(m.words.map_values(|w: WordModel| expand_word(w, decl, plural, g, np)), " "@)
        },
    }
}

proof fn lemma_first_noun(ws: Seq<WordModel>, i: int)
    requires
        0 <= i <= ws.len(),
        forall|j: int| 0 <= j < i ==> ws[j].role != WordRole::Noun,
    ensures
        first_noun(ws) == first_noun(ws.skip(i)),
    decreases i,
{
    if i > 0 {
        assert(ws[0].role != WordRole::Noun);
        assert(ws.skip(1).skip(i - 1) =~= ws.skip(i));
        assert forall|j: int| 0 <= j < i - 1 implies ws.skip(1)[j].role != WordRole::Noun by {
            assert(ws.skip(1)[j] == ws[j + 1]);
        }
        lemma_first_noun(ws.skip(1), i - 1);
    } else {
        assert(ws.skip(0) =~= ws);
    }
}

/// Expands a known abbreviation in the case and number deduced from the
/// words before it; an unknown abbreviation is returned as it is.
pub fn expand_abbr_contextual_chars(abbr: &[char], prev_word: Option<&[char]>, before_prev: Option<&[char]>) -> (r: Vec<char>)
    ensures
        r@ == spec_expand_abbr_contextual(abbr@, opt_view(prev_word), opt_view(before_prev)),
{
    let l = lower(abbr);
    let spec = match lookup_abbr(l.as_slice()) {
        Some(s) => s,
        None => {
            return slice_prefix(abbr, abbr.len());
        },
    };
    let ghost m = spec@;
    proof { lemma_abbr_nouns(str_lowercase(abbr@)); }
    let (decl, is_plural) = deduce_declension_and_number_chars(prev_word, before_prev);
    let n = spec.words.len();
    let mut k: usize = 0;
    while k < n && spec.words[k].role != WordRole::Noun
        invariant
            n == spec.words@.len(),
            k <= n,
            m == spec@,
            forall|j: int| 0 <= j < k ==> m.words[j].role != WordRole::Noun,
        decreases n - k,
    {
        k = k + 1;
    }
    proof { lemma_first_noun(m.words, k as int); }
    let (noun_gender, noun_plural) = if k < n {
        (spec.words[k].gender, is_plural || spec.words[k].is_always_plural)
    } else {
        (Gender::Masculine, is_plural)
    };
    assert(first_noun(m.words) == if k < n { Some(m.words[k as int]) } else { None::<WordModel> });
    let ghost expected = m.words.map_values(|w: WordModel| expand_word(w, decl, is_plural, noun_gender, noun_plural));
    let mut out: Vec<Vec<char>> = Vec::new();
    let mut i: usize = 0;
    while i < n
        invariant
            n == spec.words@.len(),
            i <= n,
            m == spec@,
            neuter_nouns_unstressed_at_end(m),
            expected == m.words.map_values(|w: WordModel| expand_word(w, decl, is_plural, noun_gender, noun_plural)),
            views_of(out@) =~= expected.take(i as int),
        decreases n - i,
    {
        let w = &spec.words[i];
        assert(m.words[i as int] == w@);
        let t = to_chars(w.text);
        let word = match w.role {
            WordRole::Static => t,
            WordRole::Adj => decline_adjective_chars(t.as_slice(), decl, noun_plural, noun_gender),
            WordRole::Noun => {
                let rules = noun_rules_chars(t.as_slice(), w.gender, w.is_always_plural);
                proof { lemma_declinable(w.text@, w.gender, w.is_always_plural); }
                let s = decline_noun(&rules, decl, is_plural);
                to_chars(s.as_str())
            },
        };
        assert(word@ == expected[i as int]);
        let ghost before = out@;
        out.push(word);
        assert(views_of(out@) =~= views_of(before).push(word@));
        assert(expected.take(i + 1) =~= expected.take(i as int).push(expected[i as int]));
        i = i + 1;
    }
    assert(expected.take(n as int) =~= expected);
    join_chars(&out, " ")
}

/// Expands a known abbreviation in the case and number deduced from the
/// words before it; an unknown abbreviation is returned as it is.
pub fn expand_abbr_contextual(abbr: &str, prev_word: Option<&str>, before_prev: Option<&str>) -> (r: String)
    ensures
        r@ == spec_expand_abbr_contextual(abbr@, opt_str_view(prev_word), opt_str_view(before_prev)),
{
    let a = to_chars(abbr);
    let pv = match prev_word {
        Some(p) => Some(to_chars(p)),
        None => None,
    };
    let bv = match before_prev {
        Some(b) => Some(to_chars(b)),
        None => None,
    };
    let p: Option<&[char]> = match &pv {
        Some(v) => Some(v.as_slice()),
        None => None,
    };
    let b: Option<&[char]> = match &bv {
        Some(v) => Some(v.as_slice()),
        None => None,
    };
    let r = expand_abbr_contextual_chars(a.as_slice(), p, b);
    from_chars(r.as_slice())
}

/// Unit abbreviations after which a numeral agrees with a masculine noun.
pub open spec fn is_unit_context_word(l: Seq<char>) -> bool {
    l == "кг"@ || l == "kg"@ || l == "г"@ || l == "g"@ || l == "м"@ || l == "m"@ || l == "см"@ || l == "cm"@
        || l == "мм"@ || l == "mm"@ || l == "км"@ || l == "km"@ || l == "л"@ || l == "l"@ || l == "мл"@
        || l == "ml"@ || l == "v"@ || l == "w"@ || l == "a"@ || l == "hz"@ || l == "°"@ || l == "°c"@
        || l == "°f"@ || l == "°k"@ || l == "%"@ || l == "вт"@ || l == "вт-год"@ || l == "квт"@
        || l == "квт-год"@ || l == "гц"@ || l == "кгц"@ || l == "мгц"@ || l == "ом"@ || l == "ком"@
}

/// The noun whose class a numeral before `w` agrees with: a known
/// abbreviation's class, or "поверхів" for a unit abbreviation.
pub open spec fn spec_context_noun(w: Seq<char>) -> Option<Seq<char>> {
    let l = str_lowercase(w);
    match abbr_entry(l) {
        Some(m) => Some(m.gender_class),
        None => if is_unit_context_word(l) { Some("поверхів"@) } else { None },
    }
}

fn is_unit_context_word_exec(l: &[char]) -> (b: bool)
    ensures
        b == is_unit_context_word(l@),
{
    eq_str(l, "кг") || eq_str(l, "kg") || eq_str(l, "г") || eq_str(l, "g") || eq_str(l, "м")
        || eq_str(l, "m") || eq_str(l, "см") || eq_str(l, "cm") || eq_str(l, "мм") || eq_str(l, "mm")
        || eq_str(l, "км") || eq_str(l, "km") || eq_str(l, "л") || eq_str(l, "l") || eq_str(l, "мл")
        || eq_str(l, "ml") || eq_str(l, "v") || eq_str(l, "w") || eq_str(l, "a") || eq_str(l, "hz")
        || eq_str(l, "°") || eq_str(l, "°c") || eq_str(l, "°f") || eq_str(l, "°k") || eq_str(l, "%")
        || eq_str(l, "вт") || eq_str(l, "вт-год") || eq_str(l, "квт") || eq_str(l, "квт-год")
        || eq_str(l, "гц") || eq_str(l, "кгц") || eq_str(l, "мгц") || eq_str(l, "ом") || eq_str(l, "ком")
}

/// The noun class a numeral before `next_word` agrees with, if any.
pub fn get_context_noun_chars(next_word: &[char]) -> (r: Option<&'static str>)
    ensures
        match r {
            Some(s) => spec_context_noun(next_word@) == Some(s@),
            None => spec_context_noun(next_word@) is None,
        },
{
    let l = lower(next_word);
    if let Some(spec) = lookup_abbr(l.as_slice()) {
        return Some(spec.gender_class);
    }
    if is_unit_context_word_exec(l.as_slice()) {
        Some("поверхів")
    } else {
        None
    }
}

/// The noun class a numeral before `next_word` agrees with, if any.
pub fn get_context_noun(next_word: &str) -> (r: Option<&'static str>)
    ensures
        match r {
            Some(s) => spec_context_noun(next_word@) == Some(s@),
            None => spec_context_noun(next_word@) is None,
        },
{
    let w = to_chars(next_word);
    get_context_noun_chars(w.as_slice())
}

/// The longest prefix of `l`, no longer than `end`, that is a known unit,
/// with its length and the unit's name.
pub open spec fn longest_unit_prefix(l: Seq<char>, end: nat) -> Option<(nat, Seq<char>)>
    decreases end,
{
    if end == 0 {
        None
    } else if unit_name(l.take(end as int)) is Some {
        Some((end, unit_name(l.take(end as int)).unwrap()))
    } else {
        longest_unit_prefix(l, (end - 1) as nat)
    }
}

/// The longest known unit that the lower-cased text starts with: its length
/// in characters and its name.
pub open spec fn spec_find_unit(text: Seq<char>) -> Option<(nat, Seq<char>)> {
    let l = str_lowercase(text);
    longest_unit_prefix(l, l.len())
}

/// Finds the longest known unit that the lower-cased text starts with:
/// its length in characters and its name.
pub fn find_unit_chars(text: &[char]) -> (r: Option<(usize, &'static str)>)
    ensures
        match r {
            Some((end, name)) => spec_find_unit(text@) == Some((end as nat, name@)),
            None => spec_find_unit(text@) is None,
        },
{
    let l = lower(text);
    let mut end: usize = l.len();
    while end > 0
        invariant
            end <= l@.len(),
            l@ == str_lowercase(text@),
            longest_unit_prefix(l@, l@.len()) == longest_unit_prefix(l@, end as nat),
        decreases end,
    {
        let candidate = slice_prefix(l.as_slice(), end);
        if let Some(name) = lookup_unit(candidate.as_slice()) {
            return Some((end, name));
        }
        end = end - 1;
    }
    None
}

/// Finds the longest known unit that the lower-cased text starts with:
/// its length in characters and its name.
pub fn find_unit(text: &str) -> (r: Option<(usize, &'static str)>)
    ensures
        match r {
            Some((end, name)) => spec_find_unit(text@) == Some((end as nat, name@)),
            None => spec_find_unit(text@) is None,
        },
{
    let t = to_chars(text);
    find_unit_chars(t.as_slice())
}

/// Whether a word is written in capitals only and is two to five
/// characters long.
pub open spec fn spec_is_abbreviation(w: Seq<char>) -> bool {
    2 <= w.len() && w.len() <= 5 && forall|i: int| 0 <= i < w.len() ==> char_is_uppercase(#[trigger] w[i])
}

/// Whether a word is written in capitals only and is two to five
/// characters long.
pub fn is_abbreviation_chars(w: &[char]) -> (b: bool)
    ensures
        b == spec_is_abbreviation(w@),
{
    let n = w.len();
    if n < 2 {
        return false;
    }
    let mut i: usize = 0;
    while i < n
        invariant
            n == w@.len(),
            i <= n,
            forall|j: int| 0 <= j < i ==> char_is_uppercase(#[trigger] w@[j]),
        decreases n - i,
    {
        if !is_uppercase(w[i]) {
            return false;
        }
        i = i + 1;
    }
    n <= 5
}

/// Whether a word is written in capitals only and is two to five
/// characters long.
pub fn is_abbreviation(word: &str) -> (b: bool)
    ensures
        b == spec_is_abbreviation(word@),
{
    let w = to_chars(word);
    is_abbreviation_chars(w.as_slice())
}

/// How a character is spelled out: the name of its lower-case letter, or
/// the character itself.
pub open spec fn spelled_char(c: char) -> Seq<char> {
    match letter_name(char_lower_first(c)) {
        Some(n) => n,
        None => seq![c],
    }
}

/// A word spelled out letter by letter, the names separated by spaces.
pub open spec fn spec_expand_abbreviation(w: Seq<char>) -> Seq<char> {
    join_words(w.map_values(|c: char| spelled_char(c)), " "@)
}

/// Spells a word out letter by letter, the names separated by spaces.
pub fn expand_abbreviation_chars(w: &[char]) -> (r: Vec<char>)
    ensures
        r@ == spec_expand_abbreviation(w@),
{
    let ghost expected = w@.map_values(|c: char| spelled_char(c));
    let mut parts: Vec<Vec<char>> = Vec::new();
    let mut i: usize = 0;
    while i < w.len()
        invariant
            i <= w@.len(),
            expected == w@.map_values(|c: char| spelled_char(c)),
            views_of(parts@) =~= expected.take(i as int),
        decreases w.len() - i,
    {
        let c = w[i];
        let part = match letter_name_exec(lower_first(c)) {
            Some(n) => to_chars(n),
            None => {
                let v = vec![c];
                assert(v@ =~= seq![c]);
                v
            },
        };
        assert(part@ == expected[i as int]);
        let ghost before = parts@;
        parts.push(part);
        assert(views_of(parts@) =~= views_of(before).push(part@));
        assert(expected.take(i + 1) =~= expected.take(i as int).push(expected[i as int]));
        i = i + 1;
    }
    assert(expected.take(w@.len() as int) =~= expected);
    join_chars(&parts, " ")
}

/// Spells a word out letter by letter, the names separated by spaces.
pub fn expand_abbreviation(word: &str) -> (r: String)
    ensures
        r@ == spec_expand_abbreviation(word@),
{
    let w = to_chars(word);
    let r = expand_abbreviation_chars(w.as_slice());
    from_chars(r.as_slice())
}

/// Numeral forms after which a unit stands in the genitive.
pub open spec fn is_genitive_numeral(l: Seq<char>) -> bool {
    l == "одного"@
        || l == "однієї"@
        || l == "двох"@
        || l == "трьох"@
        || l == "чотирьох"@
        || l == "п'яти"@
        || l == "пʼяти"@
        || l == "шести"@
        || l == "семи"@
        || l == "восьми"@
        || l == "дев'яти"@
        || l == "девʼяти"@
        || l == "десяти"@
        || l == "одинадцяти"@
        || l == "дванадцяти"@
        || l == "двадцяти"@
        || l == "тридцяти"@
        || l == "сорока"@
        || l == "п'ятдесяти"@
        || l == "пʼятдесяти"@
        || l == "шістдесяти"@
        || l == "сімдесяти"@
        || l == "вісімдесяти"@
        || l == "дев'яноста"@
        || l == "девʼяноста"@
        || l == "ста"@
        || l == "двохсот"@
        || l == "трьохсот"@
        || l == "чотирьохсот"@
        || l == "п'ятисот"@
        || l == "пʼятисот"@
        || l == "тисячі"@
        || l == "тисяч"@
        || l == "мільйонів"@
        || l == "мільярдів"@
}

fn is_genitive_numeral_exec(l: &[char]) -> (b: bool)
    ensures
        b == is_genitive_numeral(l@),
{
    eq_str(l, "одного")
        || eq_str(l, "однієї")
        || eq_str(l, "двох")
        || eq_str(l, "трьох")
        || eq_str(l, "чотирьох")
        || eq_str(l, "п'яти")
        || eq_str(l, "пʼяти")
        || eq_str(l, "шести")
        || eq_str(l, "семи")
        || eq_str(l, "восьми")
        || eq_str(l, "дев'яти")
        || eq_str(l, "девʼяти")
        || eq_str(l, "десяти")
        || eq_str(l, "одинадцяти")
        || eq_str(l, "дванадцяти")
        || eq_str(l, "двадцяти")
        || eq_str(l, "тридцяти")
        || eq_str(l, "сорока")
        || eq_str(l, "п'ятдесяти")
        || eq_str(l, "пʼятдесяти")
        || eq_str(l, "шістдесяти")
        || eq_str(l, "сімдесяти")
        || eq_str(l, "вісімдесяти")
        || eq_str(l, "дев'яноста")
        || eq_str(l, "девʼяноста")
        || eq_str(l, "ста")
        || eq_str(l, "двохсот")
        || eq_str(l, "трьохсот")
        || eq_str(l, "чотирьохсот")
        || eq_str(l, "п'ятисот")
        || eq_str(l, "пʼятисот")
        || eq_str(l, "тисячі")
        || eq_str(l, "тисяч")
        || eq_str(l, "мільйонів")
        || eq_str(l, "мільярдів")
}

/// Numeral forms after which a unit stands in the dative.
pub open spec fn is_dative_numeral(l: Seq<char>) -> bool {
    l == "одному"@
        || l == "одній"@
        || l == "двом"@
        || l == "трьом"@
        || l == "чотирьом"@
        || l == "п'ятим"@
        || l == "пʼятим"@
}

fn is_dative_numeral_exec(l: &[char]) -> (b: bool)
    ensures
        b == is_dative_numeral(l@),
{
    eq_str(l, "одному")
        || eq_str(l, "одній")
        || eq_str(l, "двом")
        || eq_str(l, "трьом")
        || eq_str(l, "чотирьом")
        || eq_str(l, "п'ятим")
        || eq_str(l, "пʼятим")
}

/// Numeral forms after which a unit stands in the instrumental.
pub open spec fn is_instrumental_numeral(l: Seq<char>) -> bool {
    l == "одним"@
        || l == "однією"@
        || l == "двома"@
        || l == "трьома"@
        || l == "чотирма"@
}

fn is_instrumental_numeral_exec(l: &[char]) -> (b: bool)
    ensures
        b == is_instrumental_numeral(l@),
{
    eq_str(l, "одним")
        || eq_str(l, "однією")
        || eq_str(l, "двома")
        || eq_str(l, "трьома")
        || eq_str(l, "чотирма")
}

/// Forms of "one": the unit agrees in the singular.
pub open spec fn is_group_one(l: Seq<char>) -> bool {
    l == "один"@
        || l == "одна"@
        || l == "одне"@
        || l == "одного"@
        || l == "одній"@
        || l == "одному"@
        || l == "одним"@
        || l == "однією"@
}

fn is_group_one_exec(l: &[char]) -> (b: bool)
    ensures
        b == is_group_one(l@),
{
    eq_str(l, "один")
        || eq_str(l, "одна")
        || eq_str(l, "одне")
        || eq_str(l, "одного")
        || eq_str(l, "одній")
        || eq_str(l, "одному")
        || eq_str(l, "одним")
        || eq_str(l, "однією")
}

/// Forms of two to four: the unit agrees in the plural of its case.
pub open spec fn is_group_two(l: Seq<char>) -> bool {
    l == "два"@
        || l == "дві"@
        || l == "три"@
        || l == "чотири"@
        || l == "двох"@
        || l == "трьох"@
        || l == "чотирьох"@
        || l == "двом"@
        || l == "трьом"@
        || l == "чотирьом"@
        || l == "двома"@
        || l == "трьома"@
        || l == "чотирма"@
}

fn is_group_two_exec(l: &[char]) -> (b: bool)
    ensures
        b == is_group_two(l@),
{
    eq_str(l, "два")
        || eq_str(l, "дві")
        || eq_str(l, "три")
        || eq_str(l, "чотири")
        || eq_str(l, "двох")
        || eq_str(l, "трьох")
        || eq_str(l, "чотирьох")
        || eq_str(l, "двом")
        || eq_str(l, "трьом")
        || eq_str(l, "чотирьом")
        || eq_str(l, "двома")
        || eq_str(l, "трьома")
        || eq_str(l, "чотирма")
}

/// The genitive plural ending of a unit whose name declines like a noun.
pub open spec fn unit_gen_pl(u: Seq<char>) -> Option<Seq<char>> {
    if u == "міліметр"@ {
        Some("ів"@)
    } else if u == "сантиметр"@ {
        Some("ів"@)
    } else if u == "метр"@ {
        Some("ів"@)
    } else if u == "кілометр"@ {
        Some("ів"@)
    } else if u == "грам"@ {
        Some("ів"@)
    } else if u == "кілограм"@ {
        Some("ів"@)
    } else if u == "літр"@ {
        Some("ів"@)
    } else if u == "мілілітр"@ {
        Some("ів"@)
    } else if u == "вольт"@ {
        Some(""@)
    } else if u == "мілівольт"@ {
        Some(""@)
    } else if u == "кіловольт"@ {
        Some(""@)
    } else if u == "ампер"@ {
        Some(""@)
    } else if u == "міліампер"@ {
        Some(""@)
    } else if u == "ват"@ {
        Some(""@)
    } else if u == "міліват"@ {
        Some(""@)
    } else if u == "кіловат"@ {
        Some(""@)
    } else if u == "герц"@ {
        Some(""@)
    } else if u == "паскаль"@ {
        Some("ів"@)
    } else if u == "градус"@ {
        Some("ів"@)
    } else if u == "відсоток"@ {
        Some("ів"@)
    } else {
        None
    }
}

fn unit_gen_pl_exec(u: &[char]) -> (r: Option<&'static str>)
    ensures
        match r {
            Some(s) => unit_gen_pl(u@) == Some(s@),
            None => unit_gen_pl(u@) is None,
        },
{
    if eq_str(u, "міліметр") {
        Some("ів")
    } else if eq_str(u, "сантиметр") {
        Some("ів")
    } else if eq_str(u, "метр") {
        Some("ів")
    } else if eq_str(u, "кілометр") {
        Some("ів")
    } else if eq_str(u, "грам") {
        Some("ів")
    } else if eq_str(u, "кілограм") {
        Some("ів")
    } else if eq_str(u, "літр") {
        Some("ів")
    } else if eq_str(u, "мілілітр") {
        Some("ів")
    } else if eq_str(u, "вольт") {
        Some("")
    } else if eq_str(u, "мілівольт") {
        Some("")
    } else if eq_str(u, "кіловольт") {
        Some("")
    } else if eq_str(u, "ампер") {
        Some("")
    } else if eq_str(u, "міліампер") {
        Some("")
    } else if eq_str(u, "ват") {
        Some("")
    } else if eq_str(u, "міліват") {
        Some("")
    } else if eq_str(u, "кіловат") {
        Some("")
    } else if eq_str(u, "герц") {
        Some("")
    } else if eq_str(u, "паскаль") {
        Some("ів")
    } else if eq_str(u, "градус") {
        Some("ів")
    } else if eq_str(u, "відсоток") {
        Some("ів")
    } else {
        None
    }
}

/// Whether the last word of a numeral names a decimal fraction.
pub open spec fn is_fraction_word(l: Seq<char>) -> bool {
    seq_ends_with(l, "десятих"@) || seq_ends_with(l, "сотих"@) || seq_ends_with(l, "тисячних"@)
        || seq_ends_with(l, "мільйонних"@) || seq_ends_with(l, "десята"@) || seq_ends_with(l, "сота"@)
        || seq_ends_with(l, "тисячна"@) || seq_ends_with(l, "мільйонна"@)
}

fn is_fraction_word_exec(l: &[char]) -> (b: bool)
    ensures
        b == is_fraction_word(l@),
{
    ends_with(l, "десятих") || ends_with(l, "сотих") || ends_with(l, "тисячних") || ends_with(l, "мільйонних")
        || ends_with(l, "десята") || ends_with(l, "сота") || ends_with(l, "тисячна") || ends_with(l, "мільйонна")
}

/// The case of a unit after a numeral: the case a preposition governs, or
/// the case the numeral's last word shows.
pub open spec fn unit_declension(lw: Seq<char>, prep: Option<Seq<char>>) -> Declension {
    match prep {
        Some(p) => spec_get_declension(Some(str_lowercase(p))),
        None => if is_genitive_numeral(lw) {
            Declension::Genitive
        } else if is_dative_numeral(lw) {
            Declension::Dative
        } else if is_instrumental_numeral(lw) {
            Declension::Instrumental
        } else {
            Declension::Nominative
        },
    }
}

/// The noun that is declined for a unit, its genitive plural ending, and
/// the words that follow it unchanged.
pub open spec fn unit_noun(unit: Seq<char>) -> Option<(Seq<char>, Seq<char>, Seq<char>)> {
    if seq_starts_with(unit, "градус"@) {
        Some((
            "градус"@,
            "ів"@,
            if seq_contains_sub(unit, "цельсія"@) {
                " цельсія"@
            } else if seq_contains_sub(unit, "фаренгейта"@) {
                " фаренгейта"@
            } else {
                ""@
            },
        ))
    } else {
        match unit_gen_pl(unit) {
            Some(g) => Some((unit, g, ""@)),
            None => None,
        }
    }
}

/// The form of a unit that agrees with the numeral before it (the
/// numeral's last word decides the number) and with an optional
/// preposition; a unit that does not decline is returned as it is.
pub open spec fn spec_unit_form(last: Seq<char>, unit: Seq<char>, prep: Option<Seq<char>>) -> Seq<char> {
    let lw = last_word(strip_stress(str_lowercase(last)));
    let decl = unit_declension(lw, prep);
    match unit_noun(unit) {
        None => unit,
        Some((noun, gen_pl, suffix)) => {
            let rules = NounModel { gen_pl_ending: gen_pl, ..spec_noun_rules(noun, Gender::Masculine, false) };
            let declined = if is_fraction_word(lw) {
                spec_decline_noun(rules, Declension::Genitive, false)
            } else if is_group_one(lw) {
                spec_decline_noun(rules, decl, false)
            } else if is_group_two(lw) {
                spec_decline_noun(rules, decl, true)
            } else {
                spec_decline_noun(rules, if decl == Declension::Nominative { Declension::Genitive } else { decl }, true)
            };
            declined + suffix
        },
    }
}

/// The form of a unit that agrees with the numeral before it (the
/// numeral's last word decides the number) and with an optional
/// preposition; a unit that does not decline is returned as it is.
pub fn get_unit_form_chars(last_word_text: &[char], unit: &[char], prep: Option<&[char]>) -> (r: Vec<char>)
    ensures
        r@ == spec_unit_form(last_word_text@, unit@, opt_view(prep)),
{
    let lc = lower(last_word_text);
    let clean = remove_stress(lc.as_slice());
    let lw_v = last_word_of(clean.as_slice());
    let lw = lw_v.as_slice();
    let decl = match prep {
        Some(p) => {
            let pl = lower(p);
            get_declension_chars(Some(pl.as_slice()))
        },
        None => if is_genitive_numeral_exec(lw) {
            Declension::Genitive
        } else if is_dative_numeral_exec(lw) {
            Declension::Dative
        } else if is_instrumental_numeral_exec(lw) {
            Declension::Instrumental
        } else {
            Declension::Nominative
        },
    };
    let (noun, gen_pl, suffix): (Vec<char>, &str, &str) = if starts_with(unit, "градус") {
        let suffix = if contains_str(unit, "цельсія") {
            " цельсія"
        } else if contains_str(unit, "фаренгейта") {
            " фаренгейта"
        } else {
            ""
        };
        (to_chars("градус"), "ів", suffix)
    } else {
        match unit_gen_pl_exec(unit) {
            Some(g) => (slice_prefix(unit, unit.len()), g, ""),
            None => {
                return slice_prefix(unit, unit.len());
            },
        }
    };
    assert(unit@.take(unit@.len() as int) =~= unit@);
    let mut rules = noun_rules_chars(noun.as_slice(), Gender::Masculine, false);
    rules.gen_pl_ending = string_of(gen_pl);
    let declined = if is_fraction_word_exec(lw) {
        decline_noun(&rules, Declension::Genitive, false)
    } else if is_group_one_exec(lw) {
        decline_noun(&rules, decl, false)
    } else if is_group_two_exec(lw) {
        decline_noun(&rules, decl, true)
    } else {
        decline_noun(&rules, if decl == Declension::Nominative { Declension::Genitive } else { decl }, true)
    };
    let mut r = to_chars(declined.as_str());
    push_str(&mut r, suffix);
    r
}

/// The form of a unit that agrees with the numeral before it (the
/// numeral's last word decides the number) and with an optional
/// preposition; a unit that does not decline is returned as it is.
pub fn get_unit_form(last_word_text: &str, unit: &str, prep: Option<&str>) -> (r: String)
    ensures
        r@ == spec_unit_form(last_word_text@, unit@, opt_str_view(prep)),
{
    let l = to_chars(last_word_text);
    let u = to_chars(unit);
    let pv = match prep {
        Some(p) => Some(to_chars(p)),
        None => None,
    };
    let p: Option<&[char]> = match &pv {
        Some(v) => Some(v.as_slice()),
        None => None,
    };
    let r = get_unit_form_chars(l.as_slice(), u.as_slice(), p);
    from_chars(r.as_slice())
}


proof fn lemma_longest_unit_prefix(l: Seq<char>, end: nat)
    ensures
        match longest_unit_prefix(l, end) {
            Some((e, u)) => 0 < e <= end && unit_name(l.take(e as int)) == Some(u) && forall|k: nat|
                e < k <= end ==> #[trigger] unit_name(l.take(k as int)) is None,
            None => forall|k: nat| 0 < k <= end ==> #[trigger] unit_name(l.take(k as int)) is None,
        },
    decreases end,
{
    if end > 0 && unit_name(l.take(end as int)) is None {
        lemma_longest_unit_prefix(l, (end - 1) as nat);
    }
}

/// The unit found at the start of a text is the longest one there: its
/// length is within the lower-cased text, that prefix names the unit, and
/// no longer prefix names a unit; where none is found, no prefix names one.
pub proof fn law_find_unit_longest(text: Seq<char>)
    ensures
        ({
            let l = str_lowercase(text);
            match spec_find_unit(text) {
                Some((e, u)) => 0 < e <= l.len() && unit_name(l.take(e as int)) == Some(u) && forall|k: nat|
                    e < k <= l.len() ==> #[trigger] unit_name(l.take(k as int)) is None,
                None => forall|k: nat| 0 < k <= l.len() ==> #[trigger] unit_name(l.take(k as int)) is None,
            }
        }),
{
    let l = str_lowercase(text);
    lemma_longest_unit_prefix(l, l.len());
}


/// After a number written in digits an abbreviation stays singular exactly
/// when the number ends in 1 but not in 11, and then it takes the case of
/// the preposition before the number (the nominative without one).
pub proof fn law_singular_after_numbers_ending_in_one(n: int, prep: Option<Seq<char>>)
    ensures
        !declension_after_number(n, prep).1 <==> (trunc_rem(n, 10) == 1 && trunc_rem(n, 100) != 11),
        !declension_after_number(n, prep).1 ==> declension_after_number(n, prep).0 == spec_get_declension(prep),
{
    if n >= 0 {
        assert(n % 10 == (n % 100) % 10) by (nonlinear_arith)
            requires
                n >= 0,
        ;
    } else {
        assert((-n) % 10 == ((-n) % 100) % 10) by (nonlinear_arith)
            requires
                n < 0,
        ;
    }
}


/// A soft adjective in the feminine singular takes "ьої" in the genitive
/// and "ьою" in the instrumental after its stem ("всесві́тня" gives
/// "всесві́тньої", "всесві́тньою").
pub proof fn law_soft_feminine_adjective(w: Seq<char>)
    requires
        adjective_shape(w).1,
    ensures
        spec_decline_adjective(w, Declension::Genitive, false, Gender::Feminine) == w.take(adjective_shape(w).0 as int)
            + "ьої"@,
        spec_decline_adjective(w, Declension::Instrumental, false, Gender::Feminine) == w.take(
            adjective_shape(w).0 as int,
        ) + "ьою"@,
{
}


/// The stem that an adjective's forms share: its nominative plural without
/// the final "і".
pub open spec fn adjective_stem(w: Seq<char>) -> Seq<char> {
    spec_decline_adjective(w, Declension::Nominative, true, Gender::Masculine).drop_last()
}

/// A hard adjective (one whose dictionary form, stress marks aside, does
/// not end in "ій", "я" or "є") takes the hard endings after its stem: in
/// the plural і, их, им, і, ими, их; in the feminine а, ої, ій, у, ою, ій;
/// in the masculine ий, ого, ому, ий, им, ому; in the neuter е, ого, ому,
/// е, им, ому (nominative, genitive, dative, accusative, instrumental,
/// locative).
pub proof fn law_hard_adjective_endings(w: Seq<char>)
    requires
        !(seq_ends_with(strip_stress(w), "ій"@) || seq_ends_with(strip_stress(w), "я"@) || seq_ends_with(
            strip_stress(w),
            "є"@,
        )),
    ensures
        forall|g: Gender| spec_decline_adjective(w, Declension::Nominative, true, g) == adjective_stem(w) + "і"@,
        forall|g: Gender| spec_decline_adjective(w, Declension::Genitive, true, g) == adjective_stem(w) + "их"@,
        forall|g: Gender| spec_decline_adjective(w, Declension::Dative, true, g) == adjective_stem(w) + "им"@,
        forall|g: Gender| spec_decline_adjective(w, Declension::Accusative, true, g) == adjective_stem(w) + "і"@,
        forall|g: Gender| spec_decline_adjective(w, Declension::Instrumental, true, g) == adjective_stem(w) + "ими"@,
        forall|g: Gender| spec_decline_adjective(w, Declension::Locative, true, g) == adjective_stem(w) + "их"@,
        spec_decline_adjective(w, Declension::Nominative, false, Gender::Feminine) == adjective_stem(w) + "а"@,
        spec_decline_adjective(w, Declension::Genitive, false, Gender::Feminine) == adjective_stem(w) + "ої"@,
        spec_decline_adjective(w, Declension::Dative, false, Gender::Feminine) == adjective_stem(w) + "ій"@,
        spec_decline_adjective(w, Declension::Accusative, false, Gender::Feminine) == adjective_stem(w) + "у"@,
        spec_decline_adjective(w, Declension::Instrumental, false, Gender::Feminine) == adjective_stem(w) + "ою"@,
        spec_decline_adjective(w, Declension::Locative, false, Gender::Feminine) == adjective_stem(w) + "ій"@,
        spec_decline_adjective(w, Declension::Nominative, false, Gender::Masculine) == adjective_stem(w) + "ий"@,
        spec_decline_adjective(w, Declension::Genitive, false, Gender::Masculine) == adjective_stem(w) + "ого"@,
        spec_decline_adjective(w, Declension::Dative, false, Gender::Masculine) == adjective_stem(w) + "ому"@,
        spec_decline_adjective(w, Declension::Accusative, false, Gender::Masculine) == adjective_stem(w) + "ий"@,
        spec_decline_adjective(w, Declension::Instrumental, false, Gender::Masculine) == adjective_stem(w) + "им"@,
        spec_decline_adjective(w, Declension::Locative, false, Gender::Masculine) == adjective_stem(w) + "ому"@,
        spec_decline_adjective(w, Declension::Nominative, false, Gender::Neuter) == adjective_stem(w) + "е"@,
        spec_decline_adjective(w, Declension::Genitive, false, Gender::Neuter) == adjective_stem(w) + "ого"@,
        spec_decline_adjective(w, Declension::Dative, false, Gender::Neuter) == adjective_stem(w) + "ому"@,
        spec_decline_adjective(w, Declension::Accusative, false, Gender::Neuter) == adjective_stem(w) + "е"@,
        spec_decline_adjective(w, Declension::Instrumental, false, Gender::Neuter) == adjective_stem(w) + "им"@,
        spec_decline_adjective(w, Declension::Locative, false, Gender::Neuter) == adjective_stem(w) + "ому"@,
{
    reveal_strlit("а");
    reveal_strlit("е");
    reveal_strlit("ий");
    reveal_strlit("им");
    reveal_strlit("ими");
    reveal_strlit("их");
    reveal_strlit("ого");
    reveal_strlit("ому");
    reveal_strlit("ою");
    reveal_strlit("ої");
    reveal_strlit("у");
    reveal_strlit("ього");
    reveal_strlit("ьому");
    reveal_strlit("ьою");
    reveal_strlit("ьої");
    reveal_strlit("ю");
    reveal_strlit("я");
    reveal_strlit("є");
    reveal_strlit("і");
    reveal_strlit("ій");
    reveal_strlit("ім");
    reveal_strlit("іми");
    reveal_strlit("іх");
    let (n, s) = adjective_shape(w);
    assert(!s);
    assert((w.take(n as int) + "і"@).drop_last() =~= w.take(n as int));
}

/// A soft adjective (one whose dictionary form, stress marks aside, ends in
/// "ій", "я" or "є") takes the soft endings after its stem: in the plural
/// і, іх, ім, і, іми, іх; in the feminine я, ьої, ій, ю, ьою, ій; in the
/// masculine ій, ього, ьому, ій, им, ьому; in the neuter є, ього, ьому, є,
/// им, ьому.
pub proof fn law_soft_adjective_endings(w: Seq<char>)
    requires
        seq_ends_with(strip_stress(w), "ій"@) || seq_ends_with(strip_stress(w), "я"@) || seq_ends_with(
            strip_stress(w),
            "є"@,
        ),
    ensures
        forall|g: Gender| spec_decline_adjective(w, Declension::Nominative, true, g) == adjective_stem(w) + "і"@,
        forall|g: Gender| spec_decline_adjective(w, Declension::Genitive, true, g) == adjective_stem(w) + "іх"@,
        forall|g: Gender| spec_decline_adjective(w, Declension::Dative, true, g) == adjective_stem(w) + "ім"@,
        forall|g: Gender| spec_decline_adjective(w, Declension::Accusative, true, g) == adjective_stem(w) + "і"@,
        forall|g: Gender| spec_decline_adjective(w, Declension::Instrumental, true, g) == adjective_stem(w) + "іми"@,
        forall|g: Gender| spec_decline_adjective(w, Declension::Locative, true, g) == adjective_stem(w) + "іх"@,
        spec_decline_adjective(w, Declension::Nominative, false, Gender::Feminine) == adjective_stem(w) + "я"@,
        spec_decline_adjective(w, Declension::Genitive, false, Gender::Feminine) == adjective_stem(w) + "ьої"@,
        spec_decline_adjective(w, Declension::Dative, false, Gender::Feminine) == adjective_stem(w) + "ій"@,
        spec_decline_adjective(w, Declension::Accusative, false, Gender::Feminine) == adjective_stem(w) + "ю"@,
        spec_decline_adjective(w, Declension::Instrumental, false, Gender::Feminine) == adjective_stem(w) + "ьою"@,
        spec_decline_adjective(w, Declension::Locative, false, Gender::Feminine) == adjective_stem(w) + "ій"@,
        spec_decline_adjective(w, Declension::Nominative, false, Gender::Masculine) == adjective_stem(w) + "ій"@,
        spec_decline_adjective(w, Declension::Genitive, false, Gender::Masculine) == adjective_stem(w) + "ього"@,
        spec_decline_adjective(w, Declension::Dative, false, Gender::Masculine) == adjective_stem(w) + "ьому"@,
        spec_decline_adjective(w, Declension::Accusative, false, Gender::Masculine) == adjective_stem(w) + "ій"@,
        spec_decline_adjective(w, Declension::Instrumental, false, Gender::Masculine) == adjective_stem(w) + "им"@,
        spec_decline_adjective(w, Declension::Locative, false, Gender::Masculine) == adjective_stem(w) + "ьому"@,
        spec_decline_adjective(w, Declension::Nominative, false, Gender::Neuter) == adjective_stem(w) + "є"@,
        spec_decline_adjective(w, Declension::Genitive, false, Gender::Neuter) == adjective_stem(w) + "ього"@,
        spec_decline_adjective(w, Declension::Dative, false, Gender::Neuter) == adjective_stem(w) + "ьому"@,
        spec_decline_adjective(w, Declension::Accusative, false, Gender::Neuter) == adjective_stem(w) + "є"@,
        spec_decline_adjective(w, Declension::Instrumental, false, Gender::Neuter) == adjective_stem(w) + "им"@,
        spec_decline_adjective(w, Declension::Locative, false, Gender::Neuter) == adjective_stem(w) + "ьому"@,
{
    reveal_strlit("а");
    reveal_strlit("е");
    reveal_strlit("ий");
    reveal_strlit("им");
    reveal_strlit("ими");
    reveal_strlit("их");
    reveal_strlit("ого");
    reveal_strlit("ому");
    reveal_strlit("ою");
    reveal_strlit("ої");
    reveal_strlit("у");
    reveal_strlit("ього");
    reveal_strlit("ьому");
    reveal_strlit("ьою");
    reveal_strlit("ьої");
    reveal_strlit("ю");
    reveal_strlit("я");
    reveal_strlit("є");
    reveal_strlit("і");
    reveal_strlit("ій");
    reveal_strlit("ім");
    reveal_strlit("іми");
    reveal_strlit("іх");
    let c = strip_stress(w);
    reveal_strlit("ий");
    if seq_ends_with(c, "ій"@) {
        assert(c.subrange(c.len() - 2, c.len() as int)[0] == c[c.len() - 2]);
        assert(!seq_ends_with(c, "ий"@));
    } else if seq_ends_with(c, "я"@) {
        assert(c.subrange(c.len() - 1, c.len() as int)[0] == c[c.len() - 1]);
        if c.len() >= 2 {
            assert(c.subrange(c.len() - 2, c.len() as int)[1] == c[c.len() - 1]);
        }
        assert(!seq_ends_with(c, "ий"@));
        assert(!seq_ends_with(c, "а"@));
    } else {
        assert(c.subrange(c.len() - 1, c.len() as int)[0] == c[c.len() - 1]);
        if c.len() >= 2 {
            assert(c.subrange(c.len() - 2, c.len() as int)[1] == c[c.len() - 1]);
        }
        assert(!seq_ends_with(c, "ий"@));
        assert(!seq_ends_with(c, "а"@));
        assert(!seq_ends_with(c, "е"@));
    }
    let (n, s) = adjective_shape(w);
    assert(s);
    assert((w.take(n as int) + "і"@).drop_last() =~= w.take(n as int));
}

/// Outside the -ння neuters, every noun forms its dative, instrumental and
/// locative plural by adding "ам", "ами", "ах" to its stem (a soft stem:
/// "ям", "ями", "ях"); so a feminine noun's dative plural is its nominative
/// singular with the final vowel replaced by that ending (служба, службам).
pub proof fn law_plural_oblique_endings(r: NounModel)
    requires
        !is_nnya_noun(r),
    ensures
        spec_decline_noun(r, Declension::Dative, true) == r.stem + (if r.is_soft { "ям"@ } else { "ам"@ }),
        spec_decline_noun(r, Declension::Instrumental, true) == r.stem + (if r.is_soft { "ями"@ } else { "ами"@ }),
        spec_decline_noun(r, Declension::Locative, true) == r.stem + (if r.is_soft { "ях"@ } else { "ах"@ }),
        r.gender == Gender::Feminine && !r.is_always_plural ==> spec_decline_noun(r, Declension::Dative, true)
            == spec_decline_noun(r, Declension::Nominative, false).drop_last() + (if r.is_soft {
            "ям"@
        } else {
            "ам"@
        }),
{
    reveal_strlit("ям");
    reveal_strlit("ам");
    reveal_strlit("ями");
    reveal_strlit("ами");
    reveal_strlit("ях");
    reveal_strlit("ах");
    reveal_strlit("я");
    reveal_strlit("а");
    reveal_strlit("іі");
    lemma_no_double_i_after(r.stem, if r.is_soft { "ям"@ } else { "ам"@ });
    lemma_no_double_i_after(r.stem, if r.is_soft { "ями"@ } else { "ами"@ });
    lemma_no_double_i_after(r.stem, if r.is_soft { "ях"@ } else { "ах"@ });
    lemma_no_double_i_after(r.stem, if r.is_soft { "я"@ } else { "а"@ });
    assert((r.stem + (if r.is_soft { "я"@ } else { "а"@ })).drop_last() =~= r.stem);
}

/// A word whose last letter is not "і" is left alone by the -ії spelling.
proof fn lemma_no_double_i_after(stem: Seq<char>, ending: Seq<char>)
    requires
        ending.len() > 0,
        ending.last() != 'і',
    ensures
        fix_double_i(stem + ending) == stem + ending,
{
    let s = stem + ending;
    reveal_strlit("іі");
    assert(s.last() == ending.last());
    if seq_ends_with(s, "іі"@) {
        assert(s.subrange(s.len() - 2, s.len() as int)[1] == s.last());
    }
    if seq_ends_with(s, seq!['і', STRESS_MARK, 'і']) {
        assert(s.subrange(s.len() - 3, s.len() as int)[2] == s.last());
    }
}

/// Nominative numerals of the five-and-more group (five to ten, the tens
/// from twenty to fifty, and a hundred).
pub open spec fn is_five_plus_numeral(l: Seq<char>) -> bool {
    l == "п'ять"@
        || l == "шість"@
        || l == "сім"@
        || l == "вісім"@
        || l == "дев'ять"@
        || l == "десять"@
        || l == "двадцять"@
        || l == "тридцять"@
        || l == "сорок"@
        || l == "п'ятдесят"@
        || l == "сто"@
}

/// A word ends with the last letter of any non-empty word it ends with.
proof fn lemma_ends_with_last(a: Seq<char>, b: Seq<char>)
    requires
        b.len() > 0,
        seq_ends_with(a, b),
    ensures
        a.last() == b.last(),
{
    assert(a.subrange(a.len() - b.len(), a.len() as int)[b.len() - 1] == a.last());
}

/// A nominative numeral of the five-and-more group is neither an oblique
/// numeral, nor one of the first two groups, nor a fraction.
proof fn lemma_five_plus_numeral_kind(l: Seq<char>)
    requires
        is_five_plus_numeral(l),
    ensures
        !is_genitive_numeral(l),
        !is_dative_numeral(l),
        !is_instrumental_numeral(l),
        !is_group_one(l),
        !is_group_two(l),
        !is_fraction_word(l),
{
    reveal_strlit("п'ять");
    reveal_strlit("шість");
    reveal_strlit("сім");
    reveal_strlit("вісім");
    reveal_strlit("дев'ять");
    reveal_strlit("десять");
    reveal_strlit("двадцять");
    reveal_strlit("тридцять");
    reveal_strlit("сорок");
    reveal_strlit("п'ятдесят");
    reveal_strlit("сто");
    reveal_strlit("одного");
    reveal_strlit("однієї");
    reveal_strlit("двох");
    reveal_strlit("трьох");
    reveal_strlit("чотирьох");
    reveal_strlit("п'яти");
    reveal_strlit("пʼяти");
    reveal_strlit("шести");
    reveal_strlit("семи");
    reveal_strlit("восьми");
    reveal_strlit("дев'яти");
    reveal_strlit("девʼяти");
    reveal_strlit("десяти");
    reveal_strlit("одинадцяти");
    reveal_strlit("дванадцяти");
    reveal_strlit("двадцяти");
    reveal_strlit("тридцяти");
    reveal_strlit("сорока");
    reveal_strlit("п'ятдесяти");
    reveal_strlit("пʼятдесяти");
    reveal_strlit("шістдесяти");
    reveal_strlit("сімдесяти");
    reveal_strlit("вісімдесяти");
    reveal_strlit("дев'яноста");
    reveal_strlit("девʼяноста");
    reveal_strlit("ста");
    reveal_strlit("двохсот");
    reveal_strlit("трьохсот");
    reveal_strlit("чотирьохсот");
    reveal_strlit("п'ятисот");
    reveal_strlit("пʼятисот");
    reveal_strlit("тисячі");
    reveal_strlit("тисяч");
    reveal_strlit("мільйонів");
    reveal_strlit("мільярдів");
    reveal_strlit("одному");
    reveal_strlit("одній");
    reveal_strlit("двом");
    reveal_strlit("трьом");
    reveal_strlit("чотирьом");
    reveal_strlit("п'ятим");
    reveal_strlit("пʼятим");
    reveal_strlit("одним");
    reveal_strlit("однією");
    reveal_strlit("двома");
    reveal_strlit("трьома");
    reveal_strlit("чотирма");
    reveal_strlit("один");
    reveal_strlit("одна");
    reveal_strlit("одне");
    reveal_strlit("два");
    reveal_strlit("дві");
    reveal_strlit("три");
    reveal_strlit("чотири");
    reveal_strlit("десятих");
    reveal_strlit("сотих");
    reveal_strlit("тисячних");
    reveal_strlit("мільйонних");
    reveal_strlit("десята");
    reveal_strlit("сота");
    reveal_strlit("тисячна");
    reveal_strlit("мільйонна");
    assert(l.last() != 'х' && l.last() != 'а');
    if l == "п'ять"@ {
        assert(l.len() == 5);
        assert(l[0] != "трьох"@[0]);
        assert(l[4] != "п'яти"@[4]);
        assert(l[1] != "пʼяти"@[1]);
        assert(l[0] != "шести"@[0]);
        assert(l[0] != "тисяч"@[0]);
        assert(l[0] != "одній"@[0]);
        assert(l[0] != "трьом"@[0]);
        assert(l[0] != "одним"@[0]);
        assert(l[0] != "двома"@[0]);
        assert(!is_dative_numeral(l));
        assert(!is_instrumental_numeral(l));
        assert(!is_genitive_numeral(l));
        assert(!is_group_one(l));
        assert(!is_group_two(l));
    }
    if l == "шість"@ {
        assert(l.len() == 5);
        assert(l[0] != "трьох"@[0]);
        assert(l[0] != "п'яти"@[0]);
        assert(l[0] != "пʼяти"@[0]);
        assert(l[1] != "шести"@[1]);
        assert(l[0] != "тисяч"@[0]);
        assert(l[0] != "одній"@[0]);
        assert(l[0] != "трьом"@[0]);
        assert(l[0] != "одним"@[0]);
        assert(l[0] != "двома"@[0]);
        assert(!is_dative_numeral(l));
        assert(!is_instrumental_numeral(l));
        assert(!is_genitive_numeral(l));
        assert(!is_group_one(l));
        assert(!is_group_two(l));
    }
    if l == "сім"@ {
        assert(l.len() == 3);
        assert(l[1] != "ста"@[1]);
        assert(l[0] != "два"@[0]);
        assert(l[0] != "дві"@[0]);
        assert(l[0] != "три"@[0]);
        assert(!is_dative_numeral(l));
        assert(!is_instrumental_numeral(l));
        assert(!is_genitive_numeral(l));
        assert(!is_group_one(l));
        assert(!is_group_two(l));
    }
    if l == "вісім"@ {
        assert(l.len() == 5);
        assert(l[0] != "трьох"@[0]);
        assert(l[0] != "п'яти"@[0]);
        assert(l[0] != "пʼяти"@[0]);
        assert(l[0] != "шести"@[0]);
        assert(l[0] != "тисяч"@[0]);
        assert(l[0] != "одній"@[0]);
        assert(l[0] != "трьом"@[0]);
        assert(l[0] != "одним"@[0]);
        assert(l[0] != "двома"@[0]);
        assert(!is_dative_numeral(l));
        assert(!is_instrumental_numeral(l));
        assert(!is_genitive_numeral(l));
        assert(!is_group_one(l));
        assert(!is_group_two(l));
    }
    if l == "дев'ять"@ {
        assert(l.len() == 7);
        assert(l[6] != "дев'яти"@[6]);
        assert(l[3] != "девʼяти"@[3]);
        assert(l[1] != "двохсот"@[1]);
        assert(l[0] != "чотирма"@[0]);
        assert(!is_dative_numeral(l));
        assert(!is_instrumental_numeral(l));
        assert(!is_genitive_numeral(l));
        assert(!is_group_one(l));
        assert(!is_group_two(l));
    }
    if l == "десять"@ {
        assert(l.len() == 6);
        assert(l[0] != "одного"@[0]);
        assert(l[0] != "однієї"@[0]);
        assert(l[0] != "восьми"@[0]);
        assert(l[5] != "десяти"@[5]);
        assert(l[0] != "сорока"@[0]);
        assert(l[0] != "тисячі"@[0]);
        assert(l[0] != "одному"@[0]);
        assert(l[0] != "п'ятим"@[0]);
        assert(l[0] != "пʼятим"@[0]);
        assert(l[0] != "однією"@[0]);
        assert(l[0] != "трьома"@[0]);
        assert(l[0] != "чотири"@[0]);
        assert(!is_dative_numeral(l));
        assert(!is_instrumental_numeral(l));
        assert(!is_genitive_numeral(l));
        assert(!is_group_one(l));
        assert(!is_group_two(l));
    }
    if l == "двадцять"@ {
        assert(l.len() == 8);
        assert(l[0] != "чотирьох"@[0]);
        assert(l[7] != "двадцяти"@[7]);
        assert(l[0] != "тридцяти"@[0]);
        assert(l[0] != "трьохсот"@[0]);
        assert(l[0] != "п'ятисот"@[0]);
        assert(l[0] != "пʼятисот"@[0]);
        assert(l[0] != "чотирьом"@[0]);
        assert(!is_dative_numeral(l));
        assert(!is_instrumental_numeral(l));
        assert(!is_genitive_numeral(l));
        assert(!is_group_one(l));
        assert(!is_group_two(l));
    }
    if l == "тридцять"@ {
        assert(l.len() == 8);
        assert(l[0] != "чотирьох"@[0]);
        assert(l[0] != "двадцяти"@[0]);
        assert(l[7] != "тридцяти"@[7]);
        assert(l[2] != "трьохсот"@[2]);
        assert(l[0] != "п'ятисот"@[0]);
        assert(l[0] != "пʼятисот"@[0]);
        assert(l[0] != "чотирьом"@[0]);
        assert(!is_dative_numeral(l));
        assert(!is_instrumental_numeral(l));
        assert(!is_genitive_numeral(l));
        assert(!is_group_one(l));
        assert(!is_group_two(l));
    }
    if l == "сорок"@ {
        assert(l.len() == 5);
        assert(l[0] != "трьох"@[0]);
        assert(l[0] != "п'яти"@[0]);
        assert(l[0] != "пʼяти"@[0]);
        assert(l[0] != "шести"@[0]);
        assert(l[0] != "тисяч"@[0]);
        assert(l[0] != "одній"@[0]);
        assert(l[0] != "трьом"@[0]);
        assert(l[0] != "одним"@[0]);
        assert(l[0] != "двома"@[0]);
        assert(!is_dative_numeral(l));
        assert(!is_instrumental_numeral(l));
        assert(!is_genitive_numeral(l));
        assert(!is_group_one(l));
        assert(!is_group_two(l));
    }
    if l == "п'ятдесят"@ {
        assert(l.len() == 9);
        assert(l[0] != "сімдесяти"@[0]);
        assert(l[0] != "мільйонів"@[0]);
        assert(l[0] != "мільярдів"@[0]);
        assert(!is_dative_numeral(l));
        assert(!is_instrumental_numeral(l));
        assert(!is_genitive_numeral(l));
        assert(!is_group_one(l));
        assert(!is_group_two(l));
    }
    if l == "сто"@ {
        assert(l.len() == 3);
        assert(l[2] != "ста"@[2]);
        assert(l[0] != "два"@[0]);
        assert(l[0] != "дві"@[0]);
        assert(l[0] != "три"@[0]);
        assert(!is_dative_numeral(l));
        assert(!is_instrumental_numeral(l));
        assert(!is_genitive_numeral(l));
        assert(!is_group_one(l));
        assert(!is_group_two(l));
    }
    if seq_ends_with(l, "десятих"@) { lemma_ends_with_last(l, "десятих"@); }
    if seq_ends_with(l, "сотих"@) { lemma_ends_with_last(l, "сотих"@); }
    if seq_ends_with(l, "тисячних"@) { lemma_ends_with_last(l, "тисячних"@); }
    if seq_ends_with(l, "мільйонних"@) { lemma_ends_with_last(l, "мільйонних"@); }
    if seq_ends_with(l, "десята"@) { lemma_ends_with_last(l, "десята"@); }
    if seq_ends_with(l, "сота"@) { lemma_ends_with_last(l, "сота"@); }
    if seq_ends_with(l, "тисячна"@) { lemma_ends_with_last(l, "тисячна"@); }
    if seq_ends_with(l, "мільйонна"@) { lemma_ends_with_last(l, "мільйонна"@); }
}

/// After a nominative numeral of the five-and-more group and with no
/// preposition, a unit that declines like a noun (метр, грам, літр,
/// паскаль, відсоток, градус and their multiples) stands in the genitive plural:
/// its stem followed by "ів" (п'ять метрів), the same form that the noun
/// itself gives in the genitive plural.
pub proof fn law_unit_after_five_plus(last: Seq<char>, u: Seq<char>)
    requires
        is_five_plus_numeral(last_word(strip_stress(str_lowercase(last)))),
        u == "міліметр"@
        || u == "сантиметр"@
        || u == "метр"@
        || u == "кілометр"@
        || u == "грам"@
        || u == "кілограм"@
        || u == "літр"@
        || u == "мілілітр"@
        || u == "паскаль"@
        || u == "відсоток"@
        || u == "градус"@,
    ensures
        spec_unit_form(last, u, None) == spec_noun_rules(u, Gender::Masculine, false).stem + "ів"@,
        spec_unit_form(last, u, None) == spec_decline_noun(
            spec_noun_rules(u, Gender::Masculine, false),
            Declension::Genitive,
            true,
        ),
{
    lemma_five_plus_numeral_kind(last_word(strip_stress(str_lowercase(last))));
    reveal_strlit("міліметр");
    reveal_strlit("сантиметр");
    reveal_strlit("метр");
    reveal_strlit("кілометр");
    reveal_strlit("грам");
    reveal_strlit("кілограм");
    reveal_strlit("літр");
    reveal_strlit("мілілітр");
    reveal_strlit("паскаль");
    reveal_strlit("відсоток");
    reveal_strlit("градус");
    reveal_strlit("ів");
    let r = spec_noun_rules(u, Gender::Masculine, false);
    lemma_no_double_i_after(r.stem, "ів"@);
    assert(r.gen_pl_ending == "ів"@);
    assert(!is_nnya_noun(r));
    assert(noun_form(r, Declension::Genitive, true) == r.stem + "ів"@);
    let lw = last_word(strip_stress(str_lowercase(last)));
    assert(unit_declension(lw, None) == Declension::Nominative);
    reveal_strlit("вольт");
    reveal_strlit("мілівольт");
    reveal_strlit("кіловольт");
    reveal_strlit("ампер");
    reveal_strlit("міліампер");
    reveal_strlit("ват");
    reveal_strlit("міліват");
    reveal_strlit("кіловат");
    reveal_strlit("герц");
    reveal_strlit("");
    reveal_strlit("цельсія");
    reveal_strlit("фаренгейта");
    if u == "градус"@ {
        assert(u.subrange(0, 6) =~= "градус"@);
        assert(!seq_contains_sub(u, "цельсія"@));
        assert(!seq_contains_sub(u, "фаренгейта"@));
    } else {
        if seq_starts_with(u, "градус"@) {
            assert(u.subrange(0, 6)[0] == u[0]);
        }
        assert(unit_gen_pl(u) == Some("ів"@));
    }
    assert(unit_noun(u) == Some((u, "ів"@, ""@)));
    let rules = NounModel { gen_pl_ending: "ів"@, ..r };
    assert(rules == r);
    assert(spec_unit_form(last, u, None) == spec_decline_noun(rules, Declension::Genitive, true) + ""@);
    assert(spec_decline_noun(rules, Declension::Genitive, true) + ""@ =~= spec_decline_noun(rules, Declension::Genitive, true));
}

/// The names of the units that decline like a masculine noun.
pub open spec fn is_declinable_unit_name(u: Seq<char>) -> bool {
    u == "міліметр"@
        || u == "сантиметр"@
        || u == "метр"@
        || u == "кілометр"@
        || u == "грам"@
        || u == "кілограм"@
        || u == "літр"@
        || u == "мілілітр"@
        || u == "паскаль"@
        || u == "відсоток"@
        || u == "вольт"@
        || u == "мілівольт"@
        || u == "кіловольт"@
        || u == "ампер"@
        || u == "міліампер"@
        || u == "ват"@
        || u == "міліват"@
        || u == "кіловат"@
        || u == "герц"@
}

/// A unit name carries no stress mark, ends in neither "і" nor a stress
/// mark, and is not a temperature.
proof fn lemma_unit_name_plain(u: Seq<char>)
    requires
        is_declinable_unit_name(u),
    ensures
        strip_stress(u) == u,
        !u.contains(STRESS_MARK),
        u.len() > 0,
        u.last() != 'і',
        !seq_starts_with(u, "градус"@),
        unit_gen_pl(u) is Some,
        unit_noun(u) == Some((u, unit_gen_pl(u).unwrap(), ""@)),
{
    reveal_strlit("міліметр");
    reveal_strlit("сантиметр");
    reveal_strlit("метр");
    reveal_strlit("кілометр");
    reveal_strlit("грам");
    reveal_strlit("кілограм");
    reveal_strlit("літр");
    reveal_strlit("мілілітр");
    reveal_strlit("паскаль");
    reveal_strlit("відсоток");
    reveal_strlit("вольт");
    reveal_strlit("мілівольт");
    reveal_strlit("кіловольт");
    reveal_strlit("ампер");
    reveal_strlit("міліампер");
    reveal_strlit("ват");
    reveal_strlit("міліват");
    reveal_strlit("кіловат");
    reveal_strlit("герц");
    reveal_strlit("градус");
    reveal_strlit("ів");
    reveal_strlit("");
    assert forall|i: int| 0 <= i < u.len() implies #[trigger] u[i] != STRESS_MARK by {
        assert(i == 0 || i == 1 || i == 2 || i == 3 || i == 4 || i == 5 || i == 6 || i == 7 || i == 8);
    }
    lemma_strip_stress_plain(u);
    if seq_starts_with(u, "градус"@) {
        assert(u.subrange(0, 6)[0] == u[0]);
    }
}

/// The noun rules built for a unit name: masculine, soft only for
/// паскаль, keeping the name as its nominative singular, with a stem that
/// does not end in "і".
proof fn lemma_unit_rules(u: Seq<char>)
    requires
        is_declinable_unit_name(u),
    ensures
        ({
            let r = spec_noun_rules(u, Gender::Masculine, false);
            &&& r.nominative_sg == u
            &&& r.gender == Gender::Masculine
            &&& !r.is_always_plural
            &&& r.is_soft == (u == "паскаль"@)
            &&& r.stem.len() > 0
            &&& r.stem.last() != 'і'
            &&& r.stem.last() != STRESS_MARK
        }),
{
    lemma_unit_name_plain(u);
    reveal_strlit("міліметр");
    reveal_strlit("сантиметр");
    reveal_strlit("метр");
    reveal_strlit("кілометр");
    reveal_strlit("грам");
    reveal_strlit("кілограм");
    reveal_strlit("літр");
    reveal_strlit("мілілітр");
    reveal_strlit("паскаль");
    reveal_strlit("відсоток");
    reveal_strlit("вольт");
    reveal_strlit("мілівольт");
    reveal_strlit("кіловольт");
    reveal_strlit("ампер");
    reveal_strlit("міліампер");
    reveal_strlit("ват");
    reveal_strlit("міліват");
    reveal_strlit("кіловат");
    reveal_strlit("герц");
    reveal_strlit("ь");
    reveal_strlit("й");
    reveal_strlit("ець");
    reveal_strlit("відсотк");
    reveal_strlit("податк");
    reveal_strlit("внеск");
    let r = spec_noun_rules(u, Gender::Masculine, false);
    assert(u.last() == u[u.len() - 1]);
    if seq_ends_with(u, "ь"@) {
        lemma_ends_with_last(u, "ь"@);
    }
    if seq_ends_with(u, "й"@) {
        lemma_ends_with_last(u, "й"@);
    }
    if seq_ends_with(u, "ець"@) {
        lemma_ends_with_last(u, "ець"@);
    }
    if u == "паскаль"@ {
        assert(stem_len(u, 1) == stem_len(u.drop_last(), 0));
        assert(stem_len(u, 1) == 6);
        assert(u.subrange(6, 7) =~= "ь"@);
        assert(seq_ends_with(u, "ь"@));
        assert(u.take(6).last() == u[5]);
        assert(u.contains(u[5]));
    } else {
        if u == "міліметр"@ {
            assert(u[u.len() - 1] != 'ь' && u[u.len() - 1] != 'й');
        }
        if u == "сантиметр"@ {
            assert(u[u.len() - 1] != 'ь' && u[u.len() - 1] != 'й');
        }
        if u == "метр"@ {
            assert(u[u.len() - 1] != 'ь' && u[u.len() - 1] != 'й');
        }
        if u == "кілометр"@ {
            assert(u[u.len() - 1] != 'ь' && u[u.len() - 1] != 'й');
        }
        if u == "грам"@ {
            assert(u[u.len() - 1] != 'ь' && u[u.len() - 1] != 'й');
        }
        if u == "кілограм"@ {
            assert(u[u.len() - 1] != 'ь' && u[u.len() - 1] != 'й');
        }
        if u == "літр"@ {
            assert(u[u.len() - 1] != 'ь' && u[u.len() - 1] != 'й');
        }
        if u == "мілілітр"@ {
            assert(u[u.len() - 1] != 'ь' && u[u.len() - 1] != 'й');
        }
        if u == "відсоток"@ {
            assert(u[u.len() - 1] != 'ь' && u[u.len() - 1] != 'й');
        }
        if u == "вольт"@ {
            assert(u[u.len() - 1] != 'ь' && u[u.len() - 1] != 'й');
        }
        if u == "мілівольт"@ {
            assert(u[u.len() - 1] != 'ь' && u[u.len() - 1] != 'й');
        }
        if u == "кіловольт"@ {
            assert(u[u.len() - 1] != 'ь' && u[u.len() - 1] != 'й');
        }
        if u == "ампер"@ {
            assert(u[u.len() - 1] != 'ь' && u[u.len() - 1] != 'й');
        }
        if u == "міліампер"@ {
            assert(u[u.len() - 1] != 'ь' && u[u.len() - 1] != 'й');
        }
        if u == "ват"@ {
            assert(u[u.len() - 1] != 'ь' && u[u.len() - 1] != 'й');
        }
        if u == "міліват"@ {
            assert(u[u.len() - 1] != 'ь' && u[u.len() - 1] != 'й');
        }
        if u == "кіловат"@ {
            assert(u[u.len() - 1] != 'ь' && u[u.len() - 1] != 'й');
        }
        if u == "герц"@ {
            assert(u[u.len() - 1] != 'ь' && u[u.len() - 1] != 'й');
        }
        assert(stem_len(u, 0) == u.len());
        assert(u.contains(u[u.len() - 1]));
    }
}

/// The nominative forms of one belong to the first group only.
#[verifier::spinoff_prover]
#[verifier::rlimit(50)]
proof fn lemma_one_numeral_kind(l: Seq<char>)
    requires
        l == "один"@
        || l == "одна"@
        || l == "одне"@,
    ensures
        !is_genitive_numeral(l),
        !is_dative_numeral(l),
        !is_instrumental_numeral(l),
        is_group_one(l),
        !is_group_two(l),
        !is_fraction_word(l),
{
    reveal_strlit("один");
    reveal_strlit("одна");
    reveal_strlit("одне");
    reveal_strlit("одного");
    reveal_strlit("однієї");
    reveal_strlit("двох");
    reveal_strlit("трьох");
    reveal_strlit("чотирьох");
    reveal_strlit("п'яти");
    reveal_strlit("пʼяти");
    reveal_strlit("шести");
    reveal_strlit("семи");
    reveal_strlit("восьми");
    reveal_strlit("дев'яти");
    reveal_strlit("девʼяти");
    reveal_strlit("десяти");
    reveal_strlit("одинадцяти");
    reveal_strlit("дванадцяти");
    reveal_strlit("двадцяти");
    reveal_strlit("тридцяти");
    reveal_strlit("сорока");
    reveal_strlit("п'ятдесяти");
    reveal_strlit("пʼятдесяти");
    reveal_strlit("шістдесяти");
    reveal_strlit("сімдесяти");
    reveal_strlit("вісімдесяти");
    reveal_strlit("дев'яноста");
    reveal_strlit("девʼяноста");
    reveal_strlit("ста");
    reveal_strlit("двохсот");
    reveal_strlit("трьохсот");
    reveal_strlit("чотирьохсот");
    reveal_strlit("п'ятисот");
    reveal_strlit("пʼятисот");
    reveal_strlit("тисячі");
    reveal_strlit("тисяч");
    reveal_strlit("мільйонів");
    reveal_strlit("мільярдів");
    reveal_strlit("одному");
    reveal_strlit("одній");
    reveal_strlit("двом");
    reveal_strlit("трьом");
    reveal_strlit("чотирьом");
    reveal_strlit("п'ятим");
    reveal_strlit("пʼятим");
    reveal_strlit("одним");
    reveal_strlit("однією");
    reveal_strlit("двома");
    reveal_strlit("трьома");
    reveal_strlit("чотирма");
    reveal_strlit("один");
    reveal_strlit("одна");
    reveal_strlit("одне");
    reveal_strlit("два");
    reveal_strlit("дві");
    reveal_strlit("три");
    reveal_strlit("чотири");
    reveal_strlit("десятих");
    reveal_strlit("сотих");
    reveal_strlit("тисячних");
    reveal_strlit("мільйонних");
    reveal_strlit("десята");
    reveal_strlit("сота");
    reveal_strlit("тисячна");
    reveal_strlit("мільйонна");
    if l == "один"@ {
        assert(l.len() == 4);
        assert(l[0] != "двох"@[0]);
        assert(l[0] != "семи"@[0]);
        assert(l[0] != "двом"@[0]);
        assert(l[2] != "одна"@[2]);
        assert(l[2] != "одне"@[2]);
        assert(!is_dative_numeral(l));
        assert(!is_instrumental_numeral(l));
        assert(!is_genitive_numeral(l));
        assert(is_group_one(l));
        assert(!is_group_two(l));
    }
    if l == "одна"@ {
        assert(l.len() == 4);
        assert(l[0] != "двох"@[0]);
        assert(l[0] != "семи"@[0]);
        assert(l[0] != "двом"@[0]);
        assert(l[2] != "один"@[2]);
        assert(l[3] != "одне"@[3]);
        assert(l.subrange(0, 4)[0] == l[0]);
        assert(l[0] != "сота"@[0]);
        assert(!is_dative_numeral(l));
        assert(!is_instrumental_numeral(l));
        assert(!is_genitive_numeral(l));
        assert(is_group_one(l));
        assert(!is_group_two(l));
    }
    if l == "одне"@ {
        assert(l.len() == 4);
        assert(l[0] != "двох"@[0]);
        assert(l[0] != "семи"@[0]);
        assert(l[0] != "двом"@[0]);
        assert(l[2] != "один"@[2]);
        assert(l[3] != "одна"@[3]);
        assert(!is_dative_numeral(l));
        assert(!is_instrumental_numeral(l));
        assert(!is_genitive_numeral(l));
        assert(is_group_one(l));
        assert(!is_group_two(l));
    }
    if seq_ends_with(l, "десятих"@) { lemma_ends_with_last(l, "десятих"@); }
    if seq_ends_with(l, "сотих"@) { lemma_ends_with_last(l, "сотих"@); }
    if seq_ends_with(l, "тисячних"@) { lemma_ends_with_last(l, "тисячних"@); }
    if seq_ends_with(l, "мільйонних"@) { lemma_ends_with_last(l, "мільйонних"@); }
    if seq_ends_with(l, "десята"@) { lemma_ends_with_last(l, "десята"@); }
    if seq_ends_with(l, "сота"@) { lemma_ends_with_last(l, "сота"@); }
    if seq_ends_with(l, "тисячна"@) { lemma_ends_with_last(l, "тисячна"@); }
    if seq_ends_with(l, "мільйонна"@) { lemma_ends_with_last(l, "мільйонна"@); }
}

/// The nominative forms of two to four belong to the second group only.
#[verifier::spinoff_prover]
#[verifier::rlimit(50)]
proof fn lemma_two_to_four_numeral_kind(l: Seq<char>)
    requires
        l == "два"@
        || l == "три"@
        || l == "чотири"@,
    ensures
        !is_genitive_numeral(l),
        !is_dative_numeral(l),
        !is_instrumental_numeral(l),
        !is_group_one(l),
        is_group_two(l),
        !is_fraction_word(l),
{
    reveal_strlit("два");
    reveal_strlit("три");
    reveal_strlit("чотири");
    reveal_strlit("одного");
    reveal_strlit("однієї");
    reveal_strlit("двох");
    reveal_strlit("трьох");
    reveal_strlit("чотирьох");
    reveal_strlit("п'яти");
    reveal_strlit("пʼяти");
    reveal_strlit("шести");
    reveal_strlit("семи");
    reveal_strlit("восьми");
    reveal_strlit("дев'яти");
    reveal_strlit("девʼяти");
    reveal_strlit("десяти");
    reveal_strlit("одинадцяти");
    reveal_strlit("дванадцяти");
    reveal_strlit("двадцяти");
    reveal_strlit("тридцяти");
    reveal_strlit("сорока");
    reveal_strlit("п'ятдесяти");
    reveal_strlit("пʼятдесяти");
    reveal_strlit("шістдесяти");
    reveal_strlit("сімдесяти");
    reveal_strlit("вісімдесяти");
    reveal_strlit("дев'яноста");
    reveal_strlit("девʼяноста");
    reveal_strlit("ста");
    reveal_strlit("двохсот");
    reveal_strlit("трьохсот");
    reveal_strlit("чотирьохсот");
    reveal_strlit("п'ятисот");
    reveal_strlit("пʼятисот");
    reveal_strlit("тисячі");
    reveal_strlit("тисяч");
    reveal_strlit("мільйонів");
    reveal_strlit("мільярдів");
    reveal_strlit("одному");
    reveal_strlit("одній");
    reveal_strlit("двом");
    reveal_strlit("трьом");
    reveal_strlit("чотирьом");
    reveal_strlit("п'ятим");
    reveal_strlit("пʼятим");
    reveal_strlit("одним");
    reveal_strlit("однією");
    reveal_strlit("двома");
    reveal_strlit("трьома");
    reveal_strlit("чотирма");
    reveal_strlit("один");
    reveal_strlit("одна");
    reveal_strlit("одне");
    reveal_strlit("два");
    reveal_strlit("дві");
    reveal_strlit("три");
    reveal_strlit("чотири");
    reveal_strlit("десятих");
    reveal_strlit("сотих");
    reveal_strlit("тисячних");
    reveal_strlit("мільйонних");
    reveal_strlit("десята");
    reveal_strlit("сота");
    reveal_strlit("тисячна");
    reveal_strlit("мільйонна");
    if l == "два"@ {
        assert(l.len() == 3);
        assert(l[0] != "ста"@[0]);
        assert(l[2] != "дві"@[2]);
        assert(l[0] != "три"@[0]);
        assert(!is_dative_numeral(l));
        assert(!is_instrumental_numeral(l));
        assert(!is_genitive_numeral(l));
        assert(!is_group_one(l));
        assert(is_group_two(l));
    }
    if l == "три"@ {
        assert(l.len() == 3);
        assert(l[0] != "ста"@[0]);
        assert(l[0] != "два"@[0]);
        assert(l[0] != "дві"@[0]);
        assert(!is_dative_numeral(l));
        assert(!is_instrumental_numeral(l));
        assert(!is_genitive_numeral(l));
        assert(!is_group_one(l));
        assert(is_group_two(l));
    }
    if l == "чотири"@ {
        assert(l.len() == 6);
        assert(l[0] != "одного"@[0]);
        assert(l[0] != "однієї"@[0]);
        assert(l[0] != "восьми"@[0]);
        assert(l[0] != "десяти"@[0]);
        assert(l[0] != "сорока"@[0]);
        assert(l[0] != "тисячі"@[0]);
        assert(l[0] != "одному"@[0]);
        assert(l[0] != "п'ятим"@[0]);
        assert(l[0] != "пʼятим"@[0]);
        assert(l[0] != "однією"@[0]);
        assert(l[0] != "трьома"@[0]);
        assert(!is_dative_numeral(l));
        assert(!is_instrumental_numeral(l));
        assert(!is_genitive_numeral(l));
        assert(!is_group_one(l));
        assert(is_group_two(l));
    }
    if seq_ends_with(l, "десятих"@) { lemma_ends_with_last(l, "десятих"@); }
    if seq_ends_with(l, "сотих"@) { lemma_ends_with_last(l, "сотих"@); }
    if seq_ends_with(l, "тисячних"@) { lemma_ends_with_last(l, "тисячних"@); }
    if seq_ends_with(l, "мільйонних"@) { lemma_ends_with_last(l, "мільйонних"@); }
    if seq_ends_with(l, "десята"@) { lemma_ends_with_last(l, "десята"@); }
    if seq_ends_with(l, "сота"@) { lemma_ends_with_last(l, "сота"@); }
    if seq_ends_with(l, "тисячна"@) { lemma_ends_with_last(l, "тисячна"@); }
    if seq_ends_with(l, "мільйонна"@) { lemma_ends_with_last(l, "мільйонна"@); }
}

/// A word whose last letter is neither "і" nor a stress mark keeps its
/// spelling when "і" or an ending that does not end in "і" is added.
proof fn lemma_no_double_i_plain(stem: Seq<char>, ending: Seq<char>)
    requires
        stem.len() > 0,
        stem.last() != 'і',
        stem.last() != STRESS_MARK,
        ending.len() > 0,
        ending.last() != 'і' || ending.len() == 1,
    ensures
        fix_double_i(stem + ending) == stem + ending,
{
    let s = stem + ending;
    reveal_strlit("іі");
    assert(s.last() == ending.last());
    if seq_ends_with(s, "іі"@) {
        assert(s.subrange(s.len() - 2, s.len() as int)[1] == s.last());
        assert(s.subrange(s.len() - 2, s.len() as int)[0] == s[s.len() - 2]);
        if ending.len() == 1 {
            assert(s[s.len() - 2] == stem.last());
        }
    }
    if seq_ends_with(s, seq!['і', STRESS_MARK, 'і']) {
        assert(s.subrange(s.len() - 3, s.len() as int)[2] == s.last());
        assert(s.subrange(s.len() - 3, s.len() as int)[1] == s[s.len() - 2]);
        if ending.len() == 1 {
            assert(s[s.len() - 2] == stem.last());
        }
    }
}

/// After the nominative of one (один, одна, одне) and with no preposition,
/// a unit that declines like a noun stands in the nominative singular: its
/// name as it is (один метр).
pub proof fn law_unit_after_one(last: Seq<char>, u: Seq<char>)
    requires
        last_word(strip_stress(str_lowercase(last))) == "один"@
            || last_word(strip_stress(str_lowercase(last))) == "одна"@
            || last_word(strip_stress(str_lowercase(last))) == "одне"@,
        is_declinable_unit_name(u),
    ensures
        spec_unit_form(last, u, None) == u,
{
    let lw = last_word(strip_stress(str_lowercase(last)));
    lemma_one_numeral_kind(lw);
    lemma_unit_name_plain(u);
    lemma_unit_rules(u);
    reveal_strlit("");
    let r = spec_noun_rules(u, Gender::Masculine, false);
    let rules = NounModel { gen_pl_ending: unit_gen_pl(u).unwrap(), ..r };
    assert(unit_declension(lw, None) == Declension::Nominative);
    assert(!is_nnya_noun(rules));
    assert(u.drop_last() + seq![u.last()] =~= u);
    assert(u.drop_last().len() > 0 ==> u.drop_last().last() == u[u.len() - 2]);
    lemma_no_double_i_after(u.drop_last(), seq![u.last()]);
    assert(spec_decline_noun(rules, Declension::Nominative, false) == u);
    assert(spec_unit_form(last, u, None) == u + ""@);
    assert(u + ""@ =~= u);
}

/// After the nominative of two, three or four (два, три, чотири) and with
/// no preposition, a unit that declines like a noun stands in the
/// nominative plural: its stem followed by "и" (два метри), or by "і" for
/// the soft паскаль.
pub proof fn law_unit_after_two_to_four(last: Seq<char>, u: Seq<char>)
    requires
        last_word(strip_stress(str_lowercase(last))) == "два"@
            || last_word(strip_stress(str_lowercase(last))) == "три"@
            || last_word(strip_stress(str_lowercase(last))) == "чотири"@,
        is_declinable_unit_name(u),
    ensures
        spec_unit_form(last, u, None) == spec_noun_rules(u, Gender::Masculine, false).stem + (if u == "паскаль"@ {
            "і"@
        } else {
            "и"@
        }),
{
    let lw = last_word(strip_stress(str_lowercase(last)));
    lemma_two_to_four_numeral_kind(lw);
    lemma_unit_name_plain(u);
    lemma_unit_rules(u);
    reveal_strlit("");
    reveal_strlit("і");
    reveal_strlit("и");
    let r = spec_noun_rules(u, Gender::Masculine, false);
    let rules = NounModel { gen_pl_ending: unit_gen_pl(u).unwrap(), ..r };
    let e = if u == "паскаль"@ { "і"@ } else { "и"@ };
    assert(unit_declension(lw, None) == Declension::Nominative);
    assert(!is_nnya_noun(rules));
    lemma_no_double_i_plain(r.stem, e);
    assert(spec_decline_noun(rules, Declension::Nominative, true) == r.stem + e);
    assert(spec_unit_form(last, u, None) == r.stem + e + ""@);
    assert(r.stem + e + ""@ =~= r.stem + e);
}

/// After a nominative numeral of the five-and-more group and with no
/// preposition, a unit whose genitive plural has no ending (вольт, ампер,
/// ват, герц and their multiples) is its bare stem (п'ять вольт).
pub proof fn law_bare_unit_after_five_plus(last: Seq<char>, u: Seq<char>)
    requires
        is_five_plus_numeral(last_word(strip_stress(str_lowercase(last)))),
        u == "вольт"@
        || u == "мілівольт"@
        || u == "кіловольт"@
        || u == "ампер"@
        || u == "міліампер"@
        || u == "ват"@
        || u == "міліват"@
        || u == "кіловат"@
        || u == "герц"@,
    ensures
        spec_unit_form(last, u, None) == spec_noun_rules(u, Gender::Masculine, false).stem,
{
    let lw = last_word(strip_stress(str_lowercase(last)));
    lemma_five_plus_numeral_kind(lw);
    lemma_unit_name_plain(u);
    lemma_unit_rules(u);
    reveal_strlit("вольт");
    reveal_strlit("мілівольт");
    reveal_strlit("кіловольт");
    reveal_strlit("ампер");
    reveal_strlit("міліампер");
    reveal_strlit("ват");
    reveal_strlit("міліват");
    reveal_strlit("кіловат");
    reveal_strlit("герц");
    reveal_strlit("");
    let r = spec_noun_rules(u, Gender::Masculine, false);
    reveal_strlit("міліметр");
    reveal_strlit("сантиметр");
    reveal_strlit("метр");
    reveal_strlit("кілометр");
    reveal_strlit("грам");
    reveal_strlit("кілограм");
    reveal_strlit("літр");
    reveal_strlit("мілілітр");
    reveal_strlit("паскаль");
    reveal_strlit("відсоток");
    reveal_strlit("ів");
    if u == "вольт"@ {
        assert(u.len() == 5);
    }
    if u == "мілівольт"@ {
        assert(u.len() == 9);
        assert(u[0] != "сантиметр"@[0]);
    }
    if u == "кіловольт"@ {
        assert(u.len() == 9);
        assert(u[0] != "сантиметр"@[0]);
    }
    if u == "ампер"@ {
        assert(u.len() == 5);
    }
    if u == "міліампер"@ {
        assert(u.len() == 9);
        assert(u[0] != "сантиметр"@[0]);
    }
    if u == "ват"@ {
        assert(u.len() == 3);
    }
    if u == "міліват"@ {
        assert(u.len() == 7);
        assert(u[0] != "паскаль"@[0]);
    }
    if u == "кіловат"@ {
        assert(u.len() == 7);
        assert(u[0] != "паскаль"@[0]);
    }
    if u == "герц"@ {
        assert(u.len() == 4);
        assert(u[0] != "метр"@[0]);
        assert(u[1] != "грам"@[1]);
        assert(u[0] != "літр"@[0]);
    }
    assert(unit_gen_pl(u) == Some(""@));
    let rules = NounModel { gen_pl_ending: ""@, ..r };
    assert(unit_declension(lw, None) == Declension::Nominative);
    assert(!is_nnya_noun(rules));
    assert(r.stem.drop_last() + seq![r.stem.last()] =~= r.stem);
    lemma_no_double_i_after(r.stem.drop_last(), seq![r.stem.last()]);
    assert(r.stem + ""@ =~= r.stem);
    assert(spec_decline_noun(rules, Declension::Genitive, true) == r.stem);
    assert(spec_unit_form(last, u, None) == r.stem + ""@);
}

/// Outside the -ння neuters, a noun whose stem ends in a letter other than
/// "і" forms its cases by adding to the stem: a feminine а/я in the
/// nominative, і in the dative and locative, у/ю in the accusative, ою/єю
/// in the instrumental singular; a neuter о/я in the nominative and
/// accusative, у/ю in the dative, ом/ям in the instrumental, і in the
/// locative singular; a masculine у/ю in the dative and ом/ем in the
/// instrumental singular; и/і (neuter а/я) in the nominative plural (the
/// second of each pair for a soft stem).
pub proof fn law_noun_case_endings(r: NounModel)
    requires
        !is_nnya_noun(r),
        !r.is_always_plural,
        r.stem.len() > 0,
        r.stem.last() != 'і',
        r.stem.last() != STRESS_MARK,
    ensures
        r.gender == Gender::Feminine ==> {
            &&& spec_decline_noun(r, Declension::Nominative, false) == r.stem + (if r.is_soft { "я"@ } else { "а"@ })
            &&& spec_decline_noun(r, Declension::Dative, false) == r.stem + "і"@
            &&& spec_decline_noun(r, Declension::Locative, false) == r.stem + "і"@
            &&& spec_decline_noun(r, Declension::Accusative, false) == r.stem + (if r.is_soft { "ю"@ } else { "у"@ })
            &&& spec_decline_noun(r, Declension::Instrumental, false) == r.stem + (if r.is_soft { "єю"@ } else { "ою"@ })
            &&& spec_decline_noun(r, Declension::Nominative, true) == r.stem + (if r.is_soft { "і"@ } else { "и"@ })
        },
        r.gender == Gender::Neuter ==> {
            &&& spec_decline_noun(r, Declension::Nominative, false) == r.stem + (if r.is_soft { "я"@ } else { "о"@ })
            &&& spec_decline_noun(r, Declension::Accusative, false) == r.stem + (if r.is_soft { "я"@ } else { "о"@ })
            &&& spec_decline_noun(r, Declension::Dative, false) == r.stem + (if r.is_soft { "ю"@ } else { "у"@ })
            &&& spec_decline_noun(r, Declension::Instrumental, false) == r.stem + (if r.is_soft { "ям"@ } else { "ом"@ })
            &&& spec_decline_noun(r, Declension::Locative, false) == r.stem + "і"@
            &&& spec_decline_noun(r, Declension::Nominative, true) == r.stem + (if r.is_soft { "я"@ } else { "а"@ })
        },
        r.gender == Gender::Masculine ==> {
            &&& spec_decline_noun(r, Declension::Dative, false) == r.stem + (if r.is_soft { "ю"@ } else { "у"@ })
            &&& spec_decline_noun(r, Declension::Instrumental, false) == r.stem + (if r.is_soft { "ем"@ } else { "ом"@ })
            &&& spec_decline_noun(r, Declension::Nominative, true) == r.stem + (if r.is_soft { "і"@ } else { "и"@ })
        },
{
    reveal_strlit("я");
    reveal_strlit("а");
    reveal_strlit("і");
    reveal_strlit("ю");
    reveal_strlit("у");
    reveal_strlit("єю");
    reveal_strlit("ою");
    reveal_strlit("и");
    reveal_strlit("о");
    reveal_strlit("ям");
    reveal_strlit("ом");
    reveal_strlit("ем");
    let st = r.stem;
    lemma_no_double_i_plain(st, if r.is_soft { "я"@ } else { "а"@ });
    lemma_no_double_i_plain(st, "і"@);
    lemma_no_double_i_plain(st, if r.is_soft { "ю"@ } else { "у"@ });
    lemma_no_double_i_plain(st, if r.is_soft { "єю"@ } else { "ою"@ });
    lemma_no_double_i_plain(st, if r.is_soft { "і"@ } else { "и"@ });
    lemma_no_double_i_plain(st, if r.is_soft { "я"@ } else { "о"@ });
    lemma_no_double_i_plain(st, if r.is_soft { "ям"@ } else { "ом"@ });
    lemma_no_double_i_plain(st, if r.is_soft { "ем"@ } else { "ом"@ });
}

} // verus!
