//! The stress dictionary and stress marks.
//!
//! The dictionary maps a lower-case word without stress marks to the same
//! word with them (U+0301 after the stressed vowel). It is built from the
//! text of the main dictionary and of a custom one whose entries take
//! priority.

use vstd::prelude::*;
use vstd::hash_map::StringHashMap;
use crate::text::{
    STRESS_MARK, strip_stress, remove_stress, str_lowercase, lower, to_chars, from_chars, slice_prefix,
    slice_range, split_char, split_at_char, views_of, trim_start_ws, trim_end_ws, is_whitespace,
    replace_all, replace_chars, chars_eq, lemma_strip_stress_concat, lemma_strip_stress_plain,
    lemma_replace_all_strip_stress, occurs, mark_free, marked, no_self_overlap, lemma_marking_creates_nothing,
    lemma_marking_removes_pattern, lemma_replace_all_absent,
};

verus! {

/// The characters of a string.
pub open spec fn string_view(s: String) -> Seq<char> {
    s@
}

/// A stress dictionary: unstressed lower-case word to stressed word.
pub struct StressDict {
    words: StringHashMap<String>,
}

impl View for StressDict {
    type V = Map<Seq<char>, Seq<char>>;

    closed spec fn view(&self) -> Map<Seq<char>, Seq<char>> {
        self.words@.map_values(|v: String| string_view(v))
    }
}

/// `s` without leading and trailing whitespace.
pub open spec fn trim(s: Seq<char>) -> Seq<char> {
    trim_start_ws(trim_end_ws(s))
}

/// Removes leading and trailing whitespace.
pub fn trim_chars(s: &[char]) -> (r: Vec<char>)
    ensures
        r@ == trim(s@),
{
    let mut end: usize = s.len();
    assert(s@.take(end as int) =~= s@);
    while end > 0 && is_whitespace(s[end - 1])
        invariant
            end <= s@.len(),
            trim_end_ws(s@) == trim_end_ws(s@.take(end as int)),
        decreases end,
    {
        assert(s@.take(end as int).drop_last() =~= s@.take(end - 1));
        end = end - 1;
    }
    let ghost t = s@.take(end as int);
    let mut start: usize = 0;
    assert(t.skip(0) =~= t);
    while start < end && is_whitespace(s[start])
        invariant
            start <= end <= s@.len(),
            t == s@.take(end as int),
            trim_start_ws(t) == trim_start_ws(t.skip(start as int)),
        decreases end - start,
    {
        assert(t.skip(start as int).skip(1) =~= t.skip(start + 1));
        start = start + 1;
    }
    let r = slice_range(s, start, end);
    assert(r@ =~= t.skip(start as int));
    r
}

/// The entry a line of the main dictionary gives: the word, lower-cased,
/// under its unstressed form, where it has a stress mark at all.
pub open spec fn main_entry(line: Seq<char>) -> Option<(Seq<char>, Seq<char>)> {
    let t = trim(line);
    if t.len() == 0 {
        None
    } else {
        let l = str_lowercase(t);
        let u = strip_stress(l);
        if l != u { Some((u, l)) } else { None }
    }
}

/// Index of the first '=' in `s`.
pub open spec fn first_eq(s: Seq<char>) -> Option<nat>
    decreases s.len(),
{
    if s.len() == 0 {
        None
    } else if s[0] == '=' {
        Some(0)
    } else {
        match first_eq(s.skip(1)) {
            Some(k) => Some(k + 1),
            None => None,
        }
    }
}

/// The entry a line of the custom dictionary gives: comments ('#') and
/// empty lines give none; "key=value" gives the two sides, trimmed and
/// lower-cased; any other line gives the lower-cased word under its
/// unstressed form. An empty key gives none.
pub open spec fn custom_entry(line: Seq<char>) -> Option<(Seq<char>, Seq<char>)> {
    let t = trim(line);
    if t.len() == 0 || t[0] == '#' {
        None
    } else {
        let (k, v) = match first_eq(t) {
            Some(i) => (str_lowercase(trim(t.take(i as int))), str_lowercase(trim(t.skip(i as int + 1)))),
            None => (strip_stress(str_lowercase(t)), str_lowercase(t)),
        };
        if k.len() > 0 { Some((k, v)) } else { None }
    }
}

/// The map after the entries of the lines, in order (a later entry for a
/// key replaces an earlier one).
pub open spec fn fold_entries(m: Map<Seq<char>, Seq<char>>, lines: Seq<Seq<char>>, custom: bool) -> Map<Seq<char>, Seq<char>>
    decreases lines.len(),
{
    if lines.len() == 0 {
        m
    } else {
        let m2 = fold_entries(m, lines.drop_last(), custom);
        match if custom { custom_entry(lines.last()) } else { main_entry(lines.last()) } {
            Some((k, v)) => m2.insert(k, v),
            None => m2,
        }
    }
}

/// The dictionary built from the text of the main dictionary and of the
/// custom one (either may be missing); custom entries replace main ones.
pub open spec fn spec_dictionary(main: Option<Seq<char>>, custom: Option<Seq<char>>) -> Map<Seq<char>, Seq<char>> {
    let m = match main {
        Some(c) => fold_entries(Map::empty(), split_char(c, '\n'), false),
        None => Map::empty(),
    };
    match custom {
        Some(c) => fold_entries(m, split_char(c, '\n'), true),
        None => m,
    }
}

/// The word under which a word is looked up, and its stressed form if the
/// dictionary has it; otherwise the lower-cased word.
pub open spec fn spec_apply_stress(w: Seq<char>, d: Map<Seq<char>, Seq<char>>) -> Seq<char> {
    let l = str_lowercase(w);
    if d.contains_key(l) { d[l] } else { l }
}

fn first_eq_exec(s: &[char]) -> (r: Option<usize>)
    ensures
        match r {
            Some(k) => first_eq(s@) == Some(k as nat) && k < s@.len(),
            None => first_eq(s@) is None,
        },
{
    let mut i: usize = 0;
    assert(s@.skip(0) =~= s@);
    assert(first_eq(s@) == match first_eq(s@) {
        Some(k) => Some((k + 0) as nat),
        None => None::<nat>,
    });
    while i < s.len()
        invariant
            i <= s@.len(),
            forall|j: int| 0 <= j < i ==> s@[j] != '=',
            first_eq(s@) == match first_eq(s@.skip(i as int)) {
                Some(k) => Some((k + i) as nat),
                None => None::<nat>,
            },
        decreases s.len() - i,
    {
        assert(s@.skip(i as int).skip(1) =~= s@.skip(i + 1));
        if s[i] == '=' {
            return Some(i);
        }
        i = i + 1;
    }
    None
}

fn main_entry_exec(line: &[char]) -> (r: Option<(Vec<char>, Vec<char>)>)
    ensures
        match r {
            Some((k, v)) => main_entry(line@) == Some((k@, v@)),
            None => main_entry(line@) is None,
        },
{
    let t = trim_chars(line);
    if t.len() == 0 {
        return None;
    }
    let l = lower(t.as_slice());
    let u = remove_stress(l.as_slice());
    if !chars_eq(l.as_slice(), u.as_slice()) {
        Some((u, l))
    } else {
        None
    }
}

fn custom_entry_exec(line: &[char]) -> (r: Option<(Vec<char>, Vec<char>)>)
    ensures
        match r {
            Some((k, v)) => custom_entry(line@) == Some((k@, v@)),
            None => custom_entry(line@) is None,
        },
{
    let t = trim_chars(line);
    if t.len() == 0 || t[0] == '#' {
        return None;
    }
    let (k, v) = match first_eq_exec(t.as_slice()) {
        Some(i) => {
            let left = slice_prefix(t.as_slice(), i);
            let right = slice_range(t.as_slice(), i + 1, t.len());
            assert(right@ =~= t@.skip(i + 1));
            let lt = trim_chars(left.as_slice());
            let rt = trim_chars(right.as_slice());
            (lower(lt.as_slice()), lower(rt.as_slice()))
        },
        None => {
            let l = lower(t.as_slice());
            (remove_stress(l.as_slice()), l)
        },
    };
    if k.len() > 0 {
        Some((k, v))
    } else {
        None
    }
}

impl StressDict {
    /// An empty dictionary.
    pub fn new() -> (d: Self)
        ensures
            d@ == Map::<Seq<char>, Seq<char>>::empty(),
    {
        let d = StressDict { words: StringHashMap::new() };
        assert(d@ =~= Map::<Seq<char>, Seq<char>>::empty());
        d
    }

    /// Adds (or replaces) the stressed form of a word.
    pub fn insert(&mut self, key: &[char], stressed: &[char])
        ensures
            final(self)@ == old(self)@.insert(key@, stressed@),
    {
        self.words.insert(from_chars(key), from_chars(stressed));
        assert(self@ =~= old(self)@.insert(key@, stressed@));
    }

    /// The stressed form of a word, if the dictionary has it.
    pub fn get(&self, key: &[char]) -> (r: Option<Vec<char>>)
        ensures
            match r {
                Some(v) => self@.contains_key(key@) && v@ == self@[key@],
                None => !self@.contains_key(key@),
            },
    {
        let k = from_chars(key);
        match self.words.get(k.as_str()) {
            Some(v) => Some(to_chars(v.as_str())),
            None => None,
        }
    }

    fn add_lines(&mut self, content: &str, custom: bool)
        ensures
            final(self)@ == fold_entries(old(self)@, split_char(content@, '\n'), custom),
    {
        let c = to_chars(content);
        let lines = split_at_char(c.as_slice(), '\n');
        let ghost ls = views_of(lines@);
        let mut i: usize = 0;
        assert(ls.take(0) =~= Seq::<Seq<char>>::empty());
        while i < lines.len()
            invariant
                i <= lines@.len(),
                ls == views_of(lines@),
                self@ == fold_entries(old(self)@, ls.take(i as int), custom),
            decreases lines.len() - i,
        {
            assert(ls.take(i + 1).drop_last() =~= ls.take(i as int));
            assert(ls[i as int] == lines[i as int]@);
            let line = lines[i].as_slice();
            let e = if custom { custom_entry_exec(line) } else { main_entry_exec(line) };
            if let Some((k, v)) = e {
                self.insert(k.as_slice(), v.as_slice());
            }
            i = i + 1;
        }
        assert(ls.take(lines@.len() as int) =~= ls);
    }

    /// Builds the dictionary from the text of the main dictionary and of
    /// the custom one (either may be missing); custom entries replace main
    /// ones.
    pub fn load(main: Option<&str>, custom: Option<&str>) -> (d: Self)
        ensures
            d@ == spec_dictionary(
                match main { Some(s) => Some(s@), None => None },
                match custom { Some(s) => Some(s@), None => None },
            ),
    {
        let mut d = StressDict::new();
        if let Some(m) = main {
            d.add_lines(m, false);
        }
        if let Some(c) = custom {
            d.add_lines(c, true);
        }
        d
    }
}

/// The stressed form of a word from the dictionary, or the word in lower
/// case where the dictionary does not have it.
pub fn apply_stress_chars(word: &[char], dict: &StressDict) -> (r: Vec<char>)
    ensures
        r@ == spec_apply_stress(word@, dict@),
{
    let l = lower(word);
    match dict.get(l.as_slice()) {
        Some(s) => s,
        None => l,
    }
}

/// The stressed form of a word from the dictionary, or the word in lower
/// case where the dictionary does not have it.
pub fn apply_stress(word: &str, dict: &StressDict) -> (r: String)
    ensures
        r@ == spec_apply_stress(word@, dict@),
{
    let w = to_chars(word);
    let r = apply_stress_chars(w.as_slice(), dict);
    from_chars(r.as_slice())
}

/// Unit names with their stress marks put in, one replacement after the
/// other.
pub open spec fn spec_stress_units(w: Seq<char>) -> Seq<char> {
    let w = replace_all(w, "вольт"@, "во\u{0301}льт"@);
    let w = replace_all(w, "ампер"@, "ампе\u{0301}р"@);
    let w = replace_all(w, "ват"@, "ва\u{0301}т"@);
    let w = replace_all(w, "ват-годин"@, "ва\u{0301}т-годи\u{0301}н"@);
    let w = replace_all(w, "кіловат"@, "кілова\u{0301}т"@);
    let w = replace_all(w, "кіловат-годин"@, "кілова\u{0301}т-годи\u{0301}н"@);
    let w = replace_all(w, "міліампер"@, "міліампе\u{0301}р"@);
    let w = replace_all(w, "міліват"@, "міліва\u{0301}т"@);
    let w = replace_all(w, "герц"@, "ге\u{0301}рц"@);
    let w = replace_all(w, "фарад"@, "фара\u{0301}д"@);
    let w = replace_all(w, "ом"@, "о\u{0301}м"@);
    let w = replace_all(w, "паскаль"@, "паска\u{0301}ль"@);
    replace_all(w, "цельсія"@, "це\u{0301}льсія"@)
}

/// Puts stress marks into unit names (see `spec_stress_units`).
pub fn with_stress_units_chars(w: &[char]) -> (r: Vec<char>)
    ensures
        r@ == spec_stress_units(w@),
{
    let w = replace_chars(w, "вольт", "во\u{0301}льт");
    let w = replace_chars(w.as_slice(), "ампер", "ампе\u{0301}р");
    let w = replace_chars(w.as_slice(), "ват", "ва\u{0301}т");
    let w = replace_chars(w.as_slice(), "ват-годин", "ва\u{0301}т-годи\u{0301}н");
    let w = replace_chars(w.as_slice(), "кіловат", "кілова\u{0301}т");
    let w = replace_chars(w.as_slice(), "кіловат-годин", "кілова\u{0301}т-годи\u{0301}н");
    let w = replace_chars(w.as_slice(), "міліампер", "міліампе\u{0301}р");
    let w = replace_chars(w.as_slice(), "міліват", "міліва\u{0301}т");
    let w = replace_chars(w.as_slice(), "герц", "ге\u{0301}рц");
    let w = replace_chars(w.as_slice(), "фарад", "фара\u{0301}д");
    let w = replace_chars(w.as_slice(), "ом", "о\u{0301}м");
    let w = replace_chars(w.as_slice(), "паскаль", "паска\u{0301}ль");
    replace_chars(w.as_slice(), "цельсія", "це\u{0301}льсія")
}

/// Puts stress marks into unit names (see `spec_stress_units`).
pub fn with_stress_units(word: &str) -> (r: String)
    ensures
        r@ == spec_stress_units(word@),
{
    let w = to_chars(word);
    let r = with_stress_units_chars(w.as_slice());
    from_chars(r.as_slice())
}


/// The value the last of `lines` with an entry for `k` gives it, if any.
pub open spec fn last_entry(lines: Seq<Seq<char>>, custom: bool, k: Seq<char>) -> Option<Seq<char>>
    decreases lines.len(),
{
    if lines.len() == 0 {
        None
    } else {
        match if custom { custom_entry(lines.last()) } else { main_entry(lines.last()) } {
            Some((k2, v)) => if k2 == k { Some(v) } else { last_entry(lines.drop_last(), custom, k) },
            None => last_entry(lines.drop_last(), custom, k),
        }
    }
}

/// Reading a key after the entries of some lines gives the last value a
/// line gave it, or what the map held before where no line gave one.
pub proof fn law_last_entry_wins(m: Map<Seq<char>, Seq<char>>, lines: Seq<Seq<char>>, custom: bool, k: Seq<char>)
    ensures
        match last_entry(lines, custom, k) {
            Some(v) => fold_entries(m, lines, custom).contains_key(k) && fold_entries(m, lines, custom)[k] == v,
            None => fold_entries(m, lines, custom).contains_key(k) == m.contains_key(k) && (m.contains_key(k)
                ==> fold_entries(m, lines, custom)[k] == m[k]),
        },
    decreases lines.len(),
{
    if lines.len() > 0 {
        law_last_entry_wins(m, lines.drop_last(), custom, k);
    }
}

/// The custom dictionary takes precedence: where one of its lines gives a
/// word an entry, the dictionary holds that entry whatever the main
/// dictionary says.
pub proof fn law_custom_entries_win(main: Option<Seq<char>>, custom: Seq<char>, k: Seq<char>)
    ensures
        match last_entry(split_char(custom, '\n'), true, k) {
            Some(v) => spec_dictionary(main, Some(custom)).contains_key(k) && spec_dictionary(main, Some(custom))[k]
                == v,
            None => true,
        },
{
    let m = match main {
        Some(c) => fold_entries(Map::empty(), split_char(c, '\n'), false),
        None => Map::empty(),
    };
    law_last_entry_wins(m, split_char(custom, '\n'), true, k);
}

proof fn lemma_main_keys_unstressed(m: Map<Seq<char>, Seq<char>>, lines: Seq<Seq<char>>)
    requires
        forall|k: Seq<char>| #[trigger] m.contains_key(k) ==> strip_stress(m[k]) == k && m[k] != k,
    ensures
        forall|k: Seq<char>| #[trigger] fold_entries(m, lines, false).contains_key(k) ==> strip_stress(
            fold_entries(m, lines, false)[k],
        ) == k && fold_entries(m, lines, false)[k] != k,
    decreases lines.len(),
{
    if lines.len() > 0 {
        lemma_main_keys_unstressed(m, lines.drop_last());
        let m2 = fold_entries(m, lines.drop_last(), false);
        match main_entry(lines.last()) {
            Some((u, l)) => {
                assert(strip_stress(l) == u && l != u);
                assert(fold_entries(m, lines, false) == m2.insert(u, l));
                assert forall|k: Seq<char>| #[trigger] m2.insert(u, l).contains_key(k) implies strip_stress(
                    m2.insert(u, l)[k],
                ) == k && m2.insert(u, l)[k] != k by {
                    if k != u {
                        assert(m2.contains_key(k));
                    }
                }
            },
            None => {
                assert(fold_entries(m, lines, false) == m2);
            },
        }
    }
}

/// Every word of the main dictionary is filed under its own form without
/// stress marks, and differs from it (it carries a stress mark).
pub proof fn law_main_dictionary_keys_unstressed(main: Seq<char>)
    ensures
        forall|k: Seq<char>| #[trigger] spec_dictionary(Some(main), None).contains_key(k) ==> strip_stress(
            spec_dictionary(Some(main), None)[k],
        ) == k && spec_dictionary(Some(main), None)[k] != k,
{
    lemma_main_keys_unstressed(Map::empty(), split_char(main, '\n'));
}


proof fn lemma_marked(p: Seq<char>, k1: int, k2: int, two: bool)
    requires
        0 <= k1 <= k2 <= p.len(),
        forall|i: int| 0 <= i < p.len() ==> #[trigger] p[i] != STRESS_MARK,
    ensures
        strip_stress(p) == p,
        !two ==> strip_stress(p.take(k1) + seq![STRESS_MARK] + p.skip(k1)) == p,
        two ==> strip_stress(
            p.take(k1) + seq![STRESS_MARK] + p.subrange(k1, k2) + seq![STRESS_MARK] + p.skip(k2),
        ) == p,
{
    let a = p.take(k1);
    let b = p.subrange(k1, k2);
    let c = p.skip(k2);
    let m = seq![STRESS_MARK];
    assert forall|i: int| 0 <= i < a.len() implies #[trigger] a[i] != STRESS_MARK by { assert(a[i] == p[i]); }
    assert forall|i: int| 0 <= i < b.len() implies #[trigger] b[i] != STRESS_MARK by { assert(b[i] == p[k1 + i]); }
    assert forall|i: int| 0 <= i < c.len() implies #[trigger] c[i] != STRESS_MARK by { assert(c[i] == p[k2 + i]); }
    let bc = p.skip(k1);
    assert forall|i: int| 0 <= i < bc.len() implies #[trigger] bc[i] != STRESS_MARK by { assert(bc[i] == p[k1 + i]); }
    lemma_strip_stress_plain(p);
    lemma_strip_stress_plain(a);
    lemma_strip_stress_plain(b);
    lemma_strip_stress_plain(c);
    lemma_strip_stress_plain(bc);
    assert(strip_stress(m) =~= Seq::<char>::empty()) by {
        assert(m.drop_last() =~= Seq::<char>::empty());
        assert(m.last() == STRESS_MARK);
        assert(strip_stress(Seq::<char>::empty()) =~= Seq::<char>::empty());
        assert(strip_stress(m) == strip_stress(m.drop_last()));
    }
    lemma_strip_stress_concat(a, m);
    lemma_strip_stress_concat(a + m, bc);
    assert(a + bc =~= p);
    lemma_strip_stress_concat(a + m, b);
    lemma_strip_stress_concat(a + m + b, m);
    lemma_strip_stress_concat(a + m + b + m, c);
    assert(a + b + c =~= p);
    assert(strip_stress(a) + strip_stress(m) =~= a);
}

/// `with_stress_units` only adds stress marks: with every stress mark
/// removed, its result is its argument with every stress mark removed.
pub proof fn law_stress_units_only_add_marks(w: Seq<char>)
    ensures
        strip_stress(spec_stress_units(w)) == strip_stress(w),
{
    reveal_strlit("вольт");
    reveal_strlit("во\u{0301}льт");
    assert("во\u{0301}льт"@ =~= "вольт"@.take(2) + seq![STRESS_MARK] + "вольт"@.skip(2));
    lemma_marked("вольт"@, 2, 2, false);
    reveal_strlit("ампер");
    reveal_strlit("ампе\u{0301}р");
    assert("ампе\u{0301}р"@ =~= "ампер"@.take(4) + seq![STRESS_MARK] + "ампер"@.skip(4));
    lemma_marked("ампер"@, 4, 4, false);
    reveal_strlit("ват");
    reveal_strlit("ва\u{0301}т");
    assert("ва\u{0301}т"@ =~= "ват"@.take(2) + seq![STRESS_MARK] + "ват"@.skip(2));
    lemma_marked("ват"@, 2, 2, false);
    reveal_strlit("ват-годин");
    reveal_strlit("ва\u{0301}т-годи\u{0301}н");
    assert("ва\u{0301}т-годи\u{0301}н"@ =~= "ват-годин"@.take(2) + seq![STRESS_MARK] + "ват-годин"@.subrange(2, 8) + seq![STRESS_MARK] + "ват-годин"@.skip(8));
    lemma_marked("ват-годин"@, 2, 8, true);
    reveal_strlit("кіловат");
    reveal_strlit("кілова\u{0301}т");
    assert("кілова\u{0301}т"@ =~= "кіловат"@.take(6) + seq![STRESS_MARK] + "кіловат"@.skip(6));
    lemma_marked("кіловат"@, 6, 6, false);
    reveal_strlit("кіловат-годин");
    reveal_strlit("кілова\u{0301}т-годи\u{0301}н");
    assert("кілова\u{0301}т-годи\u{0301}н"@ =~= "кіловат-годин"@.take(6) + seq![STRESS_MARK] + "кіловат-годин"@.subrange(6, 12) + seq![STRESS_MARK] + "кіловат-годин"@.skip(12));
    lemma_marked("кіловат-годин"@, 6, 12, true);
    reveal_strlit("міліампер");
    reveal_strlit("міліампе\u{0301}р");
    assert("міліампе\u{0301}р"@ =~= "міліампер"@.take(8) + seq![STRESS_MARK] + "міліампер"@.skip(8));
    lemma_marked("міліампер"@, 8, 8, false);
    reveal_strlit("міліват");
    reveal_strlit("міліва\u{0301}т");
    assert("міліва\u{0301}т"@ =~= "міліват"@.take(6) + seq![STRESS_MARK] + "міліват"@.skip(6));
    lemma_marked("міліват"@, 6, 6, false);
    reveal_strlit("герц");
    reveal_strlit("ге\u{0301}рц");
    assert("ге\u{0301}рц"@ =~= "герц"@.take(2) + seq![STRESS_MARK] + "герц"@.skip(2));
    lemma_marked("герц"@, 2, 2, false);
    reveal_strlit("фарад");
    reveal_strlit("фара\u{0301}д");
    assert("фара\u{0301}д"@ =~= "фарад"@.take(4) + seq![STRESS_MARK] + "фарад"@.skip(4));
    lemma_marked("фарад"@, 4, 4, false);
    reveal_strlit("ом");
    reveal_strlit("о\u{0301}м");
    assert("о\u{0301}м"@ =~= "ом"@.take(1) + seq![STRESS_MARK] + "ом"@.skip(1));
    lemma_marked("ом"@, 1, 1, false);
    reveal_strlit("паскаль");
    reveal_strlit("паска\u{0301}ль");
    assert("паска\u{0301}ль"@ =~= "паскаль"@.take(5) + seq![STRESS_MARK] + "паскаль"@.skip(5));
    lemma_marked("паскаль"@, 5, 5, false);
    reveal_strlit("цельсія");
    reveal_strlit("це\u{0301}льсія");
    assert("це\u{0301}льсія"@ =~= "цельсія"@.take(2) + seq![STRESS_MARK] + "цельсія"@.skip(2));
    lemma_marked("цельсія"@, 2, 2, false);
    let w0 = w;
    let w1 = replace_all(w0, "вольт"@, "во\u{0301}льт"@);
    lemma_replace_all_strip_stress(w0, "вольт"@, "во\u{0301}льт"@);
    let w2 = replace_all(w1, "ампер"@, "ампе\u{0301}р"@);
    lemma_replace_all_strip_stress(w1, "ампер"@, "ампе\u{0301}р"@);
    let w3 = replace_all(w2, "ват"@, "ва\u{0301}т"@);
    lemma_replace_all_strip_stress(w2, "ват"@, "ва\u{0301}т"@);
    let w4 = replace_all(w3, "ват-годин"@, "ва\u{0301}т-годи\u{0301}н"@);
    lemma_replace_all_strip_stress(w3, "ват-годин"@, "ва\u{0301}т-годи\u{0301}н"@);
    let w5 = replace_all(w4, "кіловат"@, "кілова\u{0301}т"@);
    lemma_replace_all_strip_stress(w4, "кіловат"@, "кілова\u{0301}т"@);
    let w6 = replace_all(w5, "кіловат-годин"@, "кілова\u{0301}т-годи\u{0301}н"@);
    lemma_replace_all_strip_stress(w5, "кіловат-годин"@, "кілова\u{0301}т-годи\u{0301}н"@);
    let w7 = replace_all(w6, "міліампер"@, "міліампе\u{0301}р"@);
    lemma_replace_all_strip_stress(w6, "міліампер"@, "міліампе\u{0301}р"@);
    let w8 = replace_all(w7, "міліват"@, "міліва\u{0301}т"@);
    lemma_replace_all_strip_stress(w7, "міліват"@, "міліва\u{0301}т"@);
    let w9 = replace_all(w8, "герц"@, "ге\u{0301}рц"@);
    lemma_replace_all_strip_stress(w8, "герц"@, "ге\u{0301}рц"@);
    let w10 = replace_all(w9, "фарад"@, "фара\u{0301}д"@);
    lemma_replace_all_strip_stress(w9, "фарад"@, "фара\u{0301}д"@);
    let w11 = replace_all(w10, "ом"@, "о\u{0301}м"@);
    lemma_replace_all_strip_stress(w10, "ом"@, "о\u{0301}м"@);
    let w12 = replace_all(w11, "паскаль"@, "паска\u{0301}ль"@);
    lemma_replace_all_strip_stress(w11, "паскаль"@, "паска\u{0301}ль"@);
    let w13 = replace_all(w12, "цельсія"@, "це\u{0301}льсія"@);
    lemma_replace_all_strip_stress(w12, "цельсія"@, "це\u{0301}льсія"@);
    assert(spec_stress_units(w) == w13);
}


proof fn lemma_keeps_absent(s: Seq<char>, q: Seq<char>, k1: int, k2: int, two: bool, p: Seq<char>)
    requires
        0 <= k1 <= k2 <= q.len(),
        mark_free(p),
        !occurs(s, p),
    ensures
        !occurs(replace_all(s, q, marked(q, k1, k2, two)), p),
{
    let e = Seq::<char>::empty();
    let t = replace_all(s, q, marked(q, k1, k2, two));
    assert(e + t =~= t);
    assert(e + s =~= s);
    if occurs(t, p) {
        lemma_marking_creates_nothing(e, s, q, k1, k2, two, p);
    }
}

proof fn lemma_removes(s: Seq<char>, q: Seq<char>, k1: int, k2: int, two: bool)
    requires
        0 < k1 <= k2 < q.len(),
        mark_free(q),
        no_self_overlap(q),
    ensures
        !occurs(replace_all(s, q, marked(q, k1, k2, two)), q),
{
    let e = Seq::<char>::empty();
    assert(e + s =~= s);
    assert(e + replace_all(s, q, marked(q, k1, k2, two)) =~= replace_all(s, q, marked(q, k1, k2, two)));
    lemma_marking_removes_pattern(e, s, q, k1, k2, two);
}

proof fn lemma_unit_patterns()
    ensures
        "вольт"@.len() == 5 && mark_free("вольт"@) && no_self_overlap("вольт"@) && "во\u{0301}льт"@ == marked("вольт"@, 2, 2, false),
        "ампер"@.len() == 5 && mark_free("ампер"@) && no_self_overlap("ампер"@) && "ампе\u{0301}р"@ == marked("ампер"@, 4, 4, false),
        "ват"@.len() == 3 && mark_free("ват"@) && no_self_overlap("ват"@) && "ва\u{0301}т"@ == marked("ват"@, 2, 2, false),
        "ват-годин"@.len() == 9 && mark_free("ват-годин"@) && no_self_overlap("ват-годин"@) && "ва\u{0301}т-годи\u{0301}н"@ == marked("ват-годин"@, 2, 8, true),
        "кіловат"@.len() == 7 && mark_free("кіловат"@) && no_self_overlap("кіловат"@) && "кілова\u{0301}т"@ == marked("кіловат"@, 6, 6, false),
        "кіловат-годин"@.len() == 13 && mark_free("кіловат-годин"@) && no_self_overlap("кіловат-годин"@) && "кілова\u{0301}т-годи\u{0301}н"@ == marked("кіловат-годин"@, 6, 12, true),
        "міліампер"@.len() == 9 && mark_free("міліампер"@) && no_self_overlap("міліампер"@) && "міліампе\u{0301}р"@ == marked("міліампер"@, 8, 8, false),
        "міліват"@.len() == 7 && mark_free("міліват"@) && no_self_overlap("міліват"@) && "міліва\u{0301}т"@ == marked("міліват"@, 6, 6, false),
        "герц"@.len() == 4 && mark_free("герц"@) && no_self_overlap("герц"@) && "ге\u{0301}рц"@ == marked("герц"@, 2, 2, false),
        "фарад"@.len() == 5 && mark_free("фарад"@) && no_self_overlap("фарад"@) && "фара\u{0301}д"@ == marked("фарад"@, 4, 4, false),
        "ом"@.len() == 2 && mark_free("ом"@) && no_self_overlap("ом"@) && "о\u{0301}м"@ == marked("ом"@, 1, 1, false),
        "паскаль"@.len() == 7 && mark_free("паскаль"@) && no_self_overlap("паскаль"@) && "паска\u{0301}ль"@ == marked("паскаль"@, 5, 5, false),
        "цельсія"@.len() == 7 && mark_free("цельсія"@) && no_self_overlap("цельсія"@) && "це\u{0301}льсія"@ == marked("цельсія"@, 2, 2, false),
{
    reveal_strlit("вольт");
    reveal_strlit("во\u{0301}льт");
    assert("во\u{0301}льт"@ =~= marked("вольт"@, 2, 2, false));
    reveal_strlit("ампер");
    reveal_strlit("ампе\u{0301}р");
    assert("ампе\u{0301}р"@ =~= marked("ампер"@, 4, 4, false));
    reveal_strlit("ват");
    reveal_strlit("ва\u{0301}т");
    assert("ва\u{0301}т"@ =~= marked("ват"@, 2, 2, false));
    reveal_strlit("ват-годин");
    reveal_strlit("ва\u{0301}т-годи\u{0301}н");
    assert("ва\u{0301}т-годи\u{0301}н"@ =~= marked("ват-годин"@, 2, 8, true));
    reveal_strlit("кіловат");
    reveal_strlit("кілова\u{0301}т");
    assert("кілова\u{0301}т"@ =~= marked("кіловат"@, 6, 6, false));
    reveal_strlit("кіловат-годин");
    reveal_strlit("кілова\u{0301}т-годи\u{0301}н");
    assert("кілова\u{0301}т-годи\u{0301}н"@ =~= marked("кіловат-годин"@, 6, 12, true));
    reveal_strlit("міліампер");
    reveal_strlit("міліампе\u{0301}р");
    assert("міліампе\u{0301}р"@ =~= marked("міліампер"@, 8, 8, false));
    reveal_strlit("міліват");
    reveal_strlit("міліва\u{0301}т");
    assert("міліва\u{0301}т"@ =~= marked("міліват"@, 6, 6, false));
    reveal_strlit("герц");
    reveal_strlit("ге\u{0301}рц");
    assert("ге\u{0301}рц"@ =~= marked("герц"@, 2, 2, false));
    reveal_strlit("фарад");
    reveal_strlit("фара\u{0301}д");
    assert("фара\u{0301}д"@ =~= marked("фарад"@, 4, 4, false));
    reveal_strlit("ом");
    reveal_strlit("о\u{0301}м");
    assert("о\u{0301}м"@ =~= marked("ом"@, 1, 1, false));
    reveal_strlit("паскаль");
    reveal_strlit("паска\u{0301}ль");
    assert("паска\u{0301}ль"@ =~= marked("паскаль"@, 5, 5, false));
    reveal_strlit("цельсія");
    reveal_strlit("це\u{0301}льсія");
    assert("це\u{0301}льсія"@ =~= marked("цельсія"@, 2, 2, false));
}

/// `with_stress_units` is idempotent: applying it to its own result
/// changes nothing.
#[verifier::rlimit(50)]
pub proof fn law_stress_units_idempotent(w: Seq<char>)
    ensures
        spec_stress_units(spec_stress_units(w)) == spec_stress_units(w),
{
    lemma_unit_patterns();
    let w0 = w;
    let w1 = replace_all(w0, "вольт"@, "во\u{0301}льт"@);
    lemma_removes(w0, "вольт"@, 2, 2, false);
    let w2 = replace_all(w1, "ампер"@, "ампе\u{0301}р"@);
    lemma_removes(w1, "ампер"@, 4, 4, false);
    lemma_keeps_absent(w1, "ампер"@, 4, 4, false, "вольт"@);
    let w3 = replace_all(w2, "ват"@, "ва\u{0301}т"@);
    lemma_removes(w2, "ват"@, 2, 2, false);
    lemma_keeps_absent(w2, "ват"@, 2, 2, false, "вольт"@);
    lemma_keeps_absent(w2, "ват"@, 2, 2, false, "ампер"@);
    let w4 = replace_all(w3, "ват-годин"@, "ва\u{0301}т-годи\u{0301}н"@);
    lemma_removes(w3, "ват-годин"@, 2, 8, true);
    lemma_keeps_absent(w3, "ват-годин"@, 2, 8, true, "вольт"@);
    lemma_keeps_absent(w3, "ват-годин"@, 2, 8, true, "ампер"@);
    lemma_keeps_absent(w3, "ват-годин"@, 2, 8, true, "ват"@);
    let w5 = replace_all(w4, "кіловат"@, "кілова\u{0301}т"@);
    lemma_removes(w4, "кіловат"@, 6, 6, false);
    lemma_keeps_absent(w4, "кіловат"@, 6, 6, false, "вольт"@);
    lemma_keeps_absent(w4, "кіловат"@, 6, 6, false, "ампер"@);
    lemma_keeps_absent(w4, "кіловат"@, 6, 6, false, "ват"@);
    lemma_keeps_absent(w4, "кіловат"@, 6, 6, false, "ват-годин"@);
    let w6 = replace_all(w5, "кіловат-годин"@, "кілова\u{0301}т-годи\u{0301}н"@);
    lemma_removes(w5, "кіловат-годин"@, 6, 12, true);
    lemma_keeps_absent(w5, "кіловат-годин"@, 6, 12, true, "вольт"@);
    lemma_keeps_absent(w5, "кіловат-годин"@, 6, 12, true, "ампер"@);
    lemma_keeps_absent(w5, "кіловат-годин"@, 6, 12, true, "ват"@);
    lemma_keeps_absent(w5, "кіловат-годин"@, 6, 12, true, "ват-годин"@);
    lemma_keeps_absent(w5, "кіловат-годин"@, 6, 12, true, "кіловат"@);
    let w7 = replace_all(w6, "міліампер"@, "міліампе\u{0301}р"@);
    lemma_removes(w6, "міліампер"@, 8, 8, false);
    lemma_keeps_absent(w6, "міліампер"@, 8, 8, false, "вольт"@);
    lemma_keeps_absent(w6, "міліампер"@, 8, 8, false, "ампер"@);
    lemma_keeps_absent(w6, "міліампер"@, 8, 8, false, "ват"@);
    lemma_keeps_absent(w6, "міліампер"@, 8, 8, false, "ват-годин"@);
    lemma_keeps_absent(w6, "міліампер"@, 8, 8, false, "кіловат"@);
    lemma_keeps_absent(w6, "міліампер"@, 8, 8, false, "кіловат-годин"@);
    let w8 = replace_all(w7, "міліват"@, "міліва\u{0301}т"@);
    lemma_removes(w7, "міліват"@, 6, 6, false);
    lemma_keeps_absent(w7, "міліват"@, 6, 6, false, "вольт"@);
    lemma_keeps_absent(w7, "міліват"@, 6, 6, false, "ампер"@);
    lemma_keeps_absent(w7, "міліват"@, 6, 6, false, "ват"@);
    lemma_keeps_absent(w7, "міліват"@, 6, 6, false, "ват-годин"@);
    lemma_keeps_absent(w7, "міліват"@, 6, 6, false, "кіловат"@);
    lemma_keeps_absent(w7, "міліват"@, 6, 6, false, "кіловат-годин"@);
    lemma_keeps_absent(w7, "міліват"@, 6, 6, false, "міліампер"@);
    let w9 = replace_all(w8, "герц"@, "ге\u{0301}рц"@);
    lemma_removes(w8, "герц"@, 2, 2, false);
    lemma_keeps_absent(w8, "герц"@, 2, 2, false, "вольт"@);
    lemma_keeps_absent(w8, "герц"@, 2, 2, false, "ампер"@);
    lemma_keeps_absent(w8, "герц"@, 2, 2, false, "ват"@);
    lemma_keeps_absent(w8, "герц"@, 2, 2, false, "ват-годин"@);
    lemma_keeps_absent(w8, "герц"@, 2, 2, false, "кіловат"@);
    lemma_keeps_absent(w8, "герц"@, 2, 2, false, "кіловат-годин"@);
    lemma_keeps_absent(w8, "герц"@, 2, 2, false, "міліампер"@);
    lemma_keeps_absent(w8, "герц"@, 2, 2, false, "міліват"@);
    let w10 = replace_all(w9, "фарад"@, "фара\u{0301}д"@);
    lemma_removes(w9, "фарад"@, 4, 4, false);
    lemma_keeps_absent(w9, "фарад"@, 4, 4, false, "вольт"@);
    lemma_keeps_absent(w9, "фарад"@, 4, 4, false, "ампер"@);
    lemma_keeps_absent(w9, "фарад"@, 4, 4, false, "ват"@);
    lemma_keeps_absent(w9, "фарад"@, 4, 4, false, "ват-годин"@);
    lemma_keeps_absent(w9, "фарад"@, 4, 4, false, "кіловат"@);
    lemma_keeps_absent(w9, "фарад"@, 4, 4, false, "кіловат-годин"@);
    lemma_keeps_absent(w9, "фарад"@, 4, 4, false, "міліампер"@);
    lemma_keeps_absent(w9, "фарад"@, 4, 4, false, "міліват"@);
    lemma_keeps_absent(w9, "фарад"@, 4, 4, false, "герц"@);
    let w11 = replace_all(w10, "ом"@, "о\u{0301}м"@);
    lemma_removes(w10, "ом"@, 1, 1, false);
    lemma_keeps_absent(w10, "ом"@, 1, 1, false, "вольт"@);
    lemma_keeps_absent(w10, "ом"@, 1, 1, false, "ампер"@);
    lemma_keeps_absent(w10, "ом"@, 1, 1, false, "ват"@);
    lemma_keeps_absent(w10, "ом"@, 1, 1, false, "ват-годин"@);
    lemma_keeps_absent(w10, "ом"@, 1, 1, false, "кіловат"@);
    lemma_keeps_absent(w10, "ом"@, 1, 1, false, "кіловат-годин"@);
    lemma_keeps_absent(w10, "ом"@, 1, 1, false, "міліампер"@);
    lemma_keeps_absent(w10, "ом"@, 1, 1, false, "міліват"@);
    lemma_keeps_absent(w10, "ом"@, 1, 1, false, "герц"@);
    lemma_keeps_absent(w10, "ом"@, 1, 1, false, "фарад"@);
    let w12 = replace_all(w11, "паскаль"@, "паска\u{0301}ль"@);
    lemma_removes(w11, "паскаль"@, 5, 5, false);
    lemma_keeps_absent(w11, "паскаль"@, 5, 5, false, "вольт"@);
    lemma_keeps_absent(w11, "паскаль"@, 5, 5, false, "ампер"@);
    lemma_keeps_absent(w11, "паскаль"@, 5, 5, false, "ват"@);
    lemma_keeps_absent(w11, "паскаль"@, 5, 5, false, "ват-годин"@);
    lemma_keeps_absent(w11, "паскаль"@, 5, 5, false, "кіловат"@);
    lemma_keeps_absent(w11, "паскаль"@, 5, 5, false, "кіловат-годин"@);
    lemma_keeps_absent(w11, "паскаль"@, 5, 5, false, "міліампер"@);
    lemma_keeps_absent(w11, "паскаль"@, 5, 5, false, "міліват"@);
    lemma_keeps_absent(w11, "паскаль"@, 5, 5, false, "герц"@);
    lemma_keeps_absent(w11, "паскаль"@, 5, 5, false, "фарад"@);
    lemma_keeps_absent(w11, "паскаль"@, 5, 5, false, "ом"@);
    let w13 = replace_all(w12, "цельсія"@, "це\u{0301}льсія"@);
    lemma_removes(w12, "цельсія"@, 2, 2, false);
    lemma_keeps_absent(w12, "цельсія"@, 2, 2, false, "вольт"@);
    lemma_keeps_absent(w12, "цельсія"@, 2, 2, false, "ампер"@);
    lemma_keeps_absent(w12, "цельсія"@, 2, 2, false, "ват"@);
    lemma_keeps_absent(w12, "цельсія"@, 2, 2, false, "ват-годин"@);
    lemma_keeps_absent(w12, "цельсія"@, 2, 2, false, "кіловат"@);
    lemma_keeps_absent(w12, "цельсія"@, 2, 2, false, "кіловат-годин"@);
    lemma_keeps_absent(w12, "цельсія"@, 2, 2, false, "міліампер"@);
    lemma_keeps_absent(w12, "цельсія"@, 2, 2, false, "міліват"@);
    lemma_keeps_absent(w12, "цельсія"@, 2, 2, false, "герц"@);
    lemma_keeps_absent(w12, "цельсія"@, 2, 2, false, "фарад"@);
    lemma_keeps_absent(w12, "цельсія"@, 2, 2, false, "ом"@);
    lemma_keeps_absent(w12, "цельсія"@, 2, 2, false, "паскаль"@);
    assert(spec_stress_units(w) == w13);
    lemma_replace_all_absent(w13, "вольт"@, "во\u{0301}льт"@);
    lemma_replace_all_absent(w13, "ампер"@, "ампе\u{0301}р"@);
    lemma_replace_all_absent(w13, "ват"@, "ва\u{0301}т"@);
    lemma_replace_all_absent(w13, "ват-годин"@, "ва\u{0301}т-годи\u{0301}н"@);
    lemma_replace_all_absent(w13, "кіловат"@, "кілова\u{0301}т"@);
    lemma_replace_all_absent(w13, "кіловат-годин"@, "кілова\u{0301}т-годи\u{0301}н"@);
    lemma_replace_all_absent(w13, "міліампер"@, "міліампе\u{0301}р"@);
    lemma_replace_all_absent(w13, "міліват"@, "міліва\u{0301}т"@);
    lemma_replace_all_absent(w13, "герц"@, "ге\u{0301}рц"@);
    lemma_replace_all_absent(w13, "фарад"@, "фара\u{0301}д"@);
    lemma_replace_all_absent(w13, "ом"@, "о\u{0301}м"@);
    lemma_replace_all_absent(w13, "паскаль"@, "паска\u{0301}ль"@);
    lemma_replace_all_absent(w13, "цельсія"@, "це\u{0301}льсія"@);
}

} // verus!
