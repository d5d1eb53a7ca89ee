//! Character-level helpers shared by the normalisation pipeline.
//!
//! Text is handled as sequences of `char`; a string slice is viewed as the
//! sequence of its characters.

use vstd::prelude::*;

verus! {

/// The combining acute accent that marks stress after a vowel.
pub const STRESS_MARK: char = '\u{0301}';

/// Whether `c` is one of the ten ASCII digits.
pub open spec fn spec_is_digit(c: char) -> bool {
    '0' <= c && c <= '9'
}

/// Whether `c` has the Unicode White_Space property, as `char::is_whitespace`
/// asks: the controls U+0009 to U+000D, the space, U+0085, the no-break
/// space, U+1680, U+2000 to U+200A, the line and paragraph separators,
/// U+202F, U+205F and U+3000.
pub open spec fn char_is_whitespace(c: char) -> bool {
    ('\u{0009}' <= c && c <= '\u{000D}') || c == ' ' || c == '\u{0085}' || c == '\u{00A0}' || c == '\u{1680}'
        || ('\u{2000}' <= c && c <= '\u{200A}') || c == '\u{2028}' || c == '\u{2029}' || c == '\u{202F}'
        || c == '\u{205F}' || c == '\u{3000}'
}

/// Name for what `char::is_uppercase` returns.
pub uninterp spec fn char_is_uppercase(c: char) -> bool;

/// Name for what `char::is_alphanumeric` returns.
pub uninterp spec fn char_is_alphanumeric(c: char) -> bool;

/// Name for the first character that `char::to_lowercase` yields for `c`
/// (the character itself where it yields none).
pub uninterp spec fn char_lower_first(c: char) -> char;

/// Name for what `str::to_lowercase` returns.
pub uninterp spec fn str_lowercase(s: Seq<char>) -> Seq<char>;

/// Whether `c` has the Unicode White_Space property (see
/// `char_is_whitespace`).
pub fn is_whitespace(c: char) -> (b: bool)
    ensures
        b == char_is_whitespace(c),
{
    ('\u{0009}' <= c && c <= '\u{000D}') || c == ' ' || c == '\u{0085}' || c == '\u{00A0}' || c == '\u{1680}'
        || ('\u{2000}' <= c && c <= '\u{200A}') || c == '\u{2028}' || c == '\u{2029}' || c == '\u{202F}'
        || c == '\u{205F}' || c == '\u{3000}'
}

/// Calls `char::is_uppercase`; the result is named `char_is_uppercase`.
#[verifier::external_body]
pub(crate) fn is_uppercase(c: char) -> (b: bool)
    ensures
        b == char_is_uppercase(c),
{
    c.is_uppercase()
}

/// Calls `char::is_alphanumeric`; the result is named `char_is_alphanumeric`.
#[verifier::external_body]
pub(crate) fn is_alphanumeric(c: char) -> (b: bool)
    ensures
        b == char_is_alphanumeric(c),
{
    c.is_alphanumeric()
}

/// Calls `char::to_lowercase` and takes its first character (`c` itself if
/// there is none); the result is named `char_lower_first`.
#[verifier::external_body]
pub(crate) fn lower_first(c: char) -> (r: char)
    ensures
        r == char_lower_first(c),
{
    c.to_lowercase().next().unwrap_or(c)
}

/// Calls `str::to_lowercase`; the result is named `str_lowercase` of the
/// argument's characters.
#[verifier::external_body]
fn lowercase_str(s: &str) -> (r: String)
    ensures
        r@ == str_lowercase(s@),
{
    s.to_lowercase()
}

/// Builds a `String` from characters with `FromIterator`; its characters are
/// exactly the given ones, in order.
#[verifier::external_body]
pub(crate) fn from_chars(v: &[char]) -> (s: String)
    ensures
        s@ == v@,
{
    v.iter().collect()
}

/// Whether `c` is an ASCII digit.
pub fn is_digit(c: char) -> (b: bool)
    ensures
        b == spec_is_digit(c),
{
    '0' <= c && c <= '9'
}

/// Copies the characters of a string slice into a vector.
pub fn to_chars(s: &str) -> (v: Vec<char>)
    ensures
        v@ == s@,
{
    let mut v: Vec<char> = Vec::new();
    for c in it: s.chars()
        invariant
            v@ == it.seq().take(it.index() as int),
            it.seq() == s@,
    {
        v.push(c);
    }
    v
}

/// Lower-cases a character sequence as `str::to_lowercase` does.
pub fn lower(v: &[char]) -> (r: Vec<char>)
    ensures
        r@ == str_lowercase(v@),
{
    let s = from_chars(v);
    let l = lowercase_str(s.as_str());
    to_chars(l.as_str())
}

/// Whether two character sequences are equal.
pub fn chars_eq(a: &[char], b: &[char]) -> (r: bool)
    ensures
        r == (a@ == b@),
{
    if a.len() != b.len() {
        return false;
    }
    let mut i: usize = 0;
    while i < a.len()
        invariant
            a@.len() == b@.len(),
            i <= a@.len(),
            forall|j: int| 0 <= j < i ==> a@[j] == b@[j],
        decreases a.len() - i,
    {
        if a[i] != b[i] {
            return false;
        }
        i = i + 1;
    }
    assert(a@ =~= b@);
    true
}

/// Whether a character sequence equals a string literal.
pub fn eq_str(a: &[char], s: &str) -> (r: bool)
    ensures
        r == (a@ == s@),
{
    let b = to_chars(s);
    chars_eq(a, b.as_slice())
}

/// Whether `a` ends with `b`.
pub fn ends_with_chars(a: &[char], b: &[char]) -> (r: bool)
    ensures
        r == (b@.len() <= a@.len() && a@.subrange(a@.len() - b@.len(), a@.len() as int) == b@),
{
    if b.len() > a.len() {
        return false;
    }
    let alen: usize = a.len();
    let off: usize = alen - b.len();
    let mut i: usize = 0;
    while i < b.len()
        invariant
            alen == a@.len(),
            off as int + b@.len() == a@.len(),
            i <= b@.len(),
            forall|j: int| 0 <= j < i ==> a@[off + j] == b@[j],
        decreases b.len() - i,
    {
        if a[off + i] != b[i] {
            assert(a@.subrange(off as int, a@.len() as int)[i as int] != b@[i as int]);
            return false;
        }
        i = i + 1;
    }
    assert(a@.subrange(off as int, a@.len() as int) =~= b@);
    true
}

/// Whether `a` ends with the characters of `s`.
pub fn ends_with(a: &[char], s: &str) -> (r: bool)
    ensures
        r == (s@.len() <= a@.len() && a@.subrange(a@.len() - s@.len(), a@.len() as int) == s@),
{
    let b = to_chars(s);
    ends_with_chars(a, b.as_slice())
}

/// Whether `a` starts with `b`.
pub fn starts_with_chars(a: &[char], b: &[char]) -> (r: bool)
    ensures
        r == (b@.len() <= a@.len() && a@.subrange(0, b@.len() as int) == b@),
{
    if b.len() > a.len() {
        return false;
    }
    let mut i: usize = 0;
    while i < b.len()
        invariant
            b@.len() <= a@.len(),
            i <= b@.len(),
            forall|j: int| 0 <= j < i ==> a@[j] == b@[j],
        decreases b.len() - i,
    {
        if a[i] != b[i] {
            assert(a@.subrange(0, b@.len() as int)[i as int] != b@[i as int]);
            return false;
        }
        i = i + 1;
    }
    assert(a@.subrange(0, b@.len() as int) =~= b@);
    true
}

/// Whether `a` starts with the characters of `s`.
pub fn starts_with(a: &[char], s: &str) -> (r: bool)
    ensures
        r == (s@.len() <= a@.len() && a@.subrange(0, s@.len() as int) == s@),
{
    let b = to_chars(s);
    starts_with_chars(a, b.as_slice())
}

/// Appends the characters of `s` to `v`.
pub fn push_str(v: &mut Vec<char>, s: &str)
    ensures
        final(v)@ == old(v)@ + s@,
{
    let b = to_chars(s);
    push_chars(v, b.as_slice());
}

/// Appends the characters of `b` to `v`.
pub fn push_chars(v: &mut Vec<char>, b: &[char])
    ensures
        final(v)@ == old(v)@ + b@,
{
    let mut i: usize = 0;
    while i < b.len()
        invariant
            i <= b@.len(),
            v@ == old(v)@ + b@.take(i as int),
        decreases b.len() - i,
    {
        v.push(b[i]);
        i = i + 1;
        assert(b@.take(i as int) =~= b@.take(i - 1) + seq![b@[i - 1]]);
    }
    assert(b@.take(b@.len() as int) =~= b@);
}

/// The sequence with every stress mark removed.
pub open spec fn strip_stress(s: Seq<char>) -> Seq<char>
    decreases s.len(),
{
    if s.len() == 0 {
        s
    } else if s.last() == STRESS_MARK {
        strip_stress(s.drop_last())
    } else {
        strip_stress(s.drop_last()).push(s.last())
    }
}

/// Removes every stress mark.
pub fn remove_stress(a: &[char]) -> (r: Vec<char>)
    ensures
        r@ == strip_stress(a@),
{
    let mut r: Vec<char> = Vec::new();
    let mut i: usize = 0;
    while i < a.len()
        invariant
            i <= a@.len(),
            r@ == strip_stress(a@.take(i as int)),
        decreases a.len() - i,
    {
        assert(a@.take(i + 1).drop_last() =~= a@.take(i as int));
        if a[i] != STRESS_MARK {
            r.push(a[i]);
        }
        i = i + 1;
    }
    assert(a@.take(a@.len() as int) =~= a@);
    r
}

} // verus!

verus! {

/// The first `n` characters of `a`.
pub fn slice_prefix(a: &[char], n: usize) -> (r: Vec<char>)
    requires
        n <= a@.len(),
    ensures
        r@ == a@.take(n as int),
{
    let mut r: Vec<char> = Vec::new();
    let mut i: usize = 0;
    while i < n
        invariant
            n <= a@.len(),
            i <= n,
            r@ == a@.take(i as int),
        decreases n - i,
    {
        r.push(a[i]);
        i = i + 1;
        assert(a@.take(i as int) =~= a@.take(i - 1).push(a@[i - 1]));
    }
    r
}

/// The characters of `a` from index `from` up to `to`.
pub fn slice_range(a: &[char], from: usize, to: usize) -> (r: Vec<char>)
    requires
        from <= to <= a@.len(),
    ensures
        r@ == a@.subrange(from as int, to as int),
{
    let mut r: Vec<char> = Vec::new();
    let mut i: usize = from;
    while i < to
        invariant
            from <= i <= to <= a@.len(),
            r@ == a@.subrange(from as int, i as int),
        decreases to - i,
    {
        r.push(a[i]);
        i = i + 1;
        assert(a@.subrange(from as int, i as int) =~= a@.subrange(from as int, i - 1).push(a@[i - 1]));
    }
    r
}

} // verus!

verus! {

/// `s` with every non-overlapping occurrence of `p`, taken from the left,
/// replaced by `r`.
pub open spec fn replace_all(s: Seq<char>, p: Seq<char>, r: Seq<char>) -> Seq<char>
    decreases s.len(),
{
    if p.len() == 0 || s.len() < p.len() {
        s
    } else if s.take(p.len() as int) == p {
        r + replace_all(s.skip(p.len() as int), p, r)
    } else {
        seq![s[0]] + replace_all(s.skip(1), p, r)
    }
}

/// Replaces every non-overlapping occurrence of the pattern `p`, taken from
/// the left, by `r` (an empty pattern leaves `s` as it is).
pub fn replace_chars(s: &[char], p: &str, r: &str) -> (out: Vec<char>)
    ensures
        out@ == replace_all(s@, p@, r@),
{
    let pv = to_chars(p);
    let rv = to_chars(r);
    if pv.len() == 0 {
        return slice_prefix(s, s.len());
    }
    let mut out: Vec<char> = Vec::new();
    let mut i: usize = 0;
    let n = s.len();
    assert(s@.take(n as int) =~= s@);
    assert(s@.skip(0) =~= s@);
    while i < n
        invariant
            n == s@.len(),
            i <= n,
            pv@ == p@,
            rv@ == r@,
            pv@.len() > 0,
            out@ + replace_all(s@.skip(i as int), p@, r@) == replace_all(s@, p@, r@),
        decreases n - i,
    {
        let ghost rest = s@.skip(i as int);
        if n - i >= pv.len() && matches_at(s, i, pv.as_slice()) {
            assert(rest.take(p@.len() as int) =~= s@.subrange(i as int, i + p@.len()));
            assert(rest.skip(p@.len() as int) =~= s@.skip(i + p@.len()));
            push_chars(&mut out, rv.as_slice());
            assert(out@ + replace_all(s@.skip(i + p@.len()), p@, r@) =~= old_out_concat(out@, rv@, s@, i, p@, r@));
            i = i + pv.len();
        } else {
            if n - i >= pv.len() {
                assert(rest.take(p@.len() as int) =~= s@.subrange(i as int, i + p@.len()));
            } else {
                assert(replace_all(rest.skip(1), p@, r@) == rest.skip(1));
                assert(seq![rest[0]] + rest.skip(1) =~= rest);
            }
            assert(rest.skip(1) =~= s@.skip(i + 1));
            out.push(s[i]);
            i = i + 1;
        }
    }
    assert(s@.skip(n as int) =~= Seq::<char>::empty());
    out
}

spec fn old_out_concat(o: Seq<char>, rv: Seq<char>, s: Seq<char>, i: usize, p: Seq<char>, r: Seq<char>) -> Seq<char> {
    o + replace_all(s.skip(i + p.len()), p, r)
}

/// Whether `p` occurs in `s` at index `i`.
pub fn matches_at(s: &[char], i: usize, p: &[char]) -> (b: bool)
    requires
        i + p@.len() <= s@.len(),
    ensures
        b == (s@.subrange(i as int, i + p@.len()) == p@),
{
    let slen = s.len();
    let mut j: usize = 0;
    while j < p.len()
        invariant
            slen == s@.len(),
            i + p@.len() <= s@.len(),
            j <= p@.len(),
            forall|k: int| 0 <= k < j ==> s@[i + k] == p@[k],
        decreases p.len() - j,
    {
        if s[i + j] != p[j] {
            assert(s@.subrange(i as int, i + p@.len())[j as int] != p@[j as int]);
            return false;
        }
        j = j + 1;
    }
    assert(s@.subrange(i as int, i + p@.len()) =~= p@);
    true
}

/// Whether `s` contains the character `c`.
pub fn contains_char(s: &[char], c: char) -> (b: bool)
    ensures
        b == s@.contains(c),
{
    let mut i: usize = 0;
    while i < s.len()
        invariant
            i <= s@.len(),
            forall|k: int| 0 <= k < i ==> s@[k] != c,
        decreases s.len() - i,
    {
        if s[i] == c {
            return true;
        }
        i = i + 1;
    }
    false
}

} // verus!

verus! {

/// The words joined with `sep` between each two.
pub open spec fn join_words(ws: Seq<Seq<char>>, sep: Seq<char>) -> Seq<char>
    decreases ws.len(),
{
    if ws.len() == 0 {
        Seq::empty()
    } else if ws.len() == 1 {
        ws[0]
    } else {
        join_words(ws.drop_last(), sep) + sep + ws.last()
    }
}

/// The character sequences of a vector of character vectors.
pub open spec fn views_of(ws: Seq<Vec<char>>) -> Seq<Seq<char>> {
    ws.map_values(|v: Vec<char>| v@)
}

/// Joins the words with `sep` between each two.
pub fn join_chars(ws: &Vec<Vec<char>>, sep: &str) -> (r: Vec<char>)
    ensures
        r@ == join_words(views_of(ws@), sep@),
{
    let mut r: Vec<char> = Vec::new();
    let mut i: usize = 0;
    while i < ws.len()
        invariant
            i <= ws@.len(),
            r@ == join_words(views_of(ws@).take(i as int), sep@),
        decreases ws.len() - i,
    {
        assert(views_of(ws@).take(i + 1).drop_last() =~= views_of(ws@).take(i as int));
        if i > 0 {
            push_str(&mut r, sep);
        } else {
            assert(views_of(ws@).take(0) =~= Seq::<Seq<char>>::empty());
        }
        push_chars(&mut r, ws[i].as_slice());
        i = i + 1;
        assert(views_of(ws@).take(i as int).last() == ws@[i - 1]@);
    }
    assert(views_of(ws@).take(ws@.len() as int) =~= views_of(ws@));
    r
}

/// `s` without its trailing whitespace.
pub open spec fn trim_end_ws(s: Seq<char>) -> Seq<char>
    decreases s.len(),
{
    if s.len() > 0 && char_is_whitespace(s.last()) {
        trim_end_ws(s.drop_last())
    } else {
        s
    }
}

/// `s` without its leading whitespace.
pub open spec fn trim_start_ws(s: Seq<char>) -> Seq<char>
    decreases s.len(),
{
    if s.len() > 0 && char_is_whitespace(s[0]) {
        trim_start_ws(s.skip(1))
    } else {
        s
    }
}

/// The longest run of non-whitespace characters that ends `s`.
pub open spec fn last_run(s: Seq<char>) -> Seq<char>
    decreases s.len(),
{
    if s.len() == 0 || char_is_whitespace(s.last()) {
        Seq::empty()
    } else {
        last_run(s.drop_last()).push(s.last())
    }
}

/// The last whitespace-separated word of `s` (empty when there is none).
pub open spec fn last_word(s: Seq<char>) -> Seq<char> {
    last_run(trim_end_ws(s))
}

/// The last whitespace-separated word of `s` (empty when there is none).
pub fn last_word_of(s: &[char]) -> (r: Vec<char>)
    ensures
        r@ == last_word(s@),
{
    let mut end: usize = s.len();
    assert(s@.take(end as int) =~= s@);
    while end > 0 && is_whitespace(s[end - 1])
        invariant
            end <= s@.len(),
            trim_end_ws(s@) == trim_end_ws(s@.take(end as int)),
        decreases end,
    {
        assert(s@.take(end as int).drop_last() =~= s@.take(end - 1));
        end = end - 1;
    }
    let ghost t = s@.take(end as int);
    assert(trim_end_ws(t) == t);
    let mut start: usize = end;
    assert(t.subrange(start as int, end as int) =~= Seq::<char>::empty());
    assert(t.take(start as int) =~= t);
    assert(last_run(t) + Seq::<char>::empty() =~= last_run(t));
    while start > 0 && !is_whitespace(s[start - 1])
        invariant
            start <= end <= s@.len(),
            t == s@.take(end as int),
            last_run(t) == last_run(t.take(start as int)) + t.subrange(start as int, end as int),
        decreases start,
    {
        assert(t.take(start as int).drop_last() =~= t.take(start - 1));
        assert(t.subrange(start - 1, end as int) =~= seq![t[start - 1]] + t.subrange(start as int, end as int));
        start = start - 1;
    }
    assert(last_run(t.take(start as int)) =~= Seq::<char>::empty());
    slice_range(s, start, end)
}

} // verus!

verus! {

/// Whether `p` occurs somewhere in `s`.
pub open spec fn seq_contains_sub(s: Seq<char>, p: Seq<char>) -> bool {
    exists|i: int| 0 <= i && i + p.len() <= s.len() && #[trigger] s.subrange(i, i + p.len()) == p
}

/// Whether the characters of `p` occur somewhere in `s`.
pub fn contains_str(s: &[char], p: &str) -> (b: bool)
    ensures
        b == seq_contains_sub(s@, p@),
{
    let pv = to_chars(p);
    let n = s.len();
    if pv.len() > n {
        return false;
    }
    let m: usize = n - pv.len();
    let mut i: usize = 0;
    while i <= m
        invariant
            n == s@.len(),
            pv@ == p@,
            pv@.len() <= n,
            m == n - pv@.len(),
            i <= m + 1,
            forall|k: int| 0 <= k < i ==> #[trigger] s@.subrange(k, k + p@.len()) != p@,
        decreases n - i,
    {
        if matches_at(s, i, pv.as_slice()) {
            return true;
        }
        if i == m {
            return false;
        }
        i = i + 1;
    }
    false
}

} // verus!

verus! {

/// The pieces of `s` between occurrences of `sep`, as `str::split` gives
/// them (one piece more than there are separators).
pub open spec fn split_char(s: Seq<char>, sep: char) -> Seq<Seq<char>>
    decreases s.len(),
{
    if s.len() == 0 {
        seq![Seq::empty()]
    } else {
        let rest = split_char(s.drop_last(), sep);
        if s.last() == sep {
            rest.push(Seq::empty())
        } else {
            rest.update(rest.len() - 1, rest.last().push(s.last()))
        }
    }
}

/// Splits `s` at every occurrence of `sep`, as `str::split` does.
pub fn split_at_char(s: &[char], sep: char) -> (r: Vec<Vec<char>>)
    ensures
        views_of(r@) == split_char(s@, sep),
        r@.len() >= 1,
{
    let mut r: Vec<Vec<char>> = Vec::new();
    let mut cur: Vec<char> = Vec::new();
    let mut i: usize = 0;
    assert(s@.take(0) =~= Seq::<char>::empty());
    while i < s.len()
        invariant
            i <= s@.len(),
            views_of(r@).push(cur@) =~= split_char(s@.take(i as int), sep),
        decreases s.len() - i,
    {
        assert(s@.take(i + 1).drop_last() =~= s@.take(i as int));
        let ghost before = views_of(r@).push(cur@);
        if s[i] == sep {
            let done = cur;
            r.push(done);
            cur = Vec::new();
            assert(views_of(r@).push(cur@) =~= before.push(Seq::<char>::empty()));
        } else {
            cur.push(s[i]);
            assert(views_of(r@).push(cur@) =~= before.update(before.len() - 1, before.last().push(s@[i as int])));
        }
        i = i + 1;
    }
    assert(s@.take(s@.len() as int) =~= s@);
    let ghost before = views_of(r@);
    r.push(cur);
    assert(views_of(r@) =~= before.push(cur@));
    r
}

} // verus!

verus! {

/// Number of ASCII digits that `w` starts with.
pub open spec fn digit_prefix_len(w: Seq<char>) -> nat
    decreases w.len(),
{
    if w.len() > 0 && spec_is_digit(w[0]) {
        1 + digit_prefix_len(w.skip(1))
    } else {
        0
    }
}

pub proof fn lemma_digit_prefix_len(w: Seq<char>)
    ensures
        digit_prefix_len(w) <= w.len(),
        forall|j: int| 0 <= j < digit_prefix_len(w) ==> spec_is_digit(#[trigger] w[j]),
        digit_prefix_len(w) < w.len() ==> !spec_is_digit(w[digit_prefix_len(w) as int]),
    decreases w.len(),
{
    if w.len() > 0 && spec_is_digit(w[0]) {
        lemma_digit_prefix_len(w.skip(1));
        assert forall|j: int| 0 <= j < digit_prefix_len(w) implies spec_is_digit(#[trigger] w[j]) by {
            if j > 0 {
                assert(w[j] == w.skip(1)[j - 1]);
            }
        }
    }
}

/// Number of ASCII digits that `w[from..]` starts with.
pub fn digit_prefix_len_from(w: &[char], from: usize) -> (n: usize)
    requires
        from <= w@.len(),
    ensures
        n as nat == digit_prefix_len(w@.skip(from as int)),
        from + n <= w@.len(),
{
    let mut i: usize = from;
    assert(w@.skip(from as int).skip(0) =~= w@.skip(from as int));
    while i < w.len() && is_digit(w[i])
        invariant
            from <= i <= w@.len(),
            digit_prefix_len(w@.skip(from as int)) == (i - from) + digit_prefix_len(w@.skip(i as int)),
        decreases w.len() - i,
    {
        assert(w@.skip(i as int).skip(1) =~= w@.skip(i + 1));
        i = i + 1;
    }
    i - from
}

/// Number of ASCII digits that `w` starts with.
pub fn digit_prefix_len_exec(w: &[char]) -> (n: usize)
    ensures
        n as nat == digit_prefix_len(w@),
        n <= w@.len(),
{
    assert(w@.skip(0) =~= w@);
    digit_prefix_len_from(w, 0)
}

/// Number of characters at the front of `s` whose whitespace-ness is `ws`.
pub open spec fn run_len(s: Seq<char>, ws: bool) -> nat
    decreases s.len(),
{
    if s.len() > 0 && char_is_whitespace(s[0]) == ws {
        1 + run_len(s.skip(1), ws)
    } else {
        0
    }
}

pub proof fn lemma_run_len(s: Seq<char>, ws: bool)
    ensures
        run_len(s, ws) <= s.len(),
        s.len() > 0 && char_is_whitespace(s[0]) == ws ==> run_len(s, ws) >= 1,
    decreases s.len(),
{
    if s.len() > 0 && char_is_whitespace(s[0]) == ws {
        lemma_run_len(s.skip(1), ws);
    }
}

/// End of the run of characters, from `from` on, whose whitespace-ness is
/// `ws`.
pub fn run_end(s: &[char], from: usize, ws: bool) -> (e: usize)
    requires
        from <= s@.len(),
    ensures
        e == from + run_len(s@.skip(from as int), ws),
        e <= s@.len(),
{
    let mut i: usize = from;
    assert(s@.skip(from as int).skip(0) =~= s@.skip(from as int));
    while i < s.len() && is_whitespace(s[i]) == ws
        invariant
            from <= i <= s@.len(),
            run_len(s@.skip(from as int), ws) == (i - from) + run_len(s@.skip(i as int), ws),
        decreases s.len() - i,
    {
        assert(s@.skip(i as int).skip(1) =~= s@.skip(i + 1));
        i = i + 1;
    }
    i
}

} // verus!

verus! {

/// Whether some character of `s` is an ASCII digit.
pub open spec fn has_digit(s: Seq<char>) -> bool {
    exists|i: int| 0 <= i < s.len() && spec_is_digit(#[trigger] s[i])
}

/// Whether some character of `s` is an ASCII digit.
pub fn has_digit_exec(s: &[char]) -> (b: bool)
    ensures
        b == has_digit(s@),
{
    let mut i: usize = 0;
    while i < s.len()
        invariant
            i <= s@.len(),
            forall|j: int| 0 <= j < i ==> !spec_is_digit(#[trigger] s@[j]),
        decreases s.len() - i,
    {
        if is_digit(s[i]) {
            return true;
        }
        i = i + 1;
    }
    false
}

/// Whether every character of `s` is alphanumeric.
pub open spec fn all_alphanumeric(s: Seq<char>) -> bool {
    forall|i: int| 0 <= i < s.len() ==> char_is_alphanumeric(#[trigger] s[i])
}

/// Whether every character of `s` is alphanumeric.
pub fn all_alphanumeric_exec(s: &[char]) -> (b: bool)
    ensures
        b == all_alphanumeric(s@),
{
    let mut i: usize = 0;
    while i < s.len()
        invariant
            i <= s@.len(),
            forall|j: int| 0 <= j < i ==> char_is_alphanumeric(#[trigger] s@[j]),
        decreases s.len() - i,
    {
        if !is_alphanumeric(s[i]) {
            return false;
        }
        i = i + 1;
    }
    true
}

} // verus!

verus! {

/// The whitespace-separated words of `s`, as `str::split_whitespace` gives
/// them.
pub open spec fn ws_words(s: Seq<char>) -> Seq<Seq<char>>
    decreases s.len(),
{
    if s.len() == 0 {
        Seq::empty()
    } else {
        let ws = char_is_whitespace(s[0]);
        let k = run_len(s, ws);
        proof {
            lemma_run_len(s, ws);
        }
        if ws {
            ws_words(s.skip(k as int))
        } else {
            seq![s.take(k as int)] + ws_words(s.skip(k as int))
        }
    }
}

/// Splits `s` into its whitespace-separated words.
pub fn split_ws(s: &[char]) -> (r: Vec<Vec<char>>)
    ensures
        views_of(r@) == ws_words(s@),
{
    let mut r: Vec<Vec<char>> = Vec::new();
    let n = s.len();
    let mut i: usize = 0;
    assert(s@.skip(0) =~= s@);
    assert(views_of(r@) =~= Seq::<Seq<char>>::empty());
    while i < n
        invariant
            n == s@.len(),
            i <= n,
            views_of(r@) + ws_words(s@.skip(i as int)) == ws_words(s@),
        decreases n - i,
    {
        let ghost rest = s@.skip(i as int);
        let ws = is_whitespace(s[i]);
        let j = run_end(s, i, ws);
        proof { lemma_run_len(rest, ws); }
        assert(rest.skip((j - i) as int) =~= s@.skip(j as int));
        if !ws {
            let w = slice_range(s, i, j);
            assert(w@ =~= rest.take((j - i) as int));
            let ghost before = r@;
            r.push(w);
            assert(views_of(r@) =~= views_of(before).push(w@));
            assert(views_of(r@) + ws_words(s@.skip(j as int)) =~= views_of(before) + ws_words(rest));
        }
        i = j;
    }
    assert(s@.skip(n as int) =~= Seq::<char>::empty());
    assert(views_of(r@) + Seq::<Seq<char>>::empty() =~= views_of(r@));
    r
}

/// The words of `s` joined with single spaces.
pub open spec fn squash_ws(s: Seq<char>) -> Seq<char> {
    join_words(ws_words(s), " "@)
}

/// The words of `s` joined with single spaces.
pub fn squash_ws_chars(s: &[char]) -> (r: Vec<char>)
    ensures
        r@ == squash_ws(s@),
{
    let ws = split_ws(s);
    join_chars(&ws, " ")
}

/// The character of a decimal digit.
pub open spec fn digit_char(d: nat) -> char {
    (48 + d) as char
}

/// The decimal digits of a natural number.
pub open spec fn nat_digits(n: nat) -> Seq<char>
    decreases n,
{
    if n < 10 {
        seq![digit_char(n)]
    } else {
        nat_digits(n / 10).push(digit_char(n % 10))
    }
}

/// An integer in decimal, with '-' before a negative one, as `to_string`
/// writes it.
pub open spec fn int_digits(n: int) -> Seq<char> {
    if n < 0 { seq!['-'] + nat_digits((-n) as nat) } else { nat_digits(n as nat) }
}

/// Writes an unsigned integer in decimal.
pub fn u64_to_chars(n: u64) -> (r: Vec<char>)
    ensures
        r@ == nat_digits(n as nat),
    decreases n,
{
    if n < 10 {
        let c = ('0' as u8 + n as u8) as char;
        assert(c == digit_char(n as nat));
        let v = vec![c];
        assert(v@ =~= seq![c]);
        v
    } else {
        let mut r = u64_to_chars(n / 10);
        let d = n % 10;
        let c = ('0' as u8 + d as u8) as char;
        assert(c == digit_char((n % 10) as nat));
        r.push(c);
        r
    }
}

/// Writes an integer in decimal, with '-' before a negative one.
pub fn i64_to_chars(n: i64) -> (r: Vec<char>)
    ensures
        r@ == int_digits(n as int),
{
    if n < 0 {
        let m = (-(n as i128)) as u64;
        let d = u64_to_chars(m);
        let mut r = vec!['-'];
        push_chars(&mut r, d.as_slice());
        assert(r@ =~= seq!['-'] + d@);
        r
    } else {
        u64_to_chars(n as u64)
    }
}

/// Whether `t` is spaced as joined words are: no whitespace at either end,
/// no whitespace but the plain space, and never two whitespace characters
/// in a row.
pub open spec fn is_single_spaced(t: Seq<char>) -> bool {
    &&& t.len() > 0 ==> !char_is_whitespace(t[0]) && !char_is_whitespace(t.last())
    &&& forall|j: int| 0 <= j < t.len() && char_is_whitespace(#[trigger] t[j]) ==> t[j] == ' '
    &&& forall|j: int| 0 <= j < t.len() - 1 && char_is_whitespace(#[trigger] t[j]) ==> !char_is_whitespace(t[j + 1])
}

/// Whether `w` is a word: not empty, and without whitespace.
pub open spec fn is_bare_word(w: Seq<char>) -> bool {
    w.len() > 0 && forall|j: int| 0 <= j < w.len() ==> !char_is_whitespace(#[trigger] w[j])
}

proof fn lemma_run_len_chars(s: Seq<char>, ws: bool)
    ensures
        forall|j: int| 0 <= j < run_len(s, ws) ==> char_is_whitespace(#[trigger] s[j]) == ws,
    decreases s.len(),
{
    lemma_run_len(s, ws);
    if s.len() > 0 && char_is_whitespace(s[0]) == ws {
        lemma_run_len_chars(s.skip(1), ws);
        assert forall|j: int| 0 <= j < run_len(s, ws) implies char_is_whitespace(#[trigger] s[j]) == ws by {
            if j > 0 {
                assert(s[j] == s.skip(1)[j - 1]);
            }
        }
    }
}

/// Every word that `ws_words` gives is a bare word.
pub proof fn lemma_ws_words_bare(s: Seq<char>)
    ensures
        forall|k: int| 0 <= k < ws_words(s).len() ==> is_bare_word(#[trigger] ws_words(s)[k]),
    decreases s.len(),
{
    if s.len() > 0 {
        let ws = char_is_whitespace(s[0]);
        let k = run_len(s, ws);
        lemma_run_len(s, ws);
        lemma_run_len_chars(s, ws);
        lemma_ws_words_bare(s.skip(k as int));
        if ws {
            assert(ws_words(s) == ws_words(s.skip(k as int)));
        } else {
            let w = s.take(k as int);
            assert(ws_words(s) == seq![w] + ws_words(s.skip(k as int)));
            assert(is_bare_word(w)) by {
                assert forall|j: int| 0 <= j < w.len() implies !char_is_whitespace(#[trigger] w[j]) by {
                    assert(w[j] == s[j]);
                }
            }
            assert forall|i: int| 0 <= i < ws_words(s).len() implies is_bare_word(#[trigger] ws_words(s)[i]) by {
                if i > 0 {
                    assert(ws_words(s)[i] == ws_words(s.skip(k as int))[i - 1]);
                }
            }
        }
    }
}

proof fn lemma_join_single_spaced(ws: Seq<Seq<char>>)
    requires
        forall|k: int| 0 <= k < ws.len() ==> is_bare_word(#[trigger] ws[k]),
    ensures
        is_single_spaced(join_words(ws, " "@)),
        ws.len() > 0 ==> join_words(ws, " "@).len() > 0,
    decreases ws.len(),
{
    reveal_strlit(" ");
    if ws.len() == 1 {
        let w = ws[0];
        assert(is_bare_word(w));
    } else if ws.len() > 1 {
        let init = ws.drop_last();
        assert forall|k: int| 0 <= k < init.len() implies is_bare_word(#[trigger] init[k]) by {
            assert(init[k] == ws[k]);
        }
        lemma_join_single_spaced(init);
        let a = join_words(init, " "@);
        let b = ws.last();
        assert(is_bare_word(b));
        let t = join_words(ws, " "@);
        assert(t == a + " "@ + b);
        assert(t.len() == a.len() + 1 + b.len());
        assert forall|j: int| 0 <= j < t.len() && char_is_whitespace(#[trigger] t[j]) implies t[j] == ' ' by {
            if j < a.len() {
                assert(t[j] == a[j]);
            } else if j > a.len() {
                assert(t[j] == b[j - a.len() - 1]);
            }
        }
        assert forall|j: int| 0 <= j < t.len() - 1 && char_is_whitespace(#[trigger] t[j]) implies !char_is_whitespace(
            t[j + 1],
        ) by {
            if j < a.len() - 1 {
                assert(t[j] == a[j]);
                assert(t[j + 1] == a[j + 1]);
            } else if j == a.len() - 1 {
                assert(t[j] == a.last());
            } else if j == a.len() {
                assert(t[j + 1] == b[0]);
            } else {
                assert(t[j] == b[j - a.len() - 1]);
            }
        }
        assert(t[0] == a[0]);
        assert(t.last() == b.last());
    }
}

/// What `squash_ws` gives is single-spaced: words joined by one plain
/// space, with no whitespace at the ends.
pub proof fn law_squash_single_spaced(s: Seq<char>)
    ensures
        is_single_spaced(squash_ws(s)),
{
    lemma_ws_words_bare(s);
    lemma_join_single_spaced(ws_words(s));
}


/// Splitting at a separator and joining with it gives back the text, and
/// the split has at least one piece.
pub proof fn lemma_split_join(s: Seq<char>, sep: char)
    ensures
        split_char(s, sep).len() >= 1,
        join_words(split_char(s, sep), seq![sep]) == s,
    decreases s.len(),
{
    if s.len() > 0 {
        let init = s.drop_last();
        lemma_split_join(init, sep);
        let rest = split_char(init, sep);
        let c = s.last();
        if c == sep {
            let ws = rest.push(Seq::<char>::empty());
            assert(ws.drop_last() =~= rest);
            assert(join_words(ws, seq![sep]) == join_words(rest, seq![sep]) + seq![sep] + Seq::<char>::empty());
            assert(init + seq![sep] + Seq::<char>::empty() =~= s);
        } else {
            let ws = rest.update(rest.len() - 1, rest.last().push(c));
            if rest.len() == 1 {
                assert(join_words(rest, seq![sep]) == rest[0]);
                assert(join_words(ws, seq![sep]) == ws[0]);
                assert(ws[0] =~= rest[0].push(c));
                assert(init.push(c) =~= s);
            } else {
                assert(ws.drop_last() =~= rest.drop_last());
                assert(join_words(ws, seq![sep]) == join_words(rest.drop_last(), seq![sep]) + seq![sep] + rest.last().push(c));
                assert(join_words(rest, seq![sep]) == join_words(rest.drop_last(), seq![sep]) + seq![sep] + rest.last());
                assert(join_words(rest.drop_last(), seq![sep]) + seq![sep] + rest.last().push(c) =~= init.push(c));
                assert(init.push(c) =~= s);
            }
        }
    }
}


/// Removing stress marks from a concatenation removes them from each part.
pub proof fn lemma_strip_stress_concat(a: Seq<char>, b: Seq<char>)
    ensures
        strip_stress(a + b) == strip_stress(a) + strip_stress(b),
    decreases b.len(),
{
    if b.len() == 0 {
        assert(a + b =~= a);
        assert(strip_stress(a) + strip_stress(b) =~= strip_stress(a));
    } else {
        lemma_strip_stress_concat(a, b.drop_last());
        assert((a + b).drop_last() =~= a + b.drop_last());
        assert((a + b).last() == b.last());
        if b.last() == STRESS_MARK {
        } else {
            assert(strip_stress(a) + strip_stress(b.drop_last()).push(b.last()) =~= (strip_stress(a) + strip_stress(
                b.drop_last(),
            )).push(b.last()));
        }
    }
}

/// A sequence without stress marks is left as it is by removing them.
pub proof fn lemma_strip_stress_plain(s: Seq<char>)
    requires
        forall|i: int| 0 <= i < s.len() ==> #[trigger] s[i] != STRESS_MARK,
    ensures
        strip_stress(s) == s,
    decreases s.len(),
{
    if s.len() > 0 {
        assert(s.last() == s[s.len() - 1]);
        lemma_strip_stress_plain(s.drop_last());
        assert(s.drop_last().push(s.last()) =~= s);
    }
}

/// Replacing a pattern by a text that differs from it only in stress marks
/// changes the text only in stress marks.
pub proof fn lemma_replace_all_strip_stress(s: Seq<char>, p: Seq<char>, r: Seq<char>)
    requires
        strip_stress(r) == strip_stress(p),
    ensures
        strip_stress(replace_all(s, p, r)) == strip_stress(s),
    decreases s.len(),
{
    if p.len() == 0 || s.len() < p.len() {
    } else if s.take(p.len() as int) == p {
        let rest = s.skip(p.len() as int);
        lemma_replace_all_strip_stress(rest, p, r);
        lemma_strip_stress_concat(r, replace_all(rest, p, r));
        lemma_strip_stress_concat(p, rest);
        assert(p + rest =~= s);
    } else {
        let rest = s.skip(1);
        lemma_replace_all_strip_stress(rest, p, r);
        lemma_strip_stress_concat(seq![s[0]], replace_all(rest, p, r));
        lemma_strip_stress_concat(seq![s[0]], rest);
        assert(seq![s[0]] + rest =~= s);
    }
}


/// Whether `p` occurs in `s` at index `j`.
pub open spec fn occurs_at(s: Seq<char>, p: Seq<char>, j: int) -> bool {
    0 <= j && j + p.len() <= s.len() && s.subrange(j, j + p.len()) == p
}

/// Whether `p` occurs somewhere in `s`.
pub open spec fn occurs(s: Seq<char>, p: Seq<char>) -> bool {
    exists|j: int| occurs_at(s, p, j)
}

/// Whether `s` has no stress mark.
pub open spec fn mark_free(s: Seq<char>) -> bool {
    forall|i: int| 0 <= i < s.len() ==> #[trigger] s[i] != STRESS_MARK
}

/// `q` with a stress mark put in after `k1` characters (and, with `two`,
/// another after `k2`).
pub open spec fn marked(q: Seq<char>, k1: int, k2: int, two: bool) -> Seq<char> {
    if two {
        q.take(k1) + seq![STRESS_MARK] + q.subrange(k1, k2) + seq![STRESS_MARK] + q.skip(k2)
    } else {
        q.take(k1) + seq![STRESS_MARK] + q.skip(k1)
    }
}

/// No proper suffix of `q` starts with its first two characters (or, when
/// only one is left, with its first).
pub open spec fn no_self_overlap(q: Seq<char>) -> bool {
    forall|i: int| 0 < i < q.len() ==> #[trigger] q[i] != q[0] || (i + 1 < q.len() && q[i + 1] != q[1])
}

proof fn lemma_occ_in(t: Seq<char>, a: int, b: int, p: Seq<char>, j: int)
    requires
        occurs_at(t, p, j),
        0 <= a <= j,
        j + p.len() <= b <= t.len(),
    ensures
        occurs_at(t.subrange(a, b), p, j - a),
{
    assert(t.subrange(a, b).subrange(j - a, j - a + p.len()) =~= t.subrange(j, j + p.len()));
}

proof fn lemma_occ_out(t: Seq<char>, a: int, b: int, p: Seq<char>, j: int)
    requires
        0 <= a <= b <= t.len(),
        occurs_at(t.subrange(a, b), p, j),
    ensures
        occurs_at(t, p, a + j),
{
    assert(t.subrange(a, b).subrange(j, j + p.len()) =~= t.subrange(a + j, a + j + p.len()));
}

proof fn lemma_occ_no_mark(t: Seq<char>, p: Seq<char>, j: int, m: int)
    requires
        mark_free(p),
        0 <= j <= m < j + p.len(),
        m < t.len(),
        t[m] == STRESS_MARK,
    ensures
        !occurs_at(t, p, j),
{
    if occurs_at(t, p, j) {
        assert(t.subrange(j, j + p.len())[m - j] == t[m]);
        assert(p[m - j] != STRESS_MARK);
    }
}

/// Replacing a pattern that does not occur leaves the text as it is.
pub proof fn lemma_replace_all_absent(s: Seq<char>, p: Seq<char>, r: Seq<char>)
    requires
        !occurs(s, p),
    ensures
        replace_all(s, p, r) == s,
    decreases s.len(),
{
    if p.len() == 0 || s.len() < p.len() {
    } else {
        if s.take(p.len() as int) == p {
            assert(occurs_at(s, p, 0));
        }
        let rest = s.skip(1);
        if occurs(rest, p) {
            let j = choose|j: int| occurs_at(rest, p, j);
            assert(rest.subrange(j, j + p.len()) =~= s.subrange(j + 1, j + 1 + p.len()));
            assert(occurs_at(s, p, j + 1));
        }
        lemma_replace_all_absent(rest, p, r);
        assert(seq![s[0]] + rest =~= s);
    }
}

#[verifier::spinoff_prover]
proof fn lemma_created_after_marks(x: Seq<char>, q: Seq<char>, rest: Seq<char>, fr: Seq<char>, k1: int, k2: int, two: bool, p: Seq<char>, j: int)
    requires
        0 <= k1 <= k2 <= q.len(),
        mark_free(p),
        occurs_at(x + marked(q, k1, k2, two) + fr, p, j),
    ensures
        occurs(x + q + rest, p) || occurs_at(
            q.skip(if two { k2 } else { k1 }) + fr,
            p,
            j - (x.len() + marked(q, k1, k2, two).len() - (q.len() - (if two { k2 } else { k1 }))),
        ),
{
    let r = marked(q, k1, k2, two);
    let t = x + r + fr;
    let m = seq![STRESS_MARK];
    let xs = x + q + rest;
    let a = x.len() + k1;
    let ts: int = if two { k2 } else { k1 };
    let tail = q.skip(ts);
    let last_mark: int = if two { x.len() + k2 + 1 } else { a };
    if two {
        assert(t =~= x + q.take(k1) + m + q.subrange(k1, k2) + m + q.skip(k2) + fr);
        assert(t[last_mark] == STRESS_MARK);
    } else {
        assert(t =~= x + q.take(k1) + m + q.skip(k1) + fr);
    }
    assert(t[a] == STRESS_MARK);
    if j + p.len() <= a {
        lemma_occ_in(t, 0, a, p, j);
        assert(t.subrange(0, a) =~= xs.subrange(0, a));
        lemma_occ_out(xs, 0, a, p, j);
    } else if j <= a {
        lemma_occ_no_mark(t, p, j, a);
    } else if two && j <= last_mark {
        if j + p.len() > last_mark {
            lemma_occ_no_mark(t, p, j, last_mark);
        } else {
            lemma_occ_in(t, a + 1, last_mark, p, j);
            assert(t.subrange(a + 1, last_mark) =~= xs.subrange(a, x.len() + k2));
            lemma_occ_out(xs, a, x.len() + k2, p, j - a - 1);
        }
    } else {
        let off = last_mark + 1;
        assert(off == x.len() + r.len() - tail.len());
        assert(t.subrange(off, t.len() as int) =~= tail + fr);
        lemma_occ_in(t, off, t.len() as int, p, j);
    }
}

/// Putting stress marks into the occurrences of `q` creates no occurrence
/// of a pattern `p` without stress marks: an occurrence after `x` in the
/// result is one in `x` followed by the text.
pub proof fn lemma_marking_creates_nothing(x: Seq<char>, s: Seq<char>, q: Seq<char>, k1: int, k2: int, two: bool, p: Seq<char>)
    requires
        0 <= k1 <= k2 <= q.len(),
        mark_free(p),
        occurs(x + replace_all(s, q, marked(q, k1, k2, two)), p),
    ensures
        occurs(x + s, p),
    decreases s.len(),
{
    let r = marked(q, k1, k2, two);
    let t = x + replace_all(s, q, r);
    let j = choose|j: int| occurs_at(t, p, j);
    if q.len() == 0 || s.len() < q.len() {
        assert(occurs_at(x + s, p, j));
    } else if s.take(q.len() as int) == q {
        let rest = s.skip(q.len() as int);
        let fr = replace_all(rest, q, r);
        let ts: int = if two { k2 } else { k1 };
        let tail = q.skip(ts);
        assert(x + s =~= x + q + rest);
        assert(t =~= x + r + fr);
        lemma_created_after_marks(x, q, rest, fr, k1, k2, two, p, j);
        if !occurs(x + q + rest, p) {
            lemma_marking_creates_nothing(tail, rest, q, k1, k2, two, p);
            let j2 = choose|j2: int| occurs_at(tail + rest, p, j2);
            let xs = x + s;
            let b = x.len() + ts;
            assert(xs.subrange(b, xs.len() as int) =~= tail + rest);
            lemma_occ_out(xs, b, xs.len() as int, p, j2);
        }
    } else {
        let rest = s.skip(1);
        let x2 = x.push(s[0]);
        assert(t =~= x2 + replace_all(rest, q, r));
        assert(occurs_at(x2 + replace_all(rest, q, r), p, j));
        lemma_marking_creates_nothing(x2, rest, q, k1, k2, two, p);
        assert(x2 + rest =~= x + s);
    }
}

proof fn lemma_tail_has_no_start(q: Seq<char>, ts: int, rest: Seq<char>)
    requires
        0 < ts < q.len(),
        no_self_overlap(q),
    ensures
        forall|j2: int| 0 <= j2 < q.len() - ts ==> !occurs_at(q.skip(ts) + rest, q, j2),
{
    let tail = q.skip(ts);
    assert forall|j2: int| 0 <= j2 < q.len() - ts implies !occurs_at(tail + rest, q, j2) by {
        if occurs_at(tail + rest, q, j2) {
            let i = ts + j2;
            let w = tail + rest;
            assert(w.subrange(j2, j2 + q.len())[0] == w[j2]);
            assert(w[j2] == q[i]);
            if i + 1 < q.len() {
                assert(w.subrange(j2, j2 + q.len())[1] == w[j2 + 1]);
                assert(w[j2 + 1] == q[i + 1]);
            }
            assert(q[i] != q[0] || (i + 1 < q.len() && q[i + 1] != q[1]));
        }
    }
}

#[verifier::spinoff_prover]
proof fn lemma_occurrence_after_marks(x: Seq<char>, q: Seq<char>, rest: Seq<char>, fr: Seq<char>, k1: int, k2: int, two: bool, j: int)
    requires
        0 < k1 <= k2 < q.len(),
        mark_free(q),
        occurs_at(x + marked(q, k1, k2, two) + fr, q, j),
        forall|jj: int| 0 <= jj < x.len() ==> !occurs_at(x + q + rest, q, jj),
    ensures
        occurs_at(q.skip(if two { k2 } else { k1 }) + fr, q, j - (x.len() + marked(q, k1, k2, two).len() - (q.len() - (if two { k2 } else { k1 })))),
{
    let r = marked(q, k1, k2, two);
    let t = x + r + fr;
    let m = seq![STRESS_MARK];
    let xs = x + q + rest;
    let a = x.len() + k1;
    let ts: int = if two { k2 } else { k1 };
    let tail = q.skip(ts);
    let last_mark: int = if two { x.len() + k2 + 1 } else { a };
    if two {
        assert(t =~= x + q.take(k1) + m + q.subrange(k1, k2) + m + q.skip(k2) + fr);
        assert(t[last_mark] == STRESS_MARK);
    } else {
        assert(t =~= x + q.take(k1) + m + q.skip(k1) + fr);
    }
    assert(t[a] == STRESS_MARK);
    if j + q.len() <= a {
        assert(t.subrange(j, j + q.len()) =~= xs.subrange(j, j + q.len()));
        assert(occurs_at(xs, q, j));
        assert(false);
    } else if j <= a {
        lemma_occ_no_mark(t, q, j, a);
    } else if two && j <= last_mark {
        lemma_occ_no_mark(t, q, j, last_mark);
    } else {
        let off = last_mark + 1;
        assert(off == x.len() + r.len() - tail.len());
        assert(t.subrange(off, t.len() as int) =~= tail + fr);
        lemma_occ_in(t, off, t.len() as int, q, j);
    }
}

/// Putting stress marks strictly inside every occurrence of `q` leaves no
/// occurrence of `q`, when `q` cannot overlap itself; `x` comes before the
/// text, with no occurrence of `q` starting in it.
pub proof fn lemma_marking_removes_pattern(x: Seq<char>, s: Seq<char>, q: Seq<char>, k1: int, k2: int, two: bool)
    requires
        0 < k1 <= k2 < q.len(),
        mark_free(q),
        no_self_overlap(q),
        forall|j: int| 0 <= j < x.len() ==> !occurs_at(x + s, q, j),
    ensures
        !occurs(x + replace_all(s, q, marked(q, k1, k2, two)), q),
    decreases s.len(),
{
    let r = marked(q, k1, k2, two);
    let t = x + replace_all(s, q, r);
    if occurs(t, q) {
        let j = choose|j: int| occurs_at(t, q, j);
        if s.len() < q.len() {
            assert(t == x + s);
        } else if s.take(q.len() as int) == q {
            let rest = s.skip(q.len() as int);
            let fr = replace_all(rest, q, r);
            let ts: int = if two { k2 } else { k1 };
            let tail = q.skip(ts);
            assert(x + s =~= x + q + rest);
            assert(t =~= x + r + fr);
            lemma_occurrence_after_marks(x, q, rest, fr, k1, k2, two, j);
            lemma_tail_has_no_start(q, ts, rest);
            lemma_marking_removes_pattern(tail, rest, q, k1, k2, two);
        } else {
            let rest = s.skip(1);
            let x2 = x.push(s[0]);
            assert(x2 + rest =~= x + s);
            assert forall|j2: int| 0 <= j2 < x2.len() implies !occurs_at(x2 + rest, q, j2) by {
                if j2 == x.len() && occurs_at(x2 + rest, q, j2) {
                    assert((x + s).subrange(j2, j2 + q.len()) =~= s.take(q.len() as int));
                }
            }
            lemma_marking_removes_pattern(x2, rest, q, k1, k2, two);
            assert(t =~= x2 + replace_all(rest, q, r));
        }
    }
}

} // verus!
