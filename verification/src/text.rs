//! Character-level helpers on strings, stated over `Seq<char>`.

use vstd::prelude::*;

verus! {

/// `c` occurs in `s`.
pub open spec fn has_char(s: Seq<char>, c: char) -> bool {
    exists|i: int| 0 <= i < s.len() && s[i] == c
}

/// Two consecutive dots occur in `s`.
pub open spec fn has_double_dot(s: Seq<char>) -> bool {
    exists|i: int| #![trigger s[i]] 0 <= i && i + 1 < s.len() && s[i] == '.' && s[i + 1] == '.'
}

/// The characters that `char::is_whitespace` accepts (Unicode `White_Space`).
pub open spec fn is_whitespace(c: char) -> bool {
    ||| c == '\t' || c == '\n' || c == '\u{0B}' || c == '\u{0C}' || c == '\r' || c == ' '
    ||| c == '\u{85}' || c == '\u{A0}' || c == '\u{1680}'
    ||| ('\u{2000}' <= c && c <= '\u{200A}')
    ||| c == '\u{2028}' || c == '\u{2029}' || c == '\u{202F}' || c == '\u{205F}'
    ||| c == '\u{3000}'
}

/// Number of leading characters of `s` that satisfy `is_whitespace`.
pub open spec fn leading_ws(s: Seq<char>) -> nat
    decreases s.len(),
{
    if s.len() > 0 && is_whitespace(s[0]) {
        1 + leading_ws(s.drop_first())
    } else {
        0
    }
}

/// Number of trailing characters of `s` that satisfy `is_whitespace`.
pub open spec fn trailing_ws(s: Seq<char>) -> nat
    decreases s.len(),
{
    if s.len() > 0 && is_whitespace(s.last()) {
        1 + trailing_ws(s.drop_last())
    } else {
        0
    }
}

/// Number of trailing copies of `c` at the end of `s`.
pub open spec fn trailing_count(s: Seq<char>, c: char) -> nat
    decreases s.len(),
{
    if s.len() > 0 && s.last() == c {
        1 + trailing_count(s.drop_last(), c)
    } else {
        0
    }
}

/// `str::trim`: `s` without its leading and trailing whitespace.
pub open spec fn trim(s: Seq<char>) -> Seq<char> {
    let t = s.subrange(leading_ws(s) as int, s.len() as int);
    t.subrange(0, t.len() - trailing_ws(t))
}

/// `str::trim_end_matches(c)`: `s` without the copies of `c` at its end.
pub open spec fn trim_end_char(s: Seq<char>, c: char) -> Seq<char> {
    s.subrange(0, s.len() - trailing_count(s, c))
}

/// After `trim_end_char`, the text no longer ends with `c`.
pub proof fn lemma_trim_end_char_removes_all(s: Seq<char>, c: char)
    ensures
        trim_end_char(s, c).len() == 0 || trim_end_char(s, c).last() != c,
        trim_end_char(s, c).is_prefix_of(s),
    decreases s.len(),
{
    if s.len() > 0 && s.last() == c {
        lemma_trim_end_char_removes_all(s.drop_last(), c);
        lemma_trailing_count_bound(s.drop_last(), c);
        assert(trim_end_char(s, c) =~= trim_end_char(s.drop_last(), c));
    }
    lemma_trailing_count_bound(s, c);
}

/// `trailing_count` never exceeds the length.
pub proof fn lemma_trailing_count_bound(s: Seq<char>, c: char)
    ensures
        trailing_count(s, c) <= s.len(),
    decreases s.len(),
{
    if s.len() > 0 && s.last() == c {
        lemma_trailing_count_bound(s.drop_last(), c);
    }
}

/// Unix path joining (`Path::join`): an absolute `tail` replaces `base`,
/// otherwise one `/` separates them unless `base` is empty or already ends
/// with `/`.
pub open spec fn join_path(base: Seq<char>, tail: Seq<char>) -> Seq<char> {
    if tail.len() > 0 && tail[0] == '/' {
        tail
    } else if base.len() == 0 || base.last() == '/' {
        base + tail
    } else {
        base + seq!['/'] + tail
    }
}

/// The pieces of `s` between the occurrences of `c` (`str::split`).
pub open spec fn split_on(s: Seq<char>, c: char) -> Seq<Seq<char>>
    decreases s.len(),
{
    if s.len() == 0 {
        seq![Seq::<char>::empty()]
    } else if s.last() == c {
        split_on(s.drop_last(), c).push(Seq::<char>::empty())
    } else {
        let p = split_on(s.drop_last(), c);
        p.update(p.len() - 1, p.last().push(s.last()))
    }
}

/// `split_on` always yields at least one piece.
pub proof fn lemma_split_on_nonempty(s: Seq<char>, c: char)
    ensures
        split_on(s, c).len() >= 1,
    decreases s.len(),
{
    if s.len() > 0 {
        lemma_split_on_nonempty(s.drop_last(), c);
    }
}

/// The lines of `s` (`str::lines` before trimming): the pieces between
/// newlines, without a last empty piece.
pub open spec fn lines_of(s: Seq<char>) -> Seq<Seq<char>> {
    let p = split_on(s, '\n');
    if p.last().len() == 0 {
        p.drop_last()
    } else {
        p
    }
}

/// Counting leading whitespace: `k` characters are whitespace and the next
/// one is not (or there is none).
pub proof fn lemma_leading_ws(s: Seq<char>, k: int)
    requires
        0 <= k <= s.len(),
        forall|j: int| 0 <= j < k ==> is_whitespace(s[j]),
        k == s.len() || !is_whitespace(s[k]),
    ensures
        leading_ws(s) == k,
    decreases k,
{
    if k > 0 {
        let t = s.drop_first();
        assert forall|j: int| 0 <= j < k - 1 implies is_whitespace(t[j]) by {
            assert(t[j] == s[j + 1]);
        }
        if k - 1 < t.len() {
            assert(t[k - 1] == s[k]);
        }
        lemma_leading_ws(t, k - 1);
    }
}

/// Counting trailing whitespace: the last `k` characters are whitespace and
/// the one before them is not (or there is none).
pub proof fn lemma_trailing_ws(s: Seq<char>, k: int)
    requires
        0 <= k <= s.len(),
        forall|j: int| s.len() - k <= j < s.len() ==> is_whitespace(s[j]),
        k == s.len() || !is_whitespace(s[s.len() - k - 1]),
    ensures
        trailing_ws(s) == k,
    decreases k,
{
    if k > 0 {
        let t = s.drop_last();
        assert forall|j: int| t.len() - (k - 1) <= j < t.len() implies is_whitespace(t[j]) by {
            assert(t[j] == s[j]);
        }
        if k - 1 < t.len() {
            assert(t[t.len() - (k - 1) - 1] == s[s.len() - k - 1]);
        }
        lemma_trailing_ws(t, k - 1);
    }
}

/// Counting trailing copies of `c`.
pub proof fn lemma_trailing_count(s: Seq<char>, c: char, k: int)
    requires
        0 <= k <= s.len(),
        forall|j: int| s.len() - k <= j < s.len() ==> s[j] == c,
        k == s.len() || s[s.len() - k - 1] != c,
    ensures
        trailing_count(s, c) == k,
    decreases k,
{
    if k > 0 {
        let t = s.drop_last();
        assert forall|j: int| t.len() - (k - 1) <= j < t.len() implies t[j] == c by {
            assert(t[j] == s[j]);
        }
        if k - 1 < t.len() {
            assert(t[t.len() - (k - 1) - 1] == s[s.len() - k - 1]);
        }
        lemma_trailing_count(t, c, k - 1);
    }
}

/// Whether two strings hold the same characters.
pub(crate) fn str_eq(a: &str, b: &str) -> (r: bool)
    ensures
        r == (a@ == b@),
{
    let n = a.unicode_len();
    if n != b.unicode_len() {
        return false;
    }
    let mut i: usize = 0;
    while i < n
        invariant
            n == a@.len(),
            n == b@.len(),
            i <= n,
            forall|j: int| 0 <= j < i ==> a@[j] == b@[j],
        decreases n - i,
    {
        if a.get_char(i) != b.get_char(i) {
            return false;
        }
        i = i + 1;
    }
    assert(a@ =~= b@);
    true
}

/// Whether `c` occurs in `s`.
pub fn contains_char(s: &str, c: char) -> (r: bool)
    ensures
        r == has_char(s@, c),
{
    let n = s.unicode_len();
    let mut i: usize = 0;
    while i < n
        invariant
            n == s@.len(),
            i <= n,
            forall|j: int| 0 <= j < i ==> s@[j] != c,
        decreases n - i,
    {
        if s.get_char(i) == c {
            return true;
        }
        i = i + 1;
    }
    false
}

/// Whether `..` occurs in `s`.
pub fn contains_double_dot(s: &str) -> (r: bool)
    ensures
        r == has_double_dot(s@),
{
    let n = s.unicode_len();
    let mut i: usize = 0;
    while n > 0 && i < n - 1
        invariant
            n == s@.len(),
            i <= n,
            forall|j: int| #![trigger s@[j]] 0 <= j < i && j + 1 < n ==> !(s@[j] == '.' && s@[j + 1] == '.'),
        decreases n - i,
    {
        if s.get_char(i) == '.' && s.get_char(i + 1) == '.' {
            return true;
        }
        i = i + 1;
    }
    false
}

/// Whether `c` is a whitespace character.
pub fn char_is_whitespace(c: char) -> (r: bool)
    ensures
        r == is_whitespace(c),
{
    c == '\t' || c == '\n' || c == '\u{0B}' || c == '\u{0C}' || c == '\r' || c == ' '
        || c == '\u{85}' || c == '\u{A0}' || c == '\u{1680}' || ('\u{2000}' <= c && c
        <= '\u{200A}') || c == '\u{2028}' || c == '\u{2029}' || c == '\u{202F}' || c
        == '\u{205F}' || c == '\u{3000}'
}

/// `s` with its leading and trailing whitespace removed.
pub fn trimmed(s: &str) -> (r: String)
    ensures
        r@ == trim(s@),
{
    let n = s.unicode_len();
    let mut a: usize = 0;
    while a < n && char_is_whitespace(s.get_char(a))
        invariant
            n == s@.len(),
            a <= n,
            forall|j: int| 0 <= j < a ==> is_whitespace(s@[j]),
        decreases n - a,
    {
        a = a + 1;
    }
    proof {
        lemma_leading_ws(s@, a as int);
    }
    let ghost t = s@.subrange(a as int, n as int);
    let mut e: usize = n;
    while e > a && char_is_whitespace(s.get_char(e - 1))
        invariant
            n == s@.len(),
            a <= e <= n,
            t == s@.subrange(a as int, n as int),
            forall|j: int| e <= j < n ==> is_whitespace(s@[j]),
        decreases e,
    {
        e = e - 1;
    }
    proof {
        let k = (n - e) as int;
        assert forall|j: int| t.len() - k <= j < t.len() implies is_whitespace(t[j]) by {
            assert(t[j] == s@[a + j]);
        }
        if k < t.len() {
            assert(t[t.len() - k - 1] == s@[e - 1]);
        }
        lemma_trailing_ws(t, k);
        assert(t.subrange(0, t.len() - k) =~= s@.subrange(a as int, e as int));
    }
    s.substring_char(a, e).to_owned()
}

/// The lines of `s`, each with its surrounding whitespace removed.
pub fn trimmed_lines(s: &str) -> (r: Vec<String>)
    ensures
        r@.map_values(|x: String| x@) == lines_of(s@).map_values(|l: Seq<char>| trim(l)),
{
    let n = s.unicode_len();
    let mut pieces: Vec<String> = Vec::new();
    let mut start: usize = 0;
    let mut i: usize = 0;
    while i < n
        invariant
            n == s@.len(),
            start <= i <= n,
            forall|j: int| 0 <= j < pieces@.len() ==> #[trigger] pieces@[j]@ == split_on(
                s@.subrange(0, i as int),
                '\n',
            )[j],
            split_on(s@.subrange(0, i as int), '\n').len() == pieces@.len() + 1,
            split_on(s@.subrange(0, i as int), '\n').last() == s@.subrange(start as int, i as int),
        decreases n - i,
    {
        let ghost pre = s@.subrange(0, i as int);
        let ghost post = s@.subrange(0, i as int + 1);
        assert(post.drop_last() =~= pre);
        proof {
            lemma_split_on_nonempty(pre, '\n');
        }
        if s.get_char(i) == '\n' {
            pieces.push(s.substring_char(start, i).to_owned());
            start = i + 1;
            assert(s@.subrange(start as int, i as int + 1) =~= Seq::<char>::empty());
        } else {
            assert(s@.subrange(start as int, i as int + 1) =~= s@.subrange(start as int, i as int).push(
                s@[i as int],
            ));
        }
        i = i + 1;
    }
    assert(s@.subrange(0, n as int) =~= s@);
    let ghost p = split_on(s@, '\n');
    if start < n {
        pieces.push(s.substring_char(start, n).to_owned());
    }
    assert(pieces@.map_values(|x: String| x@) =~= lines_of(s@));
    let mut r: Vec<String> = Vec::new();
    let mut k: usize = 0;
    while k < pieces.len()
        invariant
            k <= pieces.len(),
            r@.len() == k,
            forall|j: int| 0 <= j < k ==> #[trigger] r@[j]@ == trim(pieces@[j]@),
        decreases pieces.len() - k,
    {
        r.push(trimmed(pieces[k].as_str()));
        k = k + 1;
    }
    assert(r@.map_values(|x: String| x@) =~= lines_of(s@).map_values(|l: Seq<char>| trim(l)));
    r
}

/// `s` with every trailing `c` removed.
pub fn trim_end_matching(s: &str, c: char) -> (r: String)
    ensures
        r@ == trim_end_char(s@, c),
{
    let n = s.unicode_len();
    let mut e: usize = n;
    while e > 0 && s.get_char(e - 1) == c
        invariant
            n == s@.len(),
            e <= n,
            forall|j: int| e <= j < n ==> s@[j] == c,
        decreases e,
    {
        e = e - 1;
    }
    proof {
        lemma_trailing_count(s@, c, (n - e) as int);
    }
    s.substring_char(0, e).to_owned()
}

/// Whether `p` is a prefix of `s`.
pub fn starts_with(s: &str, p: &str) -> (r: bool)
    ensures
        r == p@.is_prefix_of(s@),
{
    let n = s.unicode_len();
    let m = p.unicode_len();
    if m > n {
        return false;
    }
    let mut i: usize = 0;
    while i < m
        invariant
            n == s@.len(),
            m == p@.len(),
            m <= n,
            i <= m,
            forall|j: int| 0 <= j < i ==> p@[j] == s@[j],
        decreases m - i,
    {
        if s.get_char(i) != p.get_char(i) {
            assert(p@[i as int] != s@.subrange(0, m as int)[i as int]);
            return false;
        }
        i = i + 1;
    }
    assert(p@ =~= s@.subrange(0, m as int));
    true
}

/// Whether `p` is a suffix of `s`.
pub fn ends_with(s: &str, p: &str) -> (r: bool)
    ensures
        r == p@.is_suffix_of(s@),
{
    let n = s.unicode_len();
    let m = p.unicode_len();
    if m > n {
        return false;
    }
    let d = n - m;
    let mut i: usize = 0;
    while i < m
        invariant
            n == s@.len(),
            m == p@.len(),
            d == n - m,
            i <= m,
            forall|j: int| 0 <= j < i ==> p@[j] == s@[d + j],
        decreases m - i,
    {
        if s.get_char(d + i) != p.get_char(i) {
            assert(p@[i as int] != s@.subrange(d as int, n as int)[i as int]);
            return false;
        }
        i = i + 1;
    }
    assert(p@ =~= s@.subrange(d as int, n as int));
    true
}

/// The concatenation of `a` and `b`.
pub fn concat(a: &str, b: &str) -> (r: String)
    ensures
        r@ == a@ + b@,
{
    let mut r = a.to_owned();
    r.append(b);
    r
}

/// `Path::join` on Unix paths held as strings.
pub fn join(base: &str, tail: &str) -> (r: String)
    ensures
        r@ == join_path(base@, tail@),
{
    let bl = base.unicode_len();
    if tail.unicode_len() > 0 && tail.get_char(0) == '/' {
        tail.to_owned()
    } else if bl == 0 || base.get_char(bl - 1) == '/' {
        concat(base, tail)
    } else {
        let mut r = base.to_owned();
        r.append("/");
        r.append(tail);
        proof {
            reveal_strlit("/");
        }
        r
    }
}

} // verus!
