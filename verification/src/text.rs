//! Character-sequence vocabulary shared by the probes: trimming, searching,
//! removing and splitting, each with an executable function and the
//! mathematical function it computes.

use vstd::prelude::*;

verus! {

/// `String::push` appends one character.
pub assume_specification[ String::push ](s: &mut String, c: char)
    ensures
        final(s)@ == old(s)@.push(c),
;

/// The characters of `s`, in order.
pub fn chars_of(s: &str) -> (v: Vec<char>)
    ensures
        v@ == s@,
{
    let mut v: Vec<char> = Vec::new();
    for c in it: s.chars()
        invariant
            v@ == it.seq().take(it.index() as int),
            it.seq() == s@,
    {
        v.push(c);
    }
    v
}

/// The string made of the characters of `v`, in order.
pub fn string_of(v: &Vec<char>) -> (s: String)
    ensures
        s@ == v@,
{
    let mut s = String::new();
    let mut i: usize = 0;
    while i < v.len()
        invariant
            i <= v.len(),
            s@ == v@.take(i as int),
        decreases v.len() - i,
    {
        s.push(v[i]);
        i += 1;
        assert(v@.take(i as int) == v@.take(i - 1).push(v@[i - 1]));
    }
    assert(v@.take(v.len() as int) == v@);
    s
}

/// A copy of the characters of `s` from position `from` up to, not
/// including, position `to`.
pub(crate) fn slice(s: &Vec<char>, from: usize, to: usize) -> (r: Vec<char>)
    requires
        from <= to <= s.len(),
    ensures
        r@ == s@.subrange(from as int, to as int),
{
    let mut r: Vec<char> = Vec::new();
    let mut i: usize = from;
    while i < to
        invariant
            from <= i <= to,
            to <= s.len(),
            r@ == s@.subrange(from as int, i as int),
        decreases to - i,
    {
        r.push(s[i]);
        i += 1;
        assert(s@.subrange(from as int, i as int) == s@.subrange(from as int, i - 1).push(
            s@[i - 1],
        ));
    }
    r
}

/// Appends the characters of `tail` to `out`.
pub fn append(out: &mut Vec<char>, tail: &Vec<char>)
    ensures
        final(out)@ == old(out)@ + tail@,
{
    let mut i: usize = 0;
    while i < tail.len()
        invariant
            i <= tail.len(),
            out@ == old(out)@ + tail@.take(i as int),
        decreases tail.len() - i,
    {
        out.push(tail[i]);
        i += 1;
        assert(tail@.take(i as int) == tail@.take(i - 1).push(tail@[i - 1]));
    }
    assert(tail@.take(tail.len() as int) == tail@);
}

/// Appends the characters of the string `tail` to `out`.
pub fn append_str(out: &mut Vec<char>, tail: &str)
    ensures
        final(out)@ == old(out)@ + tail@,
{
    let t = chars_of(tail);
    append(out, &t);
}

/// Whether two character sequences are the same.
pub fn same(a: &Vec<char>, b: &Vec<char>) -> (r: bool)
    ensures
        r == (a@ == b@),
{
    if a.len() != b.len() {
        return false;
    }
    let mut i: usize = 0;
    while i < a.len()
        invariant
            i <= a.len(),
            a.len() == b.len(),
            a@.take(i as int) == b@.take(i as int),
        decreases a.len() - i,
    {
        if a[i] != b[i] {
            return false;
        }
        i += 1;
        assert(a@.take(i as int) == a@.take(i - 1).push(a@[i - 1]));
        assert(b@.take(i as int) == b@.take(i - 1).push(b@[i - 1]));
    }
    assert(a@.take(a.len() as int) == a@);
    assert(b@.take(b.len() as int) == b@);
    true
}

/// Whether `c` is white space: a character that Unicode marks as
/// `White_Space`.
pub open spec fn is_space(c: char) -> bool {
    ||| ('\u{9}' <= c && c <= '\u{d}')
    ||| c == ' '
    ||| c == '\u{85}'
    ||| c == '\u{a0}'
    ||| c == '\u{1680}'
    ||| ('\u{2000}' <= c && c <= '\u{200a}')
    ||| c == '\u{2028}'
    ||| c == '\u{2029}'
    ||| c == '\u{202f}'
    ||| c == '\u{205f}'
    ||| c == '\u{3000}'
}

/// Whether `c` is white space.
pub fn is_whitespace(c: char) -> (r: bool)
    ensures
        r == is_space(c),
{
    (c >= '\u{9}' && c <= '\u{d}') || c == ' ' || c == '\u{85}' || c == '\u{a0}' || c
        == '\u{1680}' || (c >= '\u{2000}' && c <= '\u{200a}') || c == '\u{2028}' || c
        == '\u{2029}' || c == '\u{202f}' || c == '\u{205f}' || c == '\u{3000}'
}

/// `s` without its leading white space.
pub open spec fn trim_start(s: Seq<char>) -> Seq<char>
    decreases s.len(),
{
    if s.len() > 0 && is_space(s[0]) {
        trim_start(s.drop_first())
    } else {
        s
    }
}

/// `s` without its trailing white space.
pub open spec fn trim_end(s: Seq<char>) -> Seq<char>
    decreases s.len(),
{
    if s.len() > 0 && is_space(s.last()) {
        trim_end(s.drop_last())
    } else {
        s
    }
}

/// `s` without leading and trailing white space.
pub open spec fn trimmed(s: Seq<char>) -> Seq<char> {
    trim_end(trim_start(s))
}

/// The characters of `s` without leading and trailing white space.
pub fn trim(s: &Vec<char>) -> (r: Vec<char>)
    ensures
        r@ == trimmed(s@),
{
    let n = s.len();
    let mut a: usize = 0;
    assert(s@.subrange(0, n as int) == s@);
    while a < n && is_whitespace(s[a])
        invariant
            a <= n,
            n == s.len(),
            trim_start(s@) == trim_start(s@.subrange(a as int, n as int)),
        decreases n - a,
    {
        assert(s@.subrange(a as int, n as int).drop_first() == s@.subrange(a + 1, n as int));
        a += 1;
    }
    let mut b: usize = n;
    while b > a && is_whitespace(s[b - 1])
        invariant
            a <= b <= n,
            n == s.len(),
            trim_end(s@.subrange(a as int, n as int)) == trim_end(
                s@.subrange(a as int, b as int),
            ),
        decreases b - a,
    {
        assert(s@.subrange(a as int, b as int).drop_last() == s@.subrange(a as int, b - 1));
        b -= 1;
    }
    slice(s, a, b)
}

/// Whether `pat` stands in `s` at position `i`.
pub open spec fn occurs_at(s: Seq<char>, pat: Seq<char>, i: int) -> bool {
    &&& 0 <= i
    &&& i + pat.len() <= s.len()
    &&& s.subrange(i, i + pat.len()) == pat
}

/// Whether `pat` stands somewhere in `s`. The empty pattern stands everywhere.
pub open spec fn contains_text(s: Seq<char>, pat: Seq<char>) -> bool {
    exists|i: int| occurs_at(s, pat, i)
}

/// Whether `s` begins with `pat`.
pub open spec fn starts_with_text(s: Seq<char>, pat: Seq<char>) -> bool {
    occurs_at(s, pat, 0)
}

/// The least position at or after `from` where `pat` stands in `s`.
pub open spec fn find_from(s: Seq<char>, pat: Seq<char>, from: int) -> Option<int>
    decreases s.len() + 1 - from,
{
    if from < 0 || from + pat.len() > s.len() {
        None
    } else if occurs_at(s, pat, from) {
        Some(from)
    } else {
        find_from(s, pat, from + 1)
    }
}

/// `find_from` returns the first occurrence at or after `from`, and `None`
/// exactly when there is no such occurrence.
pub proof fn lemma_find_from(s: Seq<char>, pat: Seq<char>, from: int)
    requires
        0 <= from,
    ensures
        find_from(s, pat, from) matches Some(i) ==> from <= i && occurs_at(s, pat, i) && (forall|
            j: int,
        | from <= j < i ==> !occurs_at(s, pat, j)),
        find_from(s, pat, from) is None ==> (forall|j: int| from <= j ==> !occurs_at(s, pat, j)),
    decreases s.len() + 1 - from,
{
    if from + pat.len() <= s.len() && !occurs_at(s, pat, from) {
        lemma_find_from(s, pat, from + 1);
    }
}

/// Searching the part of `s` that starts at `k` is searching `s` from `k` on.
pub proof fn lemma_find_skip(s: Seq<char>, pat: Seq<char>, k: int, j: int)
    requires
        0 <= k <= s.len(),
        0 <= j,
    ensures
        find_from(s.skip(k), pat, j) == (match find_from(s, pat, k + j) {
            Some(i) => Some(i - k),
            None => None,
        }),
    decreases s.len() + 1 - k - j,
{
    if k + j + pat.len() <= s.len() {
        assert(s.skip(k).subrange(j, j + pat.len()) == s.subrange(k + j, k + j + pat.len()));
        if !occurs_at(s, pat, k + j) {
            lemma_find_skip(s, pat, k, j + 1);
        }
    }
}

/// Whether `pat` stands in `s` at position `i`.
pub fn matches_at(s: &Vec<char>, pat: &Vec<char>, i: usize) -> (r: bool)
    ensures
        r == occurs_at(s@, pat@, i as int),
{
    if pat.len() > s.len() || i > s.len() - pat.len() {
        return false;
    }
    let mut k: usize = 0;
    while k < pat.len()
        invariant
            k <= pat.len(),
            i + pat.len() <= s.len(),
            s@.subrange(i as int, i + k) == pat@.take(k as int),
        decreases pat.len() - k,
    {
        if s[i + k] != pat[k] {
            assert(s@.subrange(i as int, i + pat.len())[k as int] == s@[i + k]);
            return false;
        }
        k += 1;
        assert(s@.subrange(i as int, i + k) == s@.subrange(i as int, i + k - 1).push(
            s@[i + k - 1],
        ));
        assert(pat@.take(k as int) == pat@.take(k - 1).push(pat@[k - 1]));
    }
    assert(pat@.take(pat.len() as int) == pat@);
    true
}

/// The first position at or after `from` where `pat` stands in `s`.
pub fn find(s: &Vec<char>, pat: &Vec<char>, from: usize) -> (r: Option<usize>)
    ensures
        r matches Some(i) ==> find_from(s@, pat@, from as int) == Some(i as int),
        r is None ==> find_from(s@, pat@, from as int) is None,
{
    if pat.len() > s.len() {
        return None;
    }
    let last: usize = s.len() - pat.len();
    let mut i: usize = from;
    while i <= last
        invariant
            from <= i,
            last == s.len() - pat.len(),
            find_from(s@, pat@, from as int) == find_from(s@, pat@, i as int),
        decreases last - i,
    {
        if matches_at(s, pat, i) {
            return Some(i);
        }
        if i == last {
            assert(find_from(s@, pat@, i + 1) is None);
            return None;
        }
        i += 1;
    }
    None
}

/// Whether `pat` stands somewhere in `s`.
pub fn contains(s: &Vec<char>, pat: &Vec<char>) -> (r: bool)
    ensures
        r == contains_text(s@, pat@),
{
    let f = find(s, pat, 0);
    proof {
        lemma_find_from(s@, pat@, 0);
    }
    f.is_some()
}

/// Whether `s` begins with `pat`.
pub fn starts_with(s: &Vec<char>, pat: &Vec<char>) -> (r: bool)
    ensures
        r == starts_with_text(s@, pat@),
{
    matches_at(s, pat, 0)
}

/// `s` with every occurrence of `pat` taken out, found from left to right
/// without overlap. The empty pattern takes nothing out.
pub open spec fn without(s: Seq<char>, pat: Seq<char>) -> Seq<char>
    decreases s.len(),
{
    if pat.len() == 0 || s.len() < pat.len() {
        s
    } else if occurs_at(s, pat, 0) {
        without(s.skip(pat.len() as int), pat)
    } else {
        seq![s[0]] + without(s.drop_first(), pat)
    }
}

/// The characters of `s` with every occurrence of `pat` taken out.
pub fn remove_all(s: &Vec<char>, pat: &Vec<char>) -> (r: Vec<char>)
    ensures
        r@ == without(s@, pat@),
{
    let n = s.len();
    let m = pat.len();
    if m == 0 {
        return slice(s, 0, n);
    }
    let mut out: Vec<char> = Vec::new();
    let mut i: usize = 0;
    assert(s@.subrange(0, n as int) == s@);
    while i < n
        invariant
            i <= n,
            n == s.len(),
            m == pat.len(),
            m > 0,
            without(s@, pat@) == out@ + without(s@.subrange(i as int, n as int), pat@),
        decreases n - i,
    {
        let ghost rest = s@.subrange(i as int, n as int);
        if matches_at(s, pat, i) {
            assert(rest.subrange(0, m as int) == s@.subrange(i as int, i + m));
            assert(rest.skip(m as int) == s@.subrange(i + m, n as int));
            i += m;
        } else {
            assert(rest.len() >= m ==> rest.subrange(0, m as int) == s@.subrange(
                i as int,
                i + m,
            ));
            assert(rest.drop_first() == s@.subrange(i + 1, n as int));
            assert(rest == seq![rest[0]] + rest.drop_first());
            out.push(s[i]);
            i += 1;
        }
    }
    out
}

/// Taking out a pattern that does not occur changes nothing.
pub proof fn lemma_without_absent(s: Seq<char>, pat: Seq<char>)
    requires
        !contains_text(s, pat),
    ensures
        without(s, pat) == s,
    decreases s.len(),
{
    if pat.len() > 0 && s.len() >= pat.len() {
        assert(!occurs_at(s, pat, 0));
        assert forall|i: int| !occurs_at(s.drop_first(), pat, i) by {
            if occurs_at(s.drop_first(), pat, i) {
                assert(s.drop_first().subrange(i, i + pat.len()) == s.subrange(
                    i + 1,
                    i + 1 + pat.len(),
                ));
                assert(occurs_at(s, pat, i + 1));
            }
        }
        lemma_without_absent(s.drop_first(), pat);
        assert(seq![s[0]] + s.drop_first() == s);
    }
}

/// Taking out a pattern never lengthens a text, and shortens it when the
/// pattern is not empty and occurs.
pub proof fn lemma_without_shrinks(s: Seq<char>, pat: Seq<char>)
    ensures
        without(s, pat).len() <= s.len(),
        pat.len() > 0 && contains_text(s, pat) ==> without(s, pat).len() < s.len(),
    decreases s.len(),
{
    if pat.len() == 0 || s.len() < pat.len() {
    } else if occurs_at(s, pat, 0) {
        lemma_without_shrinks(s.skip(pat.len() as int), pat);
    } else {
        lemma_without_shrinks(s.drop_first(), pat);
        if contains_text(s, pat) {
            let i = choose|i: int| occurs_at(s, pat, i);
            assert(s.drop_first().subrange(i - 1, i - 1 + pat.len()) == s.subrange(
                i,
                i + pat.len(),
            ));
            assert(occurs_at(s.drop_first(), pat, i - 1));
        }
    }
}

/// The character sequences that the vectors of `v` hold.
pub open spec fn texts(v: Seq<Vec<char>>) -> Seq<Seq<char>> {
    v.map_values(|x: Vec<char>| x@)
}

/// The parts of `s` between the occurrences of `pat`, found from left to
/// right without overlap. With the empty pattern `s` is the only part.
pub open spec fn pieces(s: Seq<char>, pat: Seq<char>) -> Seq<Seq<char>>
    decreases s.len(),
    via pieces_terminates
{
    if pat.len() == 0 {
        seq![s]
    } else {
        match find_from(s, pat, 0) {
            Some(i) => seq![s.take(i)] + pieces(s.skip(i + pat.len()), pat),
            None => seq![s],
        }
    }
}

#[via_fn]
proof fn pieces_terminates(s: Seq<char>, pat: Seq<char>) {
    lemma_find_from(s, pat, 0);
}

/// A text has at least one part.
pub proof fn lemma_pieces_nonempty(s: Seq<char>, pat: Seq<char>)
    ensures
        pieces(s, pat).len() > 0,
{
}

/// The parts of `s` between the occurrences of `pat`.
pub fn split(s: &Vec<char>, pat: &Vec<char>) -> (r: Vec<Vec<char>>)
    ensures
        texts(r@) == pieces(s@, pat@),
        r.len() > 0,
{
    proof {
        lemma_pieces_nonempty(s@, pat@);
    }
    let n = s.len();
    let m = pat.len();
    let mut out: Vec<Vec<char>> = Vec::new();
    assert(s@.subrange(0, n as int) == s@);
    if m == 0 {
        out.push(slice(s, 0, n));
        assert(texts(out@) == seq![s@]);
        return out;
    }
    let mut pos: usize = 0;
    let mut done = false;
    while !done
        invariant
            pos <= n,
            n == s.len(),
            m == pat.len(),
            m > 0,
            !done ==> pieces(s@, pat@) == texts(out@) + pieces(
                s@.subrange(pos as int, n as int),
                pat@,
            ),
            done ==> pieces(s@, pat@) == texts(out@),
        decreases n - pos + (if done { 0int } else { 1int }),
    {
        let ghost rest = s@.subrange(pos as int, n as int);
        let ghost before = texts(out@);
        proof {
            lemma_find_skip(s@, pat@, pos as int, 0);
            lemma_find_from(s@, pat@, pos as int);
            assert(s@.skip(pos as int) == rest);
        }
        match find(s, pat, pos) {
            Some(i) => {
                let part = slice(s, pos, i);
                assert(rest.take(i - pos) == s@.subrange(pos as int, i as int));
                assert(rest.skip(i - pos + m) == s@.subrange(i + m, n as int));
                out.push(part);
                assert(texts(out@) == before.push(part@));
                pos = i + m;
            },
            None => {
                let part = slice(s, pos, n);
                out.push(part);
                assert(texts(out@) == before.push(part@));
                done = true;
            },
        }
    }
    out
}

/// `line` without one carriage return at its end.
pub open spec fn strip_cr(line: Seq<char>) -> Seq<char> {
    if line.len() > 0 && line.last() == '\r' {
        line.drop_last()
    } else {
        line
    }
}

/// The lines of `s`. A line ends at a line feed, or at the end of `s` if
/// characters are left there; the line feed, and a carriage return right
/// before it, are no part of the line.
pub open spec fn lines_of(s: Seq<char>) -> Seq<Seq<char>>
    decreases s.len(),
    via lines_terminates
{
    if s.len() == 0 {
        Seq::empty()
    } else {
        match find_from(s, seq!['\n'], 0) {
            Some(i) => seq![strip_cr(s.take(i))] + lines_of(s.skip(i + 1)),
            None => seq![s],
        }
    }
}

#[via_fn]
proof fn lines_terminates(s: Seq<char>) {
    lemma_find_from(s, seq!['\n'], 0);
}

/// The lines of `s`.
pub fn split_lines(s: &Vec<char>) -> (r: Vec<Vec<char>>)
    ensures
        texts(r@) == lines_of(s@),
{
    let n = s.len();
    let mut feed: Vec<char> = Vec::new();
    feed.push('\n');
    assert(feed@ == seq!['\n']);
    let mut out: Vec<Vec<char>> = Vec::new();
    let mut pos: usize = 0;
    assert(s@.subrange(0, n as int) == s@);
    assert(texts(out@) == Seq::<Seq<char>>::empty());
    while pos < n
        invariant
            pos <= n,
            n == s.len(),
            feed@ == seq!['\n'],
            lines_of(s@) == texts(out@) + lines_of(s@.subrange(pos as int, n as int)),
        decreases n - pos,
    {
        let ghost rest = s@.subrange(pos as int, n as int);
        let ghost before = texts(out@);
        proof {
            lemma_find_skip(s@, feed@, pos as int, 0);
            lemma_find_from(s@, feed@, pos as int);
            assert(s@.skip(pos as int) == rest);
        }
        match find(s, &feed, pos) {
            Some(i) => {
                let end: usize = if i > pos && s[i - 1] == '\r' {
                    i - 1
                } else {
                    i
                };
                let part = slice(s, pos, end);
                assert(rest.take(i - pos) == s@.subrange(pos as int, i as int));
                assert(i > pos ==> s@.subrange(pos as int, i as int).drop_last() == s@.subrange(
                    pos as int,
                    i - 1,
                ));
                assert(part@ == strip_cr(rest.take(i - pos)));
                assert(rest.skip(i - pos + 1) == s@.subrange(i + 1, n as int));
                out.push(part);
                assert(texts(out@) == before.push(part@));
                pos = i + 1;
            },
            None => {
                let part = slice(s, pos, n);
                out.push(part);
                assert(texts(out@) == before.push(part@));
                assert(s@.subrange(n as int, n as int).len() == 0);
                pos = n;
            },
        }
    }
    out
}

/// The length of the longest prefix of `s` that holds no white space.
pub open spec fn word_len(s: Seq<char>) -> nat
    decreases s.len(),
{
    if s.len() > 0 && !is_space(s[0]) {
        1 + word_len(s.drop_first())
    } else {
        0
    }
}

/// The prefix measured by `word_len` lies within the text.
pub proof fn lemma_word_len(s: Seq<char>)
    ensures
        word_len(s) <= s.len(),
        s.len() > 0 && !is_space(s[0]) ==> word_len(s) > 0,
    decreases s.len(),
{
    if s.len() > 0 && !is_space(s[0]) {
        lemma_word_len(s.drop_first());
    }
}

/// Trimming takes characters away, and what is left does not begin with
/// white space.
pub proof fn lemma_trim_start(s: Seq<char>)
    ensures
        trim_start(s).len() <= s.len(),
        trim_start(s).len() > 0 ==> !is_space(trim_start(s)[0]),
    decreases s.len(),
{
    if s.len() > 0 && is_space(s[0]) {
        lemma_trim_start(s.drop_first());
    }
}

/// The fields of `s`: its maximal runs of characters that are not white
/// space, in order.
pub open spec fn fields_of(s: Seq<char>) -> Seq<Seq<char>>
    decreases s.len(),
    via fields_terminates
{
    let t = trim_start(s);
    if t.len() == 0 {
        Seq::empty()
    } else {
        seq![t.take(word_len(t) as int)] + fields_of(t.skip(word_len(t) as int))
    }
}

#[via_fn]
proof fn fields_terminates(s: Seq<char>) {
    lemma_trim_start(s);
    lemma_word_len(trim_start(s));
}

/// The fields of `s`, separated by white space.
pub fn split_fields(s: &Vec<char>) -> (r: Vec<Vec<char>>)
    ensures
        texts(r@) == fields_of(s@),
{
    let n = s.len();
    let mut out: Vec<Vec<char>> = Vec::new();
    let mut pos: usize = 0;
    assert(s@.subrange(0, n as int) == s@);
    assert(texts(out@) == Seq::<Seq<char>>::empty());
    while pos < n
        invariant
            pos <= n,
            n == s.len(),
            fields_of(s@) == texts(out@) + fields_of(s@.subrange(pos as int, n as int)),
        decreases n - pos,
    {
        let ghost rest = s@.subrange(pos as int, n as int);
        let ghost before = texts(out@);
        let mut a: usize = pos;
        while a < n && is_whitespace(s[a])
            invariant
                pos <= a <= n,
                n == s.len(),
                trim_start(rest) == trim_start(s@.subrange(a as int, n as int)),
                rest == s@.subrange(pos as int, n as int),
            decreases n - a,
        {
            assert(s@.subrange(a as int, n as int).drop_first() == s@.subrange(a + 1, n as int));
            a += 1;
        }
        let ghost t = s@.subrange(a as int, n as int);
        assert(trim_start(rest) == t);
        if a == n {
            pos = n;
        } else {
            let mut b: usize = a;
            while b < n && !is_whitespace(s[b])
                invariant
                    a <= b <= n,
                    n == s.len(),
                    word_len(t) == (b - a) + word_len(s@.subrange(b as int, n as int)),
                    t == s@.subrange(a as int, n as int),
                decreases n - b,
            {
                assert(s@.subrange(b as int, n as int).drop_first() == s@.subrange(
                    b + 1,
                    n as int,
                ));
                b += 1;
            }
            assert(word_len(t) == b - a);
            let part = slice(s, a, b);
            assert(t.take(b - a) == s@.subrange(a as int, b as int));
            assert(t.skip(b - a) == s@.subrange(b as int, n as int));
            out.push(part);
            assert(texts(out@) == before.push(part@));
            pos = b;
        }
    }
    out
}

/// The characters of an optional string.
pub open spec fn opt_text(s: Option<String>) -> Option<Seq<char>> {
    match s {
        Some(s) => Some(s@),
        None => None,
    }
}

/// The text that is there, or the empty text.
pub open spec fn text_or_empty(s: Option<Seq<char>>) -> Seq<char> {
    match s {
        Some(s) => s,
        None => Seq::empty(),
    }
}

/// The characters of the string that is there, or none.
pub fn chars_or_empty(s: &Option<String>) -> (v: Vec<char>)
    ensures
        v@ == text_or_empty(opt_text(*s)),
{
    match s {
        Some(s) => chars_of(s.as_str()),
        None => Vec::new(),
    }
}

/// The first of `lines` that begins with `prefix`.
pub open spec fn first_starting_with(lines: Seq<Seq<char>>, prefix: Seq<char>) -> Option<
    Seq<char>,
>
    decreases lines.len(),
{
    if lines.len() == 0 {
        None
    } else if starts_with_text(lines[0], prefix) {
        Some(lines[0])
    } else {
        first_starting_with(lines.drop_first(), prefix)
    }
}

/// The position of the first of `lines` that begins with `prefix`.
pub fn first_line_starting_with(lines: &Vec<Vec<char>>, prefix: &Vec<char>) -> (r: Option<usize>)
    ensures
        r matches Some(i) ==> i < lines.len() && first_starting_with(texts(lines@), prefix@)
            == Some(lines[i as int]@),
        r is None ==> first_starting_with(texts(lines@), prefix@) is None,
{
    let mut i: usize = 0;
    assert(texts(lines@).skip(0) == texts(lines@));
    while i < lines.len()
        invariant
            i <= lines.len(),
            first_starting_with(texts(lines@), prefix@) == first_starting_with(
                texts(lines@).skip(i as int),
                prefix@,
            ),
        decreases lines.len() - i,
    {
        assert(texts(lines@).skip(i as int)[0] == lines[i as int]@);
        if starts_with(&lines[i], prefix) {
            return Some(i);
        }
        assert(texts(lines@).skip(i as int).drop_first() == texts(lines@).skip(i + 1));
        i += 1;
    }
    None
}

/// The characters of an optional vector.
pub open spec fn opt_chars(v: Option<Vec<char>>) -> Option<Seq<char>> {
    match v {
        Some(v) => Some(v@),
        None => None,
    }
}

/// What follows the first occurrence of `pat` in `s`, if `pat` occurs.
pub open spec fn after_first(s: Seq<char>, pat: Seq<char>) -> Option<Seq<char>> {
    match find_from(s, pat, 0) {
        Some(i) => Some(s.skip(i + pat.len())),
        None => None,
    }
}

/// What stands before the first occurrence of `pat` in `s`; all of `s`
/// where `pat` does not occur.
pub open spec fn before_first(s: Seq<char>, pat: Seq<char>) -> Seq<char> {
    match find_from(s, pat, 0) {
        Some(i) => s.take(i),
        None => s,
    }
}

/// What follows the first occurrence of `pat` in `s`, if `pat` occurs.
pub fn rest_after(s: &Vec<char>, pat: &Vec<char>) -> (r: Option<Vec<char>>)
    ensures
        opt_chars(r) == after_first(s@, pat@),
{
    proof {
        lemma_find_from(s@, pat@, 0);
    }
    match find(s, pat, 0) {
        Some(i) => {
            assert(s@.skip(i + pat.len()) == s@.subrange(i + pat.len(), s.len() as int));
            Some(slice(s, i + pat.len(), s.len()))
        },
        None => None,
    }
}

/// What stands before the first occurrence of `pat` in `s`.
pub fn part_before(s: &Vec<char>, pat: &Vec<char>) -> (r: Vec<char>)
    ensures
        r@ == before_first(s@, pat@),
{
    proof {
        lemma_find_from(s@, pat@, 0);
    }
    match find(s, pat, 0) {
        Some(i) => {
            assert(s@.take(i as int) == s@.subrange(0, i as int));
            slice(s, 0, i)
        },
        None => {
            assert(s@.subrange(0, s.len() as int) == s@);
            slice(s, 0, s.len())
        },
    }
}

/// Where what is left of `s` after `trim_start` begins: all before it is
/// white space, and what stands there is not.
pub proof fn lemma_trim_start_range(s: Seq<char>) -> (a: int)
    ensures
        0 <= a <= s.len(),
        trim_start(s) == s.subrange(a, s.len() as int),
        forall|i: int| 0 <= i < a ==> is_space(s[i]),
        a < s.len() ==> !is_space(s[a]),
    decreases s.len(),
{
    if s.len() > 0 && is_space(s[0]) {
        let t = s.drop_first();
        let a1 = lemma_trim_start_range(t);
        assert(t.subrange(a1, t.len() as int) == s.subrange(a1 + 1, s.len() as int));
        assert forall|i: int| 0 <= i < a1 + 1 implies is_space(s[i]) by {
            if i > 0 {
                assert(s[i] == t[i - 1]);
            }
        }
        a1 + 1
    } else {
        assert(s.subrange(0, s.len() as int) == s);
        0
    }
}

/// Where what is left of `s` after `trim_end` ends: all from there on is
/// white space, and what stands before is not.
pub proof fn lemma_trim_end_range(s: Seq<char>) -> (b: int)
    ensures
        0 <= b <= s.len(),
        trim_end(s) == s.subrange(0, b),
        forall|i: int| b <= i < s.len() ==> is_space(s[i]),
        b > 0 ==> !is_space(s[b - 1]),
    decreases s.len(),
{
    if s.len() > 0 && is_space(s.last()) {
        let t = s.drop_last();
        let b1 = lemma_trim_end_range(t);
        assert(t.subrange(0, b1) == s.subrange(0, b1));
        assert forall|i: int| b1 <= i < s.len() implies is_space(s[i]) by {
            if i < t.len() {
                assert(s[i] == t[i]);
            }
        }
        if b1 > 0 {
            assert(s[b1 - 1] == t[b1 - 1]);
        }
        b1
    } else {
        assert(s.subrange(0, s.len() as int) == s);
        s.len() as int
    }
}

/// The trimmed text is a range of the text, with nothing but white space
/// around it, and neither begins nor ends with white space.
pub proof fn lemma_trimmed_range(s: Seq<char>) -> (r: (int, int))
    ensures
        0 <= r.0 <= r.1 <= s.len(),
        trimmed(s) == s.subrange(r.0, r.1),
        forall|i: int| 0 <= i < r.0 ==> is_space(s[i]),
        forall|i: int| r.1 <= i < s.len() ==> is_space(s[i]),
        r.0 < r.1 ==> !is_space(s[r.0]) && !is_space(s[r.1 - 1]),
{
    let a = lemma_trim_start_range(s);
    let u = s.subrange(a, s.len() as int);
    let b = lemma_trim_end_range(u);
    assert(u.subrange(0, b) == s.subrange(a, a + b));
    assert forall|i: int| a + b <= i < s.len() implies is_space(s[i]) by {
        assert(s[i] == u[i - a]);
    }
    if b > 0 {
        assert(u[b - 1] == s[a + b - 1]);
    }
    (a, a + b)
}

/// Trimming a trimmed text changes nothing.
pub proof fn lemma_trimmed_idempotent(s: Seq<char>)
    ensures
        trimmed(trimmed(s)) == trimmed(s),
{
    let (a, b) = lemma_trimmed_range(s);
    let t = trimmed(s);
    if t.len() > 0 {
        assert(t[0] == s[a]);
        assert(t.last() == s[b - 1]);
    }
}

/// What stands in a range of a text stands in the text.
pub proof fn lemma_range_contains(s: Seq<char>, a: int, b: int, pat: Seq<char>)
    requires
        0 <= a <= b <= s.len(),
        contains_text(s.subrange(a, b), pat),
    ensures
        contains_text(s, pat),
{
    let i = choose|i: int| occurs_at(s.subrange(a, b), pat, i);
    assert(s.subrange(a, b).subrange(i, i + pat.len()) == s.subrange(a + i, a + i + pat.len()));
    assert(occurs_at(s, pat, a + i));
}

/// What stands in the trimmed text stands in the text.
pub proof fn lemma_trimmed_contains(s: Seq<char>, pat: Seq<char>)
    requires
        contains_text(trimmed(s), pat),
    ensures
        contains_text(s, pat),
{
    let (a, b) = lemma_trimmed_range(s);
    lemma_range_contains(s, a, b, pat);
}

/// Trimming keeps every occurrence of a pattern that neither begins nor
/// ends with white space.
pub proof fn lemma_trim_keeps(s: Seq<char>, pat: Seq<char>)
    requires
        contains_text(s, pat),
        pat.len() > 0,
        !is_space(pat[0]),
        !is_space(pat.last()),
    ensures
        contains_text(trimmed(s), pat),
{
    let (a, b) = lemma_trimmed_range(s);
    let i = choose|i: int| occurs_at(s, pat, i);
    assert(s.subrange(i, i + pat.len())[0] == s[i]);
    assert(s.subrange(i, i + pat.len())[pat.len() - 1] == s[i + pat.len() - 1]);
    assert(a <= i);
    assert(i + pat.len() <= b);
    assert(s.subrange(a, b).subrange(i - a, i - a + pat.len()) == s.subrange(i, i + pat.len()));
    assert(occurs_at(trimmed(s), pat, i - a));
}

} // verus!
