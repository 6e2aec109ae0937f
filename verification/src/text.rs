//! Text as the host tools print it: lines, fields, prefixes and searches.
use vstd::prelude::*;

verus! {

/// The characters that separate fields: the Unicode property `White_Space`.
pub open spec fn is_space(c: char) -> bool {
    ||| '\u{9}' <= c <= '\u{d}'
    ||| c == ' '
    ||| c == '\u{85}'
    ||| c == '\u{a0}'
    ||| c == '\u{1680}'
    ||| '\u{2000}' <= c <= '\u{200a}'
    ||| c == '\u{2028}'
    ||| c == '\u{2029}'
    ||| c == '\u{202f}'
    ||| c == '\u{205f}'
    ||| c == '\u{3000}'
}

/// An ASCII decimal digit.
pub open spec fn is_digit(c: char) -> bool {
    '0' <= c <= '9'
}

/// The contents of a list of strings.
pub open spec fn texts(list: Seq<String>) -> Seq<Seq<char>> {
    Seq::new(list.len(), |i: int| list[i]@)
}

/// The contents of an optional string.
pub open spec fn opt_text(s: Option<String>) -> Option<Seq<char>> {
    match s {
        Some(t) => Some(t@),
        None => None,
    }
}

/// The contents of an optional borrowed string.
pub open spec fn opt_str(s: Option<&str>) -> Option<Seq<char>> {
    match s {
        Some(t) => Some(t@),
        None => None,
    }
}

/// `pattern` stands in `s` at position `at`.
pub open spec fn occurs_at(s: Seq<char>, pattern: Seq<char>, at: int) -> bool {
    &&& 0 <= at
    &&& at + pattern.len() <= s.len()
    &&& s.subrange(at, at + pattern.len()) == pattern
}

/// `pattern` stands somewhere in `s`.
pub open spec fn contains(s: Seq<char>, pattern: Seq<char>) -> bool {
    exists|at: int| occurs_at(s, pattern, at)
}

/// `s` begins with `pattern`.
pub open spec fn has_prefix(s: Seq<char>, pattern: Seq<char>) -> bool {
    occurs_at(s, pattern, 0)
}

/// `s` ends with `pattern`.
pub open spec fn has_suffix(s: Seq<char>, pattern: Seq<char>) -> bool {
    occurs_at(s, pattern, s.len() - pattern.len())
}

/// The first position at or after `from` where `pattern` stands in `s`.
pub open spec fn find_from(s: Seq<char>, pattern: Seq<char>, from: int) -> Option<int>
    decreases s.len() - from,
{
    if occurs_at(s, pattern, from) {
        Some(from)
    } else if from >= s.len() {
        None
    } else {
        find_from(s, pattern, from + 1)
    }
}

/// The first position where `pattern` stands in `s`.
pub open spec fn find(s: Seq<char>, pattern: Seq<char>) -> Option<int> {
    find_from(s, pattern, 0)
}

/// What stands before and after the first `pattern` in `s`.
pub open spec fn split_once(s: Seq<char>, pattern: Seq<char>) -> Option<(Seq<char>, Seq<char>)> {
    match find(s, pattern) {
        Some(at) => Some((s.take(at), s.skip(at + pattern.len()))),
        None => None,
    }
}

/// How many characters of `s` come before the first `c`; all of them where `c` does not occur.
pub open spec fn before(s: Seq<char>, c: char) -> int
    decreases s.len(),
{
    if s.len() == 0 || s[0] == c {
        0
    } else {
        1 + before(s.skip(1), c)
    }
}

/// How many characters of `s` come before the first white space.
pub open spec fn word_len(s: Seq<char>) -> int
    decreases s.len(),
{
    if s.len() == 0 || is_space(s[0]) {
        0
    } else {
        1 + word_len(s.skip(1))
    }
}

/// How many decimal digits `s` begins with.
pub open spec fn digits_len(s: Seq<char>) -> int
    decreases s.len(),
{
    if s.len() == 0 || !is_digit(s[0]) {
        0
    } else {
        1 + digits_len(s.skip(1))
    }
}

/// `s` without its leading white space.
pub open spec fn trim_start(s: Seq<char>) -> Seq<char>
    decreases s.len(),
{
    if s.len() > 0 && is_space(s[0]) {
        trim_start(s.skip(1))
    } else {
        s
    }
}

/// `s` without its trailing white space.
pub open spec fn trim_end(s: Seq<char>) -> Seq<char>
    decreases s.len(),
{
    if s.len() > 0 && is_space(s.last()) {
        trim_end(s.drop_last())
    } else {
        s
    }
}

/// `s` without white space at either end.
pub open spec fn trim(s: Seq<char>) -> Seq<char> {
    trim_end(trim_start(s))
}

/// `s` without a leading run of `c`.
pub open spec fn trim_start_char(s: Seq<char>, c: char) -> Seq<char>
    decreases s.len(),
{
    if s.len() > 0 && s[0] == c {
        trim_start_char(s.skip(1), c)
    } else {
        s
    }
}

/// `s` without a trailing run of `c`.
pub open spec fn trim_end_char(s: Seq<char>, c: char) -> Seq<char>
    decreases s.len(),
{
    if s.len() > 0 && s.last() == c {
        trim_end_char(s.drop_last(), c)
    } else {
        s
    }
}

/// A line without the carriage return that stood before its newline.
pub open spec fn without_cr(s: Seq<char>) -> Seq<char> {
    if s.len() > 0 && s.last() == '\r' {
        s.drop_last()
    } else {
        s
    }
}

/// The lines of `s`. A line ends with a newline or a carriage return and a newline; the last
/// line may lack its ending.
pub open spec fn lines(s: Seq<char>) -> Seq<Seq<char>>
    decreases s.len(),
    via lines_decreases
{
    if s.len() == 0 {
        Seq::empty()
    } else {
        let end = before(s, '\n');
        if end < s.len() {
            seq![without_cr(s.take(end))] + lines(s.skip(end + 1))
        } else {
            seq![s]
        }
    }
}

#[via_fn]
proof fn lines_decreases(s: Seq<char>) {
    lemma_before_bounds(s, '\n');
}

/// The runs of characters of `s` that are not white space.
pub open spec fn fields(s: Seq<char>) -> Seq<Seq<char>>
    decreases s.len(),
    via fields_decreases
{
    let t = trim_start(s);
    if t.len() == 0 {
        Seq::empty()
    } else {
        seq![t.take(word_len(t))] + fields(t.skip(word_len(t)))
    }
}

#[via_fn]
proof fn fields_decreases(s: Seq<char>) {
    lemma_trim_start_len(s);
    lemma_word_len_bounds(trim_start(s));
    lemma_trim_start_first(s);
}

/// The first field of `s`.
pub open spec fn first_field(s: Seq<char>) -> Option<Seq<char>> {
    let t = trim_start(s);
    if t.len() == 0 {
        None
    } else {
        Some(t.take(word_len(t)))
    }
}

/// The pieces of `s` between separators `c`: one more than there are separators.
pub open spec fn split_char(s: Seq<char>, c: char) -> Seq<Seq<char>>
    decreases s.len(),
    via split_char_decreases
{
    let end = before(s, c);
    if end < s.len() {
        seq![s.take(end)] + split_char(s.skip(end + 1), c)
    } else {
        seq![s]
    }
}

#[via_fn]
proof fn split_char_decreases(s: Seq<char>, c: char) {
    lemma_before_bounds(s, c);
}

/// The pieces joined into one text with `separator` between neighbours.
pub open spec fn join(pieces: Seq<Seq<char>>, separator: Seq<char>) -> Seq<char>
    decreases pieces.len(),
{
    if pieces.len() == 0 {
        Seq::empty()
    } else if pieces.len() == 1 {
        pieces[0]
    } else {
        join(pieces.drop_last(), separator) + separator + pieces.last()
    }
}

/// `c` with an ASCII capital letter made small.
pub open spec fn ascii_lower(c: char) -> char {
    if 'A' <= c <= 'Z' {
        (c as u32 + 32) as char
    } else {
        c
    }
}

/// `a` and `b` differ at most in the case of ASCII letters.
pub open spec fn same_ignoring_ascii_case(a: Seq<char>, b: Seq<char>) -> bool {
    &&& a.len() == b.len()
    &&& forall|i: int| 0 <= i < a.len() ==> ascii_lower(#[trigger] a[i]) == ascii_lower(b[i])
}

proof fn lemma_before_bounds(s: Seq<char>, c: char)
    ensures
        0 <= before(s, c) <= s.len(),
        before(s, c) < s.len() ==> s[before(s, c)] == c,
        forall|j: int| 0 <= j < before(s, c) ==> s[j] != c,
    decreases s.len(),
{
    if s.len() > 0 && s[0] != c {
        lemma_before_bounds(s.skip(1), c);
        assert forall|j: int| 0 <= j < before(s, c) implies s[j] != c by {
            if j > 0 {
                assert(s.skip(1)[j - 1] == s[j]);
            }
        }
    }
}

proof fn lemma_before_is(s: Seq<char>, c: char, n: int)
    requires
        0 <= n <= s.len(),
        n < s.len() ==> s[n] == c,
        forall|j: int| 0 <= j < n ==> s[j] != c,
    ensures
        before(s, c) == n,
{
    lemma_before_bounds(s, c);
}

proof fn lemma_word_len_bounds(s: Seq<char>)
    ensures
        0 <= word_len(s) <= s.len(),
        word_len(s) < s.len() ==> is_space(s[word_len(s)]),
        forall|j: int| 0 <= j < word_len(s) ==> !is_space(s[j]),
    decreases s.len(),
{
    if s.len() > 0 && !is_space(s[0]) {
        lemma_word_len_bounds(s.skip(1));
        assert forall|j: int| 0 <= j < word_len(s) implies !is_space(s[j]) by {
            if j > 0 {
                assert(s.skip(1)[j - 1] == s[j]);
            }
        }
    }
}

proof fn lemma_trim_start_len(s: Seq<char>)
    ensures
        trim_start(s).len() <= s.len(),
    decreases s.len(),
{
    if s.len() > 0 && is_space(s[0]) {
        lemma_trim_start_len(s.skip(1));
    }
}

proof fn lemma_trim_start_first(s: Seq<char>)
    ensures
        trim_start(s).len() > 0 ==> !is_space(trim_start(s)[0]),
    decreases s.len(),
{
    if s.len() > 0 && is_space(s[0]) {
        lemma_trim_start_first(s.skip(1));
    }
}

/// The characters of `s`, one by one.
pub fn chars_of(s: &str) -> (out: Vec<char>)
    ensures
        out@ == s@,
{
    let mut out: Vec<char> = Vec::new();
    for c in it: s.chars()
        invariant
            out@ == s@.take(it.index()),
            it.seq() == s@,
    {
        out.push(c);
        assert(s@.take(it.index() + 1) == s@.take(it.index()).push(c));
    }
    out
}

/// Whether `c` is white space.
pub fn space(c: char) -> (yes: bool)
    ensures
        yes == is_space(c),
{
    ('\u{9}' <= c && c <= '\u{d}') || c == ' ' || c == '\u{85}' || c == '\u{a0}' || c == '\u{1680}'
        || ('\u{2000}' <= c && c <= '\u{200a}') || c == '\u{2028}' || c == '\u{2029}' || c
        == '\u{202f}' || c == '\u{205f}' || c == '\u{3000}'
}

/// Whether `a` and `b` are the same text.
pub fn same(a: &str, b: &str) -> (yes: bool)
    ensures
        yes == (a@ == b@),
{
    let xs: Vec<char> = chars_of(a);
    let ys: Vec<char> = chars_of(b);
    if xs.len() != ys.len() {
        return false;
    }
    let mut i: usize = 0;
    while i < xs.len()
        invariant
            xs@ == a@,
            ys@ == b@,
            xs.len() == ys.len(),
            i <= xs.len(),
            forall|j: int| 0 <= j < i ==> xs[j] == ys[j],
        decreases xs.len() - i,
    {
        if xs[i] != ys[i] {
            return false;
        }
        i = i + 1;
    }
    assert(a@ =~= b@);
    true
}

/// Whether `pattern` stands in `chars` at position `at`.
fn stands_at(chars: &Vec<char>, pattern: &Vec<char>, at: usize) -> (yes: bool)
    ensures
        yes == occurs_at(chars@, pattern@, at as int),
{
    if at > chars.len() || chars.len() - at < pattern.len() {
        return false;
    }
    let mut i: usize = 0;
    while i < pattern.len()
        invariant
            at + pattern.len() <= chars.len(),
            i <= pattern.len(),
            forall|j: int| 0 <= j < i ==> chars[at + j] == pattern[j],
        decreases pattern.len() - i,
    {
        if chars[at + i] != pattern[i] {
            assert(chars@.subrange(at as int, at + pattern@.len())[i as int] != pattern@[i as int]);
            return false;
        }
        i = i + 1;
    }
    assert(chars@.subrange(at as int, at + pattern@.len()) =~= pattern@);
    true
}

/// Whether `s` begins with `pattern`.
pub fn starts_with(s: &str, pattern: &str) -> (yes: bool)
    ensures
        yes == has_prefix(s@, pattern@),
{
    stands_at(&chars_of(s), &chars_of(pattern), 0)
}

/// Whether `s` ends with `pattern`.
pub fn ends_with(s: &str, pattern: &str) -> (yes: bool)
    ensures
        yes == has_suffix(s@, pattern@),
{
    let chars: Vec<char> = chars_of(s);
    let tail: Vec<char> = chars_of(pattern);
    if chars.len() < tail.len() {
        return false;
    }
    stands_at(&chars, &tail, chars.len() - tail.len())
}

/// The first position where `pattern` stands in `s`, counted in characters.
pub fn position(s: &str, pattern: &str) -> (at: Option<usize>)
    ensures
        match at {
            Some(i) => find(s@, pattern@) == Some(i as int),
            None => find(s@, pattern@) is None,
        },
        at matches Some(i) ==> occurs_at(s@, pattern@, i as int),
{
    let chars: Vec<char> = chars_of(s);
    let pat: Vec<char> = chars_of(pattern);
    let mut i: usize = 0;
    loop
        invariant
            chars@ == s@,
            pat@ == pattern@,
            i <= chars.len(),
            find(s@, pattern@) == find_from(s@, pattern@, i as int),
        decreases chars.len() - i,
    {
        if stands_at(&chars, &pat, i) {
            return Some(i);
        }
        if i >= chars.len() {
            return None;
        }
        i = i + 1;
    }
}

/// Whether `pattern` stands somewhere in `s`.
pub fn holds(s: &str, pattern: &str) -> (yes: bool)
    ensures
        yes == contains(s@, pattern@),
{
    proof {
        lemma_find_is_contains(s@, pattern@);
    }
    position(s, pattern).is_some()
}

proof fn lemma_find_from_none(s: Seq<char>, pattern: Seq<char>, from: int, at: int)
    requires
        from <= at,
        occurs_at(s, pattern, at),
    ensures
        find_from(s, pattern, from) is Some,
    decreases s.len() - from,
{
    if !occurs_at(s, pattern, from) {
        if from < s.len() {
            lemma_find_from_none(s, pattern, from + 1, at);
        }
    }
}

proof fn lemma_find_from_some(s: Seq<char>, pattern: Seq<char>, from: int)
    ensures
        find_from(s, pattern, from) matches Some(at) ==> {
            &&& from <= at
            &&& occurs_at(s, pattern, at)
            &&& forall|j: int| from <= j < at ==> !occurs_at(s, pattern, j)
        },
    decreases s.len() - from,
{
    if !occurs_at(s, pattern, from) && from < s.len() {
        lemma_find_from_some(s, pattern, from + 1);
    }
}

/// A pattern is found exactly where the text contains it, and what is found is its first
/// occurrence.
pub proof fn lemma_find_is_contains(s: Seq<char>, pattern: Seq<char>)
    ensures
        find(s, pattern) is Some <==> contains(s, pattern),
        find(s, pattern) matches Some(at) ==> {
            &&& occurs_at(s, pattern, at)
            &&& forall|j: int| 0 <= j < at ==> !occurs_at(s, pattern, j)
        },
{
    lemma_find_from_some(s, pattern, 0);
    if contains(s, pattern) {
        let at = choose|at: int| occurs_at(s, pattern, at);
        lemma_find_from_none(s, pattern, 0, at);
    }
}

/// A text is divided at the first separator: what stands before it holds none.
#[verifier::spinoff_prover]
pub proof fn divided_at_separator(head: Seq<char>, separator: Seq<char>, tail: Seq<char>)
    requires
        separator.len() == 1,
        !head.contains(separator[0]),
    ensures
        split_once(head + separator + tail, separator) == Some((head, tail)),
{
    let s = head + separator + tail;
    lemma_find_is_contains(s, separator);
    assert(s.subrange(head.len() as int, head.len() as int + 1) =~= separator);
    assert(occurs_at(s, separator, head.len() as int));
    let at = find(s, separator)->0;
    assert(occurs_at(s, separator, at));
    assert(at <= head.len());
    if at < head.len() {
        let piece = s.subrange(at, at + 1);
        assert(piece[0] == head[at]);
        assert(piece == separator);
        assert(head.contains(head[at]));
    }
    assert(at == head.len());
    assert(s.take(head.len() as int) =~= head);
    assert(s.skip(head.len() as int + 1) =~= tail);
}

/// Two pieces with a separator between them, which neither holds, are split into the two.
pub proof fn pieces_around_separator(a: Seq<char>, c: char, b: Seq<char>)
    requires
        !a.contains(c),
        !b.contains(c),
    ensures
        split_char(a + seq![c] + b, c) == seq![a, b],
{
    let s = a + seq![c] + b;
    assert forall|j: int| 0 <= j < a.len() implies s[j] != c by {
        assert(a.contains(a[j]));
    }
    lemma_before_is(s, c, a.len() as int);
    assert forall|j: int| 0 <= j < b.len() implies b[j] != c by {
        assert(b.contains(b[j]));
    }
    lemma_before_is(b, c, b.len() as int);
    assert(s.take(a.len() as int) =~= a);
    assert(s.skip(a.len() as int + 1) =~= b);
    assert(split_char(b, c) =~= seq![b]);
    assert(split_char(s, c) =~= seq![a, b]);
}

/// What follows the last separator is the last piece, and the others are those of what precedes it.
pub proof fn last_piece(a: Seq<char>, c: char, b: Seq<char>)
    requires
        !b.contains(c),
    ensures
        split_char(a + seq![c] + b, c) == split_char(a, c).push(b),
    decreases a.len(),
{
    let end = before(a, c);
    lemma_before_bounds(a, c);
    if end < a.len() {
        let s = a + seq![c] + b;
        let rest = a.skip(end + 1);
        last_piece(rest, c, b);
        assert forall|j: int| 0 <= j < end implies s[j] != c by {
            assert(s[j] == a[j]);
        }
        lemma_before_is(s, c, end);
        assert(s.take(end) =~= a.take(end));
        assert(s.skip(end + 1) =~= rest + seq![c] + b);
        assert(split_char(s, c) =~= split_char(a, c).push(b));
    } else {
        assert(!a.contains(c));
        pieces_around_separator(a, c, b);
        assert(split_char(a, c).push(b) =~= seq![a, b]);
    }
}

/// The characters of `s` from `from` up to `to`.
pub fn part(s: &str, from: usize, to: usize) -> (out: String)
    requires
        from <= to <= s@.len(),
    ensures
        out@ == s@.subrange(from as int, to as int),
{
    s.substring_char(from, to).to_owned()
}

/// Adds an owned text to a list.
pub fn put(list: &mut Vec<String>, s: String)
    ensures
        texts(final(list)@) == texts(old(list)@).push(s@),
        final(list)@ == old(list)@.push(s),
{
    list.push(s);
    assert(texts(list@) =~= texts(old(list)@).push(s@));
}

/// Adds a copy of a text to a list.
pub fn put_str(list: &mut Vec<String>, s: &str)
    ensures
        texts(final(list)@) == texts(old(list)@).push(s@),
{
    put(list, s.to_owned());
}

/// An empty list of texts.
pub fn no_texts() -> (list: Vec<String>)
    ensures
        texts(list@) == Seq::<Seq<char>>::empty(),
        list@.len() == 0,
{
    let list: Vec<String> = Vec::new();
    assert(texts(list@) =~= Seq::<Seq<char>>::empty());
    list
}

/// Adds copies of the texts of one list to another.
pub fn put_all(list: &mut Vec<String>, more: &Vec<String>)
    ensures
        texts(final(list)@) == texts(old(list)@) + texts(more@),
{
    let ghost start = texts(list@);
    let mut i: usize = 0;
    assert(start + texts(more@).take(0) =~= start);
    while i < more.len()
        invariant
            i <= more.len(),
            texts(list@) == start + texts(more@).take(i as int),
        decreases more.len() - i,
    {
        put_str(list, more[i].as_str());
        assert(texts(list@) =~= start + texts(more@).take(i + 1));
        i = i + 1;
    }
    assert(texts(more@).take(more@.len() as int) =~= texts(more@));
}

/// The lines of `s`.
pub fn split_lines(s: &str) -> (out: Vec<String>)
    ensures
        texts(out@) == lines(s@),
{
    let chars: Vec<char> = chars_of(s);
    let mut out: Vec<String> = no_texts();
    let mut start: usize = 0;
    let mut i: usize = 0;
    assert(s@.skip(0) =~= s@);
    assert(texts(out@) + lines(s@) =~= lines(s@));
    while i < chars.len()
        invariant
            chars@ == s@,
            start <= i <= chars.len(),
            forall|j: int| start <= j < i ==> chars[j] != '\n',
            texts(out@) + lines(s@.skip(start as int)) == lines(s@),
        decreases chars.len() - i,
    {
        if chars[i] == '\n' {
            let ghost rest = s@.skip(start as int);
            proof {
                lemma_before_is(rest, '\n', i - start);
                assert(rest.skip(i - start + 1) =~= s@.skip(i + 1));
                assert(rest.take(i - start) =~= s@.subrange(start as int, i as int));
            }
            let ghost done = texts(out@);
            if start < i && chars[i - 1] == '\r' {
                assert(rest.take(i - start).drop_last() =~= s@.subrange(start as int, i - 1));
                put(&mut out, part(s, start, i - 1));
            } else {
                put(&mut out, part(s, start, i));
            }
            assert(lines(rest) == seq![without_cr(rest.take(i - start))] + lines(s@.skip(i + 1)));
            assert(texts(out@) + lines(s@.skip(i + 1)) =~= done + lines(rest));
            start = i + 1;
        }
        i = i + 1;
    }
    let ghost rest = s@.skip(start as int);
    let ghost done = texts(out@);
    if start < chars.len() {
        proof {
            lemma_before_is(rest, '\n', rest.len() as int);
        }
        put(&mut out, part(s, start, chars.len()));
        assert(rest =~= s@.subrange(start as int, s@.len() as int));
        assert(lines(rest) == seq![rest]);
        assert(texts(out@) =~= done + lines(rest));
    } else {
        assert(done + lines(rest) =~= done);
    }
    out
}

proof fn lemma_trim_start_is(s: Seq<char>, n: int)
    requires
        0 <= n <= s.len(),
        n < s.len() ==> !is_space(s[n]),
        forall|j: int| 0 <= j < n ==> is_space(s[j]),
    ensures
        trim_start(s) == s.skip(n),
    decreases n,
{
    if n > 0 {
        assert forall|j: int| 0 <= j < n - 1 implies is_space(s.skip(1)[j]) by {
            assert(s[j + 1] == s.skip(1)[j]);
        }
        lemma_trim_start_is(s.skip(1), n - 1);
        assert(s.skip(1).skip(n - 1) =~= s.skip(n));
    } else {
        assert(s.skip(0) =~= s);
    }
}

proof fn lemma_trim_end_is(s: Seq<char>, n: int)
    requires
        0 <= n <= s.len(),
        n > 0 ==> !is_space(s[n - 1]),
        forall|j: int| n <= j < s.len() ==> is_space(s[j]),
    ensures
        trim_end(s) == s.take(n),
    decreases s.len(),
{
    if n < s.len() {
        assert(is_space(s.last()));
        lemma_trim_end_is(s.drop_last(), n);
        assert(s.drop_last().take(n) =~= s.take(n));
    } else {
        assert(s.take(n) =~= s);
    }
}

/// How many white space characters stand in `chars` from `from` on.
fn skip_spaces(chars: &Vec<char>, from: usize) -> (to: usize)
    requires
        from <= chars.len(),
    ensures
        from <= to <= chars.len(),
        trim_start(chars@.skip(from as int)) == chars@.skip(to as int),
        to < chars.len() ==> !is_space(chars[to as int]),
{
    let mut i: usize = from;
    while i < chars.len() && space(chars[i])
        invariant
            from <= i <= chars.len(),
            forall|j: int| from <= j < i ==> is_space(chars[j]),
        decreases chars.len() - i,
    {
        i = i + 1;
    }
    proof {
        lemma_trim_start_is(chars@.skip(from as int), i - from);
        assert(chars@.skip(from as int).skip(i - from) =~= chars@.skip(i as int));
    }
    i
}

/// Where the field that begins at `from` ends.
fn word_end(chars: &Vec<char>, from: usize) -> (to: usize)
    requires
        from <= chars.len(),
    ensures
        from <= to <= chars.len(),
        word_len(chars@.skip(from as int)) == to - from,
        from < chars.len() && !is_space(chars[from as int]) ==> from < to,
{
    let mut i: usize = from;
    while i < chars.len() && !space(chars[i])
        invariant
            from <= i <= chars.len(),
            forall|j: int| from <= j < i ==> !is_space(chars[j]),
        decreases chars.len() - i,
    {
        i = i + 1;
    }
    proof {
        let t = chars@.skip(from as int);
        lemma_word_len_bounds(t);
        if word_len(t) < i - from {
            assert(is_space(chars[from + word_len(t)]));
        } else if word_len(t) > i - from {
            assert(!is_space(t[i - from]));
        }
    }
    i
}

/// The fields of `s`.
pub fn split_fields(s: &str) -> (out: Vec<String>)
    ensures
        texts(out@) == fields(s@),
{
    let chars: Vec<char> = chars_of(s);
    let mut out: Vec<String> = no_texts();
    let mut i: usize = 0;
    assert(s@.skip(0) =~= s@);
    assert(texts(out@) + fields(s@) =~= fields(s@));
    loop
        invariant
            chars@ == s@,
            i <= chars.len(),
            texts(out@) + fields(s@.skip(i as int)) == fields(s@),
        decreases chars.len() - i,
    {
        let from: usize = skip_spaces(&chars, i);
        let ghost rest = s@.skip(i as int);
        let ghost done = texts(out@);
        if from == chars.len() {
            assert(fields(rest) =~= Seq::<Seq<char>>::empty());
            assert(done + fields(rest) =~= done);
            return out;
        }
        let to: usize = word_end(&chars, from);
        put(&mut out, part(s, from, to));
        proof {
            let t = s@.skip(from as int);
            assert(t.take(to - from) =~= s@.subrange(from as int, to as int));
            assert(t.skip(to - from) =~= s@.skip(to as int));
            assert(fields(rest) == seq![t.take(word_len(t))] + fields(t.skip(word_len(t))));
            assert(texts(out@) + fields(s@.skip(to as int)) =~= done + fields(rest));
        }
        i = to;
    }
}

/// The first field of `s`.
pub fn first_of_fields(s: &str) -> (out: Option<String>)
    ensures
        opt_text(out) == first_field(s@),
{
    let chars: Vec<char> = chars_of(s);
    assert(s@.skip(0) =~= s@);
    let from: usize = skip_spaces(&chars, 0);
    if from == chars.len() {
        return None;
    }
    let to: usize = word_end(&chars, from);
    assert(s@.skip(from as int).take(to - from) =~= s@.subrange(from as int, to as int));
    Some(part(s, from, to))
}

/// `s` without its leading white space.
pub fn trimmed_start(s: &str) -> (out: String)
    ensures
        out@ == trim_start(s@),
{
    let chars: Vec<char> = chars_of(s);
    assert(s@.skip(0) =~= s@);
    let from: usize = skip_spaces(&chars, 0);
    assert(s@.skip(from as int) =~= s@.subrange(from as int, s@.len() as int));
    part(s, from, chars.len())
}

/// `s` without white space at either end.
pub fn trimmed(s: &str) -> (out: String)
    ensures
        out@ == trim(s@),
{
    let chars: Vec<char> = chars_of(s);
    assert(s@.skip(0) =~= s@);
    let from: usize = skip_spaces(&chars, 0);
    let mut to: usize = chars.len();
    while to > from && space(chars[to - 1])
        invariant
            chars@ == s@,
            from <= to <= chars.len(),
            forall|j: int| to <= j < chars.len() ==> is_space(chars[j]),
        decreases to,
    {
        to = to - 1;
    }
    proof {
        let t = s@.skip(from as int);
        lemma_trim_end_is(t, to - from);
        assert(t.take(to - from) =~= s@.subrange(from as int, to as int));
    }
    part(s, from, to)
}

proof fn lemma_trim_start_char_is(s: Seq<char>, c: char, n: int)
    requires
        0 <= n <= s.len(),
        n < s.len() ==> s[n] != c,
        forall|j: int| 0 <= j < n ==> s[j] == c,
    ensures
        trim_start_char(s, c) == s.skip(n),
    decreases n,
{
    if n > 0 {
        assert forall|j: int| 0 <= j < n - 1 implies s.skip(1)[j] == c by {
            assert(s[j + 1] == s.skip(1)[j]);
        }
        lemma_trim_start_char_is(s.skip(1), c, n - 1);
        assert(s.skip(1).skip(n - 1) =~= s.skip(n));
    } else {
        assert(s.skip(0) =~= s);
    }
}

proof fn lemma_trim_end_char_is(s: Seq<char>, c: char, n: int)
    requires
        0 <= n <= s.len(),
        n > 0 ==> s[n - 1] != c,
        forall|j: int| n <= j < s.len() ==> s[j] == c,
    ensures
        trim_end_char(s, c) == s.take(n),
    decreases s.len(),
{
    if n < s.len() {
        assert(s.last() == c);
        lemma_trim_end_char_is(s.drop_last(), c, n);
        assert(s.drop_last().take(n) =~= s.take(n));
    } else {
        assert(s.take(n) =~= s);
    }
}

/// `s` without runs of `c` at either end.
pub fn trimmed_of(s: &str, c: char) -> (out: String)
    ensures
        out@ == trim_end_char(trim_start_char(s@, c), c),
{
    let chars: Vec<char> = chars_of(s);
    let mut from: usize = 0;
    while from < chars.len() && chars[from] == c
        invariant
            from <= chars.len(),
            forall|j: int| 0 <= j < from ==> chars[j] == c,
        decreases chars.len() - from,
    {
        from = from + 1;
    }
    proof {
        lemma_trim_start_char_is(chars@, c, from as int);
    }
    let mut to: usize = chars.len();
    while to > from && chars[to - 1] == c
        invariant
            chars@ == s@,
            from <= to <= chars.len(),
            forall|j: int| to <= j < chars.len() ==> chars[j] == c,
        decreases to,
    {
        to = to - 1;
    }
    proof {
        let t = s@.skip(from as int);
        lemma_trim_end_char_is(t, c, to - from);
        assert(t.take(to - from) =~= s@.subrange(from as int, to as int));
    }
    part(s, from, to)
}

/// What stands before and after the first `pattern` in `s`.
pub fn divide(s: &str, pattern: &str) -> (out: Option<(String, String)>)
    ensures
        match out {
            Some((head, tail)) => split_once(s@, pattern@) == Some((head@, tail@)),
            None => split_once(s@, pattern@) is None,
        },
{
    match position(s, pattern) {
        Some(at) => {
            let n: usize = s.unicode_len();
            let k: usize = pattern.unicode_len();
            assert(s@.take(at as int) =~= s@.subrange(0, at as int));
            assert(s@.skip(at + k) =~= s@.subrange(at + k, n as int));
            Some((part(s, 0, at), part(s, at + k, n)))
        },
        None => None,
    }
}

/// The decimal digits that `s` begins with.
pub fn leading_digits(s: &str) -> (out: String)
    ensures
        out@ == s@.take(digits_len(s@)),
{
    let chars: Vec<char> = chars_of(s);
    let mut i: usize = 0;
    while i < chars.len() && '0' <= chars[i] && chars[i] <= '9'
        invariant
            i <= chars.len(),
            forall|j: int| 0 <= j < i ==> is_digit(chars[j]),
        decreases chars.len() - i,
    {
        i = i + 1;
    }
    proof {
        lemma_digits_len_is(s@, i as int);
        assert(s@.take(i as int) =~= s@.subrange(0, i as int));
    }
    part(s, 0, i)
}

proof fn lemma_digits_len_is(s: Seq<char>, n: int)
    requires
        0 <= n <= s.len(),
        n < s.len() ==> !is_digit(s[n]),
        forall|j: int| 0 <= j < n ==> is_digit(s[j]),
    ensures
        digits_len(s) == n,
    decreases n,
{
    if n > 0 {
        assert forall|j: int| 0 <= j < n - 1 implies is_digit(s.skip(1)[j]) by {
            assert(s[j + 1] == s.skip(1)[j]);
        }
        lemma_digits_len_is(s.skip(1), n - 1);
    }
}

/// The pieces of `s` between separators `c`.
pub fn pieces(s: &str, c: char) -> (out: Vec<String>)
    ensures
        texts(out@) == split_char(s@, c),
{
    let chars: Vec<char> = chars_of(s);
    let mut out: Vec<String> = no_texts();
    let mut start: usize = 0;
    let mut i: usize = 0;
    assert(s@.skip(0) =~= s@);
    assert(texts(out@) + split_char(s@, c) =~= split_char(s@, c));
    while i < chars.len()
        invariant
            chars@ == s@,
            start <= i <= chars.len(),
            forall|j: int| start <= j < i ==> chars[j] != c,
            texts(out@) + split_char(s@.skip(start as int), c) == split_char(s@, c),
        decreases chars.len() - i,
    {
        if chars[i] == c {
            let ghost rest = s@.skip(start as int);
            let ghost done = texts(out@);
            proof {
                lemma_before_is(rest, c, i - start);
                assert(rest.skip(i - start + 1) =~= s@.skip(i + 1));
                assert(rest.take(i - start) =~= s@.subrange(start as int, i as int));
            }
            put(&mut out, part(s, start, i));
            assert(split_char(rest, c) == seq![rest.take(i - start)] + split_char(
                s@.skip(i + 1),
                c,
            ));
            assert(texts(out@) + split_char(s@.skip(i + 1), c) =~= done + split_char(rest, c));
            start = i + 1;
        }
        i = i + 1;
    }
    let ghost rest = s@.skip(start as int);
    let ghost done = texts(out@);
    proof {
        lemma_before_is(rest, c, rest.len() as int);
        assert(rest =~= s@.subrange(start as int, s@.len() as int));
    }
    put(&mut out, part(s, start, chars.len()));
    assert(texts(out@) =~= done + split_char(rest, c));
    out
}

/// The texts of `list` in one, with `separator` between neighbours.
pub fn joined(list: &Vec<String>, separator: &str) -> (out: String)
    ensures
        out@ == join(texts(list@), separator@),
{
    let ghost all = texts(list@);
    let mut out: String = String::new();
    let mut i: usize = 0;
    while i < list.len()
        invariant
            all == texts(list@),
            i <= list.len(),
            out@ == join(all.take(i as int), separator@),
        decreases list.len() - i,
    {
        assert(all.take(i + 1).drop_last() =~= all.take(i as int));
        if i == 0 {
            assert(all.take(0) =~= Seq::<Seq<char>>::empty());
            out.append(list[i].as_str());
            assert(Seq::<char>::empty() + list[i as int]@ =~= list[i as int]@);
        } else {
            out.append(separator);
            out.append(list[i].as_str());
        }
        i = i + 1;
    }
    assert(all.take(list@.len() as int) =~= all);
    out
}

/// `c` with an ASCII capital letter made small.
fn lowered(c: char) -> (out: char)
    ensures
        out == ascii_lower(c),
{
    if 'A' <= c && c <= 'Z' {
        (c as u8 + 32) as char
    } else {
        c
    }
}

/// Whether `a` and `b` differ at most in the case of ASCII letters.
pub fn same_but_case(a: &str, b: &str) -> (yes: bool)
    ensures
        yes == same_ignoring_ascii_case(a@, b@),
{
    let xs: Vec<char> = chars_of(a);
    let ys: Vec<char> = chars_of(b);
    if xs.len() != ys.len() {
        return false;
    }
    let mut i: usize = 0;
    while i < xs.len()
        invariant
            xs@ == a@,
            ys@ == b@,
            xs.len() == ys.len(),
            i <= xs.len(),
            forall|j: int| 0 <= j < i ==> ascii_lower(#[trigger] xs@[j]) == ascii_lower(ys@[j]),
        decreases xs.len() - i,
    {
        if lowered(xs[i]) != lowered(ys[i]) {
            assert(ascii_lower(a@[i as int]) != ascii_lower(b@[i as int]));
            return false;
        }
        i = i + 1;
    }
    true
}

/// A line ends at its newline, with or without a carriage return before it, and the lines after it
/// are those of the rest.
pub proof fn lines_end_at_newlines(line: Seq<char>, rest: Seq<char>)
    requires
        !line.contains('\n'),
    ensures
        line.len() == 0 || line.last() != '\r' ==> lines(line + seq!['\n'] + rest) == seq![line]
            + lines(rest),
        lines(line + seq!['\r', '\n'] + rest) == seq![line] + lines(rest),
{
    assert forall|j: int| 0 <= j < line.len() implies line[j] != '\n' by {
        assert(line.contains(line[j]));
    }
    let s = line + seq!['\n'] + rest;
    lemma_before_is(s, '\n', line.len() as int);
    assert(s.take(line.len() as int) =~= line);
    assert(s.skip(line.len() as int + 1) =~= rest);
    let t = line + seq!['\r', '\n'] + rest;
    lemma_before_is(t, '\n', line.len() as int + 1);
    assert(t.take(line.len() as int + 1) =~= line.push('\r'));
    assert(line.push('\r').drop_last() =~= line);
    assert(t.skip(line.len() as int + 2) =~= rest);
}

/// A text without newline is its only line.
pub proof fn single_lines(line: Seq<char>)
    requires
        line.len() > 0,
        !line.contains('\n'),
    ensures
        lines(line) == seq![line],
{
    assert forall|j: int| 0 <= j < line.len() implies line[j] != '\n' by {
        assert(line.contains(line[j]));
    }
    lemma_before_is(line, '\n', line.len() as int);
}

/// A text without white space, and not empty.
pub open spec fn is_word(s: Seq<char>) -> bool {
    s.len() > 0 && forall|i: int| 0 <= i < s.len() ==> !is_space(#[trigger] s[i])
}

/// Only white space.
pub open spec fn is_blank(s: Seq<char>) -> bool {
    forall|i: int| 0 <= i < s.len() ==> is_space(#[trigger] s[i])
}

proof fn lemma_word_len_is(s: Seq<char>, n: int)
    requires
        0 <= n <= s.len(),
        n < s.len() ==> is_space(s[n]),
        forall|j: int| 0 <= j < n ==> !is_space(#[trigger] s[j]),
    ensures
        word_len(s) == n,
{
    lemma_word_len_bounds(s);
    if word_len(s) < n {
        assert(!is_space(s[word_len(s)]));
    }
}

/// A word that white space or the end of the text follows is the first field, and the fields after
/// it are those of the rest.
pub proof fn fields_begin_with_words(word: Seq<char>, rest: Seq<char>)
    requires
        is_word(word),
        rest.len() == 0 || is_space(rest[0]),
    ensures
        first_field(word + rest) == Some(word),
        fields(word + rest) == seq![word] + fields(rest),
{
    let s = word + rest;
    let n = word.len() as int;
    assert(!is_space(s[0])) by {
        assert(s[0] == word[0]);
    }
    lemma_trim_start_is(s, 0);
    assert(s.skip(0) =~= s);
    assert forall|j: int| 0 <= j < n implies !is_space(#[trigger] s[j]) by {
        assert(s[j] == word[j]);
    }
    lemma_word_len_is(s, n);
    assert(s.take(n) =~= word);
    assert(s.skip(n) =~= rest);
}

proof fn lemma_trim_start_blank(blank: Seq<char>, s: Seq<char>)
    requires
        is_blank(blank),
    ensures
        trim_start(blank + s) == trim_start(s),
    decreases blank.len(),
{
    if blank.len() > 0 {
        assert((blank + s).skip(1) =~= blank.skip(1) + s);
        assert((blank + s)[0] == blank[0]);
        assert forall|i: int| 0 <= i < blank.skip(1).len() implies is_space(
            #[trigger] blank.skip(1)[i],
        ) by {
            assert(blank[i + 1] == blank.skip(1)[i]);
        }
        lemma_trim_start_blank(blank.skip(1), s);
    } else {
        assert(blank + s =~= s);
    }
}

/// White space before a text changes neither its fields nor what is left of it without white
/// space.
pub proof fn leading_space_is_skipped(blank: Seq<char>, s: Seq<char>)
    requires
        is_blank(blank),
    ensures
        trim_start(blank + s) == trim_start(s),
        first_field(blank + s) == first_field(s),
        fields(blank + s) == fields(s),
{
    lemma_trim_start_blank(blank, s);
}

/// What is left of a text without white space at either end is what stands between it.
pub proof fn trimming_leaves_the_middle(before: Seq<char>, middle: Seq<char>, after: Seq<char>)
    requires
        is_blank(before),
        is_blank(after),
        middle.len() > 0,
        !is_space(middle[0]),
        !is_space(middle.last()),
    ensures
        trim(before + middle + after) == middle,
        trim_start(before + middle + after) == middle + after,
        trim(before + after).len() == 0,
{
    let s = before + middle + after;
    let n = before.len() as int;
    assert forall|j: int| 0 <= j < n implies is_space(s[j]) by {
        assert(s[j] == before[j]);
    }
    lemma_trim_start_is(s, n);
    assert(s.skip(n) =~= middle + after);
    let t = middle + after;
    assert forall|j: int| middle.len() <= j < t.len() implies is_space(t[j]) by {
        assert(t[j] == after[j - middle.len()]);
    }
    assert(t[middle.len() - 1] == middle.last());
    lemma_trim_end_is(t, middle.len() as int);
    assert(t.take(middle.len() as int) =~= middle);
    let blank = before + after;
    assert forall|j: int| 0 <= j < blank.len() implies is_space(blank[j]) by {
        if j < before.len() {
            assert(blank[j] == before[j]);
        } else {
            assert(blank[j] == after[j - before.len()]);
        }
    }
    lemma_trim_start_is(blank, blank.len() as int);
}

/// A text in quotes is what is left of it without the quotes, where it has none at its own ends.
pub proof fn quotes_are_taken_off(middle: Seq<char>, quote: char)
    requires
        middle.len() > 0,
        middle[0] != quote,
        middle.last() != quote,
    ensures
        trim_end_char(trim_start_char(seq![quote] + middle + seq![quote], quote), quote) == middle,
        trim_end_char(trim_start_char(middle, quote), quote) == middle,
{
    let s = seq![quote] + middle + seq![quote];
    lemma_trim_start_char_is(s, quote, 1);
    let t = s.skip(1);
    assert(t =~= middle + seq![quote]);
    lemma_trim_end_char_is(t, quote, middle.len() as int);
    assert(t.take(middle.len() as int) =~= middle);
    lemma_trim_start_char_is(middle, quote, 0);
    assert(middle.skip(0) =~= middle);
    lemma_trim_end_char_is(middle, quote, middle.len() as int);
    assert(middle.take(middle.len() as int) =~= middle);
}

/// Digits before anything else are the leading digits.
pub proof fn digits_lead(digits: Seq<char>, rest: Seq<char>)
    requires
        forall|i: int| 0 <= i < digits.len() ==> is_digit(#[trigger] digits[i]),
        rest.len() == 0 || !is_digit(rest[0]),
    ensures
        (digits + rest).take(digits_len(digits + rest)) == digits,
{
    let s = digits + rest;
    assert forall|j: int| 0 <= j < digits.len() implies is_digit(s[j]) by {
        assert(s[j] == digits[j]);
    }
    lemma_digits_len_is(s, digits.len() as int);
    assert(s.take(digits.len() as int) =~= digits);
}

proof fn lemma_join_pieces(pieces: Seq<Seq<char>>, c: char)
    requires
        pieces.len() > 0,
        forall|i: int| 0 <= i < pieces.len() ==> !(#[trigger] pieces[i]).contains(c),
    ensures
        split_char(join(pieces, seq![c]), c) == pieces,
    decreases pieces.len(),
{
    if pieces.len() == 1 {
        let only = pieces[0];
        assert forall|j: int| 0 <= j < only.len() implies only[j] != c by {
            assert(only.contains(only[j]));
        }
        lemma_before_is(only, c, only.len() as int);
        assert(split_char(only, c) =~= pieces);
    } else {
        let init = pieces.drop_last();
        assert forall|i: int| 0 <= i < init.len() implies !(#[trigger] init[i]).contains(c) by {
            assert(init[i] == pieces[i]);
        }
        lemma_join_pieces(init, c);
        assert(!pieces[pieces.len() - 1].contains(c));
        last_piece(join(init, seq![c]), c, pieces.last());
        assert(init.push(pieces.last()) =~= pieces);
    }
}

/// Pieces that are joined are split into the same pieces again.
pub proof fn joined_pieces_are_split(pieces: Seq<Seq<char>>, c: char)
    requires
        pieces.len() > 0,
        forall|i: int| 0 <= i < pieces.len() ==> !(#[trigger] pieces[i]).contains(c),
    ensures
        split_char(join(pieces, seq![c]), c) == pieces,
{
    lemma_join_pieces(pieces, c);
}

/// `a` and `b` are the same letter, one of them perhaps a capital, or the same character.
pub open spec fn same_letter(a: char, b: char) -> bool {
    ||| a == b
    ||| 'A' <= a <= 'Z' && b as int == a as int + 32
    ||| 'A' <= b <= 'Z' && a as int == b as int + 32
}

/// Texts are the same but for the case of ASCII letters exactly where they are so character by
/// character.
pub proof fn case_alone_is_ignored(a: Seq<char>, b: Seq<char>)
    ensures
        same_ignoring_ascii_case(a, b) <==> a.len() == b.len() && forall|i: int|
            0 <= i < a.len() ==> same_letter(#[trigger] a[i], b[i]),
{
    if same_ignoring_ascii_case(a, b) {
        assert forall|i: int| 0 <= i < a.len() implies same_letter(#[trigger] a[i], b[i]) by {
            assert(ascii_lower(a[i]) == ascii_lower(b[i]));
        }
    }
}

/// A text that was put together begins with its first part, ends with its last, and holds both.
pub proof fn parts_are_found(head: Seq<char>, tail: Seq<char>)
    ensures
        has_prefix(head + tail, head),
        has_suffix(head + tail, tail),
        contains(head + tail, head),
        contains(head + tail, tail),
        (head + tail).skip(head.len() as int) == tail,
        (head + tail).take(head.len() as int) == head,
{
    let s = head + tail;
    assert(s.subrange(0, head.len() as int) =~= head);
    assert(s.subrange(head.len() as int, s.len() as int) =~= tail);
    assert(s.skip(head.len() as int) =~= tail);
    assert(s.take(head.len() as int) =~= head);
    assert(occurs_at(s, head, 0));
    assert(occurs_at(s, tail, head.len() as int));
}

/// A pattern that stands between two parts is found.
pub proof fn middle_is_found(head: Seq<char>, pattern: Seq<char>, tail: Seq<char>)
    ensures
        contains(head + pattern + tail, pattern),
{
    let s = head + pattern + tail;
    assert(s.subrange(head.len() as int, head.len() as int + pattern.len()) =~= pattern);
    assert(occurs_at(s, pattern, head.len() as int));
}

/// A word that a space follows is a field, and the fields after it are those of the rest.
pub proof fn words_are_fields(word: Seq<char>, rest: Seq<char>)
    requires
        is_word(word),
    ensures
        fields(word + " "@ + rest) == seq![word] + fields(rest),
        first_field(word + " "@ + rest) == Some(word),
{
    reveal_strlit(" ");
    fields_begin_with_words(word, " "@ + rest);
    assert(word + " "@ + rest =~= word + (" "@ + rest));
    leading_space_is_skipped(" "@, rest);
}

/// A text is divided where the separator stands first.
#[verifier::spinoff_prover]
pub proof fn divided_at_first(head: Seq<char>, separator: Seq<char>, tail: Seq<char>)
    requires
        forall|j: int|
            0 <= j < head.len() ==> !#[trigger] occurs_at(head + separator + tail, separator, j),
    ensures
        split_once(head + separator + tail, separator) == Some((head, tail)),
{
    let s = head + separator + tail;
    lemma_find_is_contains(s, separator);
    assert(s.subrange(head.len() as int, head.len() as int + separator.len()) =~= separator);
    assert(occurs_at(s, separator, head.len() as int));
    let at = find(s, separator)->0;
    assert(occurs_at(s, separator, at));
    assert(at <= head.len());
    assert(at == head.len());
    assert(s.take(head.len() as int) =~= head);
    assert(s.skip(head.len() as int + separator.len()) =~= tail);
}

/// A text without separator is its only piece.
pub proof fn single_piece(s: Seq<char>, c: char)
    requires
        forall|i: int| 0 <= i < s.len() ==> #[trigger] s[i] != c,
    ensures
        split_char(s, c) == seq![s],
{
    lemma_before_is(s, c, s.len() as int);
}

/// White space and digits by their code points.
pub proof fn characters_are_told_by_code(c: char)
    ensures
        is_space(c) <==> {
            let code = c as int;
            ||| 9 <= code <= 13
            ||| code == 32
            ||| code == 133
            ||| code == 160
            ||| code == 5760
            ||| 8192 <= code <= 8202
            ||| code == 8232
            ||| code == 8233
            ||| code == 8239
            ||| code == 8287
            ||| code == 12288
        },
        is_digit(c) <==> 48 <= c as int <= 57,
        65 <= c as int <= 90 ==> ascii_lower(c) as int == c as int + 32,
        !(65 <= c as int <= 90) ==> ascii_lower(c) == c,
{
}

/// A text begins, or ends, with a pattern only where the pattern and something else make the text,
/// and it holds a pattern only where the pattern stands between two parts of it. It is divided by
/// exactly the patterns that it holds.
pub proof fn found_parts_are_there(s: Seq<char>, pattern: Seq<char>)
    ensures
        has_prefix(s, pattern) ==> s.len() >= pattern.len() && s == pattern + s.skip(
            pattern.len() as int,
        ),
        has_suffix(s, pattern) ==> s.len() >= pattern.len() && s == s.take(
            s.len() - pattern.len(),
        ) + pattern,
        contains(s, pattern) ==> exists|at: int|
            0 <= at <= s.len() - pattern.len() && s == s.take(at) + pattern + (#[trigger] s.skip(
                at + pattern.len(),
            )),
        split_once(s, pattern) is Some <==> contains(s, pattern),
        split_once(s, pattern) matches Some((head, tail)) ==> s == head + pattern + tail,
{
    lemma_find_is_contains(s, pattern);
    if has_prefix(s, pattern) {
        assert(s =~= s.subrange(0, pattern.len() as int) + s.skip(pattern.len() as int));
    }
    if has_suffix(s, pattern) {
        let at = s.len() - pattern.len();
        assert(s =~= s.take(at) + s.subrange(at, at + pattern.len()));
    }
    if contains(s, pattern) {
        let at = find(s, pattern)->0;
        assert(occurs_at(s, pattern, at));
        assert(s =~= s.take(at) + s.subrange(at, at + pattern.len()) + s.skip(at + pattern.len()));
    }
}

/// An empty text has no lines and no fields, and one of white space has no fields.
pub proof fn empty_texts_hold_nothing(blank: Seq<char>)
    requires
        is_blank(blank),
    ensures
        lines(Seq::empty()) == Seq::<Seq<char>>::empty(),
        fields(blank) == Seq::<Seq<char>>::empty(),
        first_field(blank) is None,
        trim(blank).len() == 0,
{
    let none = Seq::<char>::empty();
    lemma_trim_start_is(blank, blank.len() as int);
    assert(blank.skip(blank.len() as int) =~= none);
    assert(trim_start(blank).len() == 0);
    assert(fields(blank) =~= Seq::<Seq<char>>::empty());
    assert(lines(none) =~= Seq::<Seq<char>>::empty());
}

/// A piece that is joined behind others stands behind a separator; a single piece stays as it is.
pub proof fn pieces_are_joined_in_order(
    pieces: Seq<Seq<char>>,
    piece: Seq<char>,
    separator: Seq<char>,
)
    ensures
        pieces.len() > 0 ==> join(pieces.push(piece), separator) == join(pieces, separator)
            + separator + piece,
        join(seq![piece], separator) == piece,
        join(Seq::empty(), separator) == Seq::<char>::empty(),
{
    if pieces.len() > 0 {
        assert(pieces.push(piece).drop_last() =~= pieces);
    }
}

/// The contents of a list are those of its strings, in their places.
pub proof fn contents_keep_their_places(list: Seq<String>, s: String, borrowed: &str)
    ensures
        texts(list.push(s)) == texts(list).push(s@),
        texts(Seq::empty()) == Seq::<Seq<char>>::empty(),
        opt_text(Some(s)) == Some(s@),
        opt_text(None) is None,
        opt_str(Some(borrowed)) == Some(borrowed@),
        opt_str(None) is None,
{
    assert(texts(list.push(s)) =~= texts(list).push(s@));
    assert(texts(Seq::empty()) =~= Seq::<Seq<char>>::empty());
}

} // verus!
