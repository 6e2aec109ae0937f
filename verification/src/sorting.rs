//! Lists in ascending order.
use vstd::prelude::*;

use crate::text;

verus! {

/// The numbers ascend.
pub open spec fn ascending(s: Seq<i32>) -> bool {
    forall|i: int, j: int| 0 <= i <= j < s.len() ==> s[i] <= s[j]
}

/// `a` comes before `b` in a dictionary, or equals it: at the first difference the smaller
/// character decides, and a beginning comes before what it begins.
pub open spec fn text_le(a: Seq<char>, b: Seq<char>) -> bool
    decreases a.len(),
{
    if a.len() == 0 {
        true
    } else if b.len() == 0 {
        false
    } else if a[0] == b[0] {
        text_le(a.skip(1), b.skip(1))
    } else {
        a[0] < b[0]
    }
}

/// The texts ascend.
pub open spec fn texts_ascending(s: Seq<Seq<char>>) -> bool {
    forall|i: int, j: int| 0 <= i <= j < s.len() ==> text_le(#[trigger] s[i], #[trigger] s[j])
}

proof fn lemma_insert_multiset<A>(s: Seq<A>, at: int, a: A)
    requires
        0 <= at <= s.len(),
    ensures
        s.insert(at, a).to_multiset() == s.to_multiset().insert(a),
{
    vstd::seq_lib::to_multiset_insert(s, at, a);
}

/// The same numbers in ascending order.
pub fn sort_numbers(v: &Vec<i32>) -> (out: Vec<i32>)
    ensures
        ascending(out@),
        out@.to_multiset() == v@.to_multiset(),
{
    let mut out: Vec<i32> = Vec::new();
    let mut i: usize = 0;
    assert(v@.take(0) =~= out@);
    while i < v.len()
        invariant
            i <= v.len(),
            out.len() == i,
            ascending(out@),
            out@.to_multiset() == v@.take(i as int).to_multiset(),
        decreases v.len() - i,
    {
        let x: i32 = v[i];
        let mut at: usize = out.len();
        while at > 0 && out[at - 1] > x
            invariant
                at <= out.len(),
                ascending(out@),
                forall|j: int| at <= j < out.len() ==> x < out[j],
            decreases at,
        {
            at = at - 1;
        }
        proof {
            lemma_insert_multiset(out@, at as int, x);
            v@.take(i as int).to_multiset_ensures();
            assert(v@.take(i + 1) =~= v@.take(i as int).push(x));
        }
        out.insert(at, x);
        i = i + 1;
    }
    assert(v@.take(v@.len() as int) =~= v@);
    out
}

proof fn lemma_text_le_total(a: Seq<char>, b: Seq<char>)
    ensures
        text_le(a, b) || text_le(b, a),
        text_le(a, b) && text_le(b, a) ==> a == b,
    decreases a.len(),
{
    if a.len() > 0 && b.len() > 0 && a[0] == b[0] {
        lemma_text_le_total(a.skip(1), b.skip(1));
        if text_le(a, b) && text_le(b, a) {
            assert(a =~= seq![a[0]] + a.skip(1));
            assert(b =~= seq![b[0]] + b.skip(1));
        }
    } else if a.len() == 0 && b.len() == 0 {
        assert(a =~= b);
    }
}

proof fn lemma_text_le_transitive(a: Seq<char>, b: Seq<char>, c: Seq<char>)
    requires
        text_le(a, b),
        text_le(b, c),
    ensures
        text_le(a, c),
    decreases a.len(),
{
    if a.len() > 0 && a[0] == b[0] && b[0] == c[0] {
        lemma_text_le_transitive(a.skip(1), b.skip(1), c.skip(1));
    }
}

/// Whether `a` comes before `b` or equals it.
pub fn not_after(a: &str, b: &str) -> (yes: bool)
    ensures
        yes == text_le(a@, b@),
{
    let xs: Vec<char> = text::chars_of(a);
    let ys: Vec<char> = text::chars_of(b);
    let mut i: usize = 0;
    assert(a@.skip(0) =~= a@);
    assert(b@.skip(0) =~= b@);
    loop
        invariant
            xs@ == a@,
            ys@ == b@,
            i <= xs.len(),
            i <= ys.len(),
            text_le(a@, b@) == text_le(a@.skip(i as int), b@.skip(i as int)),
        decreases xs.len() - i,
    {
        if i == xs.len() {
            return true;
        }
        if i == ys.len() {
            return false;
        }
        if xs[i] != ys[i] {
            return xs[i] < ys[i];
        }
        assert(a@.skip(i as int).skip(1) =~= a@.skip(i + 1));
        assert(b@.skip(i as int).skip(1) =~= b@.skip(i + 1));
        i = i + 1;
    }
}

/// The same texts in ascending order.
pub fn sort_texts(v: &Vec<String>) -> (out: Vec<String>)
    ensures
        texts_ascending(text::texts(out@)),
        text::texts(out@).to_multiset() == text::texts(v@).to_multiset(),
{
    let ghost all = text::texts(v@);
    let mut out: Vec<String> = text::no_texts();
    let mut i: usize = 0;
    assert(all.take(0) =~= text::texts(out@));
    while i < v.len()
        invariant
            all == text::texts(v@),
            i <= v.len(),
            out.len() == i,
            texts_ascending(text::texts(out@)),
            text::texts(out@).to_multiset() == all.take(i as int).to_multiset(),
        decreases v.len() - i,
    {
        let x: &str = v[i].as_str();
        let ghost done = text::texts(out@);
        let mut at: usize = out.len();
        while at > 0 && !not_after(out[at - 1].as_str(), x)
            invariant
                at <= out.len(),
                done == text::texts(out@),
                texts_ascending(done),
                forall|j: int| at <= j < out.len() ==> !text_le(#[trigger] done[j], x@),
            decreases at,
        {
            assert(done[at - 1] == out@[at - 1]@);
            at = at - 1;
        }
        out.insert(at, x.to_owned());
        let ghost next = done.insert(at as int, x@);
        proof {
            assert(text::texts(out@) =~= next);
            lemma_insert_multiset(done, at as int, x@);
            all.take(i as int).to_multiset_ensures();
            assert(all.take(i + 1) =~= all.take(i as int).push(x@));
            if at > 0 {
                assert(done[at - 1] == out@[at - 1]@);
            }
            assert forall|j: int, k: int| 0 <= j <= k < next.len() implies text_le(
                #[trigger] next[j],
                #[trigger] next[k],
            ) by {
                lemma_insert_keeps_order(done, at as int, x@, j, k);
            }
        }
        i = i + 1;
    }
    assert(all.take(v@.len() as int) =~= all);
    out
}

proof fn lemma_insert_keeps_order(s: Seq<Seq<char>>, at: int, x: Seq<char>, j: int, k: int)
    requires
        0 <= at <= s.len(),
        texts_ascending(s),
        at > 0 ==> text_le(s[at - 1], x),
        forall|j: int| at <= j < s.len() ==> !text_le(#[trigger] s[j], x),
        0 <= j <= k <= s.len(),
    ensures
        text_le(s.insert(at, x)[j], s.insert(at, x)[k]),
{
    let t = s.insert(at, x);
    if j == k {
        lemma_text_le_total(t[j], t[j]);
    } else if k < at {
        assert(t[j] == s[j] && t[k] == s[k]);
    } else if j > at {
        assert(t[j] == s[j - 1] && t[k] == s[k - 1]);
    } else if k == at {
        assert(t[j] == s[j]);
        assert(text_le(s[j], s[at - 1]));
        lemma_text_le_transitive(s[j], s[at - 1], x);
    } else if j == at {
        assert(t[k] == s[k - 1]);
        lemma_text_le_total(s[k - 1], x);
    } else {
        assert(t[j] == s[j] && t[k] == s[k - 1]);
    }
}

/// Any two texts are in order one way or the other, in both ways only where they are the same, and
/// the order carries on from one text to the next.
pub proof fn texts_are_ordered(a: Seq<char>, b: Seq<char>, c: Seq<char>)
    ensures
        text_le(a, b) || text_le(b, a),
        text_le(a, b) && text_le(b, a) ==> a == b,
        text_le(a, b) && text_le(b, c) ==> text_le(a, c),
{
    lemma_text_le_total(a, b);
    if text_le(a, b) && text_le(b, c) {
        lemma_text_le_transitive(a, b, c);
    }
}

/// What two texts begin with makes no difference to their order: the first character in which they
/// differ decides, and a text comes before those that it begins.
pub proof fn first_difference_decides(
    head: Seq<char>,
    one: char,
    other: char,
    a: Seq<char>,
    b: Seq<char>,
)
    ensures
        text_le(head + a, head + b) == text_le(a, b),
        one < other ==> text_le(head + (seq![one] + a), head + (seq![other] + b)),
        one < other ==> !text_le(head + (seq![other] + b), head + (seq![one] + a)),
        text_le(head, head + a),
        a.len() > 0 ==> !text_le(head + a, head),
{
    lemma_common_head(head, a, b);
    lemma_common_head(head, seq![one] + a, seq![other] + b);
    lemma_common_head(head, seq![other] + b, seq![one] + a);
    lemma_common_head(head, Seq::empty(), a);
    lemma_common_head(head, a, Seq::empty());
    assert(head + Seq::<char>::empty() =~= head);
}

proof fn lemma_common_head(head: Seq<char>, a: Seq<char>, b: Seq<char>)
    ensures
        text_le(head + a, head + b) == text_le(a, b),
    decreases head.len(),
{
    if head.len() == 0 {
        assert(head + a =~= a);
        assert(head + b =~= b);
    } else {
        assert((head + a).skip(1) =~= head.skip(1) + a);
        assert((head + b).skip(1) =~= head.skip(1) + b);
        assert((head + a)[0] == head[0]);
        assert((head + b)[0] == head[0]);
        lemma_common_head(head.skip(1), a, b);
    }
}

/// A list is in order, of numbers and of texts, exactly where it is so up to its last item and that
/// one does not come before its neighbour.
pub proof fn neighbours_make_the_order(
    numbers: Seq<i32>,
    last: i32,
    texts: Seq<Seq<char>>,
    end: Seq<char>,
)
    ensures
        ascending(numbers.push(last)) <==> ascending(numbers) && (numbers.len() > 0
            ==> numbers.last() <= last),
        texts_ascending(texts.push(end)) <==> texts_ascending(texts) && (texts.len() > 0
            ==> text_le(texts.last(), end)),
{
    let more = numbers.push(last);
    if ascending(more) {
        assert forall|i: int, j: int| 0 <= i <= j < numbers.len() implies numbers[i]
            <= numbers[j] by {
            assert(more[i] <= more[j]);
        }
        if numbers.len() > 0 {
            assert(more[numbers.len() - 1] <= more[numbers.len() as int]);
        }
    }
    if ascending(numbers) && (numbers.len() > 0 ==> numbers.last() <= last) {
        assert forall|i: int, j: int| 0 <= i <= j < more.len() implies more[i] <= more[j] by {
            if j == numbers.len() && i < j {
                assert(numbers[i] <= numbers[numbers.len() - 1]);
            }
        }
    }
    let longer = texts.push(end);
    if texts_ascending(longer) {
        assert forall|i: int, j: int| 0 <= i <= j < texts.len() implies text_le(
            #[trigger] texts[i],
            #[trigger] texts[j],
        ) by {
            assert(text_le(longer[i], longer[j]));
        }
        if texts.len() > 0 {
            assert(text_le(longer[texts.len() - 1], longer[texts.len() as int]));
        }
    }
    if texts_ascending(texts) && (texts.len() > 0 ==> text_le(texts.last(), end)) {
        assert forall|i: int, j: int| 0 <= i <= j < longer.len() implies text_le(
            #[trigger] longer[i],
            #[trigger] longer[j],
        ) by {
            if j == texts.len() {
                if i == j {
                    lemma_text_le_total(end, end);
                } else {
                    assert(text_le(texts[i], texts[texts.len() - 1]));
                    lemma_text_le_transitive(texts[i], texts.last(), end);
                }
            } else {
                assert(text_le(texts[i], texts[j]));
            }
        }
    }
}

} // verus!
