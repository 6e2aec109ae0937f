//! Picking items out of lists.
use vstd::prelude::*;

verus! {

/// The first item that meets `p`.
pub open spec fn first_where<A>(s: Seq<A>, p: spec_fn(A) -> bool) -> Option<A>
    decreases s.len(),
{
    if s.len() == 0 {
        None
    } else {
        match first_where(s.drop_last(), p) {
            Some(a) => Some(a),
            None => if p(s.last()) {
                Some(s.last())
            } else {
                None
            },
        }
    }
}

/// The last item that meets `p`.
pub open spec fn last_where<A>(s: Seq<A>, p: spec_fn(A) -> bool) -> Option<A>
    decreases s.len(),
{
    if s.len() == 0 {
        None
    } else if p(s.last()) {
        Some(s.last())
    } else {
        last_where(s.drop_last(), p)
    }
}

/// The items that meet `p`, in their order.
pub open spec fn select<A>(s: Seq<A>, p: spec_fn(A) -> bool) -> Seq<A>
    decreases s.len(),
{
    if s.len() == 0 {
        Seq::empty()
    } else if p(s.last()) {
        select(s.drop_last(), p).push(s.last())
    } else {
        select(s.drop_last(), p)
    }
}

/// What `f` makes of the first item that it makes something of.
pub open spec fn first_some<A, B>(s: Seq<A>, f: spec_fn(A) -> Option<B>) -> Option<B>
    decreases s.len(),
{
    if s.len() == 0 {
        None
    } else {
        match first_some(s.drop_last(), f) {
            Some(b) => Some(b),
            None => f(s.last()),
        }
    }
}

/// The items after the first.
pub open spec fn tail<A>(s: Seq<A>) -> Seq<A> {
    if s.len() == 0 {
        s
    } else {
        s.skip(1)
    }
}

/// What `f` makes of each item.
pub open spec fn each<A, B>(s: Seq<A>, f: spec_fn(A) -> B) -> Seq<B> {
    Seq::new(s.len(), |i: int| f(s[i]))
}

/// The first item that meets a condition meets it, is in the list, and no item before it does;
/// there is none exactly where no item meets the condition.
pub proof fn lemma_first_where<A>(s: Seq<A>, p: spec_fn(A) -> bool)
    ensures
        match first_where(s, p) {
            Some(a) => exists|i: int|
                0 <= i < s.len() && #[trigger] s[i] == a && p(a) && (forall|j: int|
                    0 <= j < i ==> !p(#[trigger] s[j])),
            None => forall|i: int| 0 <= i < s.len() ==> !p(#[trigger] s[i]),
        },
    decreases s.len(),
{
    if s.len() > 0 {
        let init = s.drop_last();
        lemma_first_where(init, p);
        match first_where(init, p) {
            Some(a) => {
                let i = choose|i: int|
                    0 <= i < init.len() && #[trigger] init[i] == a && p(a) && (forall|j: int|
                        0 <= j < i ==> !p(#[trigger] init[j]));
                assert(s[i] == a);
                assert forall|j: int| 0 <= j < i implies !p(#[trigger] s[j]) by {
                    assert(init[j] == s[j]);
                }
            },
            None => {
                assert forall|j: int| 0 <= j < s.len() - 1 implies !p(#[trigger] s[j]) by {
                    assert(init[j] == s[j]);
                }
                if p(s.last()) {
                    assert(s[s.len() - 1] == s.last());
                }
            },
        }
    }
}

/// The first item of a beginning of a list that meets a condition is the first of the list.
pub proof fn lemma_first_where_take<A>(s: Seq<A>, p: spec_fn(A) -> bool, n: int)
    requires
        0 <= n <= s.len(),
        first_where(s.take(n), p) is Some,
    ensures
        first_where(s, p) == first_where(s.take(n), p),
    decreases s.len(),
{
    if n == s.len() {
        assert(s.take(n) =~= s);
    } else {
        assert(s.drop_last().take(n) =~= s.take(n));
        lemma_first_where_take(s.drop_last(), p, n);
    }
}

/// What is made of the first usable item of a beginning of a list is what is made of the list.
pub proof fn lemma_first_some_take<A, B>(s: Seq<A>, f: spec_fn(A) -> Option<B>, n: int)
    requires
        0 <= n <= s.len(),
        first_some(s.take(n), f) is Some,
    ensures
        first_some(s, f) == first_some(s.take(n), f),
    decreases s.len(),
{
    if n == s.len() {
        assert(s.take(n) =~= s);
    } else {
        assert(s.drop_last().take(n) =~= s.take(n));
        lemma_first_some_take(s.drop_last(), f, n);
    }
}

/// Every selected item meets the condition and comes from the list.
pub proof fn lemma_select<A>(s: Seq<A>, p: spec_fn(A) -> bool)
    ensures
        forall|i: int|
            0 <= i < select(s, p).len() ==> p(#[trigger] select(s, p)[i]) && s.contains(
                select(s, p)[i],
            ),
        forall|i: int|
            0 <= i < s.len() && p(#[trigger] s[i]) ==> select(s, p).contains(s[i]),
        select(s, p).len() <= s.len(),
    decreases s.len(),
{
    if s.len() > 0 {
        let init = s.drop_last();
        lemma_select(init, p);
        assert forall|i: int| 0 <= i < select(s, p).len() implies p(#[trigger] select(s, p)[i])
            && s.contains(select(s, p)[i]) by {
            if i < select(init, p).len() {
                assert(select(init, p)[i] == select(s, p)[i]);
                let k = choose|k: int| 0 <= k < init.len() && init[k] == select(init, p)[i];
                assert(s[k] == init[k]);
            } else {
                assert(s[s.len() - 1] == s.last());
            }
        }
        assert forall|i: int| 0 <= i < s.len() && p(#[trigger] s[i]) implies select(
            s,
            p,
        ).contains(s[i]) by {
            if i < init.len() {
                assert(init[i] == s[i]);
                let k = choose|k: int|
                    0 <= k < select(init, p).len() && select(init, p)[k] == s[i];
                assert(select(s, p)[k] == s[i]);
            } else {
                assert(select(s, p)[select(s, p).len() - 1] == s[i]);
            }
        }
    }
}

/// The item that meets a condition where none before it does is the first that meets it.
pub proof fn first_is_found<A>(s: Seq<A>, p: spec_fn(A) -> bool, i: int)
    requires
        0 <= i < s.len(),
        p(s[i]),
        forall|j: int| 0 <= j < i ==> !p(#[trigger] s[j]),
    ensures
        first_where(s, p) == Some(s[i]),
{
    lemma_first_where(s, p);
}

proof fn lemma_last_where_none<A>(s: Seq<A>, p: spec_fn(A) -> bool)
    requires
        forall|i: int| 0 <= i < s.len() ==> !p(#[trigger] s[i]),
    ensures
        last_where(s, p) is None,
    decreases s.len(),
{
    if s.len() > 0 {
        assert(s[s.len() - 1] == s.last());
        assert forall|i: int| 0 <= i < s.drop_last().len() implies !p(
            #[trigger] s.drop_last()[i],
        ) by {
            assert(s.drop_last()[i] == s[i]);
        }
        lemma_last_where_none(s.drop_last(), p);
    }
}

/// The item that meets a condition where none after it does is the last that meets it; there is
/// none where no item meets the condition.
pub proof fn last_is_found<A>(s: Seq<A>, p: spec_fn(A) -> bool, i: int)
    requires
        -1 <= i < s.len(),
        i >= 0 ==> p(s[i]),
        forall|j: int| i < j < s.len() ==> !p(#[trigger] s[j]),
    ensures
        last_where(s, p) == if i >= 0 {
            Some(s[i])
        } else {
            None
        },
    decreases s.len(),
{
    if i < 0 {
        lemma_last_where_none(s, p);
    } else if i < s.len() - 1 {
        let init = s.drop_last();
        assert(!p(s[s.len() - 1]));
        assert(init[i] == s[i]);
        assert forall|j: int| i < j < init.len() implies !p(#[trigger] init[j]) by {
            assert(init[j] == s[j]);
        }
        last_is_found(init, p, i);
    }
}

/// A selection keeps the order of the list: what is selected of two lists, one after the other, is
/// what is selected of the first and then what is selected of the second. Of a single item it is
/// the item or nothing.
pub proof fn selections_keep_the_order<A>(a: Seq<A>, b: Seq<A>, p: spec_fn(A) -> bool, item: A)
    ensures
        select(a + b, p) == select(a, p) + select(b, p),
        select(seq![item], p) == if p(item) {
            seq![item]
        } else {
            Seq::<A>::empty()
        },
    decreases b.len(),
{
    if b.len() == 0 {
        assert(a + b =~= a);
        assert(select(a, p) + select(b, p) =~= select(a, p));
    } else {
        assert((a + b).drop_last() =~= a + b.drop_last());
        selections_keep_the_order(a, b.drop_last(), p, item);
        assert(select(a + b, p) =~= select(a, p) + select(b, p));
    }
    assert(seq![item].drop_last() =~= Seq::<A>::empty());
    assert(select(seq![item].drop_last(), p) =~= Seq::<A>::empty());
    assert(select(seq![item], p) =~= if p(item) {
        seq![item]
    } else {
        Seq::<A>::empty()
    });
}

/// The first item that is selected is the first that meets the condition.
pub proof fn first_is_selected<A>(s: Seq<A>, p: spec_fn(A) -> bool, i: int)
    requires
        0 <= i < s.len(),
        p(s[i]),
        forall|j: int| 0 <= j < i ==> !p(#[trigger] s[j]),
    ensures
        select(s, p).len() > 0,
        select(s, p)[0] == s[i],
{
    let head = s.take(i);
    let rest = s.skip(i + 1);
    lemma_select(head, p);
    if select(head, p).len() > 0 {
        let x = select(head, p)[0];
        let k = choose|k: int| 0 <= k < head.len() && head[k] == x;
        assert(s[k] == head[k]);
    }
    selections_keep_the_order(head, seq![s[i]], p, s[i]);
    selections_keep_the_order(head + seq![s[i]], rest, p, s[i]);
    assert(head + seq![s[i]] + rest =~= s);
}

proof fn lemma_first_some_none<A, B>(s: Seq<A>, f: spec_fn(A) -> Option<B>)
    requires
        forall|i: int| 0 <= i < s.len() ==> f(#[trigger] s[i]) is None,
    ensures
        first_some(s, f) is None,
    decreases s.len(),
{
    if s.len() > 0 {
        assert(s[s.len() - 1] == s.last());
        assert forall|i: int| 0 <= i < s.drop_last().len() implies f(
            #[trigger] s.drop_last()[i],
        ) is None by {
            assert(s.drop_last()[i] == s[i]);
        }
        lemma_first_some_none(s.drop_last(), f);
    }
}

/// What is made of a list is what is made of the first item that anything is made of; it is
/// nothing where nothing is made of any item.
pub proof fn first_made_is_found<A, B>(s: Seq<A>, f: spec_fn(A) -> Option<B>, i: int)
    requires
        0 <= i <= s.len(),
        i < s.len() ==> f(s[i]) is Some,
        forall|j: int| 0 <= j < i ==> f(#[trigger] s[j]) is None,
    ensures
        first_some(s, f) == if i < s.len() {
            f(s[i])
        } else {
            None
        },
{
    if i < s.len() {
        let head = s.take(i + 1);
        assert forall|j: int| 0 <= j < head.drop_last().len() implies f(
            #[trigger] head.drop_last()[j],
        ) is None by {
            assert(head.drop_last()[j] == s[j]);
        }
        lemma_first_some_none(head.drop_last(), f);
        assert(head.last() == s[i]);
        assert(first_some(head, f) == f(s[i]));
        lemma_first_some_take(s, f, i + 1);
    } else {
        lemma_first_some_none(s, f);
    }
}

/// What is made of each item stands where the item stood, and the items after the first are left
/// where the first is taken off.
pub proof fn items_keep_their_places<A, B>(first: A, rest: Seq<A>, f: spec_fn(A) -> B)
    ensures
        tail(seq![first] + rest) == rest,
        tail(Seq::<A>::empty()) == Seq::<A>::empty(),
        each(seq![first] + rest, f) == seq![f(first)] + each(rest, f),
        each(Seq::<A>::empty(), f) == Seq::<B>::empty(),
{
    assert((seq![first] + rest).skip(1) =~= rest);
    assert(each(seq![first] + rest, f) =~= seq![f(first)] + each(rest, f));
    assert(each(Seq::<A>::empty(), f) =~= Seq::<B>::empty());
}

} // verus!
