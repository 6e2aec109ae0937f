//! File paths as texts, with `/` between their components.
use vstd::prelude::*;

use crate::text;

verus! {

/// `name` within the directory `base`; an absolute `name` stands for itself.
pub open spec fn join(base: Seq<char>, name: Seq<char>) -> Seq<char> {
    if name.len() > 0 && name[0] == '/' {
        name
    } else if base.len() == 0 || base.last() == '/' {
        base + name
    } else {
        base + "/"@ + name
    }
}

/// Whether a piece of a path counts as a component: empty pieces and `.` do not, but a path may
/// begin with `.`.
pub open spec fn is_component(piece: Seq<char>, first: bool) -> bool {
    piece.len() > 0 && (piece != "."@ || first)
}

/// The pieces that are components, `first` telling whether the first piece begins the path.
pub open spec fn components_of(pieces: Seq<Seq<char>>, first: bool) -> Seq<Seq<char>>
    decreases pieces.len(),
{
    if pieces.len() == 0 {
        Seq::empty()
    } else if is_component(pieces[0], first) {
        seq![pieces[0]] + components_of(pieces.skip(1), false)
    } else {
        components_of(pieces.skip(1), false)
    }
}

/// The components of a path, its root apart.
pub open spec fn components(path: Seq<char>) -> Seq<Seq<char>> {
    components_of(text::split_char(path, '/'), true)
}

/// The path begins at the root.
pub open spec fn is_absolute(path: Seq<char>) -> bool {
    path.len() > 0 && path[0] == '/'
}

/// Both paths have the same components.
pub open spec fn same(a: Seq<char>, b: Seq<char>) -> bool {
    is_absolute(a) == is_absolute(b) && components(a) == components(b)
}

/// The path begins with the component `.`.
pub open spec fn begins_here(path: Seq<char>) -> bool {
    path.len() > 0 && path[0] == '.' && (path.len() == 1 || path[1] == '/')
}

/// How much of the path its root or its leading `.` takes.
pub open spec fn head_len(path: Seq<char>) -> nat {
    if is_absolute(path) || begins_here(path) {
        1
    } else {
        0
    }
}

/// The path without what follows its last component: separators and `.` pieces.
pub open spec fn without_tail(path: Seq<char>, head: nat) -> Seq<char>
    decreases path.len(),
{
    if path.len() > head && (path.last() == '/' || (path.last() == '.' && (path.len() == head + 1
        || path[path.len() - 2] == '/'))) {
        without_tail(path.drop_last(), head)
    } else {
        path
    }
}

/// The path without the characters of its last component.
pub open spec fn without_name(path: Seq<char>, head: nat) -> Seq<char>
    decreases path.len(),
{
    if path.len() > head && path.last() != '/' {
        without_name(path.drop_last(), head)
    } else {
        path
    }
}

/// The path without its last component; a root or an empty path has no parent.
pub open spec fn parent(path: Seq<char>) -> Option<Seq<char>> {
    let head = head_len(path);
    let trimmed = without_tail(path, head);
    if trimmed.len() > head {
        Some(without_tail(without_name(trimmed, head), head))
    } else if begins_here(path) {
        Some(Seq::empty())
    } else {
        None
    }
}

/// `name` within the directory `base`.
pub fn join_path(base: &str, name: &str) -> (out: String)
    ensures
        out@ == join(base@, name@),
{
    let b: Vec<char> = text::chars_of(base);
    let n: Vec<char> = text::chars_of(name);
    if n.len() > 0 && n[0] == '/' {
        return name.to_owned();
    }
    let mut out: String = base.to_owned();
    if b.len() > 0 && b[b.len() - 1] != '/' {
        out.append("/");
    }
    out.append(name);
    out
}

fn component_list(path: &str) -> (out: Vec<String>)
    ensures
        text::texts(out@) == components(path@),
{
    let all: Vec<String> = text::pieces(path, '/');
    let ghost whole = text::split_char(path@, '/');
    let mut out: Vec<String> = text::no_texts();
    let mut i: usize = 0;
    assert(whole.skip(0) =~= whole);
    assert(text::texts(out@) + components_of(whole, true) =~= components_of(whole, true));
    while i < all.len()
        invariant
            text::texts(all@) == whole,
            i <= all.len(),
            text::texts(out@) + components_of(whole.skip(i as int), i == 0) == components_of(
                whole,
                true,
            ),
        decreases all.len() - i,
    {
        let ghost done = text::texts(out@);
        let piece: &str = all[i].as_str();
        assert(whole[i as int] == all@[i as int]@);
        assert(whole.skip(i as int)[0] == piece@);
        assert(whole.skip(i as int).skip(1) =~= whole.skip(i + 1));
        let dot: bool = text::same(piece, ".");
        if !piece.is_empty() && (!dot || i == 0) {
            text::put_str(&mut out, piece);
        }
        assert(text::texts(out@) + components_of(whole.skip(i + 1), false) =~= done
            + components_of(whole.skip(i as int), i == 0));
        i = i + 1;
    }
    assert(text::texts(out@) + components_of(whole.skip(i as int), i == 0) =~= text::texts(out@));
    out
}

/// Whether both paths have the same components.
pub fn same_path(a: &str, b: &str) -> (yes: bool)
    ensures
        yes == same(a@, b@),
{
    let x: Vec<char> = text::chars_of(a);
    let y: Vec<char> = text::chars_of(b);
    if (x.len() > 0 && x[0] == '/') != (y.len() > 0 && y[0] == '/') {
        return false;
    }
    let xs: Vec<String> = component_list(a);
    let ys: Vec<String> = component_list(b);
    assert(components(a@).len() == xs@.len() && components(b@).len() == ys@.len());
    if xs.len() != ys.len() {
        return false;
    }
    let mut i: usize = 0;
    while i < xs.len()
        invariant
            text::texts(xs@) == components(a@),
            text::texts(ys@) == components(b@),
            xs.len() == ys.len(),
            i <= xs.len(),
            forall|j: int| 0 <= j < i ==> components(a@)[j] == components(b@)[j],
        decreases xs.len() - i,
    {
        assert(components(a@)[i as int] == xs@[i as int]@);
        assert(components(b@)[i as int] == ys@[i as int]@);
        if !text::same(xs[i].as_str(), ys[i].as_str()) {
            return false;
        }
        i = i + 1;
    }
    assert(components(a@) =~= components(b@));
    true
}

fn tail_start(chars: &Vec<char>, head: usize, from: usize) -> (to: usize)
    requires
        from <= chars.len(),
    ensures
        to <= from,
        without_tail(chars@.take(from as int), head as nat) == chars@.take(to as int),
{
    let mut i: usize = from;
    while i > head && (chars[i - 1] == '/' || (chars[i - 1] == '.' && (i - 1 == head || (i > 1
        && chars[i - 2] == '/'))))
        invariant
            i <= from <= chars.len(),
            without_tail(chars@.take(from as int), head as nat) == without_tail(
                chars@.take(i as int),
                head as nat,
            ),
        decreases i,
    {
        assert(chars@.take(i as int).drop_last() =~= chars@.take(i - 1));
        i = i - 1;
    }
    i
}

fn name_start(chars: &Vec<char>, head: usize, from: usize) -> (to: usize)
    requires
        from <= chars.len(),
    ensures
        to <= from,
        without_name(chars@.take(from as int), head as nat) == chars@.take(to as int),
{
    let mut i: usize = from;
    while i > head && chars[i - 1] != '/'
        invariant
            i <= from <= chars.len(),
            without_name(chars@.take(from as int), head as nat) == without_name(
                chars@.take(i as int),
                head as nat,
            ),
        decreases i,
    {
        assert(chars@.take(i as int).drop_last() =~= chars@.take(i - 1));
        i = i - 1;
    }
    i
}

/// The path without its last component.
pub fn parent_path(path: &str) -> (out: Option<String>)
    ensures
        text::opt_text(out) == parent(path@),
{
    let chars: Vec<char> = text::chars_of(path);
    let n: usize = chars.len();
    let here: bool = n > 0 && chars[0] == '.' && (n == 1 || chars[1] == '/');
    let head: usize = if here || (n > 0 && chars[0] == '/') {
        1
    } else {
        0
    };
    assert(chars@.take(n as int) =~= chars@);
    let trimmed: usize = tail_start(&chars, head, n);
    if trimmed > head {
        let cut: usize = name_start(&chars, head, trimmed);
        let end: usize = tail_start(&chars, head, cut);
        assert(path@.take(end as int) =~= path@.subrange(0, end as int));
        Some(text::part(path, 0, end))
    } else if here {
        Some(String::new())
    } else {
        None
    }
}

/// Names of files: not empty, without separators, and not `.`.
pub open spec fn is_name(name: Seq<char>) -> bool {
    &&& name.len() > 0
    &&& name != "."@
    &&& forall|i: int| 0 <= i < name.len() ==> #[trigger] name[i] != '/'
}

proof fn lemma_without_name(dir: Seq<char>, name: Seq<char>, head: nat)
    requires
        head <= dir.len(),
        dir.len() == head || dir.last() == '/',
        forall|i: int| 0 <= i < name.len() ==> #[trigger] name[i] != '/',
    ensures
        without_name(dir + name, head) == dir,
    decreases name.len(),
{
    if name.len() == 0 {
        assert(dir + name =~= dir);
    } else {
        assert((dir + name).last() == name[name.len() - 1]);
        assert((dir + name).drop_last() =~= dir + name.drop_last());
        lemma_without_name(dir, name.drop_last(), head);
    }
}

/// The parent of a file in a directory is the directory, without separators and `.` at its end.
pub proof fn parent_of_joined(dir: Seq<char>, name: Seq<char>)
    requires
        is_name(name),
    ensures
        parent(join(dir, name)) == Some(without_tail(dir, head_len(dir))),
{
    reveal_strlit("/");
    reveal_strlit(".");
    let whole = join(dir, name);
    let head = head_len(dir);
    let before = if dir.len() == 0 || dir.last() == '/' {
        dir
    } else {
        dir + "/"@
    };
    assert(whole =~= before + name);
    assert(name[0] != '/');
    if name.len() == 1 && name[0] == '.' {
        assert(name =~= "."@);
    }
    assert(name.len() > 1 ==> name[1] != '/');
    assert(head_len(whole) == head);
    assert(name[name.len() - 1] != '/');
    assert(whole.last() == name.last());
    if name.len() >= 2 {
        assert(whole[whole.len() - 2] == name[name.len() - 2]);
    }
    assert(without_tail(whole, head) == whole);
    lemma_without_name(before, name, head);
    if before != dir {
        assert(before.drop_last() =~= dir);
    }
}

proof fn lemma_components_push(pieces: Seq<Seq<char>>, piece: Seq<char>, first: bool)
    requires
        pieces.len() > 0,
    ensures
        components_of(pieces.push(piece), first) == if is_component(piece, false) {
            components_of(pieces, first).push(piece)
        } else {
            components_of(pieces, first)
        },
    decreases pieces.len(),
{
    reveal_with_fuel(components_of, 3);
    let all = pieces.push(piece);
    assert(all[0] == pieces[0]);
    assert(all.skip(1) =~= pieces.skip(1).push(piece));
    if pieces.len() > 1 {
        lemma_components_push(pieces.skip(1), piece, false);
    } else {
        assert(pieces.skip(1) =~= Seq::empty());
        assert(all.skip(1) =~= seq![piece]);
        assert(seq![piece].skip(1) =~= Seq::empty());
    }
    assert(components_of(all, first) =~= if is_component(piece, false) {
        components_of(pieces, first).push(piece)
    } else {
        components_of(pieces, first)
    });
}

proof fn lemma_components_after(a: Seq<char>, b: Seq<char>)
    requires
        forall|i: int| 0 <= i < b.len() ==> #[trigger] b[i] != '/',
    ensures
        components(a + seq!['/'] + b) == if is_component(b, false) {
            components(a).push(b)
        } else {
            components(a)
        },
{
    text::last_piece(a, '/', b);
    lemma_components_push(text::split_char(a, '/'), b, true);
}

proof fn lemma_without_tail(path: Seq<char>, head: nat)
    requires
        head == head_len(path),
    ensures
        components(without_tail(path, head)) == components(path),
        is_absolute(without_tail(path, head)) == is_absolute(path),
        path.len() > 0 ==> without_tail(path, head).len() > 0,
    decreases path.len(),
{
    reveal_strlit(".");
    if path.len() > head && (path.last() == '/' || (path.last() == '.' && (path.len() == head + 1
        || path[path.len() - 2] == '/'))) {
        let init = path.drop_last();
        assert(init.len() > 0);
        assert(init[0] == path[0]);
        assert(head_len(init) == head);
        lemma_without_tail(init, head);
        if path.last() == '/' {
            let none = Seq::<char>::empty();
            assert(path =~= init + seq!['/'] + none);
            lemma_components_after(init, none);
        } else {
            let dir = init.drop_last();
            let none = Seq::<char>::empty();
            assert(init.last() == '/');
            assert(path =~= dir + seq!['/'] + "."@);
            assert(init =~= dir + seq!['/'] + none);
            lemma_components_after(dir, "."@);
            lemma_components_after(dir, none);
        }
    }
}

proof fn lemma_components_of_joined(dir: Seq<char>, name: Seq<char>)
    requires
        dir.len() > 0,
        is_name(name),
    ensures
        components(join(dir, name)) == components(dir).push(name),
        is_absolute(join(dir, name)) == is_absolute(dir),
{
    reveal_strlit("/");
    assert("/"@ =~= seq!['/']);
    assert(name[0] != '/');
    if dir.last() == '/' {
        let init = dir.drop_last();
        let none = Seq::<char>::empty();
        assert(dir =~= init + seq!['/'] + none);
        lemma_components_after(init, none);
        assert(dir + name =~= init + seq!['/'] + name);
        lemma_components_after(init, name);
    } else {
        lemma_components_after(dir, name);
    }
}

/// A file keeps its path where the end of its directory, separators and `.`, is left away.
pub proof fn joined_without_tail(dir: Seq<char>, name: Seq<char>)
    requires
        is_name(name),
    ensures
        same(join(without_tail(dir, head_len(dir)), name), join(dir, name)),
{
    let short = without_tail(dir, head_len(dir));
    lemma_without_tail(dir, head_len(dir));
    if dir.len() > 0 {
        lemma_components_of_joined(dir, name);
        lemma_components_of_joined(short, name);
    }
}

/// A name within a directory is the directory's path, a separator where there is none yet, and the
/// name; an absolute name stands for itself.
pub proof fn names_are_put_in_directories(base: Seq<char>, name: Seq<char>)
    ensures
        is_absolute(name) ==> join(base, name) == name,
        !is_absolute(name) ==> text::has_prefix(join(base, name), base) && text::has_suffix(
            join(base, name),
            name,
        ),
        !is_absolute(name) && base.len() > 0 && base.last() != '/' ==> join(base, name).len()
            == base.len() + 1 + name.len() && join(base, name)[base.len() as int] == '/',
        !is_absolute(name) && (base.len() == 0 || base.last() == '/') ==> join(base, name).len()
            == base.len() + name.len(),
        is_absolute(base) ==> is_absolute(join(base, name)),
        is_absolute(name) <==> name.len() > 0 && name[0] == '/',
{
    assert("/"@ =~= seq!['/']) by {
        reveal_strlit("/");
    }
    text::parts_are_found(base, name);
    text::parts_are_found(base, "/"@ + name);
    text::parts_are_found(base + "/"@, name);
    assert(base + "/"@ + name =~= base + ("/"@ + name));
}

/// A name within a directory adds itself to the components of the directory, whatever the name is.
pub proof fn names_are_added_to_components(dir: Seq<char>, name: Seq<char>)
    requires
        dir.len() > 0,
        is_name(name),
    ensures
        components(join(dir, name)) == components(dir).push(name),
        is_absolute(join(dir, name)) == is_absolute(dir),
{
    lemma_components_of_joined(dir, name);
}

/// Separators that are repeated or stand at the end, and `.` after a separator, make no difference
/// to a path.
pub proof fn empty_pieces_make_no_difference(dir: Seq<char>)
    requires
        dir.len() > 0,
    ensures
        same(dir + seq!['/'], dir),
        same(dir + seq!['/', '.'], dir),
{
    let none = Seq::<char>::empty();
    lemma_components_after(dir, none);
    assert(dir + seq!['/'] =~= dir + seq!['/'] + none);
    assert("."@ =~= seq!['.']) by {
        reveal_strlit(".");
    }
    lemma_components_after(dir, "."@);
    assert(dir + seq!['/', '.'] =~= dir + seq!['/'] + "."@);
}

/// Paths are the same exactly where they have the same components and both, or neither, begin at
/// the root; a path that has another component is another path.
pub proof fn paths_are_told_apart(
    a: Seq<char>,
    b: Seq<char>,
    dir: Seq<char>,
    one: Seq<char>,
    other: Seq<char>,
)
    requires
        dir.len() > 0,
        is_name(one),
        is_name(other),
    ensures
        same(a, a),
        same(a, b) <==> same(b, a),
        same(join(dir, one), join(dir, other)) <==> one == other,
        same(a, b) ==> (a.len() > 0 && a[0] == '/' <==> b.len() > 0 && b[0] == '/'),
{
    lemma_components_of_joined(dir, one);
    lemma_components_of_joined(dir, other);
    if same(join(dir, one), join(dir, other)) {
        assert(components(dir).push(one).last() == components(dir).push(other).last());
    }
}

proof fn lemma_name_cut_off(path: Seq<char>, head: nat)
    requires
        head <= path.len(),
    ensures
        ({
            let cut = without_name(path, head);
            &&& head <= cut.len() <= path.len()
            &&& cut == path.take(cut.len() as int)
            &&& cut.len() == head || cut.last() == '/'
            &&& forall|i: int| cut.len() <= i < path.len() ==> path[i] != '/'
        }),
    decreases path.len(),
{
    if path.len() > head && path.last() != '/' {
        let init = path.drop_last();
        lemma_name_cut_off(init, head);
        let cut = without_name(path, head);
        assert(cut =~= path.take(cut.len() as int));
        assert forall|i: int| cut.len() <= i < path.len() implies path[i] != '/' by {
            if i < init.len() {
                assert(init[i] == path[i]);
            }
        }
    } else {
        assert(path.take(path.len() as int) =~= path);
    }
}

proof fn lemma_tail_cut_off(path: Seq<char>, head: nat)
    requires
        head == head_len(path),
        head <= path.len(),
    ensures
        ({
            let short = without_tail(path, head);
            &&& head <= short.len() <= path.len()
            &&& short == path.take(short.len() as int)
            &&& head_len(short) == head
            &&& begins_here(path) == begins_here(short)
            &&& short.len() > head ==> short.last() != '/' && !(short.last() == '.' && (short.len()
                == head + 1 || short[short.len() - 2] == '/'))
        }),
    decreases path.len(),
{
    if path.len() > head && (path.last() == '/' || (path.last() == '.' && (path.len() == head + 1
        || path[path.len() - 2] == '/'))) {
        let init = path.drop_last();
        if init.len() > 0 {
            assert(init[0] == path[0]);
        }
        assert(head_len(init) == head);
        lemma_tail_cut_off(init, head);
        let short = without_tail(path, head);
        assert(short =~= path.take(short.len() as int));
    } else {
        assert(path.take(path.len() as int) =~= path);
    }
}

/// The parent of a path has its components but the last, and begins at the root where the path
/// does.
#[verifier::spinoff_prover]
pub proof fn parents_lack_the_last_component(path: Seq<char>)
    ensures
        parent(path) matches Some(dir) ==> components(path).len() > 0 && components(dir)
            == components(path).drop_last() && is_absolute(dir) == is_absolute(path),
{
    let head = head_len(path);
    if parent(path) is Some {
        let trimmed = without_tail(path, head);
        lemma_without_tail(path, head);
        lemma_tail_cut_off(path, head);
        assert("."@ =~= seq!['.']) by {
            reveal_strlit(".");
        }
        if trimmed.len() > head {
            let cut = without_name(trimmed, head);
            lemma_name_cut_off(trimmed, head);
            let n = cut.len() as int;
            let name = trimmed.skip(n);
            assert(n < trimmed.len());
            assert(trimmed =~= cut + name);
            assert(name.last() == trimmed.last());
            assert forall|i: int| 0 <= i < name.len() implies #[trigger] name[i] != '/' by {
                assert(name[i] == trimmed[i + n]);
            }
            if n > 0 {
                assert(cut[0] == trimmed[0]);
                if cut.len() == head {
                    if begins_here(path) {
                        assert(trimmed[0] == '.');
                        assert(trimmed[1] == '/');
                        assert(name[0] == trimmed[1]);
                    }
                    assert(cut.last() == cut[0]);
                }
                assert(cut.last() == '/');
                let init = cut.drop_last();
                let none = Seq::<char>::empty();
                assert(cut =~= init + seq!['/'] + none);
                assert(trimmed =~= init + seq!['/'] + name);
                if name == "."@ {
                    assert(trimmed.last() == '.');
                    assert(trimmed[trimmed.len() - 2] == '/');
                }
                lemma_components_after(init, none);
                lemma_components_after(init, name);
            } else {
                assert(trimmed =~= name);
                assert(head == 0);
                if name == "."@ {
                    assert(trimmed.len() == 1);
                }
                lemma_single_component(name);
                lemma_no_component();
                assert(cut =~= Seq::<char>::empty());
            }
            assert(components(trimmed) == components(cut).push(name));
            assert(components(cut).push(name).drop_last() =~= components(cut));
            assert(head_len(cut) == head) by {
                if n > 0 && head == 0 {
                    assert(cut[0] == trimmed[0]);
                }
            }
            lemma_without_tail(cut, head);
        } else {
            assert(begins_here(path));
            assert(trimmed.len() == 1);
            assert(trimmed =~= "."@);
            lemma_here();
            lemma_no_component();
            assert(components(path).drop_last() =~= Seq::<Seq<char>>::empty());
        }
    }
}

proof fn lemma_single_component(name: Seq<char>)
    requires
        name.len() > 0,
        forall|i: int| 0 <= i < name.len() ==> #[trigger] name[i] != '/',
    ensures
        components(name) == seq![name],
{
    reveal_with_fuel(components_of, 2);
    text::single_piece(name, '/');
    assert(seq![name].skip(1) =~= Seq::<Seq<char>>::empty());
    assert(components(name) =~= seq![name]);
}

proof fn lemma_no_component()
    ensures
        components(Seq::empty()) == Seq::<Seq<char>>::empty(),
{
    reveal_with_fuel(components_of, 2);
    let none = Seq::<char>::empty();
    text::single_piece(none, '/');
    assert(seq![none].skip(1) =~= Seq::<Seq<char>>::empty());
}

proof fn lemma_here()
    ensures
        components("."@) == seq!["."@],
{
    reveal_strlit(".");
    lemma_single_component("."@);
}

/// A path has a parent exactly where it has a component.
pub proof fn paths_with_components_have_parents(path: Seq<char>)
    ensures
        parent(path) is Some <==> components(path).len() > 0,
{
    parents_lack_the_last_component(path);
    if parent(path) is None {
        let head = head_len(path);
        let trimmed = without_tail(path, head);
        lemma_without_tail(path, head);
        lemma_tail_cut_off(path, head);
        lemma_no_component();
        let none = Seq::<char>::empty();
        if head == 0 {
            assert(trimmed =~= none);
        } else {
            assert(trimmed[0] == path[0]);
            assert(trimmed =~= none + seq!['/'] + none);
            lemma_components_after(none, none);
        }
    }
}

} // verus!
