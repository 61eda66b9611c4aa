//! What holds of paths, whatever they are.

use crate::path::{
    below, components_of, counts, is_absolute_path, joined_paths, kept, name_of, parent_of,
    path_before, path_of, same_place,
};
use crate::text::{joined, pieces};
use crate::text_laws::{lacks, pieces_are_parted_by_the_separator, pieces_make_up_the_text};
use vstd::prelude::*;

verus! {

/// Whether a text can be the name of something in a directory: it is not empty, has no slash in it
/// and is neither `.` nor `..`.
pub open spec fn fit_for_a_name(name: Seq<char>) -> bool {
    name.len() > 0 && lacks(name, '/') && name != "."@ && name != ".."@
}

proof fn kept_of_the_first(x: Seq<Seq<char>>, y: Seq<Seq<char>>, n: nat)
    requires
        n <= x.len(),
    ensures
        kept(x + y, n) == kept(x, n),
    decreases n,
{
    if n > 0 {
        kept_of_the_first(x, y, (n - 1) as nat);
        assert((x + y)[n - 1] == x[n - 1]);
    }
}

/// What is in a directory has the components of the directory and its own name.
pub proof fn names_come_after_the_directory(base: Seq<char>, name: Seq<char>)
    requires
        base.len() > 0,
        name.len() > 0,
        lacks(name, '/'),
        name != "."@,
    ensures
        components_of(base + seq!['/'] + name) == components_of(base).push(name),
{
    let path = base + seq!['/'] + name;
    let above = pieces(base, '/');
    pieces_make_up_the_text(base, '/');
    pieces_are_parted_by_the_separator(base, name, '/');
    pieces_are_parted_by_the_separator(name, name, '/');
    let all = pieces(path, '/');
    assert(all =~= above + seq![name]);
    kept_of_the_first(above, seq![name], above.len());
    assert(all[above.len() as int] == name);
    assert(kept(all, all.len()) == kept(above, above.len()).push(name));
    assert(path[0] == base[0]);
    assert(components_of(path) =~= components_of(base).push(name));
}

/// Slashes behind a path and in addition to others make no difference, and neither does a `.`
/// anywhere behind the beginning.
pub proof fn slashes_and_dots_make_no_difference(base: Seq<char>, name: Seq<char>)
    requires
        base.len() > 0,
        name.len() > 0,
        lacks(name, '/'),
        name != "."@,
    ensures
        same_place(base + seq!['/'], base),
        same_place(base + seq!['/', '.'], base),
        same_place(base + seq!['/', '/'] + name, base + seq!['/'] + name),
        same_place(base + seq!['/', '.', '/'] + name, base + seq!['/'] + name),
{
    let none = Seq::<char>::empty();
    let dot = seq!['.'];
    reveal_strlit(".");
    assert("."@ =~= dot);
    insignificant_pieces_vanish(base, none);
    insignificant_pieces_vanish(base, dot);
    assert(base + seq!['/'] + none =~= base + seq!['/']);
    assert(base + seq!['/'] + dot =~= base + seq!['/', '.']);
    let slash = base + seq!['/'];
    let dotted = base + seq!['/', '.'];
    names_come_after_the_directory(base, name);
    names_come_after_the_directory(slash, name);
    names_come_after_the_directory(dotted, name);
    assert(slash + seq!['/'] + name =~= base + seq!['/', '/'] + name);
    assert(dotted + seq!['/'] + name =~= base + seq!['/', '.', '/'] + name);
}

proof fn insignificant_pieces_vanish(base: Seq<char>, piece: Seq<char>)
    requires
        base.len() > 0,
        lacks(piece, '/'),
        piece.len() == 0 || piece == "."@,
    ensures
        components_of(base + seq!['/'] + piece) == components_of(base),
{
    let path = base + seq!['/'] + piece;
    let above = pieces(base, '/');
    pieces_make_up_the_text(base, '/');
    pieces_are_parted_by_the_separator(base, piece, '/');
    pieces_are_parted_by_the_separator(piece, piece, '/');
    let all = pieces(path, '/');
    assert(all =~= above + seq![piece]);
    kept_of_the_first(above, seq![piece], above.len());
    assert(all[above.len() as int] == piece);
    assert(kept(all, all.len()) == kept(above, above.len()));
    assert(path[0] == base[0]);
}

proof fn joined_pieces_are_the_pieces(parts: Seq<Seq<char>>, sep: char)
    requires
        parts.len() > 0,
        forall|i: int| 0 <= i < parts.len() ==> lacks(#[trigger] parts[i], sep),
    ensures
        pieces(joined(parts, seq![sep]), sep) == parts,
    decreases parts.len(),
{
    if parts.len() == 1 {
        assert(lacks(parts[0], sep));
        pieces_are_parted_by_the_separator(parts[0], parts[0], sep);
        assert(parts =~= seq![parts[0]]);
    } else {
        let front = parts.drop_last();
        let last = parts.last();
        assert forall|i: int| 0 <= i < front.len() implies lacks(#[trigger] front[i], sep) by {
            assert(front[i] == parts[i]);
        }
        joined_pieces_are_the_pieces(front, sep);
        assert(lacks(parts[parts.len() - 1], sep));
        pieces_are_parted_by_the_separator(joined(front, seq![sep]), last, sep);
        pieces_are_parted_by_the_separator(last, last, sep);
        assert(front + seq![last] =~= parts);
    }
}

/// Whether a component is one of the first pieces, at or behind the given position.
spec fn comes_from(parts: Seq<Seq<char>>, n: nat, k: int, piece: Seq<char>) -> bool {
    exists|i: int| k <= i < n && piece == #[trigger] parts[i] && counts(parts[i], i)
}

proof fn kept_pieces_count(parts: Seq<Seq<char>>, n: nat)
    requires
        n <= parts.len(),
    ensures
        kept(parts, n).len() <= n,
        forall|k: int|
            0 <= k < kept(parts, n).len() ==> comes_from(parts, n, k, #[trigger] kept(parts, n)[k]),
    decreases n,
{
    if n > 0 {
        kept_pieces_count(parts, (n - 1) as nat);
        let before = kept(parts, (n - 1) as nat);
        let all = kept(parts, n);
        assert forall|k: int| 0 <= k < all.len() implies comes_from(parts, n, k, #[trigger] all[k]) by {
            if k < before.len() {
                assert(all[k] == before[k]);
                assert(comes_from(parts, (n - 1) as nat, k, before[k]));
                let i = choose|i: int|
                    k <= i < n - 1 && before[k] == #[trigger] parts[i] && counts(parts[i], i);
                assert(parts[i] == all[k]);
            } else {
                assert(all[k] == parts[n - 1]);
            }
        }
    }
}

proof fn kept_is_all(parts: Seq<Seq<char>>, n: nat)
    requires
        n <= parts.len(),
        forall|i: int| 0 <= i < n ==> counts(#[trigger] parts[i], i),
    ensures
        kept(parts, n) == parts.take(n as int),
    decreases n,
{
    if n > 0 {
        kept_is_all(parts, (n - 1) as nat);
        assert(counts(parts[n - 1], n - 1));
        assert(parts.take(n as int) =~= parts.take(n - 1).push(parts[n - 1]));
    } else {
        assert(parts.take(0) =~= Seq::empty());
    }
}

/// A path that is put together from the components of another leads to the same place.
pub proof fn components_make_up_the_path(path: Seq<char>)
    ensures
        same_place(path_of(components_of(path)), path),
{
    reveal_strlit("/");
    reveal_strlit(".");
    assert("/"@ =~= seq!['/']);
    let parts = pieces(path, '/');
    let names = kept(parts, parts.len());
    pieces_make_up_the_text(path, '/');
    kept_pieces_count(parts, parts.len());
    assert forall|k: int| 0 <= k < names.len() implies lacks(#[trigger] names[k], '/')
        && names[k].len() > 0 && (k > 0 ==> names[k] != "."@) by {
        assert(comes_from(parts, parts.len(), k, kept(parts, parts.len())[k]));
        let i = choose|i: int|
            k <= i < parts.len() && names[k] == #[trigger] parts[i] && counts(parts[i], i);
        assert(lacks(parts[i], '/'));
    }
    if is_absolute_path(path) {
        let all = components_of(path);
        assert(all[0] == "/"@);
        assert(all.skip(1) =~= names);
        absolute_paths_begin_with_nothing(path);
        let again = "/"@ + joined(names, "/"@);
        if names.len() == 0 {
            assert(again =~= seq!['/']);
            let none = Seq::<char>::empty();
            pieces_are_parted_by_the_separator(none, none, '/');
            assert(none + seq!['/'] + none =~= again);
            let two = pieces(again, '/');
            assert(two =~= seq![none, none]);
            assert(kept(two, 1) =~= kept(two, 0));
            assert(kept(two, 2) =~= kept(two, 1));
            assert(components_of(again) =~= all);
        } else {
            joined_pieces_are_the_pieces(names, '/');
            let none = Seq::<char>::empty();
            pieces_are_parted_by_the_separator(none, joined(names, "/"@), '/');
            pieces_are_parted_by_the_separator(none, none, '/');
            assert(none + seq!['/'] + joined(names, "/"@) =~= again);
            let some = pieces(again, '/');
            assert(some =~= seq![none] + names);
            kept_behind_nothing(names, names.len());
            assert(components_of(again) =~= all);
        }
    } else if names.len() == 0 {
        let none = Seq::<char>::empty();
        assert(path_of(names) =~= none);
        assert(pieces(none, '/') =~= seq![none]);
        assert(kept(pieces(none, '/'), 1) =~= kept(pieces(none, '/'), 0));
        assert(components_of(none) =~= names);
    } else {
        assert(lacks(names[0], '/'));
        if names[0] == "/"@ {
            assert(names[0][0] == '/');
        }
        let again = joined(names, "/"@);
        joined_pieces_are_the_pieces(names, '/');
        assert forall|i: int| 0 <= i < names.len() implies counts(#[trigger] names[i], i) by {}
        kept_is_all(names, names.len());
        assert(names.take(names.len() as int) =~= names);
        first_pieces_come_first(names);
        assert(components_of(again) =~= names);
    }
}

/// For any pieces, those behind an empty one are kept where they are not empty and not `.`.
proof fn kept_behind_nothing(names: Seq<Seq<char>>, n: nat)
    requires
        n <= names.len(),
        forall|k: int| 0 <= k < names.len() ==> (#[trigger] names[k]).len() > 0 && names[k] != "."@,
    ensures
        kept(seq![Seq::<char>::empty()] + names, (n + 1) as nat) == names.take(n as int),
    decreases n,
{
    let all = seq![Seq::<char>::empty()] + names;
    if n > 0 {
        kept_behind_nothing(names, (n - 1) as nat);
        assert(all[n as int] == names[n - 1]);
        assert(names.take(n as int) =~= names.take(n - 1).push(names[n - 1]));
    } else {
        assert(all[0].len() == 0);
        assert(kept(all, 1) =~= kept(all, 0));
        assert(names.take(0) =~= Seq::empty());
    }
    if n == names.len() {
        assert(names.take(n as int) =~= names);
    }
}

/// The first of joined pieces comes first.
proof fn first_pieces_come_first(parts: Seq<Seq<char>>)
    requires
        parts.len() > 0,
        parts[0].len() > 0,
    ensures
        joined(parts, "/"@).len() > 0,
        joined(parts, "/"@)[0] == parts[0][0],
    decreases parts.len(),
{
    if parts.len() > 1 {
        first_pieces_come_first(parts.drop_last());
    }
}

/// Nothing that is kept of an absolute path is `.`.
proof fn absolute_paths_begin_with_nothing(path: Seq<char>)
    requires
        is_absolute_path(path),
    ensures
        ({
            let parts = pieces(path, '/');
            forall|k: int|
                0 <= k < kept(parts, parts.len()).len() ==> #[trigger] kept(parts, parts.len())[k]
                    != "."@
        }),
{
    let none = Seq::<char>::empty();
    let rest = path.skip(1);
    pieces_are_parted_by_the_separator(none, rest, '/');
    pieces_are_parted_by_the_separator(none, none, '/');
    assert(none + seq!['/'] + rest =~= path);
    let parts = pieces(path, '/');
    assert(parts[0] == none);
    let names = kept(parts, parts.len());
    kept_pieces_count(parts, parts.len());
    assert forall|k: int| 0 <= k < names.len() implies #[trigger] names[k] != "."@ by {
        assert(comes_from(parts, parts.len(), k, kept(parts, parts.len())[k]));
        let i = choose|i: int|
            k <= i < parts.len() && names[k] == #[trigger] parts[i] && counts(parts[i], i);
        if i == 0 {
            assert(parts[0].len() == 0);
        }
    }
}

/// What is in a directory is called by its name, and the directory is what is above it.
pub proof fn directories_are_above_what_is_in_them(base: Seq<char>, name: Seq<char>)
    requires
        base.len() > 0,
        fit_for_a_name(name),
    ensures
        name_of(base + seq!['/'] + name) == Some(name),
        parent_of(base + seq!['/'] + name) is Some,
        same_place(parent_of(base + seq!['/'] + name)->0, base),
{
    reveal_strlit("/");
    names_come_after_the_directory(base, name);
    let parts = components_of(base + seq!['/'] + name);
    assert(parts.drop_last() =~= components_of(base));
    if name == "/"@ {
        assert(name[0] == '/');
    }
    components_make_up_the_path(base);
}

/// What is in a directory is below it, at any depth, and so is the directory itself; what only
/// begins with the same letters is not.
pub proof fn only_what_is_inside_is_below(
    base: Seq<char>,
    name: Seq<char>,
    inner: Seq<char>,
    more: Seq<char>,
)
    requires
        base.len() > 0,
        fit_for_a_name(name),
        fit_for_a_name(inner),
        fit_for_a_name(name + more),
        more.len() > 0,
    ensures
        below(base, base) is Some,
        below(base + seq!['/'] + name, base) is Some,
        below(base + seq!['/'] + name + seq!['/'] + inner, base) is Some,
        below(base, base + seq!['/'] + name) is None,
        below(base + seq!['/'] + name + more, base + seq!['/'] + name) is None,
{
    let parts = components_of(base);
    let child = base + seq!['/'] + name;
    names_come_after_the_directory(base, name);
    names_come_after_the_directory(child, inner);
    names_come_after_the_directory(base, name + more);
    assert(base + seq!['/'] + name + more =~= base + seq!['/'] + (name + more));
    assert(parts.take(parts.len() as int) =~= parts);
    assert(parts.push(name).take(parts.len() as int) =~= parts);
    assert(parts.push(name).push(inner).take(parts.len() as int) =~= parts);
    let a = parts.push(name + more);
    let b = parts.push(name);
    assert(a.take(b.len() as int) =~= a);
    assert(a[parts.len() as int] != b[parts.len() as int]) by {
        assert(a[parts.len() as int].len() != b[parts.len() as int].len());
    }
}

/// A path below a directory begins with the directory, with one slash between them; an absolute
/// path is not below anything else.
pub proof fn paths_are_put_below_directories(base: Seq<char>, path: Seq<char>)
    ensures
        path.len() > 0 && path[0] == '/' ==> joined_paths(base, path) == path,
        (path.len() == 0 || path[0] != '/') && base.len() > 0 && base.last() != '/' ==> joined_paths(
            base,
            path,
        ) == base + seq!['/'] + path,
        (path.len() == 0 || path[0] != '/') && (base.len() == 0 || base.last() == '/')
            ==> joined_paths(base, path) == base + path,
{
    reveal_strlit("/");
    assert("/"@ =~= seq!['/']);
}

/// A directory comes before what is in it.
pub proof fn directories_come_first(base: Seq<char>, name: Seq<char>)
    requires
        base.len() > 0,
        name.len() > 0,
        lacks(name, '/'),
        name != "."@,
    ensures
        path_before(base, base + seq!['/'] + name),
        !path_before(base + seq!['/'] + name, base),
{
    names_come_after_the_directory(base, name);
    first_components_come_first(components_of(base), name);
    crate::path::paths_are_ordered(base, base + seq!['/'] + name, base);
}

proof fn first_components_come_first(parts: Seq<Seq<char>>, name: Seq<char>)
    ensures
        crate::path::components_before(parts, parts.push(name)),
    decreases parts.len(),
{
    if parts.len() > 0 {
        first_components_come_first(parts.skip(1), name);
        assert(parts.push(name).skip(1) =~= parts.skip(1).push(name));
    }
}

/// Names in the same directory come in the order of the first characters in which they differ, and
/// one that goes on where the other ends comes after it.
pub proof fn names_come_in_order(
    base: Seq<char>,
    common: Seq<char>,
    c: char,
    d: char,
    x: Seq<char>,
    y: Seq<char>,
)
    requires
        base.len() > 0,
        c < d,
        fit_for_a_name(common + seq![c] + x),
        fit_for_a_name(common + seq![d] + y),
    ensures
        path_before(
            base + seq!['/'] + (common + seq![c] + x),
            base + seq!['/'] + (common + seq![d] + y),
        ),
        fit_for_a_name(common) ==> path_before(
            base + seq!['/'] + common,
            base + seq!['/'] + (common + seq![c] + x),
        ),
{
    let a = common + seq![c] + x;
    let b = common + seq![d] + y;
    reveal_strlit("/");
    assert(a[common.len() as int] == c && b[common.len() as int] == d);
    texts_differ_at(common, seq![c] + x, seq![d] + y);
    assert(common + (seq![c] + x) =~= a);
    assert(common + (seq![d] + y) =~= b);
    names_come_after_the_directory(base, a);
    names_come_after_the_directory(base, b);
    names_have_the_same_rank(a);
    names_have_the_same_rank(b);
    last_components_decide(components_of(base), a, b);
    if fit_for_a_name(common) {
        names_come_after_the_directory(base, common);
        names_have_the_same_rank(common);
        texts_differ_at(common, Seq::empty(), seq![c] + x);
        assert(common + Seq::<char>::empty() =~= common);
        assert(common.len() != a.len());
        last_components_decide(components_of(base), common, a);
    }
}

proof fn names_have_the_same_rank(name: Seq<char>)
    requires
        fit_for_a_name(name),
    ensures
        crate::path::rank(name) == 3,
{
    reveal_strlit("/");
    if name == "/"@ {
        assert(name[0] == '/');
    }
}

proof fn texts_differ_at(common: Seq<char>, x: Seq<char>, y: Seq<char>)
    requires
        y.len() > 0,
        x.len() > 0 ==> x[0] < y[0],
    ensures
        crate::path::text_before(common + x, common + y),
    decreases common.len(),
{
    if common.len() > 0 {
        texts_differ_at(common.skip(1), x, y);
        assert((common + x).skip(1) =~= common.skip(1) + x);
        assert((common + y).skip(1) =~= common.skip(1) + y);
    } else {
        assert(common + x =~= x);
        assert(common + y =~= y);
    }
}

proof fn last_components_decide(parts: Seq<Seq<char>>, a: Seq<char>, b: Seq<char>)
    requires
        crate::path::rank(a) == crate::path::rank(b),
        crate::path::text_before(a, b),
        a != b,
    ensures
        crate::path::components_before(parts.push(a), parts.push(b)),
    decreases parts.len(),
{
    if parts.len() > 0 {
        last_components_decide(parts.skip(1), a, b);
        assert(parts.push(a).skip(1) =~= parts.skip(1).push(a));
        assert(parts.push(b).skip(1) =~= parts.skip(1).push(b));
    }
}

} // verus!
