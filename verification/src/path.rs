//! Paths as texts: their components, and what follows from them.
//!
//! Components are separated by slashes. Repeated and trailing slashes make no difference, nor
//! does a `.` anywhere but at the beginning of a relative path.

use crate::text;
use vstd::prelude::*;
use vstd::string::*;

verus! {

/// Whether the piece of a path at position `i` is a component.
pub open spec fn counts(piece: Seq<char>, i: int) -> bool {
    piece.len() > 0 && (piece != "."@ || i == 0)
}

/// The components among the first `n` pieces of a path.
pub open spec fn kept(pieces: Seq<Seq<char>>, n: nat) -> Seq<Seq<char>>
    decreases n,
{
    if n == 0 {
        Seq::empty()
    } else {
        let before = kept(pieces, (n - 1) as nat);
        if counts(pieces[n - 1], n - 1) {
            before.push(pieces[n - 1])
        } else {
            before
        }
    }
}

/// Whether a path begins at the root.
pub open spec fn is_absolute_path(path: Seq<char>) -> bool {
    path.len() > 0 && path[0] == '/'
}

/// The components of a path. The root is the component `/`.
pub open spec fn components_of(path: Seq<char>) -> Seq<Seq<char>> {
    let parts = text::pieces(path, '/');
    let names = kept(parts, parts.len());
    if is_absolute_path(path) {
        seq!["/"@] + names
    } else {
        names
    }
}

/// Whether two paths name the same place, as far as the texts show.
pub open spec fn same_place(a: Seq<char>, b: Seq<char>) -> bool {
    components_of(a) == components_of(b)
}

/// A component that is a name.
pub open spec fn is_name(component: Seq<char>) -> bool {
    component != "/"@ && component != "."@ && component != ".."@
}

/// The last component of a path, if it is a name.
pub open spec fn name_of(path: Seq<char>) -> Option<Seq<char>> {
    let parts = components_of(path);
    if parts.len() > 0 && is_name(parts.last()) {
        Some(parts.last())
    } else {
        None
    }
}

/// The path of a sequence of components.
pub open spec fn path_of(components: Seq<Seq<char>>) -> Seq<char> {
    if components.len() > 0 && components[0] == "/"@ {
        "/"@ + text::joined(components.skip(1), "/"@)
    } else {
        text::joined(components, "/"@)
    }
}

/// The path without its last component; none where there is nothing above it.
pub open spec fn parent_of(path: Seq<char>) -> Option<Seq<char>> {
    let parts = components_of(path);
    if parts.len() == 0 || parts.last() == "/"@ {
        None
    } else {
        Some(path_of(parts.drop_last()))
    }
}

/// What is left of a path below another.
pub open spec fn below(path: Seq<char>, base: Seq<char>) -> Option<Seq<char>> {
    let parts = components_of(path);
    let above = components_of(base);
    if above.len() <= parts.len() && parts.take(above.len() as int) == above {
        Some(path_of(parts.skip(above.len() as int)))
    } else {
        None
    }
}

/// One path below another; an absolute one stands for itself.
pub open spec fn joined_paths(base: Seq<char>, path: Seq<char>) -> Seq<char> {
    if is_absolute_path(path) {
        path
    } else if base.len() == 0 || base.last() == '/' {
        base + path
    } else {
        base + "/"@ + path
    }
}

/// The components of a path.
pub fn components(path: &str) -> (parts: Vec<String>)
    ensures
        text::views(parts@) == components_of(path@),
{
    let pieces: Vec<String> = text::split(path, '/');
    let ghost all = text::pieces(path@, '/');
    let chars: Vec<char> = text::chars_of(path);
    let mut parts: Vec<String> = Vec::new();
    let ghost mut root: Seq<Seq<char>> = Seq::empty();
    if chars.len() > 0 && chars[0] == '/' {
        parts.push("/".to_string());
        proof {
            root = seq!["/"@];
        }
    }
    assert(text::views(parts@) =~= root + kept(all, 0));
    let mut i: usize = 0;
    while i < pieces.len()
        invariant
            i <= pieces@.len(),
            text::views(pieces@) == all,
            text::views(parts@) == root + kept(all, i as nat),
        decreases pieces@.len() - i,
    {
        let piece: &String = &pieces[i];
        assert(all[i as int] == piece@);
        let ghost before = parts@;
        if !piece.as_str().is_empty() && (i == 0 || !text::same_text(piece.as_str(), ".")) {
            parts.push(piece.clone());
            assert(text::views(parts@) =~= text::views(before).push(piece@));
        }
        assert(text::views(parts@) =~= root + kept(all, (i + 1) as nat));
        i = i + 1;
    }
    assert(all.len() == pieces@.len());
    parts
}

/// Whether two sequences of texts are equal.
pub fn same_texts(a: &Vec<String>, b: &Vec<String>) -> (same: bool)
    ensures
        same == (text::views(a@) == text::views(b@)),
{
    if a.len() != b.len() {
        assert(text::views(a@).len() != text::views(b@).len());
        return false;
    }
    let mut i: usize = 0;
    while i < a.len()
        invariant
            i <= a@.len(),
            a@.len() == b@.len(),
            forall|j: int| 0 <= j < i ==> text::views(a@)[j] == #[trigger] text::views(b@)[j],
        decreases a@.len() - i,
    {
        if !text::same_text(a[i].as_str(), b[i].as_str()) {
            assert(text::views(a@)[i as int] != text::views(b@)[i as int]);
            return false;
        }
        i = i + 1;
    }
    assert(text::views(a@) =~= text::views(b@));
    true
}

/// Whether two paths name the same place, as far as the texts show.
pub fn same_path(a: &str, b: &str) -> (same: bool)
    ensures
        same == same_place(a@, b@),
{
    same_texts(&components(a), &components(b))
}

/// Whether a path has the given component.
pub fn has_component(path: &str, name: &str) -> (found: bool)
    ensures
        found == components_of(path@).contains(name@),
{
    let parts: Vec<String> = components(path);
    let mut i: usize = 0;
    while i < parts.len()
        invariant
            i <= parts@.len(),
            text::views(parts@) == components_of(path@),
            forall|j: int| 0 <= j < i ==> #[trigger] text::views(parts@)[j] != name@,
        decreases parts@.len() - i,
    {
        if text::same_text(parts[i].as_str(), name) {
            assert(text::views(parts@)[i as int] == name@);
            return true;
        }
        i = i + 1;
    }
    false
}

/// The texts from position `from` on up to position `to`, joined by slashes.
fn join_range(parts: &Vec<String>, from: usize, to: usize) -> (s: String)
    requires
        from <= to <= parts@.len(),
    ensures
        s@ == text::joined(text::views(parts@).subrange(from as int, to as int), "/"@),
{
    let mut chosen: Vec<String> = Vec::new();
    let mut i: usize = from;
    while i < to
        invariant
            from <= i <= to <= parts@.len(),
            text::views(chosen@) == text::views(parts@).subrange(from as int, i as int),
        decreases to - i,
    {
        let ghost before = chosen@;
        chosen.push(parts[i].clone());
        assert(text::views(chosen@) =~= text::views(before).push(text::views(parts@)[i as int]));
        assert(text::views(chosen@) =~= text::views(parts@).subrange(from as int, i + 1));
        i = i + 1;
    }
    text::join(&chosen, "/")
}

/// The path of the components from position `from` on up to position `to`.
fn path_from(parts: &Vec<String>, from: usize, to: usize) -> (s: String)
    requires
        from <= to <= parts@.len(),
    ensures
        s@ == path_of(text::views(parts@).subrange(from as int, to as int)),
{
    let ghost chosen = text::views(parts@).subrange(from as int, to as int);
    if from < to && text::same_text(parts[from].as_str(), "/") {
        assert(chosen[0] == "/"@);
        assert(chosen.skip(1) =~= text::views(parts@).subrange(from + 1, to as int));
        "/".to_string().concat(join_range(parts, from + 1, to).as_str())
    } else {
        assert(chosen.len() > 0 ==> chosen[0] == parts@[from as int]@);
        join_range(parts, from, to)
    }
}

/// What is left of a path below another.
pub fn strip_prefix(path: &str, base: &str) -> (rest: Option<String>)
    ensures
        match rest {
            Some(rest) => below(path@, base@) == Some(rest@),
            None => below(path@, base@) is None,
        },
{
    let parts: Vec<String> = components(path);
    let above: Vec<String> = components(base);
    if above.len() > parts.len() {
        return None;
    }
    let mut i: usize = 0;
    while i < above.len()
        invariant
            i <= above@.len() <= parts@.len(),
            text::views(parts@) == components_of(path@),
            text::views(above@) == components_of(base@),
            forall|j: int| 0 <= j < i ==> text::views(parts@)[j] == #[trigger] text::views(above@)[j],
        decreases above@.len() - i,
    {
        if !text::same_text(parts[i].as_str(), above[i].as_str()) {
            assert(text::views(parts@).take(above@.len() as int)[i as int] != text::views(above@)[i as int]);
            return None;
        }
        i = i + 1;
    }
    assert(text::views(parts@).take(above@.len() as int) =~= text::views(above@));
    assert(text::views(parts@).skip(above@.len() as int) =~= text::views(parts@).subrange(
        above@.len() as int,
        parts@.len() as int,
    ));
    Some(path_from(&parts, above.len(), parts.len()))
}

/// The last component of a path, if it is a name.
pub fn file_name(path: &str) -> (name: Option<String>)
    ensures
        match name {
            Some(name) => name_of(path@) == Some(name@),
            None => name_of(path@) is None,
        },
{
    let parts: Vec<String> = components(path);
    if parts.len() == 0 {
        return None;
    }
    let last: &String = &parts[parts.len() - 1];
    assert(components_of(path@).last() == last@);
    if text::same_text(last.as_str(), "/") || text::same_text(last.as_str(), ".")
        || text::same_text(last.as_str(), "..") {
        None
    } else {
        Some(last.clone())
    }
}

/// The path without its last component.
pub fn parent(path: &str) -> (p: Option<String>)
    ensures
        match p {
            Some(p) => parent_of(path@) == Some(p@),
            None => parent_of(path@) is None,
        },
{
    let parts: Vec<String> = components(path);
    if parts.len() == 0 {
        return None;
    }
    assert(components_of(path@).last() == parts@[parts@.len() - 1]@);
    if text::same_text(parts[parts.len() - 1].as_str(), "/") {
        return None;
    }
    assert(text::views(parts@).drop_last() =~= text::views(parts@).subrange(0, parts@.len() - 1));
    Some(path_from(&parts, 0, parts.len() - 1))
}

/// One path below another; an absolute one stands for itself.
pub fn join(base: &str, path: &str) -> (joined: String)
    ensures
        joined@ == joined_paths(base@, path@),
{
    let chars: Vec<char> = text::chars_of(path);
    if chars.len() > 0 && chars[0] == '/' {
        return path.to_string();
    }
    let above: Vec<char> = text::chars_of(base);
    if above.len() == 0 || above[above.len() - 1] == '/' {
        base.to_string().concat(path)
    } else {
        base.to_string().concat("/").concat(path)
    }
}

/// The order of texts by their characters.
pub open spec fn text_before(a: Seq<char>, b: Seq<char>) -> bool
    decreases a.len(),
{
    if b.len() == 0 {
        false
    } else if a.len() == 0 {
        true
    } else if a[0] == b[0] {
        text_before(a.skip(1), b.skip(1))
    } else {
        a[0] < b[0]
    }
}

/// What kind of component comes first: the root, `.`, `..`, names.
pub open spec fn rank(component: Seq<char>) -> int {
    if component == "/"@ {
        0
    } else if component == "."@ {
        1
    } else if component == ".."@ {
        2
    } else {
        3
    }
}

pub open spec fn component_before(a: Seq<char>, b: Seq<char>) -> bool {
    rank(a) < rank(b) || (rank(a) == rank(b) && text_before(a, b))
}

/// The order of sequences of components.
pub open spec fn components_before(a: Seq<Seq<char>>, b: Seq<Seq<char>>) -> bool
    decreases a.len(),
{
    if b.len() == 0 {
        false
    } else if a.len() == 0 {
        true
    } else if a[0] == b[0] {
        components_before(a.skip(1), b.skip(1))
    } else {
        component_before(a[0], b[0])
    }
}

/// The order of paths: component by component.
pub open spec fn path_before(a: Seq<char>, b: Seq<char>) -> bool {
    components_before(components_of(a), components_of(b))
}

proof fn text_order(a: Seq<char>, b: Seq<char>, c: Seq<char>)
    ensures
        !text_before(a, a),
        text_before(a, b) && text_before(b, c) ==> text_before(a, c),
        text_before(a, b) || text_before(b, a) || a == b,
        text_before(a, b) ==> !text_before(b, a),
    decreases a.len() + b.len() + c.len(),
{
    if a.len() > 0 && b.len() > 0 && c.len() > 0 {
        text_order(a.skip(1), b.skip(1), c.skip(1));
    } else if a.len() > 0 && b.len() > 0 {
        text_order(a.skip(1), b.skip(1), c);
    } else if a.len() > 0 {
        text_order(a.skip(1), b, c);
    }
    if a.len() > 0 && b.len() > 0 && a[0] == b[0] && a.skip(1) == b.skip(1) {
        assert(a =~= seq![a[0]] + a.skip(1));
        assert(b =~= seq![b[0]] + b.skip(1));
    }
    if a.len() == 0 && b.len() == 0 {
        assert(a =~= b);
    }
}

/// The order of components is total.
proof fn components_order(a: Seq<Seq<char>>, b: Seq<Seq<char>>, c: Seq<Seq<char>>)
    ensures
        !components_before(a, a),
        components_before(a, b) && components_before(b, c) ==> components_before(a, c),
        components_before(a, b) || components_before(b, a) || a == b,
        components_before(a, b) ==> !components_before(b, a),
    decreases a.len() + b.len() + c.len(),
{
    if a.len() > 0 && b.len() > 0 && c.len() > 0 {
        components_order(a.skip(1), b.skip(1), c.skip(1));
        text_order(a[0], b[0], c[0]);
        text_order(b[0], c[0], a[0]);
    } else if a.len() > 0 && b.len() > 0 {
        components_order(a.skip(1), b.skip(1), c);
        text_order(a[0], b[0], a[0]);
    } else if a.len() > 0 {
        components_order(a.skip(1), b, c);
    }
    if a.len() > 0 && b.len() > 0 && a[0] == b[0] && a.skip(1) == b.skip(1) {
        assert(a =~= seq![a[0]] + a.skip(1));
        assert(b =~= seq![b[0]] + b.skip(1));
    }
    if a.len() == 0 && b.len() == 0 {
        assert(a =~= b);
    }
}

/// Paths that name different places are ordered one way or the other, never both, and the order
/// carries over.
pub proof fn paths_are_ordered(a: Seq<char>, b: Seq<char>, c: Seq<char>)
    ensures
        same_place(a, b) ==> !path_before(a, b),
        path_before(a, b) && path_before(b, c) ==> path_before(a, c),
        path_before(a, b) || path_before(b, a) || same_place(a, b),
        path_before(a, b) ==> !path_before(b, a),
{
    components_order(components_of(a), components_of(b), components_of(c));
}

/// Whether one text comes before another.
fn is_text_before(a: &str, b: &str) -> (before: bool)
    ensures
        before == text_before(a@, b@),
{
    let x: Vec<char> = text::chars_of(a);
    let y: Vec<char> = text::chars_of(b);
    let mut i: usize = 0;
    assert(x@.skip(0) =~= a@ && y@.skip(0) =~= b@);
    while i < x.len() && i < y.len()
        invariant
            i <= x@.len(),
            i <= y@.len(),
            text_before(a@, b@) == text_before(x@.skip(i as int), y@.skip(i as int)),
        decreases x@.len() - i,
    {
        assert(x@.skip(i as int).skip(1) =~= x@.skip(i + 1));
        assert(y@.skip(i as int).skip(1) =~= y@.skip(i + 1));
        if x[i] != y[i] {
            return x[i] < y[i];
        }
        i = i + 1;
    }
    i < y.len()
}

fn rank_of(component: &str) -> (r: u8)
    ensures
        r == rank(component@),
{
    if text::same_text(component, "/") {
        0
    } else if text::same_text(component, ".") {
        1
    } else if text::same_text(component, "..") {
        2
    } else {
        3
    }
}

/// Whether one path comes before another.
pub fn is_before(a: &str, b: &str) -> (before: bool)
    ensures
        before == path_before(a@, b@),
{
    let x: Vec<String> = components(a);
    let y: Vec<String> = components(b);
    let ghost p = text::views(x@);
    let ghost q = text::views(y@);
    let mut i: usize = 0;
    assert(p.skip(0) =~= p && q.skip(0) =~= q);
    while i < x.len() && i < y.len()
        invariant
            i <= x@.len(),
            i <= y@.len(),
            p == text::views(x@),
            q == text::views(y@),
            p == components_of(a@),
            q == components_of(b@),
            components_before(p, q) == components_before(p.skip(i as int), q.skip(i as int)),
        decreases x@.len() - i,
    {
        assert(p.skip(i as int).skip(1) =~= p.skip(i + 1));
        assert(q.skip(i as int).skip(1) =~= q.skip(i + 1));
        assert(p[i as int] == x@[i as int]@ && q[i as int] == y@[i as int]@);
        if !text::same_text(x[i].as_str(), y[i].as_str()) {
            let r: u8 = rank_of(x[i].as_str());
            let t: u8 = rank_of(y[i].as_str());
            return r < t || (r == t && is_text_before(x[i].as_str(), y[i].as_str()));
        }
        i = i + 1;
    }
    i < y.len()
}

} // verus!
