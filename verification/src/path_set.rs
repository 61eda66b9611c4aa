//! Sets of paths, in order.

use crate::path;
use crate::text;
use vstd::prelude::*;

verus! {

/// A set of paths, in order; no place is in it twice.
#[derive(Debug)]
pub struct PathSet {
    pub paths: Vec<String>,
}

/// The places that paths name.
pub open spec fn places(paths: Seq<Seq<char>>) -> Set<Seq<Seq<char>>> {
    Set::new(|c: Seq<Seq<char>>| has_place(paths, c))
}

/// Whether one of the paths names the place.
pub open spec fn has_place(paths: Seq<Seq<char>>, place: Seq<Seq<char>>) -> bool {
    exists|i: int| 0 <= i < paths.len() && path::components_of(#[trigger] paths[i]) == place
}

/// Whether paths come in order, no place twice.
pub open spec fn ascending(paths: Seq<Seq<char>>) -> bool {
    forall|i: int, j: int|
        0 <= i < j < paths.len() ==> path::path_before(#[trigger] paths[i], #[trigger] paths[j])
}

/// The first position, from the given one on, of a path that does not come before another.
pub open spec fn position(paths: Seq<Seq<char>>, path: Seq<char>, i: nat) -> nat
    decreases paths.len() - i,
{
    if i < paths.len() && path::path_before(paths[i as int], path) {
        position(paths, path, i + 1)
    } else {
        i
    }
}

/// The paths with another among them in its place; the same where there is one for the place
/// already.
pub open spec fn inserted(paths: Seq<Seq<char>>, path: Seq<char>) -> Seq<Seq<char>> {
    if has_place(paths, path::components_of(path)) {
        paths
    } else {
        paths.insert(position(paths, path, 0) as int, path)
    }
}

/// The paths without the one that names the same place as the given one, if there is one.
pub open spec fn removed(paths: Seq<Seq<char>>, path: Seq<char>) -> Seq<Seq<char>> {
    if has_place(paths, path::components_of(path)) {
        paths.remove(position(paths, path, 0) as int)
    } else {
        paths
    }
}

/// The given paths in order, no place twice: of those that name the same place, the first.
pub open spec fn gathered(paths: Seq<Seq<char>>) -> Seq<Seq<char>>
    decreases paths.len(),
{
    if paths.len() == 0 {
        Seq::empty()
    } else {
        inserted(gathered(paths.drop_last()), paths.last())
    }
}

proof fn position_is_behind(paths: Seq<Seq<char>>, path: Seq<char>, i: nat)
    requires
        i <= paths.len(),
        forall|j: int| 0 <= j < i ==> path::path_before(#[trigger] paths[j], path),
    ensures
        i <= position(paths, path, i) <= paths.len(),
        forall|j: int|
            0 <= j < position(paths, path, i) ==> path::path_before(#[trigger] paths[j], path),
        position(paths, path, i) < paths.len() ==> !path::path_before(
            paths[position(paths, path, i) as int],
            path,
        ),
    decreases paths.len() - i,
{
    if i < paths.len() && path::path_before(paths[i as int], path) {
        position_is_behind(paths, path, i + 1);
    }
}

/// The position of a path parts the paths before it from those that are not; and the only one of
/// them that can name the same place is at the position.
pub proof fn positions_part(paths: Seq<Seq<char>>, path: Seq<char>)
    requires
        ascending(paths),
    ensures
        ({
            let k = position(paths, path, 0) as int;
            let found = has_place(paths, path::components_of(path));
            &&& 0 <= k <= paths.len()
            &&& forall|j: int| 0 <= j < k ==> path::path_before(#[trigger] paths[j], path)
            &&& forall|j: int| k < j < paths.len() ==> path::path_before(path, #[trigger] paths[j])
            &&& found <==> k < paths.len() && path::same_place(paths[k], path)
            &&& !found && k < paths.len() ==> path::path_before(path, paths[k])
        }),
{
    let k = position(paths, path, 0) as int;
    let place = path::components_of(path);
    position_is_behind(paths, path, 0);
    if k < paths.len() {
        path::paths_are_ordered(paths[k], path, path);
        assert forall|j: int| k < j < paths.len() implies path::path_before(
            path,
            #[trigger] paths[j],
        ) by {
            path::paths_are_ordered(path, paths[k], paths[j]);
            assert(path::path_before(paths[k], paths[j]));
            if path::same_place(paths[k], path) {
                path::paths_are_ordered(path, paths[j], paths[k]);
                path::paths_are_ordered(paths[j], path, paths[k]);
                assert(path::path_before(paths[k], paths[j]) == path::path_before(path, paths[j]));
            }
        }
        if path::same_place(paths[k], path) {
            assert(has_place(paths, place));
        }
    }
    if has_place(paths, place) {
        let m = choose|m: int|
            0 <= m < paths.len() && path::components_of(#[trigger] paths[m]) == place;
        path::paths_are_ordered(paths[m], path, path);
        path::paths_are_ordered(path, paths[m], path);
        assert(m == k);
    }
}

/// Inserting a path keeps the order, and adds its place and no other.
pub proof fn insertions_add_a_place(paths: Seq<Seq<char>>, path: Seq<char>)
    requires
        ascending(paths),
    ensures
        ascending(inserted(paths, path)),
        places(inserted(paths, path)) == places(paths).insert(path::components_of(path)),
{
    let all = paths;
    let after = inserted(paths, path);
    let i = position(paths, path, 0) as int;
    positions_part(paths, path);
    if !has_place(paths, path::components_of(path)) {
        assert forall|a: int, b: int| 0 <= a < b < after.len() implies path::path_before(
            #[trigger] after[a],
            #[trigger] after[b],
        ) by {
            if a != i && b != i {
                let x = if a < i {
                    a
                } else {
                    a - 1
                };
                let y = if b < i {
                    b
                } else {
                    b - 1
                };
                assert(after[a] == all[x] && after[b] == all[y]);
            } else if a == i {
                assert(after[b] == all[b - 1]);
            } else {
                assert(after[a] == all[a]);
            }
        }
        assert forall|c: Seq<Seq<char>>| has_place(after, c) <==> has_place(all, c) || c
            == path::components_of(path) by {
            if has_place(after, c) {
                let k = choose|k: int|
                    0 <= k < after.len() && path::components_of(#[trigger] after[k]) == c;
                if k < i {
                    assert(all[k] == after[k]);
                } else if k > i {
                    assert(all[k - 1] == after[k]);
                }
            }
            if has_place(all, c) {
                let k = choose|k: int|
                    0 <= k < all.len() && path::components_of(#[trigger] all[k]) == c;
                if k < i {
                    assert(all[k] == after[k]);
                } else {
                    assert(all[k] == after[k + 1]);
                }
            }
            assert(after[i] == path);
        }
    }
    assert(places(after) =~= places(paths).insert(path::components_of(path)));
}

/// Removing a path keeps the order, and takes its place away and no other.
pub proof fn removals_take_a_place(paths: Seq<Seq<char>>, path: Seq<char>)
    requires
        ascending(paths),
    ensures
        ascending(removed(paths, path)),
        places(removed(paths, path)) == places(paths).remove(path::components_of(path)),
{
    let all = paths;
    let after = removed(paths, path);
    let i = position(paths, path, 0) as int;
    let place = path::components_of(path);
    positions_part(paths, path);
    if has_place(paths, place) {
        assert forall|a: int, b: int| 0 <= a < b < after.len() implies path::path_before(
            #[trigger] after[a],
            #[trigger] after[b],
        ) by {
            let x = if a < i {
                a
            } else {
                a + 1
            };
            let y = if b < i {
                b
            } else {
                b + 1
            };
            assert(after[a] == all[x] && after[b] == all[y]);
        }
        assert forall|c: Seq<Seq<char>>| has_place(after, c) <==> has_place(all, c) && c
            != place by {
            if has_place(after, c) {
                let k = choose|k: int|
                    0 <= k < after.len() && path::components_of(#[trigger] after[k]) == c;
                let x = if k < i {
                    k
                } else {
                    k + 1
                };
                assert(all[x] == after[k]);
                path::paths_are_ordered(all[x], all[i], path);
                path::paths_are_ordered(all[i], all[x], path);
            }
            if has_place(all, c) && c != place {
                let k = choose|k: int|
                    0 <= k < all.len() && path::components_of(#[trigger] all[k]) == c;
                if k < i {
                    assert(all[k] == after[k]);
                } else {
                    assert(all[k] == after[k - 1]);
                }
            }
        }
    }
    assert(places(after) =~= places(paths).remove(place));
}

/// What is inserted and removed again leaves no trace.
pub proof fn removals_undo_insertions(paths: Seq<Seq<char>>, path: Seq<char>)
    requires
        ascending(paths),
        !has_place(paths, path::components_of(path)),
    ensures
        removed(inserted(paths, path), path) == paths,
{
    let after = inserted(paths, path);
    let i = position(paths, path, 0) as int;
    positions_part(paths, path);
    insertions_add_a_place(paths, path);
    positions_part(after, path);
    let k = position(after, path, 0) as int;
    assert(after[i] == path);
    assert(has_place(after, path::components_of(path)));
    path::paths_are_ordered(path, path, path);
    if k < i {
        assert(after[k] == paths[k]);
        path::paths_are_ordered(paths[k], path, path);
    } else if i < k {
        assert(path::path_before(after[i], path));
    }
    assert(after.remove(i) =~= paths);
}

/// Gathered paths are in order, and name the same places.
pub proof fn gathering_keeps_places(paths: Seq<Seq<char>>)
    ensures
        ascending(gathered(paths)),
        places(gathered(paths)) == places(paths),
    decreases paths.len(),
{
    if paths.len() == 0 {
        assert(places(gathered(paths)) =~= places(paths));
    } else {
        let x = paths.drop_last();
        let new = path::components_of(paths.last());
        gathering_keeps_places(x);
        insertions_add_a_place(gathered(x), paths.last());
        assert forall|c: Seq<Seq<char>>| has_place(paths, c) <==> has_place(x, c) || c == new by {
            if has_place(paths, c) {
                let k = choose|k: int|
                    0 <= k < paths.len() && path::components_of(#[trigger] paths[k]) == c;
                if k < x.len() {
                    assert(x[k] == paths[k]);
                }
            }
            if has_place(x, c) {
                let k = choose|k: int|
                    0 <= k < x.len() && path::components_of(#[trigger] x[k]) == c;
                assert(x[k] == paths[k]);
            }
            assert(paths[paths.len() - 1] == paths.last());
        }
        assert(places(gathered(paths)) =~= places(paths));
    }
}

/// Gathering paths that are in order already changes nothing.
pub proof fn gathering_keeps_what_is_in_order(paths: Seq<Seq<char>>)
    requires
        ascending(paths),
    ensures
        gathered(paths) == paths,
    decreases paths.len(),
{
    if paths.len() > 0 {
        let x = paths.drop_last();
        let last = paths.last();
        assert forall|i: int, j: int| 0 <= i < j < x.len() implies path::path_before(
            #[trigger] x[i],
            #[trigger] x[j],
        ) by {
            assert(x[i] == paths[i] && x[j] == paths[j]);
        }
        gathering_keeps_what_is_in_order(x);
        positions_part(x, last);
        let k = position(x, last, 0) as int;
        if k < x.len() {
            assert(x[k] == paths[k]);
            assert(path::path_before(paths[k], paths[paths.len() - 1]));
            path::paths_are_ordered(x[k], last, last);
        }
        assert(x.insert(k, last) =~= paths);
    }
}

impl View for PathSet {
    type V = Seq<Seq<char>>;

    /// The paths in the set, in order.
    open spec fn view(&self) -> Seq<Seq<char>> {
        text::views(self.paths@)
    }
}

impl PathSet {
    pub open spec fn wf(self) -> bool {
        ascending(self@)
    }

    /// A set without paths.
    pub fn new() -> (set: PathSet)
        ensures
            set.wf(),
            set@ == Seq::<Seq<char>>::empty(),
    {
        let set: PathSet = PathSet { paths: Vec::new() };
        assert(set@ =~= Seq::<Seq<char>>::empty());
        set
    }

    /// The set of the given paths.
    pub fn of(paths: &Vec<String>) -> (set: PathSet)
        ensures
            set.wf(),
            set@ == gathered(text::views(paths@)),
    {
        let mut set: PathSet = PathSet::new();
        let ghost all = text::views(paths@);
        let mut i: usize = 0;
        assert(all.take(0) =~= Seq::empty());
        while i < paths.len()
            invariant
                i <= paths@.len(),
                set.wf(),
                all == text::views(paths@),
                set@ == gathered(all.take(i as int)),
            decreases paths@.len() - i,
        {
            set.insert(paths[i].as_str());
            assert(all.take(i + 1).drop_last() =~= all.take(i as int));
            i = i + 1;
        }
        assert(all.take(all.len() as int) =~= all);
        set
    }

    /// The position at which the path is or would be, and whether the place is in the set.
    fn find(&self, path: &str) -> (r: (usize, bool))
        requires
            self.wf(),
        ensures
            r.0 == position(self@, path@, 0),
            r.0 <= self.paths@.len(),
            r.1 == has_place(self@, path::components_of(path@)),
            r.1 ==> r.0 < self.paths@.len(),
    {
        let mut i: usize = 0;
        while i < self.paths.len() && path::is_before(self.paths[i].as_str(), path)
            invariant
                i <= self.paths@.len(),
                position(self@, path@, 0) == position(self@, path@, i as nat),
            decreases self.paths@.len() - i,
        {
            assert(self@[i as int] == self.paths@[i as int]@);
            i = i + 1;
        }
        let found: bool = i < self.paths.len() && path::same_path(self.paths[i].as_str(), path);
        proof {
            if i < self.paths@.len() {
                assert(self@[i as int] == self.paths@[i as int]@);
            }
            positions_part(self@, path@);
        }
        (i, found)
    }

    /// Whether the set has a path that names the same place.
    pub fn contains(&self, path: &str) -> (found: bool)
        requires
            self.wf(),
        ensures
            found == has_place(self@, path::components_of(path@)),
    {
        self.find(path).1
    }

    /// Puts a path into the set. Where the place is in it, nothing changes.
    pub fn insert(&mut self, path: &str)
        requires
            old(self).wf(),
        ensures
            final(self).wf(),
            final(self)@ == inserted(old(self)@, path@),
    {
        let ghost all = self@;
        let (i, found): (usize, bool) = self.find(path);
        if !found {
            self.paths.insert(i, path.to_string());
            assert(self@ =~= all.insert(i as int, path@));
        }
        proof {
            insertions_add_a_place(all, path@);
        }
    }

    /// Takes a path out of the set, where the place is in it.
    pub fn remove(&mut self, path: &str)
        requires
            old(self).wf(),
        ensures
            final(self).wf(),
            final(self)@ == removed(old(self)@, path@),
    {
        let ghost all = self@;
        let (i, found): (usize, bool) = self.find(path);
        if found {
            self.paths.remove(i);
            assert(self@ =~= all.remove(i as int));
        }
        proof {
            removals_take_a_place(all, path@);
        }
    }
}

/// Inserting and removing touches no other path: what is inserted stands as it is written among the
/// others, which stay as they are and in order; and what is removed is the one path that names the
/// place.
pub proof fn other_paths_are_not_touched(paths: Seq<Seq<char>>, path: Seq<char>)
    requires
        ascending(paths),
    ensures
        has_place(paths, path::components_of(path)) ==> inserted(paths, path) == paths && exists|
            k: int,
        |
            0 <= k < paths.len() && path::same_place(paths[k], path) && removed(paths, path)
                == #[trigger] paths.remove(k),
        !has_place(paths, path::components_of(path)) ==> removed(paths, path) == paths && exists|
            k: int,
        |
            0 <= k <= paths.len() && inserted(paths, path) == #[trigger] paths.insert(k, path),
{
    positions_part(paths, path);
    let k = position(paths, path, 0) as int;
    if has_place(paths, path::components_of(path)) {
        assert(removed(paths, path) == paths.remove(k));
    } else {
        assert(inserted(paths, path) == paths.insert(k, path));
    }
}

} // verus!
