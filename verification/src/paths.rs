//! The list of watched paths: ordered, and without two entries that differ only in the case of
//! their letters.

use vstd::prelude::*;
use vstd::std_specs::iter::IteratorSpec;

verus! {

/// The code point by which a character is compared: that of the lower-case letter for an ASCII
/// upper-case letter, the character's own for every other.
pub open spec fn fold(c: char) -> u32 {
    if 'A' <= c <= 'Z' {
        (c as u32 + 32) as u32
    } else {
        c as u32
    }
}

/// The code points by which a path is compared.
pub open spec fn folded(path: Seq<char>) -> Seq<u32> {
    Seq::new(path.len(), |i: int| fold(path[i]))
}

/// Whether two paths are the same but for the case of their ASCII letters.
pub open spec fn same_path(a: Seq<char>, b: Seq<char>) -> bool {
    folded(a) == folded(b)
}

/// Whether one of `paths` is the same as `path` but for case.
pub open spec fn holds(paths: Seq<Seq<char>>, path: Seq<char>) -> bool {
    exists|i: int| 0 <= i < paths.len() && same_path(#[trigger] paths[i], path)
}

/// Whether no two of `paths` are the same but for case.
pub open spec fn distinct(paths: Seq<Seq<char>>) -> bool {
    forall|i: int, j: int|
        0 <= i < j < paths.len() ==> !same_path(#[trigger] paths[i], #[trigger] paths[j])
}

/// The test that tells the paths apart from `path`.
pub open spec fn differs_from(path: Seq<char>) -> spec_fn(Seq<char>) -> bool {
    |other: Seq<char>| !same_path(other, path)
}

/// `paths` with `path` at its end, unless `paths` holds it already.
pub open spec fn added(paths: Seq<Seq<char>>, path: Seq<char>) -> Seq<Seq<char>> {
    if holds(paths, path) {
        paths
    } else {
        paths.push(path)
    }
}

/// `paths` without the entries that are the same as `path` but for case, the others in their
/// order.
pub open spec fn removed(paths: Seq<Seq<char>>, path: Seq<char>) -> Seq<Seq<char>> {
    paths.filter(differs_from(path))
}

/// The texts of `entries`.
pub open spec fn texts(entries: Seq<String>) -> Seq<Seq<char>> {
    Seq::new(entries.len(), |i: int| entries[i]@)
}

/// Being the same but for case is an equivalence: every path is like itself, likeness does not
/// depend on the side, and two paths like a third are like each other.
pub proof fn same_path_is_equivalence(a: Seq<char>, b: Seq<char>, c: Seq<char>)
    ensures
        same_path(a, a),
        same_path(a, b) == same_path(b, a),
        same_path(a, b) && same_path(b, c) ==> same_path(a, c),
{
}

/// Every path that is left comes from `paths`, none of them is like `path`, and every path of
/// `paths` that is unlike `path` is left.
pub proof fn removed_keeps_the_others(paths: Seq<Seq<char>>, path: Seq<char>)
    ensures
        forall|i: int|
            0 <= i < removed(paths, path).len() ==> exists|k: int|
                0 <= k < paths.len() && paths[k] == #[trigger] removed(paths, path)[i],
        !holds(removed(paths, path), path),
        forall|k: int|
            0 <= k < paths.len() && !same_path(#[trigger] paths[k], path) ==> removed(
                paths,
                path,
            ).contains(paths[k]),
        removed(paths, path).len() <= paths.len(),
    decreases paths.len(),
{
    reveal(Seq::filter);
    if paths.len() > 0 {
        let rest = paths.drop_last();
        removed_keeps_the_others(rest, path);
        let kept = removed(rest, path);
        let out = removed(paths, path);
        assert forall|i: int| 0 <= i < out.len() implies exists|k: int|
            0 <= k < paths.len() && paths[k] == #[trigger] out[i] by {
            if i < kept.len() {
                let k = choose|k: int| 0 <= k < rest.len() && rest[k] == kept[i];
                assert(paths[k] == out[i]);
            } else {
                assert(paths[paths.len() - 1] == out[i]);
            }
        }
        assert forall|k: int|
            0 <= k < paths.len() && !same_path(#[trigger] paths[k], path) implies out.contains(
            paths[k],
        ) by {
            if k < rest.len() {
                let i = choose|i: int| 0 <= i < kept.len() && kept[i] == rest[k];
                assert(out[i] == paths[k]);
            } else {
                assert(out[out.len() - 1] == paths[k]);
            }
        }
    }
}

/// What is left of distinct paths is distinct.
pub proof fn removed_distinct(paths: Seq<Seq<char>>, path: Seq<char>)
    requires
        distinct(paths),
    ensures
        distinct(removed(paths, path)),
    decreases paths.len(),
{
    reveal(Seq::filter);
    if paths.len() > 0 {
        let rest = paths.drop_last();
        removed_distinct(rest, path);
        removed_keeps_the_others(rest, path);
        let kept = removed(rest, path);
        assert forall|i: int| 0 <= i < kept.len() implies !same_path(
            #[trigger] kept[i],
            paths.last(),
        ) by {
            let k = choose|k: int| 0 <= k < rest.len() && rest[k] == kept[i];
            assert(paths[k] == kept[i]);
        }
    }
}

/// Removing a path that the list does not hold changes nothing.
pub proof fn removed_absent(paths: Seq<Seq<char>>, path: Seq<char>)
    requires
        !holds(paths, path),
    ensures
        removed(paths, path) == paths,
    decreases paths.len(),
{
    reveal(Seq::filter);
    if paths.len() > 0 {
        let rest = paths.drop_last();
        assert forall|i: int| 0 <= i < rest.len() implies !same_path(#[trigger] rest[i], path) by {
            assert(rest[i] == paths[i]);
        }
        removed_absent(rest, path);
    }
}

/// Among distinct paths exactly one entry is like a path that the list holds: removing it makes
/// the list shorter by one.
pub proof fn removed_present(paths: Seq<Seq<char>>, path: Seq<char>)
    requires
        distinct(paths),
        holds(paths, path),
    ensures
        removed(paths, path).len() + 1 == paths.len(),
    decreases paths.len(),
{
    reveal(Seq::filter);
    let rest = paths.drop_last();
    if same_path(paths.last(), path) {
        assert forall|i: int| 0 <= i < rest.len() implies !same_path(#[trigger] rest[i], path) by {
            assert(rest[i] == paths[i]);
        }
        removed_absent(rest, path);
    } else {
        let k = choose|k: int| 0 <= k < paths.len() && same_path(#[trigger] paths[k], path);
        assert(rest[k] == paths[k]);
        assert forall|i: int, j: int| 0 <= i < j < rest.len() implies !same_path(
            #[trigger] rest[i],
            #[trigger] rest[j],
        ) by {
            assert(rest[i] == paths[i] && rest[j] == paths[j]);
        }
        removed_present(rest, path);
    }
}

/// Adding keeps distinct paths distinct, and the list then holds the path in every case.
pub proof fn added_distinct(paths: Seq<Seq<char>>, path: Seq<char>, other: Seq<char>)
    requires
        distinct(paths),
        same_path(path, other),
    ensures
        distinct(added(paths, path)),
        holds(added(paths, path), other),
{
    let out = added(paths, path);
    if holds(paths, path) {
        let k = choose|k: int| 0 <= k < paths.len() && same_path(#[trigger] paths[k], path);
        assert(same_path(out[k], other));
    } else {
        assert(same_path(out[out.len() - 1], other));
        assert forall|i: int, j: int| 0 <= i < j < out.len() implies !same_path(
            #[trigger] out[i],
            #[trigger] out[j],
        ) by {
            assert(out[i] == paths[i]);
            assert(j < paths.len() ==> out[j] == paths[j]);
        }
    }
}

/// Adding the same path a second time, in whatever case, changes nothing: the list holds one
/// entry for it, which is the first that was added.
pub proof fn added_twice(paths: Seq<Seq<char>>, path: Seq<char>, other: Seq<char>)
    requires
        distinct(paths),
        same_path(path, other),
    ensures
        added(added(paths, path), other) == added(paths, path),
        removed(added(paths, path), other).len() + 1 == added(paths, path).len(),
{
    added_distinct(paths, path, other);
    removed_present(added(paths, path), other);
}

/// Removing a path after adding it, in whatever case, leaves what removing it alone leaves: on
/// a list that held nothing else, nothing.
pub proof fn removed_after_added(paths: Seq<Seq<char>>, path: Seq<char>, other: Seq<char>)
    requires
        same_path(path, other),
    ensures
        removed(added(paths, path), other) == removed(paths, other),
        removed(paths, other) == removed(paths, path),
        paths.len() == 0 ==> removed(added(paths, path), other).len() == 0,
{
    reveal(Seq::filter);
    if !holds(paths, path) {
        Seq::lemma_filter_push(paths, path, differs_from(other));
    }
    assert(differs_from(other) =~= differs_from(path));
}

/// The code point by which `c` is compared.
fn fold_char(c: char) -> (r: u32)
    ensures
        r == fold(c),
{
    if 'A' <= c && c <= 'Z' {
        c as u32 + 32
    } else {
        c as u32
    }
}

/// The code points by which `path` is compared.
fn fold_path(path: &str) -> (key: Vec<u32>)
    ensures
        key@ == folded(path@),
{
    let mut key: Vec<u32> = Vec::new();
    let chars = path.chars();
    for c in it: chars
        invariant
            it.seq() == path@,
            key@ == folded(path@.take(it.index())),
    {
        key.push(fold_char(c));
    }
    key
}

/// Whether `entry` is compared by the code points `key`.
fn has_key(entry: &str, key: &Vec<u32>) -> (r: bool)
    ensures
        r == (folded(entry@) == key@),
{
    let mut n: usize = 0;
    let chars = entry.chars();
    for c in it: chars
        invariant
            it.seq() == entry@,
            n == it.index(),
            n <= key@.len(),
            forall|j: int| 0 <= j < n ==> fold(entry@[j]) == key@[j],
    {
        if n >= key.len() {
            return false;
        }
        if fold_char(c) != key[n] {
            return false;
        }
        n += 1;
    }
    if n == key.len() {
        assert(folded(entry@) =~= key@);
        true
    } else {
        false
    }
}

/// The watched paths, in the order in which they were added.
pub struct WatchedPaths {
    entries: Vec<String>,
}

impl View for WatchedPaths {
    type V = Seq<Seq<char>>;

    /// The paths, in their order.
    closed spec fn view(&self) -> Seq<Seq<char>> {
        texts(self.entries@)
    }
}

impl WatchedPaths {
    /// What holds of every list: no two paths are the same but for case.
    #[verifier::type_invariant]
    pub open spec fn no_two_alike(self) -> bool {
        distinct(self@)
    }

    /// The empty list.
    pub fn new() -> (r: WatchedPaths)
        ensures
            r@ == Seq::<Seq<char>>::empty(),
    {
        WatchedPaths { entries: Vec::new() }
    }

    /// The number of paths.
    pub fn len(&self) -> (n: usize)
        ensures
            n == self@.len(),
    {
        self.entries.len()
    }

    /// Whether there is no path.
    pub fn is_empty(&self) -> (r: bool)
        ensures
            r == (self@.len() == 0),
    {
        self.entries.len() == 0
    }

    /// Whether the list holds `path`, in whatever case.
    pub fn contains(&self, path: &str) -> (r: bool)
        ensures
            r == holds(self@, path@),
    {
        let key = fold_path(path);
        let mut i: usize = 0;
        while i < self.entries.len()
            invariant
                i <= self.entries.len(),
                key@ == folded(path@),
                forall|j: int| 0 <= j < i ==> !same_path(#[trigger] self@[j], path@),
            decreases self.entries.len() - i,
        {
            if has_key(self.entries[i].as_str(), &key) {
                assert(same_path(self@[i as int], path@));
                return true;
            }
            i += 1;
        }
        false
    }

    /// Adds `path` at the end, unless the list holds it already, in whatever case.
    pub fn add_path(&mut self, path: &str)
        ensures
            final(self)@ == added(old(self)@, path@),
            distinct(final(self)@),
    {
        proof {
            use_type_invariant(&*self);
        }
        if !self.contains(path) {
            let ghost before = self@;
            let mut entries: Vec<String> = Vec::new();
            core::mem::swap(&mut self.entries, &mut entries);
            entries.push(path.to_owned());
            let ghost after = texts(entries@);
            assert forall|i: int, j: int| 0 <= i < j < after.len() implies !same_path(
                #[trigger] after[i],
                #[trigger] after[j],
            ) by {
                if j < before.len() {
                    assert(after[i] == before[i] && after[j] == before[j]);
                } else {
                    assert(after[i] == before[i]);
                }
            }
            self.entries = entries;
        }
    }

    /// Removes every entry that is `path`, in whatever case, and keeps the others in their order.
    pub fn remove_path(&mut self, path: &str)
        ensures
            final(self)@ == removed(old(self)@, path@),
            distinct(final(self)@),
            !holds(final(self)@, path@),
    {
        proof {
            use_type_invariant(&*self);
        }
        let key = fold_path(path);
        let ghost before = self@;
        let ghost test = differs_from(path@);
        let ghost seen: int = 0;
        let mut entries: Vec<String> = Vec::new();
        core::mem::swap(&mut self.entries, &mut entries);
        let mut idx: usize = 0;
        while idx < entries.len()
            invariant
                idx <= entries.len(),
                0 <= seen <= before.len(),
                key@ == folded(path@),
                test == differs_from(path@),
                idx == before.take(seen).filter(test).len(),
                texts(entries@) == before.take(seen).filter(test) + before.skip(seen),
            decreases entries.len() - idx,
        {
            let ghost now = texts(entries@);
            assert(now[idx as int] == before.skip(seen)[0]);
            assert(before.take(seen + 1) =~= before.take(seen).push(before[seen]));
            proof {
                Seq::lemma_filter_push(before.take(seen), before[seen], test);
            }
            if has_key(entries[idx].as_str(), &key) {
                entries.remove(idx);
                assert(texts(entries@) =~= now.remove(idx as int));
            } else {
                idx += 1;
            }
            proof {
                seen = seen + 1;
            }
        }
        proof {
            assert(texts(entries@) =~= removed(before, path@));
            removed_distinct(before, path@);
        }
        self.entries = entries;
    }

    /// A copy of the paths, in their order.
    pub fn to_vec(&self) -> (r: Vec<String>)
        ensures
            texts(r@) == self@,
    {
        let mut r: Vec<String> = Vec::new();
        let mut i: usize = 0;
        while i < self.entries.len()
            invariant
                i <= self.entries.len(),
                texts(r@) == self@.take(i as int),
            decreases self.entries.len() - i,
        {
            let ghost copied = texts(r@);
            let entry = self.entries[i].clone();
            r.push(entry);
            assert(texts(r@) =~= copied.push(self@[i as int]));
            i += 1;
        }
        r
    }
}

} // verus!
