//! The values that memory holds at the paths that an analysis has seen.

use vstd::prelude::*;
use std::rc::Rc;
use crate::abstract_value::AbstractValue;
use crate::equality::{lemma_path_same_symmetric, lemma_path_same_transitive};
use crate::path::Path;
use crate::shared::{node, share};

verus! {

/// A mapping from paths to the values that memory holds at them.
///
/// The mapping is persistent: an update gives a new environment and leaves the old
/// one as it is. The two share the paths and values that they have in common.
#[derive(Clone, Debug)]
pub struct Environment {
    /// The entries of the mapping. No two entries have the same path.
    pub value_map: Vec<(Rc<Path>, Rc<AbstractValue>)>,
}

/// The index of the first of the entries from `from` on whose path is the same as
/// `path`, or the number of entries if there is none.
pub open spec fn position(
    entries: Seq<(Rc<Path>, Rc<AbstractValue>)>,
    path: Path,
    from: int,
) -> int
    decreases entries.len() - from,
{
    if from < 0 || from >= entries.len() {
        entries.len() as int
    } else if entries[from].0.same_as(path) {
        from
    } else {
        position(entries, path, from + 1)
    }
}

impl Environment {
    /// The value that this environment holds at `path`, if it holds one.
    pub open spec fn lookup(self, path: Path) -> Option<Rc<AbstractValue>> {
        let i = position(self.value_map@, path, 0);
        if i < self.value_map@.len() {
            Some(self.value_map@[i].1)
        } else {
            None
        }
    }

    /// True if no value or path in this environment holds a value that is larger
    /// than the greatest size that an expression may have.
    pub open spec fn within_limit(self) -> bool {
        forall|i: int|
            0 <= i < self.value_map@.len() ==> (#[trigger] self.value_map@[i]).0.within_limit()
                && self.value_map@[i].1.within_limit()
    }

    /// Returns an environment that holds no value.
    pub fn new() -> (result: Environment)
        ensures
            result.value_map@.len() == 0,
            result.within_limit(),
            forall|path: Path| result.lookup(path) is None,
    {
        Environment { value_map: Vec::new() }
    }

    /// Returns the value that this environment holds at `path`, if it holds one.
    pub fn value_at(&self, path: &Rc<Path>) -> (result: Option<&Rc<AbstractValue>>)
        ensures
            match result {
                Some(value) => self.lookup(**path) == Some(*value),
                None => self.lookup(**path) is None,
            },
            self.within_limit() ==> (result matches Some(value) ==> value.within_limit()),
    {
        let mut i: usize = 0;
        while i < self.value_map.len()
            invariant
                i <= self.value_map@.len(),
                position(self.value_map@, **path, 0) == position(self.value_map@, **path, i as int),
            decreases self.value_map@.len() - i,
        {
            if Path::eq(&self.value_map[i].0, path) {
                return Some(&self.value_map[i].1);
            }
            i += 1;
        }
        None
    }

    /// Returns an environment that holds `value` at `path` and at every path that is
    /// the same as `path`, and that holds at every other path what this environment
    /// holds there.
    pub fn insert(&self, path: Rc<Path>, value: Rc<AbstractValue>) -> (result: Environment)
        ensures
            forall|other: Path| path.same_as(other) ==> #[trigger] result.lookup(other) == Some(value),
            forall|other: Path|
                !path.same_as(other) ==> #[trigger] result.lookup(other) == self.lookup(other),
            self.within_limit() && path.within_limit() && value.within_limit()
                ==> result.within_limit(),
    {
        let ghost key: Path = node(&path);
        let ghost old_entries = self.value_map@;
        let ghost at = position(old_entries, key, 0);
        proof {
            lemma_position_bounds(old_entries, key, 0);
        }
        let mut entries: Vec<(Rc<Path>, Rc<AbstractValue>)> = Vec::new();
        let mut found = false;
        let mut i: usize = 0;
        while i < self.value_map.len()
            invariant
                i <= old_entries.len(),
                old_entries == self.value_map@,
                key == *path,
                at == position(old_entries, key, 0),
                0 <= at <= old_entries.len(),
                at < old_entries.len() ==> old_entries[at].0.same_as(key),
                forall|k: int| 0 <= k < at ==> !(#[trigger] old_entries[k]).0.same_as(key),
                entries@.len() == i,
                found == (at < i),
                forall|k: int|
                    0 <= k < i ==> #[trigger] entries@[k] == (if k == at {
                        (old_entries[k].0, value)
                    } else {
                        old_entries[k]
                    }),
            decreases old_entries.len() - i,
        {
            if !found && Path::eq(&self.value_map[i].0, &path) {
                entries.push((share(&self.value_map[i].0), share(&value)));
                found = true;
            } else {
                entries.push((share(&self.value_map[i].0), share(&self.value_map[i].1)));
            }
            i += 1;
        }
        if !found {
            entries.push((share(&path), share(&value)));
        }
        let result = Environment { value_map: entries };
        proof {
            let new_entries = result.value_map@;
            assert forall|other: Path| true implies (if path.same_as(other) {
                #[trigger] result.lookup(other) == Some(value)
            } else {
                result.lookup(other) == self.lookup(other)
            }) by {
                lemma_lookup_after_insert(old_entries, new_entries, key, value, other);
            }
            assert forall|k: int|
                self.within_limit() && path.within_limit() && value.within_limit() && 0 <= k
                    < new_entries.len() implies (#[trigger] new_entries[k]).0.within_limit()
                && new_entries[k].1.within_limit() by {
                if k < old_entries.len() {
                    assert(old_entries[k].0.within_limit());
                }
            }
        }
        result
    }
}

/// The first entry from `from` on with a given path lies between `from` and the end
/// of the entries, has that path, and no entry between `from` and it has.
pub proof fn lemma_position_bounds(
    entries: Seq<(Rc<Path>, Rc<AbstractValue>)>,
    path: Path,
    from: int,
)
    requires
        0 <= from <= entries.len(),
    ensures
        from <= position(entries, path, from) <= entries.len(),
        position(entries, path, from) < entries.len() ==> entries[position(
            entries,
            path,
            from,
        )].0.same_as(path),
        forall|k: int|
            from <= k < position(entries, path, from) ==> !(#[trigger] entries[k]).0.same_as(path),
    decreases entries.len() - from,
{
    if from < entries.len() {
        lemma_position_bounds(entries, path, from + 1);
    }
}

/// The first entry with a given path is the first entry with that path from any
/// earlier entry on.
pub proof fn lemma_position_first(
    entries: Seq<(Rc<Path>, Rc<AbstractValue>)>,
    path: Path,
    from: int,
    at: int,
)
    requires
        0 <= from <= at <= entries.len(),
        at < entries.len() ==> entries[at].0.same_as(path),
        forall|k: int| from <= k < at ==> !(#[trigger] entries[k]).0.same_as(path),
    ensures
        position(entries, path, from) == at,
    decreases at - from,
{
    if from < at {
        assert(!entries[from].0.same_as(path));
        lemma_position_first(entries, path, from + 1, at);
    }
}

/// Where the new entries are the old ones with the value of the first entry for
/// `path` replaced, or with an entry for `path` added at the end if there was none,
/// a lookup of a path that is the same as `path` finds the new value, and a lookup
/// of any other path finds what it found before.
proof fn lemma_lookup_after_insert(
    old_entries: Seq<(Rc<Path>, Rc<AbstractValue>)>,
    new_entries: Seq<(Rc<Path>, Rc<AbstractValue>)>,
    path: Path,
    value: Rc<AbstractValue>,
    other: Path,
)
    requires
        ({
            let at = position(old_entries, path, 0);
            &&& at < old_entries.len() ==> new_entries.len() == old_entries.len()
            &&& at >= old_entries.len() ==> new_entries.len() == old_entries.len() + 1
                && *new_entries[old_entries.len() as int].0 == path
                && new_entries[old_entries.len() as int].1 == value
            &&& forall|k: int|
                0 <= k < old_entries.len() ==> #[trigger] new_entries[k] == (if k == at {
                    (old_entries[k].0, value)
                } else {
                    old_entries[k]
                })
        }),
    ensures
        ({
            let i = position(old_entries, other, 0);
            let j = position(new_entries, other, 0);
            if path.same_as(other) {
                j < new_entries.len() && new_entries[j].1 == value
            } else {
                (i < old_entries.len()) == (j < new_entries.len()) && (i < old_entries.len()
                    ==> new_entries[j].1 == old_entries[i].1)
            }
        }),
{
    let at = position(old_entries, path, 0);
    let i = position(old_entries, other, 0);
    lemma_position_bounds(old_entries, path, 0);
    lemma_position_bounds(old_entries, other, 0);
    crate::equality::lemma_path_same_reflexive(&path);
    // The first entry of the new entries that has the path `other`.
    let j: int = if i < old_entries.len() {
        i
    } else if at >= old_entries.len() && path.same_as(other) {
        old_entries.len() as int
    } else {
        new_entries.len() as int
    };
    assert forall|k: int| 0 <= k < old_entries.len() implies (#[trigger] new_entries[k]).0
        == old_entries[k].0 by {}
    assert forall|k: int| 0 <= k < j implies !(#[trigger] new_entries[k]).0.same_as(other) by {
        if k < old_entries.len() {
            assert(new_entries[k].0 == old_entries[k].0);
            assert(!old_entries[k].0.same_as(other));
        } else {
            assert(*new_entries[k].0 == path);
        }
    }
    if j < new_entries.len() && j < old_entries.len() {
        assert(new_entries[j].0 == old_entries[j].0);
    }
    lemma_position_first(new_entries, other, 0, j);
    if at < old_entries.len() {
        let key = old_entries[at].0;
        lemma_path_same_symmetric(&path, &other);
        lemma_path_same_symmetric(&key, &path);
        lemma_path_same_transitive(&path, &key, &other);
        lemma_path_same_transitive(&key, &path, &other);
        lemma_path_same_transitive(&key, &other, &path);
        if path.same_as(other) {
            if i < at {
                let early = old_entries[i].0;
                lemma_path_same_transitive(&early, &other, &path);
            }
        }
    } else if path.same_as(other) {
        if i < old_entries.len() {
            let early = old_entries[i].0;
            lemma_path_same_symmetric(&path, &other);
            lemma_path_same_transitive(&early, &other, &path);
        }
    }
}

} // verus!
