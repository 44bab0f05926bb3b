//! A single value with atomic updates.
use vstd::prelude::*;

verus! {

/// A single-value cell with closure-based updates.
///
/// Every write hands back the value to broadcast to subscribers. Whoever shares
/// the cell between tasks holds one lock across a write and that broadcast, so
/// that subscribers always see the value committed by the latest write.
pub struct StateCell<T> {
    value: T,
}

impl<T> View for StateCell<T> {
    type V = T;

    closed spec fn view(&self) -> T {
        self.value
    }
}

/// `published` is what `f` makes of the value `before`, and `after`, the value
/// stored, is a clone of it.
pub open spec fn updated<T: Clone, F: FnOnce(&T) -> T>(
    before: T,
    f: F,
    published: T,
    after: T,
) -> bool {
    &&& f.ensures((&before,), published)
    &&& cloned(published, after)
}

/// `published` is `value`, and `after`, the value stored, is a clone of it.
pub open spec fn replaced<T: Clone>(value: T, published: T, after: T) -> bool {
    &&& published == value
    &&& cloned(value, after)
}

/// Cloning gives back an equal value.
pub open spec fn clones_faithfully<T: Clone>() -> bool {
    forall|a: T, b: T| #[trigger] cloned(a, b) ==> a == b
}

/// Whatever `f` returns for a value is what `change` makes of it.
pub open spec fn computes<T, F: FnOnce(&T) -> T>(f: F, change: spec_fn(T) -> T) -> bool {
    forall|value: T, new: T| #[trigger] f.ensures((&value,), new) ==> new == change(value)
}

/// A write made `published` of the value `before` by `change`, and `after`, the
/// value stored, is a clone of it.
pub open spec fn committed<T: Clone>(
    before: T,
    change: spec_fn(T) -> T,
    published: T,
    after: T,
) -> bool {
    &&& published == change(before)
    &&& cloned(published, after)
}

/// What all of `changes`, first to last, make of `value`.
pub open spec fn composed<T>(value: T, changes: Seq<spec_fn(T) -> T>) -> T
    decreases changes.len(),
{
    if changes.len() == 0 {
        value
    } else {
        (changes.last())(composed(value, changes.drop_last()))
    }
}

impl<T: Clone> StateCell<T> {
    /// Create a new `StateCell` storing `value`.
    pub fn new(value: T) -> (cell: Self)
        ensures
            cell@ == value,
    {
        StateCell { value }
    }

    /// Compute a new value from the current one via `f` and store it. The
    /// result is the value to broadcast.
    pub fn update<F>(&mut self, f: F) -> (published: T) where F: FnOnce(&T) -> T
        requires
            f.requires((&old(self)@,)),
        ensures
            updated(old(self)@, f, published, final(self)@),
    {
        let new = f(&self.value);
        self.value = new.clone();
        new
    }

    /// Replace the stored value with `value`. The result is the value to
    /// broadcast.
    pub fn set(&mut self, value: T) -> (published: T)
        ensures
            replaced(value, published, final(self)@),
    {
        self.value = value.clone();
        value
    }

    /// Get a snapshot of the current value.
    pub fn get(&self) -> (value: T)
        ensures
            cloned(self@, value),
    {
        self.value.clone()
    }
}

/// Giving `set` a value is the same as giving `update` a closure that always
/// returns it.
pub proof fn law_set_is_constant_update<T: Clone, F: FnOnce(&T) -> T>(
    before: T,
    value: T,
    f: F,
    published: T,
    after: T,
)
    requires
        forall|new: T| f.ensures((&before,), new) ==> new == value,
        updated(before, f, published, after),
    ensures
        replaced(value, published, after),
{
}

/// After a write, what subscribers are sent is what the cell holds, wherever
/// cloning gives back an equal value.
pub proof fn law_subscribers_see_the_stored_value<T: Clone, F: FnOnce(&T) -> T>(
    before: T,
    f: F,
    published: T,
    after: T,
)
    requires
        clones_faithfully::<T>(),
        updated(before, f, published, after) || replaced(published, published, after),
    ensures
        published == after,
{
}

/// A snapshot gives back the value that was written last, wherever cloning gives
/// back an equal value.
pub proof fn law_snapshot_gives_back_the_last_write<T: Clone, F: FnOnce(&T) -> T>(
    before: T,
    f: F,
    published: T,
    after: T,
    snapshot: T,
)
    requires
        clones_faithfully::<T>(),
        updated(before, f, published, after) || replaced(published, published, after),
        cloned(after, snapshot),
    ensures
        snapshot == published,
{
}

/// An update commits what its closure computes.
pub proof fn law_update_commits<T: Clone, F: FnOnce(&T) -> T>(
    before: T,
    f: F,
    change: spec_fn(T) -> T,
    published: T,
    after: T,
)
    requires
        computes(f, change),
        updated(before, f, published, after),
    ensures
        committed(before, change, published, after),
{
}

/// `set` commits its value, whatever was there before.
pub proof fn law_set_commits<T: Clone>(before: T, value: T, published: T, after: T)
    requires
        replaced(value, published, after),
    ensures
        committed(before, |_old: T| value, published, after),
{
}

/// No write is lost: in the order in which writes of any kind were committed,
/// the value stored after each is the composition of all changes up to it, and
/// so is what it published, wherever cloning gives back an equal value. `stored`
/// begins with the value before the first write.
pub proof fn law_no_write_is_lost<T: Clone>(
    changes: Seq<spec_fn(T) -> T>,
    published: Seq<T>,
    stored: Seq<T>,
)
    requires
        clones_faithfully::<T>(),
        published.len() == changes.len(),
        stored.len() == changes.len() + 1,
        forall|i: int|
            0 <= i < changes.len() ==> committed(
                #[trigger] stored[i],
                changes[i],
                published[i],
                stored[i + 1],
            ),
    ensures
        stored.last() == composed(stored[0], changes),
        changes.len() > 0 ==> published.last() == stored.last(),
        forall|i: int|
            0 <= i < changes.len() ==> #[trigger] published[i] == composed(
                stored[0],
                changes.take(i + 1),
            ),
    decreases changes.len(),
{
    if changes.len() > 0 {
        let n = changes.len() - 1;
        assert forall|i: int| 0 <= i < n implies committed(
            #[trigger] stored.drop_last()[i],
            changes.drop_last()[i],
            published.drop_last()[i],
            stored.drop_last()[i + 1],
        ) by {
            assert(stored.drop_last()[i] == stored[i]);
        }
        law_no_write_is_lost(changes.drop_last(), published.drop_last(), stored.drop_last());
        assert(committed(stored[n], changes[n], published[n], stored[n + 1]));
        assert(stored.drop_last().last() == stored[n]);
        assert forall|i: int| 0 <= i < changes.len() implies #[trigger] published[i] == composed(
            stored[0],
            changes.take(i + 1),
        ) by {
            if i < n {
                assert(published.drop_last()[i] == published[i]);
                assert(changes.drop_last().take(i + 1) =~= changes.take(i + 1));
            } else {
                assert(changes.take(i + 1) =~= changes);
            }
        }
    }
}

/// A series of updates, in the order in which they were committed, leaves in the
/// cell what their closures compose to in that order, and that is what the last
/// of them published, wherever cloning gives back an equal value. `stored` begins
/// with the value before the first update.
pub proof fn law_updates_compose<T: Clone, F: FnOnce(&T) -> T>(
    fs: Seq<F>,
    changes: Seq<spec_fn(T) -> T>,
    published: Seq<T>,
    stored: Seq<T>,
)
    requires
        clones_faithfully::<T>(),
        changes.len() == fs.len(),
        published.len() == fs.len(),
        stored.len() == fs.len() + 1,
        forall|i: int| 0 <= i < fs.len() ==> computes(#[trigger] fs[i], changes[i]),
        forall|i: int|
            0 <= i < fs.len() ==> updated(
                #[trigger] stored[i],
                fs[i],
                published[i],
                stored[i + 1],
            ),
    ensures
        stored.last() == composed(stored[0], changes),
        fs.len() > 0 ==> published.last() == composed(stored[0], changes),
{
    assert forall|i: int| 0 <= i < changes.len() implies committed(
        #[trigger] stored[i],
        changes[i],
        published[i],
        stored[i + 1],
    ) by {
        law_update_commits(stored[i], fs[i], changes[i], published[i], stored[i + 1]);
    }
    law_no_write_is_lost(changes, published, stored);
}

/// Changes that each add one add up to their number, in whatever order they were
/// committed.
pub proof fn law_increments_add_up(value: int, changes: Seq<spec_fn(int) -> int>)
    requires
        forall|i: int, x: int| 0 <= i < changes.len() ==> #[trigger] changes[i](x) == x + 1,
    ensures
        composed(value, changes) == value + changes.len(),
    decreases changes.len(),
{
    if changes.len() > 0 {
        let before = changes.drop_last();
        assert forall|i: int, x: int| 0 <= i < before.len() implies #[trigger] before[i](x) == x
            + 1 by {
            assert(changes[i](x) == x + 1);
        }
        law_increments_add_up(value, before);
        assert(changes[changes.len() - 1](composed(value, before)) == composed(value, before) + 1);
    }
}

} // verus!
