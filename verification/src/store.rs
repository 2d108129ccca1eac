//! The record store: the records of one type, each under its handle.

use vstd::prelude::*;
use crate::extensions::Updatable;
use crate::iidm_ecs::{Switch, SwitchView};
use crate::resources::RecordHandle;

verus! {

/// The position of the first row, from `from` on, that is under `handle`.
pub open spec fn first_row<V>(rows: Seq<(RecordHandle, V)>, handle: RecordHandle, from: int) -> Option<
    int,
>
    decreases rows.len() - from,
{
    if from < 0 || from >= rows.len() {
        None
    } else if rows[from].0 == handle {
        Some(from)
    } else {
        first_row(rows, handle, from + 1)
    }
}

/// What [`first_row`] finds is a row under `handle`, and the first one.
pub proof fn lemma_first_row<V>(rows: Seq<(RecordHandle, V)>, handle: RecordHandle, from: int)
    requires
        0 <= from <= rows.len(),
    ensures
        match first_row(rows, handle, from) {
            Some(at) => from <= at < rows.len() && rows[at].0 == handle && forall|earlier: int|
                from <= earlier < at ==> rows[earlier].0 != handle,
            None => forall|at: int| from <= at < rows.len() ==> rows[at].0 != handle,
        },
    decreases rows.len() - from,
{
    if from < rows.len() && rows[from].0 != handle {
        lemma_first_row(rows, handle, from + 1);
    }
}

/// A row under `handle` with no such row before it is what [`first_row`]
/// finds.
pub proof fn lemma_first_row_is<V>(
    rows: Seq<(RecordHandle, V)>,
    handle: RecordHandle,
    from: int,
    at: int,
)
    requires
        0 <= from <= at < rows.len(),
        rows[at].0 == handle,
        forall|earlier: int| from <= earlier < at ==> rows[earlier].0 != handle,
    ensures
        first_row(rows, handle, from) == Some(at),
    decreases at - from,
{
    if from < at {
        lemma_first_row_is(rows, handle, from + 1, at);
    }
}

/// Where no row is under `handle`, [`first_row`] finds none.
pub proof fn lemma_first_row_none<V>(rows: Seq<(RecordHandle, V)>, handle: RecordHandle, from: int)
    requires
        0 <= from <= rows.len(),
        forall|at: int| from <= at < rows.len() ==> rows[at].0 != handle,
    ensures
        first_row(rows, handle, from) is None,
    decreases rows.len() - from,
{
    if from < rows.len() {
        lemma_first_row_none(rows, handle, from + 1);
    }
}

/// Replacing the record of the first row under `handle` changes what is
/// held under `handle`, and nothing else.
pub proof fn lemma_record_replaced<V>(
    rows: Seq<(RecordHandle, V)>,
    handle: RecordHandle,
    at: int,
    record: V,
    other: RecordHandle,
)
    requires
        first_row(rows, handle, 0) == Some(at),
    ensures
        record_of(rows.update(at, (handle, record)), other) == (if other == handle {
            Some(record)
        } else {
            record_of(rows, other)
        }),
{
    let after = rows.update(at, (handle, record));
    lemma_first_row(rows, handle, 0);
    lemma_first_row(rows, other, 0);
    if other == handle {
        lemma_first_row_is(after, handle, 0, at);
    } else {
        match first_row(rows, other, 0) {
            Some(found) => {
                lemma_first_row_is(after, other, 0, found);
            },
            None => {
                lemma_first_row_none(after, other, 0);
            },
        }
    }
}

/// Adding a row under a `handle` that has none changes what is held under
/// `handle`, and nothing else.
pub proof fn lemma_record_added<V>(
    rows: Seq<(RecordHandle, V)>,
    handle: RecordHandle,
    record: V,
    other: RecordHandle,
)
    requires
        first_row(rows, handle, 0) is None,
    ensures
        record_of(rows.push((handle, record)), other) == (if other == handle {
            Some(record)
        } else {
            record_of(rows, other)
        }),
{
    let after = rows.push((handle, record));
    lemma_first_row(rows, other, 0);
    if other == handle {
        lemma_first_row_is(after, handle, 0, rows.len() as int);
    } else {
        match first_row(rows, other, 0) {
            Some(found) => {
                lemma_first_row_is(after, other, 0, found);
            },
            None => {
                lemma_first_row_none(after, other, 0);
            },
        }
    }
}

/// The record that `rows` holds under `handle`.
pub open spec fn record_of<V>(rows: Seq<(RecordHandle, V)>, handle: RecordHandle) -> Option<V> {
    match first_row(rows, handle, 0) {
        Some(at) => Some(rows[at].1),
        None => None,
    }
}

/// The records of one type. A handle holds at most one record of the type.
#[derive(Debug)]
pub struct Components<T> {
    rows: Vec<(RecordHandle, T)>,
}

impl<T: View> Components<T> {
    /// The rows of the store, each record by its value.
    pub closed spec fn rows(&self) -> Seq<(RecordHandle, T::V)> {
        Seq::new(self.rows.len() as nat, |i: int| (self.rows[i].0, self.rows[i].1@))
    }
}

impl<T: View> View for Components<T> {
    type V = Map<RecordHandle, T::V>;

    closed spec fn view(&self) -> Map<RecordHandle, T::V> {
        Map::new(
            |handle: RecordHandle| record_of(self.rows(), handle) is Some,
            |handle: RecordHandle| record_of(self.rows(), handle)->Some_0,
        )
    }
}

impl<T: View> Components<T> {
    /// The store that holds no record.
    pub fn new() -> (store: Components<T>)
        ensures
            store@ == Map::<RecordHandle, T::V>::empty(),
    {
        let store = Components { rows: Vec::new() };
        store
    }

    fn position(&self, handle: RecordHandle) -> (found: Option<usize>)
        ensures
            match found {
                Some(at) => first_row(self.rows(), handle, 0) == Some(at as int) && at
                    < self.rows.len(),
                None => first_row(self.rows(), handle, 0) is None,
            },
    {
        let mut i: usize = 0;
        while i < self.rows.len()
            invariant
                i <= self.rows.len(),
                self.rows().len() == self.rows.len(),
                first_row(self.rows(), handle, 0) == first_row(self.rows(), handle, i as int),
            decreases self.rows.len() - i,
        {
            if self.rows[i].0 == handle {
                return Some(i);
            }
            i += 1;
        }
        None
    }

    /// The handles of the rows.
    pub closed spec fn handles(&self) -> Seq<RecordHandle> {
        Seq::new(self.rows.len() as nat, |i: int| self.rows[i].0)
    }

    /// The handles that hold a record are the handles of the rows.
    proof fn lemma_domain(&self)
        ensures
            self@.dom() == self.handles().to_set(),
    {
        let rows = self.rows();
        let handles = self.handles();
        assert forall|handle: RecordHandle| self@.dom().contains(handle)
            <==> handles.to_set().contains(handle) by {
            lemma_first_row(rows, handle, 0);
            if handles.to_set().contains(handle) {
                let at = choose|at: int| 0 <= at < handles.len() && handles[at] == handle;
                assert(rows[at].0 == handle);
            }
            if self@.dom().contains(handle) {
                let at = first_row(rows, handle, 0)->Some_0;
                assert(handles[at] == handle);
            }
        }
    }

    /// Whether `handle` is the handle of one of the first `upto` rows.
    fn seen_before(&self, upto: usize, handle: RecordHandle) -> (seen: bool)
        requires
            upto <= self.rows.len(),
        ensures
            seen == self.handles().take(upto as int).contains(handle),
    {
        let ghost earlier = self.handles().take(upto as int);
        let mut k: usize = 0;
        while k < upto
            invariant
                k <= upto <= self.rows.len(),
                earlier == self.handles().take(upto as int),
                forall|j: int| 0 <= j < k ==> earlier[j] != handle,
            decreases upto - k,
        {
            if self.rows[k].0 == handle {
                assert(earlier[k as int] == handle);
                return true;
            }
            k += 1;
        }
        false
    }

    /// The number of handles that hold a record of this type.
    pub fn len(&self) -> (count: usize)
        ensures
            count == self@.dom().len(),
            self@.dom().finite(),
    {
        let mut count: usize = 0;
        let mut i: usize = 0;
        proof {
            assert(self.handles().take(0).to_set() =~= Set::<RecordHandle>::empty());
        }
        while i < self.rows.len()
            invariant
                i <= self.rows.len(),
                self.handles().len() == self.rows.len(),
                count <= i,
                count == self.handles().take(i as int).to_set().len(),
            decreases self.rows.len() - i,
        {
            let seen = self.seen_before(i, self.rows[i].0);
            proof {
                let earlier = self.handles().take(i as int);
                let handle = self.handles()[i as int];
                assert(self.handles().take(i + 1) =~= earlier.push(handle));
                earlier.lemma_push_to_set_commute(handle);
            }
            if !seen {
                count += 1;
            }
            i += 1;
        }
        proof {
            assert(self.handles().take(self.rows.len() as int) =~= self.handles());
            self.lemma_domain();
        }
        count
    }

    /// Whether no handle holds a record of this type.
    pub fn is_empty(&self) -> (empty: bool)
        ensures
            empty == (self@.dom().len() == 0),
    {
        self.len() == 0
    }

    /// Whether `handle` holds a record of this type.
    pub fn contains(&self, handle: RecordHandle) -> (held: bool)
        ensures
            held == self@.dom().contains(handle),
    {
        self.position(handle).is_some()
    }

    /// The record under `handle`.
    pub fn get(&self, handle: RecordHandle) -> (found: Option<&T>)
        ensures
            match found {
                Some(record) => self@.dom().contains(handle) && self@[handle] == record@,
                None => !self@.dom().contains(handle),
            },
    {
        match self.position(handle) {
            Some(at) => Some(&self.rows[at].1),
            None => None,
        }
    }

    /// Attaches `record` to `handle`, in place of the record of this type
    /// that the handle held, if it held one.
    pub fn insert(&mut self, handle: RecordHandle, record: T)
        ensures
            final(self)@ == old(self)@.insert(handle, record@),
    {
        let ghost before = self.rows();
        match self.position(handle) {
            Some(at) => {
                self.rows[at] = (handle, record);
                proof {
                    let after = self.rows();
                    assert(after =~= before.update(at as int, (handle, record@)));
                    assert forall|other: RecordHandle| record_of(after, other) == (if other
                        == handle {
                        Some(record@)
                    } else {
                        record_of(before, other)
                    }) by {
                        lemma_record_replaced(before, handle, at as int, record@, other);
                    }
                }
            },
            None => {
                self.rows.push((handle, record));
                proof {
                    let after = self.rows();
                    assert(after =~= before.push((handle, record@)));
                    assert forall|other: RecordHandle| record_of(after, other) == (if other
                        == handle {
                        Some(record@)
                    } else {
                        record_of(before, other)
                    }) by {
                        lemma_record_added(before, handle, record@, other);
                    }
                }
            },
        }
    }
}

impl Components<Switch> {
    /// Opens or closes the switch under `handle`, if there is one.
    pub fn set_open(&mut self, handle: RecordHandle, open: bool)
        ensures
            old(self)@.dom().contains(handle) ==> final(self)@ == old(self)@.insert(
                handle,
                SwitchView { open, ..old(self)@[handle] },
            ),
            !old(self)@.dom().contains(handle) ==> final(self)@ == old(self)@,
    {
        let ghost before = self.rows();
        match self.position(handle) {
            Some(at) => {
                self.rows[at].1.open = open;
                proof {
                    let after = self.rows();
                    let changed = SwitchView { open, ..before[at as int].1 };
                    lemma_first_row(before, handle, 0);
                    assert(after =~= before.update(at as int, (handle, changed)));
                    assert forall|other: RecordHandle| record_of(after, other) == (if other
                        == handle {
                        Some(changed)
                    } else {
                        record_of(before, other)
                    }) by {
                        lemma_record_replaced(before, handle, at as int, changed, other);
                    }
                }
            },
            None => {},
        }
    }
}

impl<T: Updatable> Components<T> {
    /// Applies `updates` to the record under `handle`. Where the handle
    /// holds no record of this type, nothing changes and `false` comes back.
    pub fn update(&mut self, handle: RecordHandle, updates: T::Updater) -> (applied: bool)
        ensures
            applied == old(self)@.dom().contains(handle),
            applied ==> final(self)@ == old(self)@.insert(
                handle,
                T::merged(old(self)@[handle], updates@),
            ),
            !applied ==> final(self)@ == old(self)@,
    {
        let ghost before = self.rows();
        match self.position(handle) {
            Some(at) => {
                self.rows[at].1.update(updates);
                proof {
                    let after = self.rows();
                    let merged = T::merged(before[at as int].1, updates@);
                    lemma_first_row(before, handle, 0);
                    assert(after =~= before.update(at as int, (handle, merged)));
                    assert forall|other: RecordHandle| record_of(after, other) == (if other
                        == handle {
                        Some(merged)
                    } else {
                        record_of(before, other)
                    }) by {
                        lemma_record_replaced(before, handle, at as int, merged, other);
                    }
                }
                true
            },
            None => false,
        }
    }
}

} // verus!
