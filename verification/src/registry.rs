//! The registry table: which timer ids are live, and the task behind each.

use std::collections::HashMap;
use tokio::task::JoinHandle;
use vstd::prelude::*;

verus! {

broadcast use vstd::std_specs::hash::group_hash_axioms;

/// The id that follows `counter`: one more, wrapping to zero past `u64::MAX`.
pub open spec fn following_id(counter: u64) -> u64 {
    if counter == u64::MAX {
        0
    } else {
        (counter + 1) as u64
    }
}

/// The id handed out by the `n`-th allocation (counting from zero) of a
/// registry whose counter stood at `start`.
pub open spec fn nth_id(start: u64, n: nat) -> u64 {
    ((start + n) % 0x1_0000_0000_0000_0000) as u64
}

/// Timer ids and the tasks registered under them.
///
/// The view is the table itself, a map from id to task handle; `counter` is
/// the id that the next allocation hands out. Whoever holds the table
/// mutably has it to themselves, so every operation is one atomic step for
/// all others; callers that share a table keep it behind one lock.
pub struct TimerTable {
    next_id: u64,
    timers: HashMap<u64, JoinHandle<()>>,
}

impl View for TimerTable {
    type V = Map<u64, JoinHandle<()>>;

    closed spec fn view(&self) -> Map<u64, JoinHandle<()>> {
        self.timers@
    }
}

impl TimerTable {
    /// The id that the next call of `allocate_id` returns.
    pub closed spec fn counter(&self) -> u64 {
        self.next_id
    }

    /// Every registered id lies below the counter: it has been handed out
    /// already, and the counter will not hand it out again before it wraps.
    pub open spec fn ids_issued(&self) -> bool {
        forall|id: u64| self@.contains_key(id) ==> id < self.counter()
    }

    /// An empty table whose first id is 0.
    pub fn new() -> (table: TimerTable)
        ensures
            table@ == Map::<u64, JoinHandle<()>>::empty(),
            table.counter() == 0,
            table.ids_issued(),
    {
        TimerTable { next_id: 0, timers: HashMap::new() }
    }

    /// Hands out the current counter value and moves the counter on by one
    /// (wrapping, as a fetch-and-add does). The table is untouched.
    pub fn allocate_id(&mut self) -> (id: u64)
        ensures
            id == old(self).counter(),
            final(self).counter() == following_id(old(self).counter()),
            final(self)@ == old(self)@,
            old(self).ids_issued() ==> !final(self)@.contains_key(id),
            old(self).ids_issued() && old(self).counter() < u64::MAX ==> final(self).ids_issued(),
    {
        let id: u64 = self.next_id;
        self.next_id = id.wrapping_add(1);
        id
    }

    /// Records `handle` under `id`, in place of any entry that `id` had.
    /// Every other entry stays as it was.
    pub fn register(&mut self, id: u64, handle: JoinHandle<()>)
        ensures
            final(self)@ == old(self)@.insert(id, handle),
            final(self).counter() == old(self).counter(),
            old(self).ids_issued() && id < old(self).counter() ==> final(self).ids_issued(),
    {
        self.timers.insert(id, handle);
    }

    /// Registers a new timer in one go: allocates its id, has `spawn` start
    /// the task that runs the timer under that id, and records the handle
    /// that `spawn` returns. The caller gets the id back.
    pub fn start_timer<S: FnOnce(u64) -> JoinHandle<()>>(&mut self, spawn: S) -> (id: u64)
        requires
            spawn.requires((old(self).counter(),)),
        ensures
            id == old(self).counter(),
            final(self).counter() == following_id(old(self).counter()),
            final(self)@.contains_key(id),
            spawn.ensures((id,), final(self)@[id]),
            final(self)@ == old(self)@.insert(id, final(self)@[id]),
            old(self).ids_issued() ==> !old(self)@.contains_key(id),
            old(self).ids_issued() && old(self).counter() < u64::MAX ==> final(self).ids_issued(),
    {
        let id: u64 = self.allocate_id();
        let handle: JoinHandle<()> = spawn(id);
        self.register(id, handle);
        id
    }

    /// How many timers are registered.
    pub fn len(&self) -> (n: usize)
        ensures
            n == self@.dom().len(),
            self@.dom().finite(),
    {
        self.timers.len()
    }

    /// Whether the table holds no timer.
    pub fn is_empty(&self) -> (empty: bool)
        ensures
            empty <==> self@ == Map::<u64, JoinHandle<()>>::empty(),
    {
        let n: usize = self.timers.len();
        proof {
            if n == 0 {
                assert(self@.dom() =~= Set::<u64>::empty());
                assert(self@ =~= Map::<u64, JoinHandle<()>>::empty());
            }
        }
        n == 0
    }

    /// Whether a timer is registered under `id`.
    pub fn contains(&self, id: u64) -> (present: bool)
        ensures
            present == self@.contains_key(id),
    {
        self.timers.contains_key(&id)
    }
}

/// Retires the timer `id`: if it is registered, its task is asked to stop
/// unless it has already finished, and its entry is removed. An id that is not
/// registered leaves the table exactly as it was.
pub fn _clear_timer(table: &mut TimerTable, id: u64)
    ensures
        final(table)@ == old(table)@.remove(id),
        !old(table)@.contains_key(id) ==> final(table)@ == old(table)@,
        final(table).counter() == old(table).counter(),
        old(table).ids_issued() ==> final(table).ids_issued(),
{
    match table.timers.get(&id) {
        None => {
            assert(table@.remove(id) =~= table@);
        },
        Some(handle) => {
            if !handle.is_finished() {
                handle.abort();
            }
            table.timers.remove(&id);
        },
    }
}

/// Retires every registered timer in one sweep: each task that has not
/// finished is asked to stop, and the table is left empty.
pub fn _clear_all_timer(table: &mut TimerTable)
    ensures
        final(table)@ == Map::<u64, JoinHandle<()>>::empty(),
        final(table).counter() == old(table).counter(),
        final(table).ids_issued(),
{
    for handle in table.timers.values() {
        if !handle.is_finished() {
            handle.abort();
        }
    }
    table.timers.clear();
}

/// The table that is left when the timers `ids` are retired one after the
/// other, first to last.
pub open spec fn retire_each(entries: Map<u64, JoinHandle<()>>, ids: Seq<u64>) -> Map<
    u64,
    JoinHandle<()>,
>
    decreases ids.len(),
{
    if ids.len() == 0 {
        entries
    } else {
        retire_each(entries, ids.drop_last()).remove(ids.last())
    }
}

/// Retiring a timer that is not registered changes nothing.
pub proof fn lemma_retire_absent(entries: Map<u64, JoinHandle<()>>, id: u64)
    requires
        !entries.contains_key(id),
    ensures
        entries.remove(id) == entries,
{
    assert(entries.remove(id) =~= entries);
}

/// Retiring a timer a second time changes nothing: the first call already
/// took the entry away.
pub proof fn lemma_retire_twice(entries: Map<u64, JoinHandle<()>>, id: u64)
    ensures
        !entries.remove(id).contains_key(id),
        entries.remove(id).remove(id) == entries.remove(id),
{
    assert(entries.remove(id).remove(id) =~= entries.remove(id));
}

/// Retiring one timer leaves every other entry as it was.
pub proof fn lemma_retire_keeps_others(entries: Map<u64, JoinHandle<()>>, id: u64, other: u64)
    requires
        other != id,
    ensures
        entries.remove(id).contains_key(other) == entries.contains_key(other),
        entries.contains_key(other) ==> entries.remove(id)[other] == entries[other],
{
}

/// Retiring timers one after the other removes exactly their entries.
pub proof fn lemma_retire_each(entries: Map<u64, JoinHandle<()>>, ids: Seq<u64>)
    ensures
        retire_each(entries, ids) == entries.remove_keys(ids.to_set()),
    decreases ids.len(),
{
    if ids.len() == 0 {
        assert(ids.to_set() =~= Set::<u64>::empty());
        assert(entries.remove_keys(ids.to_set()) =~= entries);
    } else {
        lemma_retire_each(entries, ids.drop_last());
        assert forall|id: u64| ids.to_set().contains(id) <==> (ids.drop_last().to_set().contains(
            id,
        ) || id == ids.last()) by {
            if ids.to_set().contains(id) {
                let i = choose|i: int| 0 <= i < ids.len() && ids[i] == id;
                if i < ids.len() - 1 {
                    assert(ids.drop_last()[i] == id);
                }
            }
            if ids.drop_last().to_set().contains(id) {
                let i = choose|i: int| 0 <= i < ids.drop_last().len() && ids.drop_last()[i] == id;
                assert(ids[i] == id);
            }
            if id == ids.last() {
                assert(ids[ids.len() - 1] == id);
            }
        }
        assert(entries.remove_keys(ids.drop_last().to_set()).remove(ids.last())
            =~= entries.remove_keys(ids.to_set()));
    }
}

/// Sweeping the table is the same as retiring every registered timer: once
/// each registered id has been retired, in whatever order, the table is empty.
pub proof fn lemma_sweep_is_retiring_each(entries: Map<u64, JoinHandle<()>>, ids: Seq<u64>)
    requires
        forall|id: u64| entries.contains_key(id) ==> ids.contains(id),
    ensures
        retire_each(entries, ids) == Map::<u64, JoinHandle<()>>::empty(),
{
    lemma_retire_each(entries, ids);
    assert(entries.remove_keys(ids.to_set()) =~= Map::<u64, JoinHandle<()>>::empty());
}

/// The ids of successive allocations follow one another: the first is the
/// counter itself, and each next one is `following_id` of the one before.
pub proof fn lemma_nth_id_follows(start: u64, n: nat)
    ensures
        nth_id(start, 0) == start,
        nth_id(start, n + 1) == following_id(nth_id(start, n)),
{
    let m: int = 0x1_0000_0000_0000_0000;
    let a: int = start + n;
    let s: int = start as int;
    assert(s % m == s) by (nonlinear_arith)
        requires
            0 <= s < m,
            m == 0x1_0000_0000_0000_0000,
    ;
    assert((a + 1) % m == if a % m == m - 1 {
        0
    } else {
        a % m + 1
    }) by (nonlinear_arith)
        requires
            0 <= a,
            m == 0x1_0000_0000_0000_0000,
    ;
}

/// Ids grow by one with each allocation for as long as the counter has not
/// wrapped.
pub proof fn lemma_ids_increase(start: u64, n: nat)
    requires
        start + n <= u64::MAX,
    ensures
        nth_id(start, n) == start + n,
{
    let m: int = 0x1_0000_0000_0000_0000;
    let a: int = start + n;
    assert(a % m == a) by (nonlinear_arith)
        requires
            0 <= a < m,
            m == 0x1_0000_0000_0000_0000,
    ;
}

/// No id is handed out twice: two allocations fewer than 2^64 apart return
/// different ids.
pub proof fn lemma_ids_distinct(start: u64, i: nat, j: nat)
    requires
        i < j,
        j - i < 0x1_0000_0000_0000_0000,
    ensures
        nth_id(start, i) != nth_id(start, j),
{
    let m: int = 0x1_0000_0000_0000_0000;
    let a: int = start + i;
    let b: int = start + j;
    assert(a % m != b % m) by (nonlinear_arith)
        requires
            0 <= a < b,
            b - a < m,
            m == 0x1_0000_0000_0000_0000,
    ;
}

} // verus!
