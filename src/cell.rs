use vstd::prelude::*;

verus! {

/// Why a lock attempt did not grant the lock.
#[derive(Debug, Clone, Copy, PartialEq, Eq, Structural)]
pub enum LockError {
    /// Another holder has the lock: wait for it to be released and retry.
    WouldBlock,
    /// A holder terminated abnormally inside its critical section, so the
    /// value may be inconsistent; the lock is not granted again.
    Poisoned,
}

/// A guarded cell as mathematics: its value, who holds the lock, and
/// whether a holder ever terminated abnormally while holding it.
pub struct CellModel<V> {
    pub value: V,
    pub holder: Option<u64>,
    pub poisoned: bool,
}

/// A cell holding `v`, unlocked and sound.
pub open spec fn new_cell_spec<V>(v: V) -> CellModel<V> {
    CellModel { value: v, holder: None, poisoned: false }
}

/// `who` asks for the lock: granted only when nobody holds it and it is not
/// poisoned.
pub open spec fn lock_spec<V>(c: CellModel<V>, who: u64) -> (Result<(), LockError>, CellModel<V>) {
    if c.holder is Some {
        (Err(LockError::WouldBlock), c)
    } else if c.poisoned {
        (Err(LockError::Poisoned), c)
    } else {
        (Ok(()), CellModel { holder: Some(who), ..c })
    }
}

/// The holder replaces the value.
pub open spec fn write_spec<V>(c: CellModel<V>, v: V) -> CellModel<V> {
    CellModel { value: v, ..c }
}

/// The holder leaves its critical section, abnormally when `panicked`.
pub open spec fn unlock_spec<V>(c: CellModel<V>, panicked: bool) -> CellModel<V> {
    CellModel { holder: None, poisoned: c.poisoned || panicked, ..c }
}

/// A value behind a mutual-exclusion lock: it is read and written only by
/// the current holder, and there is at most one holder at a time.
pub struct GuardedCell<V> {
    value: V,
    holder: Option<u64>,
    poisoned: bool,
}

impl<V> View for GuardedCell<V> {
    type V = CellModel<V>;

    closed spec fn view(&self) -> CellModel<V> {
        CellModel { value: self.value, holder: self.holder, poisoned: self.poisoned }
    }
}

impl<V> GuardedCell<V> {
    /// A cell holding `initial`, unlocked.
    pub fn new(initial: V) -> (r: Self)
        ensures
            r@ == new_cell_spec(initial),
    {
        GuardedCell { value: initial, holder: None, poisoned: false }
    }

    /// One lock attempt by `who`; it never waits.
    pub fn try_lock(&mut self, who: u64) -> (r: Result<(), LockError>)
        ensures
            (r, final(self)@) == lock_spec(old(self)@, who),
    {
        if self.holder.is_some() {
            Err(LockError::WouldBlock)
        } else if self.poisoned {
            Err(LockError::Poisoned)
        } else {
            self.holder = Some(who);
            Ok(())
        }
    }

    /// The value, read by the holder `who`.
    pub fn get(&self, who: u64) -> (r: &V)
        requires
            self@.holder == Some(who),
        ensures
            *r == self@.value,
    {
        &self.value
    }

    /// The holder `who` replaces the value.
    pub fn set(&mut self, who: u64, v: V)
        requires
            old(self)@.holder == Some(who),
        ensures
            final(self)@ == write_spec(old(self)@, v),
    {
        self.value = v;
    }

    /// The holder `who` releases the lock; `panicked` says that its
    /// critical section ended abnormally, which poisons the cell.
    pub fn unlock(&mut self, who: u64, panicked: bool)
        requires
            old(self)@.holder == Some(who),
        ensures
            final(self)@ == unlock_spec(old(self)@, panicked),
    {
        self.holder = None;
        self.poisoned = self.poisoned || panicked;
    }

    /// Whether a holder has ever left the cell abnormally.
    pub fn is_poisoned(&self) -> (r: bool)
        ensures
            r == self@.poisoned,
    {
        self.poisoned
    }

    /// Whether somebody holds the lock.
    pub fn is_locked(&self) -> (r: bool)
        ensures
            r == self@.holder is Some,
    {
        self.holder.is_some()
    }
}

/// One thread that increments a shared counter: it takes the lock (phase 0),
/// reads the value into `local` (phase 1), writes `local + 1` (phase 2),
/// releases the lock (phase 3) and is done (phase 4).
pub struct Worker {
    pub phase: nat,
    pub local: int,
}

/// Worker `i` takes its next step on the counter cell `c`; a lock attempt
/// that is refused leaves everything as it was, to be retried later.
pub open spec fn worker_step(c: CellModel<int>, ws: Seq<Worker>, i: int) -> (CellModel<int>, Seq<Worker>) {
    if 0 <= i < ws.len() {
        let w = ws[i];
        if w.phase == 0 {
            let (r, c2) = lock_spec(c, i as u64);
            if r is Ok {
                (c2, ws.update(i, Worker { phase: 1, local: w.local }))
            } else {
                (c, ws)
            }
        } else if w.phase == 1 {
            (c, ws.update(i, Worker { phase: 2, local: c.value }))
        } else if w.phase == 2 {
            (write_spec(c, w.local + 1), ws.update(i, Worker { phase: 3, local: w.local }))
        } else if w.phase == 3 {
            (unlock_spec(c, false), ws.update(i, Worker { phase: 4, local: w.local }))
        } else {
            (c, ws)
        }
    } else {
        (c, ws)
    }
}

/// The workers take steps in the order `sched` gives, one entry per step.
pub open spec fn run_workers(c: CellModel<int>, ws: Seq<Worker>, sched: Seq<int>) -> (CellModel<int>, Seq<Worker>)
    decreases sched.len(),
{
    if sched.len() == 0 {
        (c, ws)
    } else {
        let (c2, ws2) = worker_step(c, ws, sched[0]);
        run_workers(c2, ws2, sched.drop_first())
    }
}

/// `n` workers that have not started.
pub open spec fn idle_workers(n: nat) -> Seq<Worker> {
    Seq::new(n, |i: int| Worker { phase: 0, local: 0 })
}

/// The number of workers that have written their increment.
pub open spec fn written(ws: Seq<Worker>) -> nat
    decreases ws.len(),
{
    if ws.len() == 0 {
        0
    } else {
        written(ws.drop_last()) + if ws.last().phase >= 3 { 1nat } else { 0nat }
    }
}

/// Whether the worker is between taking the lock and releasing it.
pub open spec fn in_critical(w: Worker) -> bool {
    1 <= w.phase <= 3
}

spec fn counter_inv(c: CellModel<int>, ws: Seq<Worker>, init: int, n: nat) -> bool {
    &&& ws.len() == n
    &&& n <= u64::MAX
    &&& !c.poisoned
    &&& forall|i: int| 0 <= i < n ==> #[trigger] ws[i].phase <= 4
    &&& forall|i: int| 0 <= i < n ==> (in_critical(#[trigger] ws[i]) <==> c.holder == Some(i as u64))
    &&& forall|i: int| 0 <= i < n && #[trigger] ws[i].phase == 2 ==> ws[i].local == c.value
    &&& c.value == init + written(ws)
}

proof fn written_update(ws: Seq<Worker>, i: int, w: Worker)
    requires
        0 <= i < ws.len(),
    ensures
        written(ws.update(i, w)) + (if ws[i].phase >= 3 { 1int } else { 0int })
            == written(ws) + (if w.phase >= 3 { 1int } else { 0int }),
    decreases ws.len(),
{
    let u = ws.update(i, w);
    if i == ws.len() - 1 {
        assert(u.drop_last() =~= ws.drop_last());
    } else {
        written_update(ws.drop_last(), i, w);
        assert(u.drop_last() =~= ws.drop_last().update(i, w));
    }
}

proof fn written_all(ws: Seq<Worker>)
    requires
        forall|i: int| 0 <= i < ws.len() ==> #[trigger] ws[i].phase >= 3,
    ensures
        written(ws) == ws.len(),
    decreases ws.len(),
{
    if ws.len() > 0 {
        written_all(ws.drop_last());
    }
}

proof fn written_none(n: nat)
    ensures
        written(idle_workers(n)) == 0,
    decreases n,
{
    if n > 0 {
        written_none((n - 1) as nat);
        assert(idle_workers(n).drop_last() =~= idle_workers((n - 1) as nat));
    }
}

proof fn step_keeps_inv(c: CellModel<int>, ws: Seq<Worker>, init: int, n: nat, i: int)
    requires
        counter_inv(c, ws, init, n),
    ensures
        counter_inv(worker_step(c, ws, i).0, worker_step(c, ws, i).1, init, n),
{
    if 0 <= i < ws.len() {
        let w = ws[i];
        let (c2, ws2) = worker_step(c, ws, i);
        if w.phase <= 3 && !(w.phase == 0 && c.holder is Some) {
            let nw = ws2[i];
            written_update(ws, i, nw);
            assert forall|j: int| 0 <= j < n && j != i implies (in_critical(#[trigger] ws2[j])
                <==> c2.holder == Some(j as u64)) by {
                assert(ws2[j] == ws[j]);
                assert(j as u64 != i as u64);
            }
            assert forall|j: int| 0 <= j < n implies (in_critical(#[trigger] ws2[j]) <==> c2.holder
                == Some(j as u64)) by {
                if j != i {
                    assert(ws2[j] == ws[j]);
                    assert(j as u64 != i as u64);
                }
            }
            assert forall|j: int| 0 <= j < n && #[trigger] ws2[j].phase == 2 implies ws2[j].local
                == c2.value by {
                if j != i {
                    assert(ws2[j] == ws[j]);
                    assert(in_critical(ws[j]));
                    assert(j as u64 != i as u64);
                }
            }
        }
    }
}

proof fn run_keeps_inv(c: CellModel<int>, ws: Seq<Worker>, init: int, n: nat, sched: Seq<int>)
    requires
        counter_inv(c, ws, init, n),
    ensures
        counter_inv(run_workers(c, ws, sched).0, run_workers(c, ws, sched).1, init, n),
    decreases sched.len(),
{
    if sched.len() > 0 {
        step_keeps_inv(c, ws, init, n, sched[0]);
        let (c2, ws2) = worker_step(c, ws, sched[0]);
        run_keeps_inv(c2, ws2, init, n, sched.drop_first());
    }
}

/// No lost updates: `n` threads each lock a counter cell, read it, write the
/// value read plus one and unlock. Whatever order their steps interleave in,
/// at most one of them is ever inside its critical section, the counter
/// always equals its start value plus the number of increments written,
/// and once every thread is done it equals its start value plus `n`.
pub proof fn no_lost_updates(init: int, n: nat, sched: Seq<int>)
    requires
        n <= u64::MAX,
    ensures
        ({
            let (c, ws) = run_workers(new_cell_spec(init), idle_workers(n), sched);
            &&& c.value == init + written(ws)
            &&& forall|i: int, j: int|
                0 <= i < n && 0 <= j < n && in_critical(#[trigger] ws[i]) && in_critical(
                    #[trigger] ws[j],
                ) ==> i == j
            &&& (forall|i: int| 0 <= i < n ==> #[trigger] ws[i].phase == 4) ==> c.value == init + n
        }),
{
    let c0 = new_cell_spec(init);
    let w0 = idle_workers(n);
    written_none(n);
    run_keeps_inv(c0, w0, init, n, sched);
    let (c, ws) = run_workers(c0, w0, sched);
    assert forall|i: int, j: int|
        0 <= i < n && 0 <= j < n && in_critical(#[trigger] ws[i]) && in_critical(#[trigger] ws[j])
        implies i == j by {
        assert(i as u64 == j as u64);
    }
    if forall|i: int| 0 <= i < n ==> #[trigger] ws[i].phase == 4 {
        assert forall|i: int| 0 <= i < ws.len() implies #[trigger] ws[i].phase >= 3 by {
            assert(ws[i].phase == 4);
        }
        written_all(ws);
    }
}

} // verus!
