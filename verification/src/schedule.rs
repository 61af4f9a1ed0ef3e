//! Mathematical model of the round-robin scheduler: the scan for the next
//! ready task and the state transition performed by one yield.
//!
//! The executable task manager in `task` is proved to follow these
//! definitions; the fairness law `lemma_round_robin` is proved about them.

use vstd::prelude::*;

use crate::config::MAX_APP_NUM;
use crate::task::TaskStatus;

verus! {

/// The scheduler-visible part of the kernel state: one status per task slot,
/// the index of the current task, and the number of loaded applications.
#[verifier::ext_equal]
pub struct SchedState {
    pub statuses: Seq<TaskStatus>,
    pub current: int,
    pub n: int,
}

/// A task that still takes part in scheduling.
pub open spec fn task_live(s: TaskStatus) -> bool {
    s is Ready || s is Running
}

/// The slot reached from `cur` after stepping `off` slots forward, wrapping
/// around at `n`.
pub open spec fn slot(cur: int, n: int, off: int) -> int {
    (cur + off) % n
}

/// First offset `o` in `[off, n]` such that the slot `(cur + o) % n` is
/// `Ready`, scanning upward; `None` if there is none.
///
/// Offset `n` is the slot `cur` itself, so the scan covers every slot once,
/// ending with the current one.
pub open spec fn scan_ready(sts: Seq<TaskStatus>, cur: int, n: int, off: int) -> Option<int>
    recommends
        1 <= n,
        0 <= cur < n,
        1 <= off,
    decreases n + 1 - off,
        when off <= n + 1
{
    if off > n {
        None
    } else if sts[slot(cur, n, off)] is Ready {
        Some(off)
    } else {
        scan_ready(sts, cur, n, off + 1)
    }
}

/// The slot the round-robin policy picks next: the first `Ready` slot in
/// `(cur+1, ..., cur+n) mod n`, i.e. scanning upward from the slot after the
/// current one and wrapping around.
pub open spec fn spec_find_next(sts: Seq<TaskStatus>, cur: int, n: int) -> Option<int> {
    match scan_ready(sts, cur, n, 1) {
        Some(o) => Some((cur + o) % n),
        None => None,
    }
}

/// A well-formed scheduler state: indices in range and exactly the current
/// task `Running`.
pub open spec fn sched_wf(s: SchedState) -> bool {
    &&& s.statuses.len() == MAX_APP_NUM
    &&& 1 <= s.n <= MAX_APP_NUM
    &&& 0 <= s.current < s.n
    &&& s.statuses[s.current] is Running
    &&& forall|i: int| 0 <= i < MAX_APP_NUM && i != s.current ==> !(s.statuses[i] is Running)
}

/// The state transition of one yield: the current task goes back to `Ready`,
/// then the scan picks the next task and marks it `Running`.
///
/// A yield always finds a task, because the yielding task itself is `Ready`
/// at offset `n`; the `None` arm is never taken from a well-formed state.
pub open spec fn yield_step(s: SchedState) -> SchedState {
    let marked = s.statuses.update(s.current, TaskStatus::Ready);
    match scan_ready(marked, s.current, s.n, 1) {
        Some(o) => SchedState {
            statuses: marked.update((s.current + o) % s.n, TaskStatus::Running),
            current: (s.current + o) % s.n,
            n: s.n,
        },
        None => s,
    }
}

/// The state after `m` consecutive yields.
pub open spec fn after_yields(s: SchedState, m: nat) -> SchedState
    decreases m,
{
    if m == 0 {
        s
    } else {
        yield_step(after_yields(s, (m - 1) as nat))
    }
}

/// If some offset `o` in `[off, n]` holds a `Ready` slot, the scan starting
/// at `off` finds one.
pub proof fn lemma_scan_finds_some(sts: Seq<TaskStatus>, cur: int, n: int, off: int, o: int)
    requires
        1 <= n,
        0 <= cur < n,
        1 <= off <= o <= n,
        sts[slot(cur, n, o)] is Ready,
    ensures
        scan_ready(sts, cur, n, off) is Some,
    decreases o - off,
{
    if off < o && !(sts[slot(cur, n, off)] is Ready) {
        lemma_scan_finds_some(sts, cur, n, off + 1, o);
    }
}

/// What a successful scan means: the offset found is in range, its slot is
/// `Ready`, and no smaller offset at or past the scan start has a `Ready`
/// slot.
pub proof fn lemma_scan_props(sts: Seq<TaskStatus>, cur: int, n: int, off: int)
    requires
        1 <= n,
        0 <= cur < n,
        1 <= off <= n + 1,
        scan_ready(sts, cur, n, off) is Some,
    ensures
        ({
            let o = scan_ready(sts, cur, n, off)->0;
            &&& off <= o <= n
            &&& sts[slot(cur, n, o)] is Ready
            &&& forall|o2: int| off <= o2 < o ==> !(sts[#[trigger] slot(cur, n, o2)] is Ready)
        }),
    decreases n + 1 - off,
{
    if off <= n && !(sts[slot(cur, n, off)] is Ready) {
        lemma_scan_props(sts, cur, n, off + 1);
    }
}

/// Number of live tasks among the slots `[lo, hi)`.
pub open spec fn live_in_range(sts: Seq<TaskStatus>, lo: int, hi: int) -> nat
    decreases hi - lo,
{
    if lo >= hi {
        0
    } else {
        (if task_live(sts[lo]) {
            1nat
        } else {
            0nat
        }) + live_in_range(sts, lo + 1, hi)
    }
}

/// Number of live tasks among the `n` slots.
pub open spec fn live_count(sts: Seq<TaskStatus>, n: int) -> nat {
    live_in_range(sts, 0, n)
}

/// Number of offsets `o` in `(a, n]` whose slot `(k + o) % n` holds a live
/// task.
pub open spec fn live_off_count(sts: Seq<TaskStatus>, k: int, n: int, a: int) -> nat
    decreases n - a,
        when a <= n
{
    if a >= n {
        0
    } else {
        (if task_live(sts[slot(k, n, a + 1)]) {
            1nat
        } else {
            0nat
        }) + live_off_count(sts, k, n, a + 1)
    }
}

/// Slots stay within `[0, n)`.
proof fn lemma_slot_bound(k: int, n: int, o: int)
    requires
        0 <= k < n,
        0 <= o,
    ensures
        0 <= slot(k, n, o) < n,
{
    vstd::arithmetic::div_mod::lemma_mod_bound(k + o, n);
}

/// Stepping `a` then `b` slots forward is stepping `a + b` slots forward.
proof fn lemma_slot_add(k: int, n: int, a: int, b: int)
    requires
        0 <= k < n,
        0 <= a,
        0 <= b,
    ensures
        slot(slot(k, n, a), n, b) == slot(k, n, a + b),
{
    vstd::arithmetic::div_mod::lemma_add_mod_noop_right(b, k + a, n);
    assert((b + (k + a) % n) % n == ((k + a) % n + b) % n);
    assert((b + (k + a)) % n == (k + a + b) % n);
}

/// A full round of `n` offsets comes back to the slot itself.
proof fn lemma_slot_full(k: int, n: int)
    requires
        0 <= k < n,
    ensures
        slot(k, n, n) == k,
        slot(k, n, 0) == k,
{
    vstd::arithmetic::div_mod::lemma_mod_multiples_vanish(1, k, n);
    vstd::arithmetic::div_mod::lemma_small_mod(k as nat, n as nat);
    assert(n * 1 + k == k + n);
}

/// A live slot at offset `o` past `a` makes the offset count past `a`
/// positive.
proof fn lemma_live_off_count_pos(sts: Seq<TaskStatus>, k: int, n: int, a: int, o: int)
    requires
        0 <= a < o <= n,
        task_live(sts[slot(k, n, o)]),
    ensures
        live_off_count(sts, k, n, a) >= 1,
    decreases o - a,
{
    if a + 1 < o {
        lemma_live_off_count_pos(sts, k, n, a + 1, o);
    }
}

/// Stepping from offset `a` to the next live offset `b` (nothing live in
/// between) takes exactly one off the count.
proof fn lemma_live_off_count_step(sts: Seq<TaskStatus>, k: int, n: int, a: int, b: int)
    requires
        0 <= a < b <= n,
        task_live(sts[slot(k, n, b)]),
        forall|t: int| a < t < b ==> !task_live(sts[#[trigger] slot(k, n, t)]),
    ensures
        live_off_count(sts, k, n, a) == 1 + live_off_count(sts, k, n, b),
    decreases b - a,
{
    if a + 1 == b {
    } else {
        lemma_live_off_count_step(sts, k, n, a + 1, b);
    }
}

/// One yield keeps the state well-formed: the new current index is in range
/// and again the only `Running` task, and which tasks are live does not
/// change.
pub proof fn lemma_yield_step_wf(s: SchedState)
    requires
        sched_wf(s),
    ensures
        sched_wf(yield_step(s)),
        yield_step(s).n == s.n,
        yield_step(s).statuses.len() == s.statuses.len(),
        forall|i: int|
            0 <= i < s.statuses.len() ==> task_live(#[trigger] yield_step(s).statuses[i])
                == task_live(s.statuses[i]),
{
    let k = s.current;
    let n = s.n;
    let marked = s.statuses.update(k, TaskStatus::Ready);
    lemma_slot_full(k, n);
    lemma_scan_finds_some(marked, k, n, 1, n);
    lemma_scan_props(marked, k, n, 1);
    let o = scan_ready(marked, k, n, 1)->0;
    lemma_slot_bound(k, n, o);
}

/// Any number of yields keeps the state well-formed: the current index
/// stays below the number of applications and exactly one task is `Running`
/// at every observable point.
pub proof fn lemma_yields_wf(s: SchedState, m: nat)
    requires
        sched_wf(s),
    ensures
        sched_wf(after_yields(s, m)),
        after_yields(s, m).n == s.n,
    decreases m,
{
    if m > 0 {
        lemma_yields_wf(s, (m - 1) as nat);
        lemma_yield_step_wf(after_yields(s, (m - 1) as nat));
    }
}

/// The scheduler state after walking `off` live offsets away from the
/// starting state: the old current task is `Ready` again and the task `off`
/// slots around the ring is the `Running` one.
spec fn walk_state(s: SchedState, off: int) -> SchedState {
    SchedState {
        statuses: s.statuses.update(s.current, TaskStatus::Ready).update(
            slot(s.current, s.n, off),
            TaskStatus::Running,
        ),
        current: slot(s.current, s.n, off),
        n: s.n,
    }
}

/// From a walk state at offset `off`, the remaining live offsets up to `n`
/// are exactly the yields needed to come back to the start.
proof fn lemma_rr_walk(s: SchedState, t: nat, off: int)
    requires
        sched_wf(s),
        0 <= off <= s.n,
        off > 0 ==> task_live(s.statuses[slot(s.current, s.n, off)]),
        after_yields(s, t) == walk_state(s, off),
    ensures
        after_yields(s, t + live_off_count(s.statuses, s.current, s.n, off)) == walk_state(
            s,
            s.n,
        ),
    decreases live_off_count(s.statuses, s.current, s.n, off),
{
    let k = s.current;
    let n = s.n;
    let sts = s.statuses;
    let cnt = live_off_count(sts, k, n, off);
    lemma_slot_full(k, n);
    if cnt == 0 {
        if off < n {
            lemma_live_off_count_pos(sts, k, n, off, n);
            assert(false);
        }
        assert(after_yields(s, t + cnt) == walk_state(s, n));
    } else {
        if off == n {
            assert(live_off_count(sts, k, n, n) == 0);
            assert(false);
        }
        let cur = slot(k, n, off);
        lemma_slot_bound(k, n, off);
        let st = walk_state(s, off);
        let marked = st.statuses.update(cur, TaskStatus::Ready);
        // In the marked state, a slot is `Ready` exactly when it is live in
        // the starting state.
        assert forall|i: int| 0 <= i < n implies (marked[i] is Ready) == task_live(
            sts[i],
        ) by {
            if i != k && i != cur {
                assert(marked[i] == sts[i]);
                assert(!(sts[i] is Running));
            }
        }
        // The scan from the walking current task finds the next live offset.
        assert(marked[slot(cur, n, n)] is Ready) by {
            lemma_slot_full(cur, n);
            assert(task_live(sts[k]));
        }
        lemma_scan_finds_some(marked, cur, n, 1, n);
        lemma_scan_props(marked, cur, n, 1);
        let d = scan_ready(marked, cur, n, 1)->0;
        lemma_slot_bound(cur, n, d);
        assert forall|o2: int| 0 <= o2 <= n implies slot(cur, n, o2) == slot(
            k,
            n,
            off + o2,
        ) by {
            lemma_slot_add(k, n, off, o2);
        }
        // The scan cannot pass the wrap-around offset, where the old current
        // task sits ready.
        assert(d <= n - off) by {
            if d > n - off {
                assert(marked[slot(cur, n, n - off)] is Ready);
            }
        }
        let off2 = off + d;
        assert(task_live(sts[slot(k, n, off2)]));
        assert(forall|t2: int| off < t2 < off2 ==> !task_live(sts[#[trigger] slot(k, n, t2)]))
            by {
            assert forall|t2: int| off < t2 < off2 implies !task_live(
                sts[#[trigger] slot(k, n, t2)],
            ) by {
                let o2 = t2 - off;
                assert(slot(cur, n, o2) == slot(k, n, t2));
                assert(!(marked[slot(cur, n, o2)] is Ready));
                lemma_slot_bound(k, n, t2);
            }
        }
        lemma_live_off_count_step(sts, k, n, off, off2);
        // One yield moves the walk from `off` to `off2`.
        assert(yield_step(st) == walk_state(s, off2)) by {
            let next = slot(cur, n, d);
            assert(next == slot(k, n, off2));
            assert(yield_step(st).statuses =~= marked.update(next, TaskStatus::Running));
            assert(walk_state(s, off2).statuses =~= sts.update(k, TaskStatus::Ready).update(
                next,
                TaskStatus::Running,
            ));
            assert(marked.update(next, TaskStatus::Running) =~= sts.update(
                k,
                TaskStatus::Ready,
            ).update(next, TaskStatus::Running)) by {
                assert forall|i: int| 0 <= i < sts.len() implies marked.update(
                    next,
                    TaskStatus::Running,
                )[i] == sts.update(k, TaskStatus::Ready).update(next, TaskStatus::Running)[i] by {
                    if i == cur && i != k && i != next {
                        assert(task_live(sts[cur]));
                        assert(!(sts[cur] is Running));
                        assert(sts[cur] is Ready);
                    }
                }
            }
        }
        assert(after_yields(s, t + 1) == yield_step(after_yields(s, t)));
        lemma_rr_walk(s, t + 1, off2);
        assert(t + 1 + live_off_count(sts, k, n, off2) == t + cnt);
    }
}

/// Offset counts agree with position counts: walking the `n` offsets
/// `(a, n]` from slot `k` visits each slot of the ring exactly once.
proof fn lemma_off_count_is_live_count(sts: Seq<TaskStatus>, k: int, n: int, a: int)
    requires
        0 <= k < n,
        0 <= a <= n,
    ensures
        n - k <= a ==> live_off_count(sts, k, n, a) == live_in_range(sts, k + a + 1 - n, k + 1),
        a < n - k ==> live_off_count(sts, k, n, a) == live_in_range(sts, k + a + 1, n)
            + live_in_range(sts, 0, k + 1),
    decreases n - a,
{
    if a == n {
        assert(live_in_range(sts, k + 1, k + 1) == 0);
    } else {
        lemma_off_count_is_live_count(sts, k, n, a + 1);
        if n - k <= a {
            assert(slot(k, n, a + 1) == k + a + 1 - n) by (nonlinear_arith)
                requires
                    0 <= k < n && n - k <= a < n,
            ;
        } else if a + 1 == n - k {
            assert(slot(k, n, a + 1) == 0) by (nonlinear_arith)
                requires
                    0 <= k < n && a + 1 == n - k,
            ;
            assert(live_in_range(sts, k + (a + 1) + 1 - n, k + 1) == live_in_range(
                sts,
                1,
                k + 1,
            ));
            assert(live_in_range(sts, k + a + 1, n) == 0);
        } else {
            assert(slot(k, n, a + 1) == k + a + 1) by (nonlinear_arith)
                requires
                    0 <= k < n && 0 <= a && a + 1 < n - k,
            ;
        }
    }
}

/// Splitting a position count at `mid`.
proof fn lemma_live_in_range_split(sts: Seq<TaskStatus>, lo: int, mid: int, hi: int)
    requires
        lo <= mid <= hi,
    ensures
        live_in_range(sts, lo, hi) == live_in_range(sts, lo, mid) + live_in_range(sts, mid, hi),
    decreases mid - lo,
{
    if lo < mid {
        lemma_live_in_range_split(sts, lo + 1, mid, hi);
    }
}

/// Round-robin fairness: from a well-formed state with `N` live tasks,
/// `N` yields lead back to exactly the starting state — the task that
/// yielded first is current again and every status is as before.
pub proof fn lemma_round_robin(s: SchedState)
    requires
        sched_wf(s),
    ensures
        after_yields(s, live_count(s.statuses, s.n)) == s,
{
    let k = s.current;
    let n = s.n;
    let sts = s.statuses;
    lemma_slot_full(k, n);
    assert(after_yields(s, 0) == s);
    assert(walk_state(s, 0) == s) by {
        assert(walk_state(s, 0).statuses =~= sts);
        assert(walk_state(s, 0) =~= s);
    }
    lemma_rr_walk(s, 0, 0);
    assert(live_off_count(sts, k, n, 0) == live_count(sts, n)) by {
        lemma_off_count_is_live_count(sts, k, n, 0);
        if 0 < n - k {
            lemma_live_in_range_split(sts, 0, k + 1, n);
        } else {
            // k == n - 1 and the wrapped regime covers the whole ring.
            assert(live_off_count(sts, k, n, 0) == live_in_range(sts, k + 1 - n, k + 1));
            assert(k + 1 - n == 0 && k + 1 == n);
        }
    }
    assert(walk_state(s, n) == s) by {
        assert(walk_state(s, n).statuses =~= sts);
        assert(walk_state(s, n) =~= s);
    }
}

} // verus!
