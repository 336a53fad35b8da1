use vstd::prelude::*;

use crate::model::{clock_max, on_clock, TimerModel};
use crate::state::TimerState;

verus! {

/// Configuring an idle timer with a length `d` and starting it runs the timer
/// exactly when `d` is not zero; with a zero length it stays idle.
pub proof fn lemma_start_runs_iff_positive(m: TimerModel, d: int)
    requires
        m.wf(),
        m.state == TimerState::Inactive,
        on_clock(d),
    ensures
        (m.with_preset(d).started().state == TimerState::Working) <==> d > 0,
        d == 0 ==> m.with_preset(d).started().state == TimerState::Inactive,
{
}

/// While running, an update to a clock reading no earlier than the last one
/// never increases the time left.
pub proof fn lemma_running_remaining_non_increasing(m: TimerModel, now: int)
    requires
        m.wf(),
        m.state == TimerState::Working,
        on_clock(now),
        now >= m.current,
    ensures
        m.updated(now).remaining() <= m.remaining(),
{
}

/// While paused, successive updates on a clock that does not go back leave
/// the time left unchanged, as long as the target stays within the clock's
/// range.
pub proof fn lemma_paused_remaining_unchanged(m: TimerModel, t1: int, t2: int)
    requires
        m.wf(),
        on_clock(t1),
        on_clock(t2),
        t2 >= t1,
        m.updated(t1).state == TimerState::Paused,
        m.updated(t1).target + (t2 - t1) <= clock_max(),
    ensures
        m.updated(t1).updated(t2).state == TimerState::Paused,
        m.updated(t1).updated(t2).remaining() == m.updated(t1).remaining(),
{
}

/// Time spent paused does not count against the countdown.
///
/// An idle timer at instant `c` is given length `d` and started; it is
/// updated `lag` after `c`, paused `t1` later, updated `t2` after the pause,
/// resumed, and updated `t3` after that. What is left is `d` less the time it
/// ran, `lag + t1 + t3`; the paused `t2` is not counted.
pub proof fn lemma_pause_excluded(m: TimerModel, d: int, lag: int, t1: int, t2: int, t3: int)
    requires
        m.wf(),
        m.state == TimerState::Inactive,
        lag >= 0,
        t1 >= 0,
        t2 >= 0,
        t3 >= 0,
        lag + t1 + t3 < d,
        m.current + d + t2 <= clock_max(),
    ensures
        ({
            let c = m.current;
            let r = m.with_preset(d).started().updated(c + lag).paused(c + lag + t1).updated(
                c + lag + t1 + t2,
            ).started().updated(c + lag + t1 + t2 + t3);
            &&& r.state == TimerState::Working
            &&& r.remaining() == d - lag - t1 - t3
        }),
{
}

/// A running timer whose target is reached finishes at the next update, with
/// nothing left; later updates on a clock that does not go back keep it
/// finished with nothing left. Before the target it keeps running.
pub proof fn lemma_completion(m: TimerModel, t1: int, t2: int)
    requires
        m.wf(),
        m.state == TimerState::Working,
        on_clock(t1),
        on_clock(t2),
        t2 >= t1,
    ensures
        t1 >= m.target ==> m.updated(t1).state == TimerState::Finished,
        t1 >= m.target ==> m.updated(t1).remaining() == 0,
        t1 >= m.target ==> m.updated(t1).updated(t2).state == TimerState::Finished,
        t1 >= m.target ==> m.updated(t1).updated(t2).remaining() == 0,
        t1 < m.target ==> m.updated(t1).state == TimerState::Working,
{
}

/// Resetting a finished timer makes it idle; an update then rearms its target
/// from the new current instant and leaves it idle.
pub proof fn lemma_reset_from_finished(m: TimerModel, now: int)
    requires
        m.wf(),
        m.state == TimerState::Finished,
        on_clock(now),
    ensures
        m.reset().state == TimerState::Inactive,
        m.reset().updated(now).state == TimerState::Inactive,
        m.reset().updated(now).current == now,
        now + m.preset <= clock_max() ==> m.reset().updated(now).target == now + m.preset,
        now + m.preset > clock_max() ==> m.reset().updated(now).target == now,
{
}

/// Pausing twice is pausing once: the second pause changes nothing.
pub proof fn lemma_pause_idempotent(m: TimerModel, t1: int, t2: int)
    requires
        m.wf(),
    ensures
        m.paused(t1).paused(t2) == m.paused(t1),
{
}

/// A finished timer ignores a new length: nothing about it changes, the time
/// left included.
pub proof fn lemma_finished_keeps_preset(m: TimerModel, d: int)
    requires
        m.wf(),
        m.state == TimerState::Finished,
    ensures
        m.with_preset(d) == m,
        m.with_preset(d).preset == m.preset,
        m.with_preset(d).remaining() == m.remaining(),
{
}

/// An update to a clock reading keeps the invariant and records the reading.
pub proof fn lemma_update_keeps_wf(m: TimerModel, now: int)
    requires
        m.wf(),
        on_clock(now),
    ensures
        m.updated(now).wf(),
        m.updated(now).current == now,
{
}

/// After updates at each reading of a non-empty `ts`, the invariant holds and
/// the current instant is the last reading.
pub proof fn lemma_updated_through_wf(m: TimerModel, ts: Seq<int>)
    requires
        m.wf(),
        forall|j: int| 0 <= j < ts.len() ==> on_clock(#[trigger] ts[j]),
    ensures
        m.updated_through(ts).wf(),
        ts.len() > 0 ==> m.updated_through(ts).current == ts.last(),
    decreases ts.len(),
{
    if ts.len() > 0 {
        let front = ts.drop_last();
        assert forall|j: int| 0 <= j < front.len() implies on_clock(#[trigger] front[j]) by {
            assert(front[j] == ts[j]);
        }
        lemma_updated_through_wf(m, front);
        lemma_update_keeps_wf(m.updated_through(front), ts.last());
    }
}

/// Over any run of updates on a clock that does not go back, the update at
/// `ts[i]` of a running timer leaves no more time than before, and the update
/// of a timer that an earlier update found paused leaves exactly the same
/// time, as long as its target stays within the clock's range.
pub proof fn lemma_updates_monotone(m: TimerModel, ts: Seq<int>, i: int)
    requires
        m.wf(),
        0 <= i < ts.len(),
        forall|j: int| 0 <= j < ts.len() ==> on_clock(#[trigger] ts[j]),
        forall|j: int, k: int| 0 <= j <= k < ts.len() ==> ts[j] <= ts[k],
        m.current <= ts[0],
    ensures
        ({
            let before = m.updated_through(ts.take(i));
            let after = m.updated_through(ts.take(i + 1));
            &&& before.state == TimerState::Working ==> after.remaining() <= before.remaining()
            &&& (i > 0 && before.state == TimerState::Paused && before.target + (ts[i] - ts[i - 1])
                <= clock_max()) ==> after.remaining() == before.remaining()
        }),
{
    let before = m.updated_through(ts.take(i));
    assert(ts.take(i + 1).drop_last() =~= ts.take(i));
    assert(ts.take(i + 1).last() == ts[i]);
    assert(m.updated_through(ts.take(i + 1)) == before.updated(ts[i]));
    lemma_updated_through_wf(m, ts.take(i));
    if i > 0 {
        assert(ts.take(i).last() == ts[i - 1]);
        assert(before.current == ts[i - 1]);
    }
    if before.state == TimerState::Working {
        lemma_running_remaining_non_increasing(before, ts[i]);
    }
    if i > 0 && before.state == TimerState::Paused && before.target + (ts[i] - ts[i - 1])
        <= clock_max() {
        let earlier = m.updated_through(ts.take(i - 1));
        assert(ts.take(i).drop_last() =~= ts.take(i - 1));
        assert(before == earlier.updated(ts[i - 1]));
        lemma_updated_through_wf(m, ts.take(i - 1));
        lemma_paused_remaining_unchanged(earlier, ts[i - 1], ts[i]);
    }
}

} // verus!
