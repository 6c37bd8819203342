//! The goal scheduler: repeatedly evaluate the termination condition and,
//! while it is unmet, run the follow-up action; an action error never stops
//! the loop. The timed wait between ticks and the collaborator calls happen
//! outside; the scheduler here consumes one tick input per round.

use vstd::prelude::*;
use crate::email_agent::{spec_tick_mem, FollowUp, Target, TickInput, TickModel};
use crate::memory::{valid_time, MemModel, ProspectMem};

verus! {

/// How a bounded scheduler run ended: whether the termination condition
/// held when it stopped, and how many ticks it ran.
#[derive(Clone, Copy, PartialEq, Eq, Structural, Debug)]
pub struct GoalRun {
    pub completed: bool,
    pub ticks_run: usize,
}

/// The scheduler over a script of tick inputs: if the condition is met,
/// stop completed; if the script is exhausted, stop uncompleted; otherwise
/// run one tick and continue. Yields the final record, the number of ticks
/// run, and whether the run completed.
pub open spec fn spec_run_goal<T: Target>(target: T, m: MemModel, ts: Seq<TickModel>) -> (
    MemModel,
    int,
    bool,
)
    decreases ts.len(),
{
    if target.met_spec(m) {
        (m, 0, true)
    } else if ts.len() == 0 {
        (m, 0, false)
    } else {
        let rest = spec_run_goal(target, spec_tick_mem(m, ts.first()), ts.drop_first());
        (rest.0, rest.1 + 1, rest.2)
    }
}

/// The record after the first `i` ticks of the script, ignoring the
/// termination condition.
pub open spec fn spec_state_after(m: MemModel, ts: Seq<TickModel>, i: int) -> MemModel
    decreases i,
{
    if i <= 0 || ts.len() == 0 {
        m
    } else {
        spec_state_after(spec_tick_mem(m, ts.first()), ts.drop_first(), i - 1)
    }
}

/// Drive one goal over a script of tick inputs: evaluate the condition
/// before every tick, run the action while it is unmet, and ignore action
/// errors. Stops at the first point where the condition holds, or when the
/// script runs out.
pub fn run_goal<T: Target>(
    action: &FollowUp,
    target: &T,
    mem: &mut ProspectMem,
    ticks: &Vec<TickInput>,
) -> (r: GoalRun)
    requires
        old(mem)@.wf(),
        forall|j: int|
            0 <= j < ticks.deep_view().len() ==> valid_time(
                (#[trigger] ticks.deep_view()[j]).now,
            ),
        old(mem)@.follow_ups + ticks.deep_view().len() <= u8::MAX,
    ensures
        ({
            let run = spec_run_goal(*target, old(mem)@, ticks.deep_view());
            &&& final(mem)@ == run.0
            &&& r.ticks_run as int == run.1
            &&& r.completed == run.2
        }),
        final(mem)@.wf(),
{
    let ghost tms = ticks.deep_view();
    let ghost total = spec_run_goal(*target, old(mem)@, tms);
    proof {
        assert(tms.skip(0) =~= tms);
    }
    let mut i: usize = 0;
    while i < ticks.len()
        invariant
            0 <= i <= ticks@.len(),
            tms == ticks.deep_view(),
            tms.len() == ticks@.len(),
            total == spec_run_goal(*target, old(mem)@, tms),
            mem@.wf(),
            mem@.follow_ups + (tms.len() - i) <= u8::MAX,
            spec_run_goal(*target, mem@, tms.skip(i as int)) == (total.0, total.1 - i, total.2),
            forall|j: int| 0 <= j < tms.len() ==> valid_time((#[trigger] tms[j]).now),
        decreases ticks@.len() - i,
    {
        if target.met(mem) {
            proof {
                assert(spec_run_goal(*target, mem@, tms.skip(i as int)) == (
                    mem@,
                    0int,
                    true,
                ));
            }
            return GoalRun { completed: true, ticks_run: i };
        }
        proof {
            assert(tms[i as int] == ticks@[i as int]@);
            assert(tms.skip(i as int).first() == tms[i as int]);
            assert(tms.skip(i as int).drop_first() =~= tms.skip(i as int + 1));
        }
        let _failed_tick = action.run_tick(mem, &ticks[i]);
        i = i + 1;
    }
    proof {
        assert(tms.skip(i as int) =~= Seq::<TickModel>::empty());
    }
    let done = target.met(mem);
    GoalRun { completed: done, ticks_run: i }
}

/// One tick peeled off the front of the state fold.
proof fn lemma_state_after_step(m: MemModel, ts: Seq<TickModel>, i: int)
    requires
        ts.len() > 0,
        i >= 1,
    ensures
        spec_state_after(m, ts, i) == spec_state_after(
            spec_tick_mem(m, ts.first()),
            ts.drop_first(),
            i - 1,
        ),
{
}

/// Law: the scheduler stops exactly at the first point where its
/// termination condition holds. Every tick it ran started from an unmet
/// state, the record it stops with is the fold of exactly the ticks it ran,
/// it reports completion precisely when the state it stopped in meets the
/// condition, and nothing runs after that point.
pub proof fn lemma_run_goal_stops_at_first_met<T: Target>(
    target: T,
    m: MemModel,
    ts: Seq<TickModel>,
)
    ensures
        ({
            let run = spec_run_goal(target, m, ts);
            &&& 0 <= run.1 <= ts.len()
            &&& run.0 == spec_state_after(m, ts, run.1)
            &&& forall|i: int|
                0 <= i < run.1 ==> !target.met_spec(#[trigger] spec_state_after(m, ts, i))
            &&& run.2 == target.met_spec(run.0)
        }),
    decreases ts.len(),
{
    let run = spec_run_goal(target, m, ts);
    if target.met_spec(m) {
    } else if ts.len() == 0 {
    } else {
        let m1 = spec_tick_mem(m, ts.first());
        let ts1 = ts.drop_first();
        lemma_run_goal_stops_at_first_met(target, m1, ts1);
        let rest = spec_run_goal(target, m1, ts1);
        lemma_state_after_step(m, ts, run.1);
        assert forall|i: int| 0 <= i < run.1 implies !target.met_spec(
            #[trigger] spec_state_after(m, ts, i),
        ) by {
            if i == 0 {
                assert(spec_state_after(m, ts, 0) == m);
            } else {
                lemma_state_after_step(m, ts, i);
                assert(spec_state_after(m1, ts1, i - 1) == spec_state_after(m, ts, i));
            }
        }
    }
}

} // verus!
