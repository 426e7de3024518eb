//! What holds of the driver across several operations.

use vstd::prelude::*;
use crate::display::{Modes, FLAG_BLINK, FLAG_CURSOR, FLAG_AUTOSCROLL, FLAG_LEFT_TO_RIGHT};
use crate::protocol::Effect;
use crate::transaction::{Action, Outcome, Progress, Run, TransportFailure};

verus! {

/// The display-control flags accumulate: once the cursor is shown and then
/// set to blink, the instruction sent is `0x0B`, whatever the flags were
/// before; hiding the cursor afterwards leaves the blink flag, so the
/// instruction sent is `0x09`.
pub proof fn law_cursor_flags_accumulate(m: Modes)
    requires
        m.wf(),
    ensures
        m.switch_display(FLAG_CURSOR, true).switch_display(FLAG_BLINK, true).display_command()
            == 0x0B,
        m.switch_display(FLAG_CURSOR, true).switch_display(FLAG_BLINK, true).switch_display(
            FLAG_CURSOR,
            false,
        ).display_command() == 0x09,
{
    let b = m.display_control;
    assert(b <= 3 ==> 0x08u8 | ((b | 0x02) | 0x01) == 0x0B) by (bit_vector);
    assert(b <= 3 ==> 0x08u8 | (((b | 0x02) | 0x01) & !0x02u8) == 0x09) by (bit_vector);
}

/// Switching a flag sets exactly that flag and leaves the other flag of the
/// same byte, and the other byte, as they were.
pub proof fn law_flags_are_independent(m: Modes, on: bool)
    requires
        m.wf(),
    ensures
        m.switch_display(FLAG_CURSOR, on).cursor_visible() == on,
        m.switch_display(FLAG_CURSOR, on).cursor_blinks() == m.cursor_blinks(),
        m.switch_display(FLAG_BLINK, on).cursor_blinks() == on,
        m.switch_display(FLAG_BLINK, on).cursor_visible() == m.cursor_visible(),
        m.switch_entry(FLAG_LEFT_TO_RIGHT, on).left_to_right() == on,
        m.switch_entry(FLAG_LEFT_TO_RIGHT, on).autoscroll() == m.autoscroll(),
        m.switch_entry(FLAG_AUTOSCROLL, on).autoscroll() == on,
        m.switch_entry(FLAG_AUTOSCROLL, on).left_to_right() == m.left_to_right(),
        m.switch_display(FLAG_CURSOR, on).wf(),
        m.switch_display(FLAG_BLINK, on).wf(),
        m.switch_entry(FLAG_LEFT_TO_RIGHT, on).wf(),
        m.switch_entry(FLAG_AUTOSCROLL, on).wf(),
{
    let d = m.display_control;
    let e = m.entry_display_mode;
    assert(((d | 0x02) & 0x02 != 0) && ((d & !0x02u8) & 0x02 == 0)) by (bit_vector);
    assert(((d | 0x02) & 0x01 == d & 0x01) && ((d & !0x02u8) & 0x01 == d & 0x01)) by (bit_vector);
    assert(((d | 0x01) & 0x01 != 0) && ((d & !0x01u8) & 0x01 == 0)) by (bit_vector);
    assert(((d | 0x01) & 0x02 == d & 0x02) && ((d & !0x01u8) & 0x02 == d & 0x02)) by (bit_vector);
    assert(((e | 0x02) & 0x02 != 0) && ((e & !0x02u8) & 0x02 == 0)) by (bit_vector);
    assert(((e | 0x02) & 0x01 == e & 0x01) && ((e & !0x02u8) & 0x01 == e & 0x01)) by (bit_vector);
    assert(((e | 0x01) & 0x01 != 0) && ((e & !0x01u8) & 0x01 == 0)) by (bit_vector);
    assert(((e | 0x01) & 0x02 == e & 0x02) && ((e & !0x01u8) & 0x02 == e & 0x02)) by (bit_vector);
    crate::display::lemma_flag_stays_in_range(d, FLAG_CURSOR, on);
    crate::display::lemma_flag_stays_in_range(d, FLAG_BLINK, on);
    crate::display::lemma_flag_stays_in_range(e, FLAG_LEFT_TO_RIGHT, on);
    crate::display::lemma_flag_stays_in_range(e, FLAG_AUTOSCROLL, on);
}

/// The effects handed out are the plan's, one at a time and in order: the
/// effect to perform is the last one handed out, and a report hands out at
/// most the one effect that follows it, and only when it says `Completed`.
pub proof fn law_effects_are_handed_out_in_order(r: Run, outcome: Outcome)
    requires
        r.wf(),
    ensures
        r.attempted().is_prefix_of(r.plan),
        r.completed().is_prefix_of(r.attempted()),
        r.action() is Perform ==> r.action() == Action::Perform(r.attempted().last()),
        r.advance(outcome).attempted() == r.attempted() || (outcome == Outcome::Completed
            && r.advance(outcome).action() is Perform && r.advance(outcome).attempted()
            == r.attempted().push(r.plan[r.position as int + 1])),
        outcome == Outcome::Failed ==> r.advance(outcome).attempted() == r.attempted(),
        outcome == Outcome::Failed ==> !(r.advance(outcome).action() is Perform),
{
    let next = r.advance(outcome);
    if r.progress() == Progress::Awaiting && outcome == Outcome::Completed && r.position + 1
        < r.plan.len() {
        assert(next.attempted() =~= r.attempted().push(r.plan[r.position as int + 1]));
    } else {
        assert(next.attempted() =~= r.attempted());
    }
}

/// Reporting outcomes keeps a transaction well formed and never changes its plan.
pub proof fn law_run_keeps_plan(r: Run, outcomes: Seq<Outcome>)
    requires
        r.wf(),
    ensures
        r.run(outcomes).wf(),
        r.run(outcomes).plan == r.plan,
        r.run(outcomes).position >= r.position,
    decreases outcomes.len(),
{
    if outcomes.len() > 0 {
        law_run_keeps_plan(r.advance(outcomes[0]), outcomes.drop_first());
    }
}

/// An aborted transaction stays as it is: whatever is reported afterwards,
/// no further effect is handed out and the failed step is still named.
pub proof fn law_abort_is_final(r: Run, outcomes: Seq<Outcome>)
    requires
        r.wf(),
        r.failed,
    ensures
        r.run(outcomes) == r,
        r.action() == (Action::Abort { step: r.position as usize }),
    decreases outcomes.len(),
{
    if outcomes.len() > 0 {
        law_abort_is_final(r, outcomes.drop_first());
    }
}

/// A failure stops the rest. If the first `k` effects of a plan complete and
/// the effect at index `k` fails, then, whatever is reported afterwards, the
/// effects handed out are exactly the first `k + 1` of the plan, the effects
/// after them are never attempted, and the result names step `k`.
pub proof fn law_failure_stops_the_rest(plan: Seq<Effect>, outcomes: Seq<Outcome>, k: nat)
    requires
        k < plan.len(),
        k < outcomes.len(),
        k <= usize::MAX,
        forall|i: int| 0 <= i < k ==> outcomes[i] == Outcome::Completed,
        outcomes[k as int] == Outcome::Failed,
    ensures
        Run::begin(plan).run(outcomes) == (Run { plan, position: k, failed: true }),
        Run::begin(plan).run(outcomes).progress() == Progress::Aborted,
        Run::begin(plan).run(outcomes).attempted() == plan.take(k as int + 1),
        Run::begin(plan).run(outcomes).completed() == plan.take(k as int),
        Run::begin(plan).run(outcomes).result() == Some(
            Err::<(), TransportFailure>(TransportFailure { step: k as usize }),
        ),
        Run::begin(plan).run(outcomes).action() == (Action::Abort { step: k as usize }),
{
    lemma_failure_from(Run::begin(plan), outcomes, k);
}

/// If every effect of a plan completes, the transaction finishes, and all
/// of the plan, in order, is what was handed out.
pub proof fn law_success_performs_all(plan: Seq<Effect>, outcomes: Seq<Outcome>)
    requires
        outcomes.len() >= plan.len(),
        forall|i: int| 0 <= i < plan.len() ==> outcomes[i] == Outcome::Completed,
    ensures
        Run::begin(plan).run(outcomes) == (Run { plan, position: plan.len(), failed: false }),
        Run::begin(plan).run(outcomes).progress() == Progress::Finished,
        Run::begin(plan).run(outcomes).attempted() == plan,
        Run::begin(plan).run(outcomes).result() == Some(Ok::<(), TransportFailure>(())),
{
    lemma_success_from(Run::begin(plan), outcomes);
}

proof fn lemma_failure_from(r: Run, outcomes: Seq<Outcome>, j: nat)
    requires
        r.wf(),
        !r.failed,
        r.position + j < r.plan.len(),
        j < outcomes.len(),
        forall|i: int| 0 <= i < j ==> outcomes[i] == Outcome::Completed,
        outcomes[j as int] == Outcome::Failed,
    ensures
        r.run(outcomes) == (Run { plan: r.plan, position: r.position + j, failed: true }),
    decreases j,
{
    let rest = outcomes.drop_first();
    if j == 0 {
        law_abort_is_final(r.advance(outcomes[0]), rest);
    } else {
        assert forall|i: int| 0 <= i < j - 1 implies rest[i] == Outcome::Completed by {
            assert(rest[i] == outcomes[i + 1]);
        }
        lemma_failure_from(r.advance(outcomes[0]), rest, (j - 1) as nat);
    }
}

proof fn lemma_finished_is_final(r: Run, outcomes: Seq<Outcome>)
    requires
        r.progress() == Progress::Finished,
    ensures
        r.run(outcomes) == r,
    decreases outcomes.len(),
{
    if outcomes.len() > 0 {
        lemma_finished_is_final(r, outcomes.drop_first());
    }
}

proof fn lemma_success_from(r: Run, outcomes: Seq<Outcome>)
    requires
        r.wf(),
        !r.failed,
        r.position + outcomes.len() >= r.plan.len(),
        forall|i: int| 0 <= i < r.plan.len() - r.position ==> outcomes[i] == Outcome::Completed,
    ensures
        r.run(outcomes) == (Run { plan: r.plan, position: r.plan.len(), failed: false }),
    decreases outcomes.len(),
{
    if r.position == r.plan.len() {
        lemma_finished_is_final(r, outcomes);
    } else {
        let rest = outcomes.drop_first();
        let next = r.advance(outcomes[0]);
        assert forall|i: int| 0 <= i < next.plan.len() - next.position implies rest[i]
            == Outcome::Completed by {
            assert(rest[i] == outcomes[i + 1]);
        }
        lemma_success_from(next, rest);
    }
}

} // verus!
