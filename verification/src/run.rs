//! The full synchronous run: the coordinator drives its agents round by
//! round and reports an ordered trace of every completed round. The trace
//! is the mathematical anchor of the run's contract: each agent's final
//! score is proved equal to the sum of its awarded amounts over the trace.

use vstd::prelude::*;
use crate::agent::Agent;
use crate::coordinator::Coordinator;
use crate::coordinator::Phase;
use crate::payoff::Action;
use crate::payoff::PayoffKind;
use crate::payoff::PayoffTable;
use crate::payoff::spec_resolve;
use crate::strategy::Strategy;

verus! {

/// One completed round, as reported in the run trace: the round's sequence
/// number, both actions, and both resolved payoffs.
#[derive(Clone, Copy, PartialEq, Eq, Structural, Debug)]
pub struct RoundRecord {
    pub sequence: u32,
    pub red_action: Action,
    pub blue_action: Action,
    pub red_kind: PayoffKind,
    pub red_amount: u64,
    pub blue_kind: PayoffKind,
    pub blue_amount: u64,
}

/// The sum of the red agent's awarded amounts over a trace.
pub open spec fn red_total(trace: Seq<RoundRecord>) -> int
    decreases trace.len(),
{
    if trace.len() == 0 {
        0
    } else {
        red_total(trace.drop_last()) + trace.last().red_amount
    }
}

/// The sum of the blue agent's awarded amounts over a trace.
pub open spec fn blue_total(trace: Seq<RoundRecord>) -> int
    decreases trace.len(),
{
    if trace.len() == 0 {
        0
    } else {
        blue_total(trace.drop_last()) + trace.last().blue_amount
    }
}

/// What the i-th record of a well-formed run trace says: the rounds are
/// numbered 0, 1, 2, ... in order; the payoff kinds are resolved from the
/// two actions in (red, blue) order; the amounts are the table's rewards
/// for those kinds; and an agent playing a Fixed strategy played its
/// committed action.
pub open spec fn wf_record(
    rec: RoundRecord,
    i: int,
    table: PayoffTable,
    red_strategy: Strategy,
    blue_strategy: Strategy,
) -> bool {
    &&& rec.sequence as int == i
    &&& rec.red_kind == spec_resolve(rec.red_action, rec.blue_action).0
    &&& rec.blue_kind == spec_resolve(rec.red_action, rec.blue_action).1
    &&& rec.red_amount == table.spec_lookup(rec.red_kind)
    &&& rec.blue_amount == table.spec_lookup(rec.blue_kind)
    &&& (red_strategy matches Strategy::Fixed(a) ==> rec.red_action == a)
    &&& (blue_strategy matches Strategy::Fixed(a) ==> rec.blue_action == a)
}

/// A well-formed run trace over `table` with the two given strategies:
/// every record is well formed at its index.
pub open spec fn wf_trace(
    trace: Seq<RoundRecord>,
    table: PayoffTable,
    red_strategy: Strategy,
    blue_strategy: Strategy,
) -> bool {
    forall|i: int| 0 <= i < trace.len() ==> wf_record(#[trigger] trace[i], i, table, red_strategy, blue_strategy)
}

/// A prefix of a well-formed trace is well formed.
proof fn lemma_wf_trace_drop_last(
    trace: Seq<RoundRecord>,
    table: PayoffTable,
    red_strategy: Strategy,
    blue_strategy: Strategy,
)
    requires
        trace.len() > 0,
        wf_trace(trace, table, red_strategy, blue_strategy),
    ensures
        wf_trace(trace.drop_last(), table, red_strategy, blue_strategy),
{
    assert forall|i: int| 0 <= i < trace.drop_last().len() implies wf_record(
        #[trigger] trace.drop_last()[i],
        i,
        table,
        red_strategy,
        blue_strategy,
    ) by {
        assert(trace.drop_last()[i] == trace[i]);
    }
}

/// Over a valid table, the totals of a well-formed trace are non-negative
/// and no larger than one temptation reward per round.
pub proof fn lemma_totals_bounded(
    trace: Seq<RoundRecord>,
    table: PayoffTable,
    red_strategy: Strategy,
    blue_strategy: Strategy,
)
    requires
        table.is_valid(),
        wf_trace(trace, table, red_strategy, blue_strategy),
    ensures
        0 <= red_total(trace) <= trace.len() * table.temptation,
        0 <= blue_total(trace) <= trace.len() * table.temptation,
    decreases trace.len(),
{
    if trace.len() > 0 {
        lemma_wf_trace_drop_last(trace, table, red_strategy, blue_strategy);
        lemma_totals_bounded(trace.drop_last(), table, red_strategy, blue_strategy);
        table.lemma_lookup_bounded(trace.last().red_kind);
        table.lemma_lookup_bounded(trace.last().blue_kind);
        assert((trace.len() - 1) * table.temptation + table.temptation == trace.len() * table.temptation)
            by (nonlinear_arith);
    }
}

/// Taking one more round adds exactly that round's amounts to the totals.
pub proof fn lemma_total_take_succ(trace: Seq<RoundRecord>, k: int)
    requires
        0 <= k < trace.len(),
    ensures
        red_total(trace.take(k + 1)) == red_total(trace.take(k)) + trace[k].red_amount,
        blue_total(trace.take(k + 1)) == blue_total(trace.take(k)) + trace[k].blue_amount,
{
    assert(trace.take(k + 1).drop_last() =~= trace.take(k));
    assert(trace.take(k + 1).last() == trace[k]);
}

/// Score monotonicity: the running totals over a trace are non-decreasing
/// from round to round — an agent's cumulative score never shrinks.
pub proof fn lemma_score_monotonic(trace: Seq<RoundRecord>, i: int, j: int)
    requires
        0 <= i <= j <= trace.len(),
    ensures
        red_total(trace.take(i)) <= red_total(trace.take(j)),
        blue_total(trace.take(i)) <= blue_total(trace.take(j)),
    decreases j - i,
{
    if i < j {
        lemma_score_monotonic(trace, i, j - 1);
        lemma_total_take_succ(trace, j - 1);
    }
}

/// With two Fixed strategies every round resolves to the same outcome pair,
/// and each agent's total is the round count times its fixed per-round
/// reward: mutual cooperators earn Reward every round, mutual defectors
/// Punishment, and in the asymmetric game each round repeats identically
/// with no alternation.
pub proof fn lemma_fixed_run_totals(
    trace: Seq<RoundRecord>,
    table: PayoffTable,
    red_commit: Action,
    blue_commit: Action,
)
    requires
        wf_trace(trace, table, Strategy::Fixed(red_commit), Strategy::Fixed(blue_commit)),
    ensures
        forall|i: int| 0 <= i < trace.len() ==> (#[trigger] trace[i]).red_kind
            == spec_resolve(red_commit, blue_commit).0,
        forall|i: int| 0 <= i < trace.len() ==> (#[trigger] trace[i]).blue_kind
            == spec_resolve(red_commit, blue_commit).1,
        red_total(trace) == trace.len() * table.spec_lookup(spec_resolve(red_commit, blue_commit).0),
        blue_total(trace) == trace.len() * table.spec_lookup(spec_resolve(red_commit, blue_commit).1),
    decreases trace.len(),
{
    if trace.len() > 0 {
        lemma_wf_trace_drop_last(
            trace,
            table,
            Strategy::Fixed(red_commit),
            Strategy::Fixed(blue_commit),
        );
        lemma_fixed_run_totals(trace.drop_last(), table, red_commit, blue_commit);
        let rv = table.spec_lookup(spec_resolve(red_commit, blue_commit).0);
        let bv = table.spec_lookup(spec_resolve(red_commit, blue_commit).1);
        assert((trace.len() - 1) * rv + rv == trace.len() * rv) by (nonlinear_arith);
        assert((trace.len() - 1) * bv + bv == trace.len() * bv) by (nonlinear_arith);
    }
}

impl Coordinator {
    /// Drive a full run to completion, synchronously: each round, both
    /// invitations are built from the previous round's payoffs, both agents
    /// respond, and only then are payoffs resolved and the round advanced —
    /// the round barrier is the shape of this loop. After the last round
    /// each agent is handed its final feedback, so the final scores cover
    /// every completed round. Returns the ordered trace of all rounds.
    ///
    /// In-process agents always answer, so this driver cannot observe a
    /// communication fault; a driver that dispatches over a channel uses
    /// `invitations`, `complete_round` and `fault` directly.
    pub fn run(&mut self, red: &mut Agent, blue: &mut Agent) -> (trace: Vec<RoundRecord>)
        requires
            old(self).wf(),
            old(self).phase == Phase::Idle,
            old(red).spec_score() == 0,
            old(blue).spec_score() == 0,
            old(self).iteration_count * old(self).table.temptation <= u64::MAX,
        ensures
            final(self).wf(),
            final(self).phase == Phase::Completed,
            final(self).iteration_count == old(self).iteration_count,
            final(self).table == old(self).table,
            trace@.len() == old(self).iteration_count,
            wf_trace(trace@, old(self).table, old(red).spec_strategy(), old(blue).spec_strategy()),
            final(red).spec_score() == red_total(trace@),
            final(blue).spec_score() == blue_total(trace@),
            final(red).spec_strategy() == old(red).spec_strategy(),
            final(blue).spec_strategy() == old(blue).spec_strategy(),
            final(red).spec_identity() == old(red).spec_identity(),
            final(blue).spec_identity() == old(blue).spec_identity(),
    {
        let ghost red_strategy = red.spec_strategy();
        let ghost blue_strategy = blue.spec_strategy();
        let mut trace: Vec<RoundRecord> = Vec::new();
        while self.current_sequence < self.iteration_count
            invariant
                self.wf(),
                self.iteration_count == old(self).iteration_count,
                self.table == old(self).table,
                self.iteration_count * self.table.temptation <= u64::MAX,
                trace@.len() == self.current_sequence,
                wf_trace(trace@, self.table, red_strategy, blue_strategy),
                red.spec_score() + self.red_feedback.amount == red_total(trace@),
                blue.spec_score() + self.blue_feedback.amount == blue_total(trace@),
                red.spec_strategy() == red_strategy,
                blue.spec_strategy() == blue_strategy,
                red.spec_identity() == old(red).spec_identity(),
                blue.spec_identity() == old(blue).spec_identity(),
            decreases self.iteration_count - self.current_sequence,
        {
            proof {
                lemma_totals_bounded(trace@, self.table, red_strategy, blue_strategy);
                assert(trace@.len() * self.table.temptation
                    <= self.iteration_count * self.table.temptation) by (nonlinear_arith)
                    requires
                        trace@.len() <= self.iteration_count,
                        self.table.temptation >= 0,
                ;
            }
            let invs = self.invitations();
            let red_action = red.respond(invs.0.sequence, invs.0.feedback);
            let blue_action = blue.respond(invs.1.sequence, invs.1.feedback);
            let round_sequence = self.current_sequence;
            self.complete_round(red_action, blue_action);
            let rec = RoundRecord {
                sequence: round_sequence,
                red_action,
                blue_action,
                red_kind: self.red_feedback.payoff_kind,
                red_amount: self.red_feedback.amount,
                blue_kind: self.blue_feedback.payoff_kind,
                blue_amount: self.blue_feedback.amount,
            };
            let ghost trace_pre = trace@;
            trace.push(rec);
            proof {
                assert(trace@.drop_last() =~= trace_pre);
                assert forall|i: int| 0 <= i < trace@.len() implies wf_record(
                    #[trigger] trace@[i],
                    i,
                    self.table,
                    red_strategy,
                    blue_strategy,
                ) by {
                    if i < trace_pre.len() {
                        assert(trace@[i] == trace_pre[i]);
                        assert(wf_record(trace_pre[i], i, self.table, red_strategy, blue_strategy));
                    } else {
                        assert(trace@[i] == rec);
                    }
                }
            }
        }
        proof {
            lemma_totals_bounded(trace@, self.table, red_strategy, blue_strategy);
            assert(trace@.len() * self.table.temptation
                <= self.iteration_count * self.table.temptation) by (nonlinear_arith)
                requires
                    trace@.len() <= self.iteration_count,
                    self.table.temptation >= 0,
            ;
        }
        red.receive(self.red_feedback);
        blue.receive(self.blue_feedback);
        trace
    }
}

} // verus!
