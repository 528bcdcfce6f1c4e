//! The round coordinator: a state machine that drives a fixed number of
//! rounds between two agents, red and blue. Each round it hands out one
//! invitation per agent, built from the previous round's payoffs, and only
//! once both actions are in hand does it resolve payoffs and advance — the
//! per-round barrier is the shape of its transitions, not a timing
//! convention.

use vstd::prelude::*;
use crate::payoff::Action;
use crate::payoff::PayoffTable;
use crate::payoff::RoundFeedback;
use crate::payoff::resolve;
use crate::payoff::spec_resolve;

verus! {

/// Which of the two agents a message or an error concerns.
#[derive(Clone, Copy, PartialEq, Eq, Structural, Debug)]
pub enum AgentId {
    Red,
    Blue,
}

/// Why a coordinator could not be constructed. Both causes are detected at
/// construction, before any round runs.
#[derive(Clone, Copy, PartialEq, Eq, Structural, Debug)]
pub enum ConfigurationError {
    /// `iteration_count` was zero: the run would play no round.
    ZeroIterations,
    /// The payoff table violates Temptation > Reward > Punishment > Sucker
    /// or 2·Reward > Temptation + Sucker.
    InvalidPayoffOrdering,
}

/// The one fatal run-time error: an agent produced no action for a
/// dispatched invitation. It aborts the run and names the failing agent and
/// the round at which it failed.
#[derive(Clone, Copy, PartialEq, Eq, Structural, Debug)]
pub enum RunError {
    CommunicationFault { agent: AgentId, sequence: u32 },
}

/// A round-invitation: the round's sequence number and the feedback from
/// the invited agent's own immediately-prior round.
#[derive(Clone, Copy, PartialEq, Eq, Structural, Debug)]
pub struct Invitation {
    pub sequence: u32,
    pub feedback: RoundFeedback,
}

/// Where a run stands.
#[derive(Clone, Copy, PartialEq, Eq, Structural, Debug)]
pub enum Phase {
    /// Constructed; no round completed yet.
    Idle,
    /// At least one round completed, more to come.
    Running,
    /// All `iteration_count` rounds completed. Terminal: the coordinator
    /// never restarts.
    Completed,
}

/// Drives `iteration_count` rounds. Holds the read-only payoff table and,
/// per agent, the feedback computed from that agent's last completed round;
/// it never holds agent-internal state.
#[derive(Debug)]
pub struct Coordinator {
    pub iteration_count: u32,
    pub current_sequence: u32,
    pub table: PayoffTable,
    pub red_feedback: RoundFeedback,
    pub blue_feedback: RoundFeedback,
    pub phase: Phase,
}

impl Coordinator {
    /// Well-formedness, established by `new` and preserved by every
    /// transition: at least one round to play, a valid table, the sequence
    /// number within range, and the phase in step with the sequence number.
    pub open spec fn wf(self) -> bool {
        &&& self.iteration_count > 0
        &&& self.current_sequence <= self.iteration_count
        &&& self.table.is_valid()
        &&& (self.phase == Phase::Completed <==> self.current_sequence == self.iteration_count)
        &&& (self.phase == Phase::Idle ==> self.current_sequence == 0
            && self.red_feedback == RoundFeedback::spec_initial()
            && self.blue_feedback == RoundFeedback::spec_initial())
    }

    /// The invitations the coordinator would hand out for the current
    /// round: red's first, blue's second.
    pub open spec fn spec_invitations(self) -> (Invitation, Invitation) {
        (
            Invitation { sequence: self.current_sequence, feedback: self.red_feedback },
            Invitation { sequence: self.current_sequence, feedback: self.blue_feedback },
        )
    }

    /// The state after one completed round in which red played `red_action`
    /// and blue played `blue_action`: both payoffs resolved in (red, blue)
    /// order, the sequence number advanced, the phase terminal exactly when
    /// the last round is done.
    pub open spec fn spec_complete_round(self, red_action: Action, blue_action: Action) -> Coordinator {
        let kinds = spec_resolve(red_action, blue_action);
        Coordinator {
            current_sequence: (self.current_sequence + 1) as u32,
            red_feedback: RoundFeedback { payoff_kind: kinds.0, amount: self.table.spec_lookup(kinds.0) },
            blue_feedback: RoundFeedback { payoff_kind: kinds.1, amount: self.table.spec_lookup(kinds.1) },
            phase: if self.current_sequence + 1 == self.iteration_count { Phase::Completed } else { Phase::Running },
            ..self
        }
    }

    /// Construct a coordinator, rejecting a configuration that would make
    /// the run meaningless: zero rounds, or a payoff table that violates
    /// the ordering invariant. Exactly these inputs are rejected, and a
    /// rejected configuration never plays a round.
    pub fn new(iteration_count: u32, table: PayoffTable) -> (r: Result<Coordinator, ConfigurationError>)
        ensures
            iteration_count == 0 ==> r == Err::<Coordinator, ConfigurationError>(
                ConfigurationError::ZeroIterations,
            ),
            iteration_count > 0 && !table.is_valid() ==> r == Err::<Coordinator, ConfigurationError>(
                ConfigurationError::InvalidPayoffOrdering,
            ),
            iteration_count > 0 && table.is_valid() ==> r == Ok::<Coordinator, ConfigurationError>(
                Coordinator {
                    iteration_count,
                    current_sequence: 0,
                    table,
                    red_feedback: RoundFeedback::spec_initial(),
                    blue_feedback: RoundFeedback::spec_initial(),
                    phase: Phase::Idle,
                },
            ),
            r matches Ok(c) ==> c.wf() && c.phase == Phase::Idle,
    {
        if iteration_count == 0 {
            Err(ConfigurationError::ZeroIterations)
        } else if !table.check_ordering() {
            Err(ConfigurationError::InvalidPayoffOrdering)
        } else {
            Ok(Coordinator {
                iteration_count,
                current_sequence: 0,
                table,
                red_feedback: RoundFeedback::initial(),
                blue_feedback: RoundFeedback::initial(),
                phase: Phase::Idle,
            })
        }
    }

    /// Whether the run has completed all its rounds.
    pub fn is_complete(&self) -> (b: bool)
        ensures
            b == (self.phase == Phase::Completed),
    {
        match self.phase {
            Phase::Completed => true,
            _ => false,
        }
    }

    /// Build the current round's two invitations, red's first. Each carries
    /// the current sequence number and the feedback from that agent's own
    /// prior round; before the first round that is the initial feedback.
    pub fn invitations(&self) -> (r: (Invitation, Invitation))
        requires
            self.wf(),
            self.phase != Phase::Completed,
        ensures
            r == self.spec_invitations(),
    {
        (
            Invitation { sequence: self.current_sequence, feedback: self.red_feedback },
            Invitation { sequence: self.current_sequence, feedback: self.blue_feedback },
        )
    }

    /// Complete the current round. Takes both agents' actions — a round
    /// cannot be completed with only one — resolves their payoffs in
    /// (red, blue) order, stores them as the next round's feedback, and
    /// advances the sequence number.
    pub fn complete_round(&mut self, red_action: Action, blue_action: Action)
        requires
            old(self).wf(),
            old(self).phase != Phase::Completed,
        ensures
            *final(self) == old(self).spec_complete_round(red_action, blue_action),
            final(self).wf(),
    {
        let kinds = resolve(red_action, blue_action);
        let red_amount = self.table.lookup(kinds.0);
        let blue_amount = self.table.lookup(kinds.1);
        self.red_feedback = RoundFeedback { payoff_kind: kinds.0, amount: red_amount };
        self.blue_feedback = RoundFeedback { payoff_kind: kinds.1, amount: blue_amount };
        self.current_sequence = self.current_sequence + 1;
        self.phase = if self.current_sequence == self.iteration_count {
            Phase::Completed
        } else {
            Phase::Running
        };
    }

    /// Abort the run: `agent` produced no action for the current round's
    /// invitation. A communication fault is fatal — no retry, no default
    /// action — so this consumes the coordinator; no further round can be
    /// driven after it. The error names the failing agent and the round at
    /// which the run stopped.
    pub fn fault(self, agent: AgentId) -> (e: RunError)
        requires
            self.wf(),
            self.phase != Phase::Completed,
        ensures
            e == (RunError::CommunicationFault { agent, sequence: self.current_sequence }),
    {
        RunError::CommunicationFault { agent, sequence: self.current_sequence }
    }
}

/// Round barrier: the invitations that follow a completed round carry the
/// incremented sequence number, and their feedback is resolved from both of
/// the completed round's actions. Since `complete_round` is the only
/// transition that advances the sequence number and it takes both actions,
/// no round k+1 invitation exists before both round-k actions are resolved.
pub proof fn lemma_round_barrier(pre: Coordinator, red_action: Action, blue_action: Action)
    requires
        pre.wf(),
        pre.phase != Phase::Completed,
    ensures
        pre.spec_complete_round(red_action, blue_action).spec_invitations().0.sequence
            == pre.current_sequence + 1,
        pre.spec_complete_round(red_action, blue_action).spec_invitations().1.sequence
            == pre.current_sequence + 1,
        pre.spec_complete_round(red_action, blue_action).spec_invitations().0.feedback
            == (RoundFeedback {
                payoff_kind: spec_resolve(red_action, blue_action).0,
                amount: pre.table.spec_lookup(spec_resolve(red_action, blue_action).0),
            }),
        pre.spec_complete_round(red_action, blue_action).spec_invitations().1.feedback
            == (RoundFeedback {
                payoff_kind: spec_resolve(red_action, blue_action).1,
                amount: pre.table.spec_lookup(spec_resolve(red_action, blue_action).1),
            }),
{
}

} // verus!
