//! The payoff table of the iterated prisoner's dilemma: actions, payoff
//! kinds, the resolution rule that classifies one round, and the numeric
//! table that turns a payoff kind into a reward.

use vstd::prelude::*;

verus! {

/// One player's move in a single round.
#[derive(Clone, Copy, PartialEq, Eq, Structural, Debug)]
pub enum Action {
    Cooperate,
    Defect,
}

/// The classification of a round's outcome for one agent. `Null` stands for
/// "no prior round": it is what both agents are told before the first round.
#[derive(Clone, Copy, PartialEq, Eq, Structural, Debug)]
pub enum PayoffKind {
    Null,
    Reward,
    Punishment,
    Temptation,
    Sucker,
}

impl Action {
    /// A human-readable name for the action.
    pub fn label(self) -> (s: &'static str)
        ensures
            self == Action::Cooperate ==> s@ == "Cooperate"@,
            self == Action::Defect ==> s@ == "Defect"@,
    {
        match self {
            Action::Cooperate => "Cooperate",
            Action::Defect => "Defect",
        }
    }
}

impl PayoffKind {
    /// A human-readable name for the payoff kind.
    pub fn label(self) -> (s: &'static str)
        ensures
            self == PayoffKind::Null ==> s@ == "Null"@,
            self == PayoffKind::Reward ==> s@ == "Reward"@,
            self == PayoffKind::Punishment ==> s@ == "Punishment"@,
            self == PayoffKind::Temptation ==> s@ == "Temptation"@,
            self == PayoffKind::Sucker ==> s@ == "Sucker"@,
    {
        match self {
            PayoffKind::Null => "Null",
            PayoffKind::Reward => "Reward",
            PayoffKind::Punishment => "Punishment",
            PayoffKind::Temptation => "Temptation",
            PayoffKind::Sucker => "Sucker",
        }
    }
}

/// The outcome pair of one round: the payoff kind for the first-named (own)
/// player first, then the kind for the opponent. Under this labelling the
/// defector facing a cooperator receives `Sucker`, and the cooperator facing
/// a defector receives `Temptation`.
pub open spec fn spec_resolve(own: Action, opponent: Action) -> (PayoffKind, PayoffKind) {
    match (own, opponent) {
        (Action::Cooperate, Action::Cooperate) => (PayoffKind::Reward, PayoffKind::Reward),
        (Action::Defect, Action::Defect) => (PayoffKind::Punishment, PayoffKind::Punishment),
        (Action::Defect, Action::Cooperate) => (PayoffKind::Sucker, PayoffKind::Temptation),
        (Action::Cooperate, Action::Defect) => (PayoffKind::Temptation, PayoffKind::Sucker),
    }
}

/// Classify one round: `r.0` is the payoff kind for `own`, `r.1` the kind
/// for `opponent`.
pub fn resolve(own: Action, opponent: Action) -> (r: (PayoffKind, PayoffKind))
    ensures
        r == spec_resolve(own, opponent),
{
    match (own, opponent) {
        (Action::Cooperate, Action::Cooperate) => (PayoffKind::Reward, PayoffKind::Reward),
        (Action::Defect, Action::Defect) => (PayoffKind::Punishment, PayoffKind::Punishment),
        (Action::Defect, Action::Cooperate) => (PayoffKind::Sucker, PayoffKind::Temptation),
        (Action::Cooperate, Action::Defect) => (PayoffKind::Temptation, PayoffKind::Sucker),
    }
}

/// Payoff symmetry: swapping the two players swaps the outcome pair.
pub proof fn lemma_resolve_symmetry(a: Action, b: Action)
    ensures
        spec_resolve(a, b).0 == spec_resolve(b, a).1,
        spec_resolve(a, b).1 == spec_resolve(b, a).0,
{
}

/// What an agent is told about its own immediately-prior round before it
/// chooses its next action: the payoff kind it was awarded and the amount.
#[derive(Clone, Copy, PartialEq, Eq, Structural, Debug)]
pub struct RoundFeedback {
    pub payoff_kind: PayoffKind,
    pub amount: u64,
}

impl RoundFeedback {
    /// The feedback handed to both agents before the first round: no prior
    /// round, nothing awarded.
    pub open spec fn spec_initial() -> RoundFeedback {
        RoundFeedback { payoff_kind: PayoffKind::Null, amount: 0 }
    }

    pub fn initial() -> (f: RoundFeedback)
        ensures
            f == RoundFeedback::spec_initial(),
    {
        RoundFeedback { payoff_kind: PayoffKind::Null, amount: 0 }
    }
}

/// The numeric reward for each payoff kind, fixed for a whole run and never
/// mutated once play begins.
#[derive(Clone, Copy, PartialEq, Eq, Structural, Debug)]
pub struct PayoffTable {
    pub reward: u64,
    pub punishment: u64,
    pub temptation: u64,
    pub sucker: u64,
}

impl PayoffTable {
    /// The reward configured for `kind`; `Null` carries no reward.
    pub open spec fn spec_lookup(self, kind: PayoffKind) -> u64 {
        match kind {
            PayoffKind::Null => 0,
            PayoffKind::Reward => self.reward,
            PayoffKind::Punishment => self.punishment,
            PayoffKind::Temptation => self.temptation,
            PayoffKind::Sucker => self.sucker,
        }
    }

    /// The ordering a meaningful iterated game requires:
    /// Temptation > Reward > Punishment > Sucker, and 2·Reward > Temptation + Sucker,
    /// so that sustained cooperation beats alternating exploitation.
    pub open spec fn is_valid(self) -> bool {
        &&& self.temptation > self.reward
        &&& self.reward > self.punishment
        &&& self.punishment > self.sucker
        &&& 2 * self.reward > self.temptation + self.sucker
    }

    pub fn new(reward: u64, punishment: u64, temptation: u64, sucker: u64) -> (t: PayoffTable)
        ensures
            t == (PayoffTable { reward, punishment, temptation, sucker }),
    {
        PayoffTable { reward, punishment, temptation, sucker }
    }

    /// Pure lookup of the reward for `kind`; returns 0 for `Null`, which is
    /// never configured.
    pub fn lookup(&self, kind: PayoffKind) -> (r: u64)
        ensures
            r == self.spec_lookup(kind),
    {
        match kind {
            PayoffKind::Null => 0,
            PayoffKind::Reward => self.reward,
            PayoffKind::Punishment => self.punishment,
            PayoffKind::Temptation => self.temptation,
            PayoffKind::Sucker => self.sucker,
        }
    }

    /// Whether the table obeys the ordering invariant.
    pub fn check_ordering(&self) -> (b: bool)
        ensures
            b == self.is_valid(),
    {
        self.temptation > self.reward && self.reward > self.punishment
            && self.punishment > self.sucker
            && self.reward - self.sucker > self.temptation - self.reward
    }

    /// In a valid table no kind is rewarded above `temptation`.
    pub proof fn lemma_lookup_bounded(self, kind: PayoffKind)
        requires
            self.is_valid(),
        ensures
            self.spec_lookup(kind) <= self.temptation,
    {
    }
}

} // verus!
