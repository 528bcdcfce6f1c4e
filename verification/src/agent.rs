//! Agents: each holds one strategy and one running score, answers
//! round-invitations one at a time, and is the only code that ever mutates
//! its own score.

use vstd::prelude::*;
use crate::payoff::Action;
use crate::payoff::RoundFeedback;
use crate::strategy::Strategy;

verus! {

/// An independent participant in the game: an identity, a strategy, and the
/// cumulative score over all rounds fed back so far. The fields are private:
/// the score is mutated only through `receive` and `respond`.
pub struct Agent {
    identity: String,
    strategy: Strategy,
    cumulative_score: u64,
}

impl Agent {
    /// The agent's name, as reported in errors and traces.
    pub closed spec fn spec_identity(self) -> Seq<char> {
        self.identity@
    }

    /// The strategy the agent currently plays.
    pub closed spec fn spec_strategy(self) -> Strategy {
        self.strategy
    }

    /// The sum of all payoff amounts fed back to the agent so far.
    pub closed spec fn spec_score(self) -> u64 {
        self.cumulative_score
    }

    /// A fresh agent: given strategy, zero score.
    pub fn new(identity: String, strategy: Strategy) -> (a: Agent)
        ensures
            a.spec_identity() == identity@,
            a.spec_strategy() == strategy,
            a.spec_score() == 0,
    {
        Agent { identity, strategy, cumulative_score: 0 }
    }

    /// Credit the payoff of the agent's own immediately-prior round. The
    /// score only ever grows by exactly the awarded amount.
    pub fn receive(&mut self, feedback: RoundFeedback)
        requires
            old(self).spec_score() + feedback.amount <= u64::MAX,
        ensures
            final(self).spec_score() == old(self).spec_score() + feedback.amount,
            final(self).spec_identity() == old(self).spec_identity(),
            final(self).spec_strategy() == old(self).spec_strategy(),
    {
        self.cumulative_score = self.cumulative_score + feedback.amount;
    }

    /// Answer one round-invitation: first credit the prior round's payoff,
    /// so the score reflects every round fed back up to and including this
    /// one, then let the strategy choose this round's action. Total: every
    /// invitation gets a valid action.
    pub fn respond(&mut self, sequence: u32, feedback: RoundFeedback) -> (r: Action)
        requires
            old(self).spec_score() + feedback.amount <= u64::MAX,
        ensures
            final(self).spec_score() == old(self).spec_score() + feedback.amount,
            final(self).spec_identity() == old(self).spec_identity(),
            final(self).spec_strategy() == old(self).spec_strategy(),
            old(self).spec_strategy() matches Strategy::Fixed(a) ==> r == a,
    {
        self.receive(feedback);
        self.strategy.decide(feedback)
    }

    /// Read the running score; after the last round's feedback has been
    /// delivered this is the authoritative end-of-run result.
    pub fn cumulative_score(&self) -> (s: u64)
        ensures
            s == self.spec_score(),
    {
        self.cumulative_score
    }

    /// The agent's name.
    pub fn identity(&self) -> (s: &String)
        ensures
            s@ == self.spec_identity(),
    {
        &self.identity
    }

    /// The strategy the agent currently plays.
    pub fn strategy(&self) -> (s: Strategy)
        ensures
            s == self.spec_strategy(),
    {
        self.strategy
    }
}

} // verus!
