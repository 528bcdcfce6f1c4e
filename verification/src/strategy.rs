//! Strategies: the decision capability of an agent. A strategy maps the
//! feedback from the agent's own prior round to the next action; the
//! baseline variants either commit to one action or flip a fair coin.

use vstd::prelude::*;
use crate::payoff::Action;
use crate::payoff::RoundFeedback;

verus! {

/// A per-agent decision capability, swappable per run.
#[derive(Clone, Copy, PartialEq, Eq, Structural, Debug)]
pub enum Strategy {
    /// Always plays the committed action, whatever the feedback.
    Fixed(Action),
    /// Plays Cooperate or Defect with uniform probability, independent of
    /// history.
    Random,
}

/// Relies on rand::random::<u8>: one byte drawn from the thread-local
/// generator. Nothing is assumed of its value.
#[verifier::external_body]
fn random_byte() -> u8 {
    rand::random::<u8>()
}

impl Strategy {
    /// Choose the next action, given the feedback from the agent's own
    /// immediately-prior round. The baseline variants keep no history, so
    /// the strategy itself is left unchanged; a Fixed strategy always
    /// returns its committed action.
    pub fn decide(&mut self, last_own_feedback: RoundFeedback) -> (r: Action)
        ensures
            *final(self) == *old(self),
            *old(self) matches Strategy::Fixed(a) ==> r == a,
    {
        match *self {
            Strategy::Fixed(action) => action,
            Strategy::Random => {
                let byte = random_byte();
                if byte % 2 == 0 {
                    Action::Cooperate
                } else {
                    Action::Defect
                }
            },
        }
    }
}

} // verus!
