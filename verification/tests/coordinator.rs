use prisoners_dilemma::agent::Agent;
use prisoners_dilemma::coordinator::AgentId;
use prisoners_dilemma::coordinator::ConfigurationError;
use prisoners_dilemma::coordinator::Coordinator;
use prisoners_dilemma::coordinator::RunError;
use prisoners_dilemma::payoff::Action;
use prisoners_dilemma::payoff::PayoffKind;
use prisoners_dilemma::payoff::PayoffTable;
use prisoners_dilemma::strategy::Strategy;

fn canonical_table() -> PayoffTable {
    PayoffTable::new(3, 2, 4, 1)
}

#[test]
fn zero_iterations_is_rejected() {
    let result = Coordinator::new(0, canonical_table());
    assert_eq!(result.unwrap_err(), ConfigurationError::ZeroIterations);
}

#[test]
fn invalid_ordering_is_rejected() {
    let tables = [
        PayoffTable::new(4, 2, 4, 1),
        PayoffTable::new(2, 2, 4, 1),
        PayoffTable::new(3, 1, 4, 1),
        PayoffTable::new(6, 5, 10, 3),
    ];
    for table in tables {
        let result = Coordinator::new(10, table);
        assert_eq!(result.unwrap_err(), ConfigurationError::InvalidPayoffOrdering);
    }
}

#[test]
fn valid_configuration_is_accepted() {
    let coordinator = Coordinator::new(10, canonical_table()).unwrap();
    assert!(!coordinator.is_complete());
    let (red_invitation, blue_invitation) = coordinator.invitations();
    assert_eq!(red_invitation.sequence, 0);
    assert_eq!(blue_invitation.sequence, 0);
    assert_eq!(red_invitation.feedback.payoff_kind, PayoffKind::Null);
    assert_eq!(red_invitation.feedback.amount, 0);
    assert_eq!(blue_invitation.feedback.payoff_kind, PayoffKind::Null);
    assert_eq!(blue_invitation.feedback.amount, 0);
}

#[test]
fn round_barrier_orders_invitations_and_completions() {
    // Drive two rounds by hand, recording the sequence number of every
    // invitation pair that is built: the round-1 invitations can only be
    // built after complete_round consumed both round-0 actions, and they
    // carry the feedback resolved from exactly those actions.
    let mut coordinator = Coordinator::new(3, canonical_table()).unwrap();
    let mut invitation_sequences: Vec<u32> = Vec::new();

    let (red_inv, blue_inv) = coordinator.invitations();
    invitation_sequences.push(red_inv.sequence);
    assert_eq!(blue_inv.sequence, red_inv.sequence);

    // Re-building the invitations before the round completes does not
    // advance anything: no round skew.
    let (red_again, blue_again) = coordinator.invitations();
    assert_eq!(red_again, red_inv);
    assert_eq!(blue_again, blue_inv);

    coordinator.complete_round(Action::Cooperate, Action::Defect);

    let (red_inv, blue_inv) = coordinator.invitations();
    invitation_sequences.push(red_inv.sequence);
    assert_eq!(blue_inv.sequence, red_inv.sequence);
    // Round-1 feedback is resolved from both round-0 actions.
    assert_eq!(red_inv.feedback.payoff_kind, PayoffKind::Temptation);
    assert_eq!(red_inv.feedback.amount, 4);
    assert_eq!(blue_inv.feedback.payoff_kind, PayoffKind::Sucker);
    assert_eq!(blue_inv.feedback.amount, 1);

    coordinator.complete_round(Action::Defect, Action::Defect);

    let (red_inv, blue_inv) = coordinator.invitations();
    invitation_sequences.push(red_inv.sequence);
    assert_eq!(red_inv.feedback.payoff_kind, PayoffKind::Punishment);
    assert_eq!(red_inv.feedback.amount, 2);
    assert_eq!(blue_inv.feedback.payoff_kind, PayoffKind::Punishment);

    assert_eq!(invitation_sequences, vec![0, 1, 2]);
}

#[test]
fn completion_is_terminal() {
    let mut coordinator = Coordinator::new(2, canonical_table()).unwrap();
    assert!(!coordinator.is_complete());
    coordinator.complete_round(Action::Cooperate, Action::Cooperate);
    assert!(!coordinator.is_complete());
    coordinator.complete_round(Action::Cooperate, Action::Cooperate);
    assert!(coordinator.is_complete());
}

#[test]
fn fault_on_round_three_aborts_with_that_sequence() {
    // Two agents play rounds 0, 1 and 2; on round 3 the red agent produces
    // no action. The run aborts reporting sequence 3, and the blue agent's
    // state is untouched from then on.
    let mut coordinator = Coordinator::new(10, canonical_table()).unwrap();
    let mut red = Agent::new(String::from("red"), Strategy::Fixed(Action::Defect));
    let mut blue = Agent::new(String::from("blue"), Strategy::Fixed(Action::Defect));

    for _ in 0..3 {
        let (red_inv, blue_inv) = coordinator.invitations();
        let red_action = red.respond(red_inv.sequence, red_inv.feedback);
        let blue_action = blue.respond(blue_inv.sequence, blue_inv.feedback);
        coordinator.complete_round(red_action, blue_action);
    }

    let blue_score_at_fault = blue.cumulative_score();
    // Round 3: the red agent fails to respond; the coordinator is consumed,
    // so no further round can be driven.
    let error = coordinator.fault(AgentId::Red);
    assert_eq!(error, RunError::CommunicationFault { agent: AgentId::Red, sequence: 3 });
    assert_eq!(blue.cumulative_score(), blue_score_at_fault);
    // Two completed rounds of mutual defection were credited (round 2's
    // payoff was still in flight when the run aborted).
    assert_eq!(blue_score_at_fault, 4);
}
