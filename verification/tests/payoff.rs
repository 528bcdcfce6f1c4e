use prisoners_dilemma::payoff::Action;
use prisoners_dilemma::payoff::PayoffKind;
use prisoners_dilemma::payoff::PayoffTable;
use prisoners_dilemma::payoff::RoundFeedback;
use prisoners_dilemma::payoff::resolve;

#[test]
fn resolve_mutual_cooperation() {
    assert_eq!(
        resolve(Action::Cooperate, Action::Cooperate),
        (PayoffKind::Reward, PayoffKind::Reward)
    );
}

#[test]
fn resolve_mutual_defection() {
    assert_eq!(
        resolve(Action::Defect, Action::Defect),
        (PayoffKind::Punishment, PayoffKind::Punishment)
    );
}

#[test]
fn resolve_asymmetric_pairs() {
    // The label names the outcome for the first-named player: the defector
    // facing a cooperator receives Sucker under this table's convention.
    assert_eq!(
        resolve(Action::Cooperate, Action::Defect),
        (PayoffKind::Temptation, PayoffKind::Sucker)
    );
    assert_eq!(
        resolve(Action::Defect, Action::Cooperate),
        (PayoffKind::Sucker, PayoffKind::Temptation)
    );
}

#[test]
fn resolve_symmetry_swaps_results() {
    let pairs = [
        (Action::Cooperate, Action::Cooperate),
        (Action::Cooperate, Action::Defect),
        (Action::Defect, Action::Cooperate),
        (Action::Defect, Action::Defect),
    ];
    for (a, b) in pairs {
        let forward = resolve(a, b);
        let backward = resolve(b, a);
        assert_eq!(forward.0, backward.1);
        assert_eq!(forward.1, backward.0);
    }
}

#[test]
fn lookup_returns_configured_values() {
    let table = PayoffTable::new(3, 2, 4, 1);
    assert_eq!(table.lookup(PayoffKind::Reward), 3);
    assert_eq!(table.lookup(PayoffKind::Punishment), 2);
    assert_eq!(table.lookup(PayoffKind::Temptation), 4);
    assert_eq!(table.lookup(PayoffKind::Sucker), 1);
}

#[test]
fn lookup_null_defaults_to_zero() {
    let table = PayoffTable::new(3, 2, 4, 1);
    assert_eq!(table.lookup(PayoffKind::Null), 0);
}

#[test]
fn check_ordering_accepts_canonical_table() {
    assert!(PayoffTable::new(3, 2, 4, 1).check_ordering());
}

#[test]
fn check_ordering_rejects_each_violation() {
    // Temptation not above Reward.
    assert!(!PayoffTable::new(4, 2, 4, 1).check_ordering());
    // Reward not above Punishment.
    assert!(!PayoffTable::new(2, 2, 4, 1).check_ordering());
    // Punishment not above Sucker.
    assert!(!PayoffTable::new(3, 1, 4, 1).check_ordering());
    // Chain holds but 2*Reward does not exceed Temptation + Sucker.
    assert!(!PayoffTable::new(6, 5, 10, 3).check_ordering());
}

#[test]
fn initial_feedback_is_null_and_zero() {
    let feedback = RoundFeedback::initial();
    assert_eq!(feedback.payoff_kind, PayoffKind::Null);
    assert_eq!(feedback.amount, 0);
}

#[test]
fn labels_name_the_variants() {
    assert_eq!(Action::Cooperate.label(), "Cooperate");
    assert_eq!(Action::Defect.label(), "Defect");
    assert_eq!(PayoffKind::Null.label(), "Null");
    assert_eq!(PayoffKind::Reward.label(), "Reward");
    assert_eq!(PayoffKind::Punishment.label(), "Punishment");
    assert_eq!(PayoffKind::Temptation.label(), "Temptation");
    assert_eq!(PayoffKind::Sucker.label(), "Sucker");
}
