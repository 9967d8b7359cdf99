use vmc::chain::{Chain, ChainAction};

fn run(total: usize, outcomes: &[bool]) -> (Vec<ChainAction>, Chain) {
    let mut chain = Chain::new(total);
    let mut actions = Vec::new();
    for &o in outcomes {
        assert!(!chain.is_finished());
        actions.push(chain.advance(o));
    }
    (actions, chain)
}

#[test]
fn burn_in_is_a_quarter_and_never_summed() {
    let outcomes = [true, false, true, false, false, true, true, false, true, false];
    let (actions, chain) = run(8, &outcomes);
    assert!(chain.is_finished());
    assert_eq!(actions[0], ChainAction::Remember);
    assert_eq!(actions[1], ChainAction::Discard);
    let summed = actions
        .iter()
        .filter(|a| matches!(a, ChainAction::AddNew | ChainAction::AddRemembered))
        .count();
    assert_eq!(summed, 8);
    assert_eq!(chain.total_steps(), 8);
    assert_eq!(chain.accepted_steps(), 4);
}

#[test]
fn production_actions_follow_outcomes() {
    let (actions, _) = run(4, &[false, true, false, false, true]);
    assert_eq!(
        actions,
        vec![
            ChainAction::Discard,
            ChainAction::AddNew,
            ChainAction::AddRemembered,
            ChainAction::AddRemembered,
            ChainAction::AddNew,
        ]
    );
}

#[test]
fn same_outcomes_give_same_run() {
    let outcomes = [true, true, false, true, false, false, true, false, true, true];
    let (a1, c1) = run(8, &outcomes);
    let (a2, c2) = run(8, &outcomes);
    assert_eq!(a1, a2);
    assert_eq!(c1.accepted_steps(), c2.accepted_steps());
}

#[test]
fn short_runs_have_no_burn_in() {
    let mut chain = Chain::new(3);
    assert!(!chain.in_burn_in());
    assert_eq!(chain.advance(false), ChainAction::AddRemembered);
    let empty = Chain::new(0);
    assert!(empty.is_finished());
}
