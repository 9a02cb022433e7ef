use marketplace::action_queue::{Action, ActionQueue};
use marketplace::ids::{ContributionId, ContributorId};

#[test]
fn pop_less_than_len() {
    let mut queue = ActionQueue::new();

    for _ in 0..100 {
        queue.push(Action::CreateContribution {
            contribution_id: Default::default(),
            project_id: Default::default(),
            gate: Default::default(),
        })
    }

    let first_100_poped = queue.pop_n(10);

    assert_eq!(first_100_poped.len(), 10);
    assert_eq!(queue.0.len(), 90);
}

#[test]
fn pop_more_than_len() {
    let mut queue = ActionQueue::new();

    for _ in 0..100 {
        queue.push(Action::CreateContribution {
            contribution_id: Default::default(),
            project_id: Default::default(),
            gate: Default::default(),
        })
    }

    let poped = queue.pop_n(101);

    assert_eq!(poped.len(), 100);
    assert_eq!(queue.0.len(), 0);
}

#[test]
fn pop_fifo() {
    let mut queue = ActionQueue::new();

    queue.push(Action::CreateContribution {
        contribution_id: Default::default(),
        project_id: Default::default(),
        gate: Default::default(),
    });
    queue.push(Action::AssignContributor {
        contribution_id: Default::default(),
        contributor_id: Default::default(),
    });
    queue.push(Action::ValidateContribution {
        contribution_id: Default::default(),
    });
    queue.push(Action::UnassignContributor {
        contribution_id: Default::default(),
    });

    let poped = queue.pop_n(2);

    // Check poped order
    assert_eq!(
        poped[0],
        Action::CreateContribution {
            contribution_id: Default::default(),
            project_id: Default::default(),
            gate: Default::default(),
        }
    );
    assert_eq!(
        poped[1],
        Action::AssignContributor {
            contribution_id: Default::default(),
            contributor_id: Default::default(),
        }
    );

    // Check remaining elements order
    assert_eq!(
        queue.0[0],
        Action::UnassignContributor {
            contribution_id: Default::default(),
        }
    );
    assert_eq!(
        queue.0[1],
        Action::ValidateContribution {
            contribution_id: Default::default(),
        }
    );
}

fn validate(id: u128) -> Action {
    Action::ValidateContribution { contribution_id: ContributionId::from(id) }
}

#[test]
fn pop_zero_takes_nothing() {
    let mut queue = ActionQueue::new();
    queue.push(validate(1));
    assert!(queue.pop_n(0).is_empty());
    assert_eq!(queue.0.len(), 1);
}

#[test]
fn pop_from_empty_queue() {
    let mut queue = ActionQueue::new();
    assert!(queue.pop_n(3).is_empty());
    assert!(queue.0.is_empty());
}

#[test]
fn pop_in_two_batches_keeps_order() {
    let mut queue = ActionQueue::new();
    for id in 1..=5u128 {
        queue.push(validate(id));
    }
    let first = queue.pop_n(2);
    let second = queue.pop_n(2);
    assert_eq!(first, vec![validate(1), validate(2)]);
    assert_eq!(second, vec![validate(3), validate(4)]);
    assert_eq!(queue.pop_n(10), vec![validate(5)]);
}

#[test]
fn push_after_pop_does_not_overtake() {
    let mut queue = ActionQueue::new();
    queue.push(validate(1));
    queue.push(validate(2));
    assert_eq!(queue.pop_n(1), vec![validate(1)]);
    queue.push(Action::AssignContributor {
        contribution_id: ContributionId::from(3),
        contributor_id: ContributorId::from(4),
    });
    assert_eq!(queue.pop_n(1), vec![validate(2)]);
    assert_eq!(
        queue.pop_n(1),
        vec![Action::AssignContributor {
            contribution_id: ContributionId::from(3),
            contributor_id: ContributorId::from(4),
        }]
    );
}
