use anycall::balance::{Balance, BalanceBuildError};

struct OffsetAgent {
    offset: i32,
}

impl OffsetAgent {
    fn sum(&self, a: i32, b: i32) -> i32 {
        a + b + self.offset
    }
}

#[test]
fn test_counter_balance_builder_rejects_empty_agents() {
    let result = Balance::<OffsetAgent>::builder().build();
    assert!(matches!(result, Err(BalanceBuildError::EmptyAgents)));
}

#[test]
fn balance_build_error_message() {
    assert_eq!(
        BalanceBuildError::EmptyAgents.message(),
        "balance requires at least one agent"
    );
}

#[test]
fn balance_round_robin_alternates_agents() {
    let balance = Balance::builder()
        .push(OffsetAgent { offset: 0 })
        .push(OffsetAgent { offset: 100 })
        .build()
        .unwrap();
    assert_eq!(balance.next_agent().sum(1, 1), 2);
    assert_eq!(balance.next_agent().sum(1, 1), 102);
    assert_eq!(balance.next_agent().sum(1, 1), 2);
    assert_eq!(balance.next_agent().sum(1, 1), 102);
}

#[test]
fn balance_single_agent_serves_every_call() {
    let balance = Balance::builder().push(OffsetAgent { offset: 7 }).build().unwrap();
    for _ in 0..5 {
        assert_eq!(balance.next_agent().sum(1, 1), 9);
    }
}

#[test]
fn balance_slot_is_ticket_modulo_agents() {
    let balance = Balance::builder()
        .push(OffsetAgent { offset: 0 })
        .push(OffsetAgent { offset: 10 })
        .push(OffsetAgent { offset: 20 })
        .build()
        .unwrap();
    assert_eq!(balance.len(), 3);
    assert_eq!(balance.slot(0), 0);
    assert_eq!(balance.slot(4), 1);
    assert_eq!(balance.slot(8), 2);
    assert_eq!(balance.slot(usize::MAX), usize::MAX % 3);
    assert_eq!(balance.agent_for(5).offset, 20);
}

#[test]
fn balance_consecutive_tickets_visit_each_agent_once() {
    let balance = Balance::builder()
        .push(OffsetAgent { offset: 0 })
        .push(OffsetAgent { offset: 1 })
        .push(OffsetAgent { offset: 2 })
        .push(OffsetAgent { offset: 3 })
        .build()
        .unwrap();
    for start in [0usize, 3, 17] {
        let mut seen = vec![0; 4];
        for t in start..start + 4 {
            seen[balance.slot(t)] += 1;
        }
        assert_eq!(seen, vec![1, 1, 1, 1]);
    }
}
