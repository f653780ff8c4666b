use anchor_lang::prelude::Pubkey;
use neurolov::swarm::INITIAL_PERFORMANCE_SCORE;
use neurolov::{create_swarm, keys_are_distinct, SwarmState};

fn key(tag: u8) -> Pubkey {
    Pubkey::new_from_array([tag; 32])
}

#[test]
fn swarm_starts_with_no_task_and_full_score() {
    let swarm = create_swarm(key(1), vec![key(2), key(3), key(4)], 750);

    assert_eq!(
        swarm,
        SwarmState {
            leader: key(1),
            members: vec![key(2), key(3), key(4)],
            total_power: 750,
            tasks_completed: 0,
            performance_score: 100,
        }
    );
    assert_eq!(INITIAL_PERFORMANCE_SCORE, 100);
}

#[test]
fn swarm_keeps_members_in_the_order_given() {
    let swarm = create_swarm(key(1), vec![key(9), key(2), key(5)], 1);

    assert_eq!(swarm.members, vec![key(9), key(2), key(5)]);
}

#[test]
fn swarm_leader_may_be_a_member_or_not() {
    let inside = create_swarm(key(1), vec![key(1), key(2)], 10);
    let outside = create_swarm(key(1), vec![key(2)], 10);

    assert_eq!(inside.leader, key(1));
    assert_eq!(inside.members, vec![key(1), key(2)]);
    assert_eq!(outside.leader, key(1));
    assert_eq!(outside.members, vec![key(2)]);
}

#[test]
fn swarm_power_is_taken_as_declared() {
    let none = create_swarm(key(1), vec![key(2)], 0);
    let most = create_swarm(key(1), vec![key(2)], u64::MAX);

    assert_eq!(none.total_power, 0);
    assert_eq!(most.total_power, u64::MAX);
}

#[test]
fn member_list_is_vetted_before_registration() {
    let twice = vec![key(2), key(3), key(2)];
    let once = vec![key(2), key(3), key(4)];

    assert!(!keys_are_distinct(&twice));
    assert!(keys_are_distinct(&once));
    let swarm = create_swarm(key(1), once, 10);

    assert_eq!(swarm.members, vec![key(2), key(3), key(4)]);
}

#[test]
fn distinct_keys_are_recognized() {
    assert!(keys_are_distinct(&vec![]));
    assert!(keys_are_distinct(&vec![key(1)]));
    assert!(keys_are_distinct(&vec![key(1), key(2)]));
    assert!(keys_are_distinct(&vec![key(3), key(1), key(2), key(9)]));
}

#[test]
fn repeated_keys_are_recognized() {
    assert!(!keys_are_distinct(&vec![key(1), key(1)]));
    assert!(!keys_are_distinct(&vec![key(1), key(2), key(1)]));
    assert!(!keys_are_distinct(&vec![key(3), key(1), key(2), key(2)]));
    assert!(!keys_are_distinct(&vec![key(5), key(6), key(7), key(8), key(6)]));
}

#[test]
fn keys_that_differ_in_one_byte_are_distinct() {
    let mut bytes = [4u8; 32];
    let first = Pubkey::new_from_array(bytes);
    bytes[31] = 5;
    let second = Pubkey::new_from_array(bytes);

    assert!(keys_are_distinct(&vec![first, second]));
    assert!(!keys_are_distinct(&vec![second, first, second]));
}
