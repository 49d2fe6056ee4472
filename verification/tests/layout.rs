use avr_calculator::game::{default_actions_with_ids, ScoringAction};
use avr_calculator::layout::{actions_in_phase, distinct_phases, position_of_id};

fn action(id: &str, phase: i32) -> ScoringAction {
    ScoringAction {
        id: String::from(id),
        description: String::from("N/A"),
        name: String::from(id),
        phase,
        pointvalue: 1,
        max_count: 1,
        count: 0,
        pointstages: Vec::new(),
    }
}

fn registry(phases: &[i32]) -> Vec<ScoringAction> {
    phases.iter().enumerate().map(|(index, phase)| action(&format!("id{index}"), *phase)).collect()
}

#[test]
fn distinct_phases_drops_repetitions() {
    assert_eq!(distinct_phases(&registry(&[1, 1, 2])), vec![1, 2]);
    assert_eq!(distinct_phases(&registry(&[7, 7, 7, 7])), vec![7]);
}

#[test]
fn distinct_phases_keeps_the_order_of_first_occurrence() {
    assert_eq!(distinct_phases(&registry(&[3, 1, 3, 2, 1, 2, 0])), vec![3, 1, 2, 0]);
    assert_eq!(distinct_phases(&registry(&[10, 20, 30, 20, 40, 10, 50])), vec![10, 20, 30, 40, 50]);
    assert_eq!(distinct_phases(&registry(&[-1, i32::MAX, -1, i32::MIN])), vec![-1, i32::MAX, i32::MIN]);
}

#[test]
fn distinct_phases_of_an_empty_registry() {
    assert_eq!(distinct_phases(&Vec::new()), Vec::<i32>::new());
}

#[test]
fn distinct_phases_of_the_built_in_registry() {
    let built_in =
        default_actions_with_ids(String::from("a"), String::from("b"), String::from("c"));
    assert_eq!(distinct_phases(&built_in), vec![1, 2]);
}

#[test]
fn actions_in_phase_lists_the_indices_in_order() {
    let actions = registry(&[3, 1, 3, 2, 1, 2, 0]);
    assert_eq!(actions_in_phase(&actions, 3), vec![0, 2]);
    assert_eq!(actions_in_phase(&actions, 1), vec![1, 4]);
    assert_eq!(actions_in_phase(&actions, 2), vec![3, 5]);
    assert_eq!(actions_in_phase(&actions, 0), vec![6]);
}

#[test]
fn actions_in_phase_that_no_action_has() {
    let actions = registry(&[3, 1, 3]);
    assert_eq!(actions_in_phase(&actions, 2), Vec::<usize>::new());
    assert_eq!(actions_in_phase(&Vec::new(), 1), Vec::<usize>::new());
}

#[test]
fn every_action_is_listed_under_one_phase() {
    let actions = registry(&[3, 1, 3, 2, 1, 2, 0]);
    let mut listed: Vec<usize> = Vec::new();
    for phase in distinct_phases(&actions) {
        listed.extend(actions_in_phase(&actions, phase));
    }
    listed.sort();
    assert_eq!(listed, vec![0, 1, 2, 3, 4, 5, 6]);
}

#[test]
fn position_of_id_finds_the_action() {
    let actions = registry(&[1, 1, 2]);
    assert_eq!(position_of_id(&actions, &String::from("id0")), Some(0));
    assert_eq!(position_of_id(&actions, &String::from("id1")), Some(1));
    assert_eq!(position_of_id(&actions, &String::from("id2")), Some(2));
}

#[test]
fn position_of_id_takes_the_first_of_equal_identifiers() {
    let actions = vec![action("a", 1), action("b", 1), action("b", 2), action("a", 2)];
    assert_eq!(position_of_id(&actions, &String::from("a")), Some(0));
    assert_eq!(position_of_id(&actions, &String::from("b")), Some(1));
}

#[test]
fn position_of_id_that_no_action_has() {
    let actions = registry(&[1, 1, 2]);
    assert_eq!(position_of_id(&actions, &String::from("id3")), None);
    assert_eq!(position_of_id(&actions, &String::new()), None);
    assert_eq!(position_of_id(&Vec::new(), &String::from("id0")), None);
}
