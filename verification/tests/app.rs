use avr_calculator::app::{Command, Event, TemplateApp};
use avr_calculator::game::{ScoringAction, STAGED};

fn action(id: &str, pointvalue: i32, max_count: i32, count: i32, stages: &[i32]) -> ScoringAction {
    ScoringAction {
        id: String::from(id),
        description: String::from("loaded"),
        name: String::from(id),
        phase: 4,
        pointvalue,
        max_count,
        count,
        pointstages: stages.to_vec(),
    }
}

fn configuration() -> Vec<ScoringAction> {
    vec![
        action("w", 3, 5, 2, &[]),
        action("x", STAGED, 10, 1, &[0, 10, 25]),
        action("y", 1, 1, 1, &[]),
        action("z", -2, 4, 4, &[]),
    ]
}

fn assert_same_actions(left: &[ScoringAction], right: &[ScoringAction]) {
    assert_eq!(left.len(), right.len());
    for (l, r) in left.iter().zip(right) {
        assert_eq!(l.id, r.id);
        assert_eq!(l.description, r.description);
        assert_eq!(l.name, r.name);
        assert_eq!(l.phase, r.phase);
        assert_eq!(l.pointvalue, r.pointvalue);
        assert_eq!(l.max_count, r.max_count);
        assert_eq!(l.count, r.count);
        assert_eq!(l.pointstages, r.pointstages);
    }
}

fn assert_built_in(actions: &[ScoringAction]) {
    assert_eq!(actions.len(), 3);
    let names: Vec<&str> = actions.iter().map(|a| a.name.as_str()).collect();
    assert_eq!(names, vec!["Takeoff", "Delivery", "Stacking"]);
    let values: Vec<i32> = actions.iter().map(|a| a.pointvalue).collect();
    assert_eq!(values, vec![2, 4, -1]);
    let limits: Vec<i32> = actions.iter().map(|a| a.max_count).collect();
    assert_eq!(limits, vec![1, 10, 10]);
    let phases: Vec<i32> = actions.iter().map(|a| a.phase).collect();
    assert_eq!(phases, vec![1, 1, 2]);
    assert!(actions.iter().all(|a| a.count == 0));
    assert!(actions[0].pointstages.is_empty());
    assert!(actions[1].pointstages.is_empty());
    assert_eq!(actions[2].pointstages, vec![0, 3, 7, 4, 5, 8]);
}

#[test]
fn new_app_holds_the_built_in_registry() {
    let app = TemplateApp::new(None);
    assert_built_in(app.actions());
    assert_eq!(app.score(), 0);
}

#[test]
fn new_app_takes_up_the_saved_score() {
    let app = TemplateApp::new(Some(42));
    assert_built_in(app.actions());
    assert_eq!(app.score(), 42);
    assert_eq!(TemplateApp::new(Some(-3)).score(), -3);
}

#[test]
fn default_app_is_a_new_app_without_a_saved_score() {
    let app = TemplateApp::default();
    assert_built_in(app.actions());
    assert_eq!(app.score(), 0);
}

#[test]
fn loading_a_configuration_replaces_the_registry() {
    let mut app = TemplateApp::new(Some(9));
    assert!(app.load_actions(Some(configuration())));
    assert_same_actions(app.actions(), &configuration());
    assert_eq!(app.score(), 9);
}

#[test]
fn loading_an_empty_configuration_empties_the_registry() {
    let mut app = TemplateApp::new(None);
    assert!(app.load_actions(Some(Vec::new())));
    assert!(app.actions().is_empty());
    assert!(app.calculate());
    assert_eq!(app.score(), 0);
}

#[test]
fn loading_a_malformed_configuration_leaves_the_built_in_registry() {
    let mut app = TemplateApp::new(Some(9));
    assert!(!app.load_actions(None));
    assert_built_in(app.actions());
    assert_eq!(app.score(), 9);
}

#[test]
fn loading_a_malformed_configuration_falls_back_from_a_loaded_registry() {
    let mut app = TemplateApp::new(Some(9));
    assert!(app.load_actions(Some(configuration())));
    assert_same_actions(app.actions(), &configuration());
    assert!(!app.load_actions(None));
    assert_built_in(app.actions());
    assert_eq!(app.score(), 9);
}

#[test]
fn loading_a_malformed_configuration_falls_back_from_an_empty_registry() {
    let mut app = TemplateApp::new(None);
    assert!(app.load_actions(Some(Vec::new())));
    assert!(app.actions().is_empty());
    assert!(!app.load_actions(None));
    assert_built_in(app.actions());
}

#[test]
fn loading_after_a_fallback_replaces_the_registry_again() {
    let mut app = TemplateApp::new(None);
    assert!(!app.load_actions(None));
    assert!(app.load_actions(Some(configuration())));
    assert_same_actions(app.actions(), &configuration());
}

#[test]
fn reset_restores_the_built_in_registry_and_the_score() {
    let mut app = TemplateApp::new(Some(5));
    app.load_actions(Some(configuration()));
    assert!(app.calculate());
    assert_eq!(app.score(), 6 + 10 + 1 - 8);
    app.reset_actions();
    assert_built_in(app.actions());
    assert_eq!(app.score(), 0);
    assert!(app.calculate());
    assert_eq!(app.score(), 0);
}

#[test]
fn reset_undoes_counts_set_on_the_built_in_registry() {
    let mut app = TemplateApp::new(None);
    app.set_checked(0, true);
    app.set_count(1, 7);
    app.set_count(2, 3);
    assert!(app.calculate());
    assert_eq!(app.score(), 2 + 28 + 4);
    app.reset_actions();
    assert_built_in(app.actions());
    assert_eq!(app.score(), 0);
}

#[test]
fn third_built_in_action_at_three_scores_four() {
    let mut app = TemplateApp::new(None);
    assert!(app.set_count(2, 3));
    assert!(app.calculate());
    assert_eq!(app.score(), 4);
}

#[test]
fn set_count_clamps_to_the_control() {
    let mut app = TemplateApp::new(None);
    assert!(app.set_count(1, 99));
    assert_eq!(app.actions()[1].count, 10);
    assert!(app.set_count(1, -99));
    assert_eq!(app.actions()[1].count, 0);
    assert!(app.set_count(2, 6));
    assert_eq!(app.actions()[2].count, 5);
    assert!(app.set_count(0, 2));
    assert_eq!(app.actions()[0].count, 1);
    assert!(app.calculate());
    assert_eq!(app.score(), 2 + 0 + 8);
}

#[test]
fn set_count_changes_one_action_only() {
    let mut app = TemplateApp::new(Some(3));
    app.load_actions(Some(configuration()));
    assert!(app.set_count(0, 4));
    let mut expected = configuration();
    expected[0].count = 4;
    assert_same_actions(app.actions(), &expected);
    assert_eq!(app.score(), 3);
}

#[test]
fn set_count_past_the_registry_changes_nothing() {
    let mut app = TemplateApp::new(None);
    app.load_actions(Some(configuration()));
    assert!(!app.set_count(4, 1));
    assert!(!app.set_count(usize::MAX, 1));
    assert!(!app.set_checked(4, true));
    assert_same_actions(app.actions(), &configuration());
}

#[test]
fn set_checked_sets_one_or_zero() {
    let mut app = TemplateApp::new(None);
    assert!(app.set_checked(0, true));
    assert_eq!(app.actions()[0].count, 1);
    assert!(app.set_checked(0, false));
    assert_eq!(app.actions()[0].count, 0);
}

#[test]
fn calculate_keeps_the_score_where_there_is_none() {
    let mut app = TemplateApp::new(Some(11));
    app.load_actions(Some(vec![action("x", STAGED, 10, 3, &[0, 10, 25])]));
    assert!(!app.calculate());
    assert_eq!(app.score(), 11);
    app.load_actions(Some(vec![action("a", i32::MAX, 10, 2, &[])]));
    assert!(!app.calculate());
    assert_eq!(app.score(), 11);
}

#[test]
fn calculate_is_on_demand() {
    let mut app = TemplateApp::new(None);
    app.set_count(1, 2);
    assert_eq!(app.score(), 0);
    assert!(app.calculate());
    assert_eq!(app.score(), 8);
    app.set_count(1, 3);
    assert_eq!(app.score(), 8);
}

#[test]
fn update_takes_a_configuration() {
    let mut app = TemplateApp::new(Some(1));
    let command = app.update(Event::ConfigurationChosen(Some(configuration())));
    assert_eq!(command, Command::Redraw);
    assert_same_actions(app.actions(), &configuration());
    assert_eq!(app.score(), 1);
}

#[test]
fn update_reports_a_configuration_that_could_not_be_read() {
    let mut app = TemplateApp::new(Some(1));
    let command = app.update(Event::ConfigurationChosen(None));
    assert_eq!(command, Command::ReportLoadFailure);
    assert_built_in(app.actions());
    assert_eq!(app.score(), 1);
}

#[test]
fn update_falls_back_to_the_built_in_registry_after_a_failed_reload() {
    let mut app = TemplateApp::new(Some(1));
    app.update(Event::ConfigurationChosen(Some(configuration())));
    assert_same_actions(app.actions(), &configuration());
    let command = app.update(Event::ConfigurationChosen(None));
    assert_eq!(command, Command::ReportLoadFailure);
    assert_built_in(app.actions());
    assert_eq!(app.score(), 1);
}

#[test]
fn update_falls_back_from_an_empty_registry() {
    let mut app = TemplateApp::new(None);
    app.update(Event::ConfigurationChosen(Some(Vec::new())));
    assert!(app.actions().is_empty());
    assert_eq!(app.update(Event::ConfigurationChosen(None)), Command::ReportLoadFailure);
    assert_built_in(app.actions());
}

#[test]
fn update_falls_back_to_counts_at_zero_and_keeps_the_score() {
    let mut app = TemplateApp::new(None);
    app.update(Event::SliderMoved { index: 1, value: 3 });
    app.update(Event::Calculate);
    assert_eq!(app.score(), 12);
    assert_eq!(app.update(Event::ConfigurationChosen(None)), Command::ReportLoadFailure);
    assert_built_in(app.actions());
    assert_eq!(app.score(), 12);
}

#[test]
fn fall_back_restores_the_built_in_registry_and_leaves_the_score() {
    let mut app = TemplateApp::new(Some(8));
    app.load_actions(Some(configuration()));
    app.fall_back();
    assert_built_in(app.actions());
    assert_eq!(app.score(), 8);
}

#[test]
fn update_resets() {
    let mut app = TemplateApp::new(Some(1));
    app.update(Event::ConfigurationChosen(Some(configuration())));
    assert_eq!(app.update(Event::ResetActions), Command::Redraw);
    assert_built_in(app.actions());
    assert_eq!(app.score(), 0);
}

#[test]
fn update_moves_a_slider() {
    let mut app = TemplateApp::new(None);
    assert_eq!(app.update(Event::SliderMoved { index: 2, value: 4 }), Command::Redraw);
    assert_eq!(app.actions()[2].count, 4);
    assert_eq!(app.update(Event::SliderMoved { index: 2, value: 40 }), Command::Redraw);
    assert_eq!(app.actions()[2].count, 5);
    assert_eq!(app.update(Event::SliderMoved { index: 3, value: 1 }), Command::Redraw);
    assert_built_in_but_for_counts(app.actions());
}

fn assert_built_in_but_for_counts(actions: &[ScoringAction]) {
    let mut at_rest = actions.to_vec();
    for action in &mut at_rest {
        action.count = 0;
    }
    assert_built_in(&at_rest);
}

#[test]
fn update_clicks_a_checkbox() {
    let mut app = TemplateApp::new(None);
    assert_eq!(app.update(Event::CheckboxClicked { index: 0, checked: true }), Command::Redraw);
    assert_eq!(app.actions()[0].count, 1);
    assert_eq!(app.update(Event::CheckboxClicked { index: 0, checked: false }), Command::Redraw);
    assert_eq!(app.actions()[0].count, 0);
}

#[test]
fn update_calculates() {
    let mut app = TemplateApp::new(None);
    app.update(Event::CheckboxClicked { index: 0, checked: true });
    app.update(Event::SliderMoved { index: 1, value: 2 });
    app.update(Event::SliderMoved { index: 2, value: 1 });
    assert_eq!(app.update(Event::Calculate), Command::Redraw);
    assert_eq!(app.score(), 2 + 8 + 3);
}

#[test]
fn update_reports_a_registry_without_a_score() {
    let mut app = TemplateApp::new(Some(6));
    app.update(Event::ConfigurationChosen(Some(vec![action("x", STAGED, 10, -1, &[0, 10])])));
    assert_eq!(app.update(Event::Calculate), Command::ReportScoreFailure);
    assert_eq!(app.score(), 6);
}

#[test]
fn update_closes_on_quit() {
    let mut app = TemplateApp::new(Some(6));
    assert_eq!(app.update(Event::Quit), Command::Close);
    assert_built_in(app.actions());
    assert_eq!(app.score(), 6);
}
