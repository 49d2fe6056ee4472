//! The calculator's state, and what each thing the user does makes of it.

use crate::control::{clamped_count, with_count};
use crate::game::{
    builtin_action, has_identifiers, initialize_default_actions, is_builtin_registry,
    registry_view, ActionView, ScoringAction,
};
use crate::scoring::{at_rest, checked_score, lemma_total_score_at_rest, score_of, total_score};
use vstd::prelude::*;

verus! {

/// The calculator: the registry of actions and the score last calculated.
pub struct TemplateApp {
    actions: Vec<ScoringAction>,
    score: i32,
}

/// What the calculator is, as plain mathematical values.
pub struct AppView {
    pub actions: Seq<ActionView>,
    pub score: int,
}

impl View for TemplateApp {
    type V = AppView;

    closed spec fn view(&self) -> AppView {
        AppView { actions: registry_view(self.actions@), score: self.score as int }
    }
}

/// What the user did, as far as the calculator's state is concerned.
pub enum Event {
    /// A configuration file was chosen: `Some` with the actions read from
    /// it, `None` where it could not be read as a configuration, so that
    /// the built-in actions take its place.
    ConfigurationChosen(Option<Vec<ScoringAction>>),
    /// The registry is to go back to the built-in actions.
    ResetActions,
    /// The slider of the action at `index` was moved to `value`.
    SliderMoved { index: usize, value: i32 },
    /// The checkbox of the action at `index` was clicked and now shows
    /// `checked`.
    CheckboxClicked { index: usize, checked: bool },
    /// The score is to be calculated anew.
    Calculate,
    /// The calculator is to close.
    Quit,
}

/// What is left to do outside the state once an event was taken in.
#[derive(Clone, Copy, Debug, PartialEq, Eq, Structural)]
pub enum Command {
    /// Nothing but to draw the state again.
    Redraw,
    /// Tell the user that the configuration could not be loaded and the
    /// built-in actions are in effect.
    ReportLoadFailure,
    /// Tell the user that the registry has no score.
    ReportScoreFailure,
    /// Close the window.
    Close,
}

/// The state with `actions` in place of the registry: what a
/// configuration that was read makes of it.
pub open spec fn after_load(app: AppView, actions: Seq<ActionView>) -> AppView {
    AppView { actions, score: app.score }
}

/// The state after the count of the action at `index` was set to `value`:
/// the count is clamped to what the action's control admits; an index past
/// the registry changes nothing.
pub open spec fn after_set_count(app: AppView, index: int, value: int) -> AppView {
    if 0 <= index < app.actions.len() {
        let action = app.actions[index];
        AppView {
            actions: app.actions.update(index, with_count(action, clamped_count(action, value))),
            score: app.score,
        }
    } else {
        app
    }
}

/// The count that a checkbox stands for.
pub open spec fn checkbox_count(checked: bool) -> int {
    if checked {
        1
    } else {
        0
    }
}

/// The state after the score was asked for: the registry's score where it
/// has one, the state as it was otherwise.
pub open spec fn after_calculate(app: AppView) -> AppView {
    match score_of(app.actions) {
        Some(score) => AppView { actions: app.actions, score: score as int },
        None => app,
    }
}

/// The built-in registry scores zero.
pub proof fn lemma_builtin_registry_scores_zero(actions: Seq<ActionView>)
    requires
        is_builtin_registry(actions),
    ensures
        total_score(actions) == 0,
{
    assert forall|i: int| 0 <= i < actions.len() implies at_rest(#[trigger] actions[i]) by {
        assert(actions[i] == builtin_action(i, actions[i].id));
    }
    lemma_total_score_at_rest(actions);
}

impl TemplateApp {
    /// The calculator as it starts: the built-in registry, and the score
    /// that was saved when it last closed, or 0 where none was.
    pub fn new(saved_score: Option<i32>) -> (app: Self)
        ensures
            is_builtin_registry(app@.actions),
            has_identifiers(app@.actions),
            app@.score == match saved_score {
                Some(score) => score as int,
                None => 0,
            },
    {
        let score = match saved_score {
            Some(score) => score,
            None => 0,
        };
        TemplateApp { actions: initialize_default_actions(), score }
    }

    /// The registry.
    pub fn actions(&self) -> (actions: &Vec<ScoringAction>)
        ensures
            registry_view(actions@) == self@.actions,
    {
        &self.actions
    }

    /// The score last calculated.
    pub fn score(&self) -> (score: i32)
        ensures
            score == self@.score,
    {
        self.score
    }

    /// Takes in what came of reading a configuration. A configuration that
    /// was read replaces the registry, action by action and field by field;
    /// where it could not be read, the built-in registry takes its place,
    /// whatever registry was in effect. The score stays either way. Returns
    /// whether a configuration was taken in.
    pub fn load_actions(&mut self, loaded: Option<Vec<ScoringAction>>) -> (replaced: bool)
        ensures
            replaced == loaded.is_some(),
            match loaded {
                Some(actions) => {
                    &&& final(self)@ == after_load(old(self)@, registry_view(actions@))
                    &&& final(self)@.actions.len() == actions.len()
                },
                None => {
                    &&& is_builtin_registry(final(self)@.actions)
                    &&& has_identifiers(final(self)@.actions)
                    &&& final(self)@.score == old(self)@.score
                },
            },
    {
        match loaded {
            Some(actions) => {
                self.actions = actions;
                true
            },
            None => {
                self.fall_back();
                false
            },
        }
    }

    /// Falls back to the built-in registry, whatever registry was in effect,
    /// and leaves the score.
    pub fn fall_back(&mut self)
        ensures
            is_builtin_registry(final(self)@.actions),
            has_identifiers(final(self)@.actions),
            final(self)@.score == old(self)@.score,
    {
        self.actions = initialize_default_actions();
    }

    /// Puts the built-in registry in place and the score back to 0, whatever
    /// the state was.
    pub fn reset_actions(&mut self)
        ensures
            is_builtin_registry(final(self)@.actions),
            has_identifiers(final(self)@.actions),
            final(self)@.score == 0,
            total_score(final(self)@.actions) == 0,
    {
        self.actions = initialize_default_actions();
        self.score = 0;
        proof {
            lemma_builtin_registry_scores_zero(self@.actions);
        }
    }

    /// Sets the count of the action at `index` to the value nearest to
    /// `value` that its control admits. Returns whether there is such an
    /// action.
    pub fn set_count(&mut self, index: usize, value: i32) -> (found: bool)
        ensures
            found == (index < old(self)@.actions.len()),
            final(self)@ == after_set_count(old(self)@, index as int, value as int),
    {
        if index < self.actions.len() {
            self.actions[index].set_count(value);
            proof {
                assert(self@.actions =~= after_set_count(
                    old(self)@,
                    index as int,
                    value as int,
                ).actions);
            }
            true
        } else {
            false
        }
    }

    /// Sets the count of the action at `index` to what its checkbox shows:
    /// 1 where it is checked and the action admits it, 0 otherwise.
    pub fn set_checked(&mut self, index: usize, checked: bool) -> (found: bool)
        ensures
            found == (index < old(self)@.actions.len()),
            final(self)@ == after_set_count(old(self)@, index as int, checkbox_count(checked)),
    {
        self.set_count(index, if checked { 1 } else { 0 })
    }

    /// Calculates the score of the registry and keeps it. Where the registry
    /// has no score, because a staged action points past its stages or the
    /// sum does not fit, the score stays as it was. Returns whether a score
    /// was calculated.
    pub fn calculate(&mut self) -> (calculated: bool)
        ensures
            calculated == score_of(old(self)@.actions).is_some(),
            final(self)@ == after_calculate(old(self)@),
            calculated ==> final(self)@.score == total_score(old(self)@.actions),
    {
        match checked_score(&self.actions) {
            Some(score) => {
                self.score = score;
                true
            },
            None => false,
        }
    }

    /// Takes in one event and says what is left to do outside the state.
    pub fn update(&mut self, event: Event) -> (command: Command)
        ensures
            match event {
                Event::ConfigurationChosen(Some(actions)) => {
                    &&& final(self)@ == after_load(old(self)@, registry_view(actions@))
                    &&& command == Command::Redraw
                },
                Event::ConfigurationChosen(None) => {
                    &&& is_builtin_registry(final(self)@.actions)
                    &&& has_identifiers(final(self)@.actions)
                    &&& final(self)@.score == old(self)@.score
                    &&& command == Command::ReportLoadFailure
                },
                Event::ResetActions => {
                    &&& is_builtin_registry(final(self)@.actions)
                    &&& has_identifiers(final(self)@.actions)
                    &&& final(self)@.score == 0
                    &&& command == Command::Redraw
                },
                Event::SliderMoved { index, value } => {
                    &&& final(self)@ == after_set_count(old(self)@, index as int, value as int)
                    &&& command == Command::Redraw
                },
                Event::CheckboxClicked { index, checked } => {
                    &&& final(self)@ == after_set_count(
                        old(self)@,
                        index as int,
                        checkbox_count(checked),
                    )
                    &&& command == Command::Redraw
                },
                Event::Calculate => {
                    &&& final(self)@ == after_calculate(old(self)@)
                    &&& command == if score_of(old(self)@.actions).is_some() {
                        Command::Redraw
                    } else {
                        Command::ReportScoreFailure
                    }
                },
                Event::Quit => {
                    &&& final(self)@ == old(self)@
                    &&& command == Command::Close
                },
            },
    {
        match event {
            Event::ConfigurationChosen(loaded) => {
                if self.load_actions(loaded) {
                    Command::Redraw
                } else {
                    Command::ReportLoadFailure
                }
            },
            Event::ResetActions => {
                self.reset_actions();
                Command::Redraw
            },
            Event::SliderMoved { index, value } => {
                self.set_count(index, value);
                Command::Redraw
            },
            Event::CheckboxClicked { index, checked } => {
                self.set_checked(index, checked);
                Command::Redraw
            },
            Event::Calculate => {
                if self.calculate() {
                    Command::Redraw
                } else {
                    Command::ReportScoreFailure
                }
            },
            Event::Quit => Command::Close,
        }
    }
}

impl Default for TemplateApp {
    /// The calculator with the built-in registry and no score yet.
    fn default() -> (app: Self)
        ensures
            is_builtin_registry(app@.actions),
            has_identifiers(app@.actions),
            app@.score == 0,
    {
        TemplateApp::new(None)
    }
}

} // verus!
