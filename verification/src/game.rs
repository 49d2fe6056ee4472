//! The scoring action record and its mathematical model.

use vstd::prelude::*;

verus! {

/// The point value that selects staged scoring.
pub const STAGED: i32 = -1;

/// One scoreable action of the competition.
#[derive(Clone, Debug)]
pub struct ScoringAction {
    /// Opaque identifier, generated when the action is created.
    pub id: String,
    pub description: String,
    pub name: String,
    /// Grouping key; several actions may share a phase.
    pub phase: i32,
    /// Points per unit of `count`, or `STAGED` to score through `pointstages`.
    pub pointvalue: i32,
    /// Upper bound of `count` in linear mode; unused in staged mode.
    pub max_count: i32,
    /// The quantity set by the user; in staged mode an index into `pointstages`.
    pub count: i32,
    /// Score by stage, used when `pointvalue` is `STAGED`.
    pub pointstages: Vec<i32>,
}

/// What a scoring action is, as plain mathematical values.
pub struct ActionView {
    pub id: Seq<char>,
    pub description: Seq<char>,
    pub name: Seq<char>,
    pub phase: int,
    pub pointvalue: int,
    pub max_count: int,
    pub count: int,
    pub pointstages: Seq<int>,
}

impl View for ScoringAction {
    type V = ActionView;

    open spec fn view(&self) -> ActionView {
        ActionView {
            id: self.id@,
            description: self.description@,
            name: self.name@,
            phase: self.phase as int,
            pointvalue: self.pointvalue as int,
            max_count: self.max_count as int,
            count: self.count as int,
            pointstages: self.pointstages@.map_values(|p: i32| p as int),
        }
    }
}

/// Whether `c` may stand at `position` of a random identifier in hyphenated
/// form: a hyphen after the 8th, 12th, 16th and 20th digit, the version
/// digit `4` at the head of the third group, and a lower-case hexadecimal
/// digit anywhere else.
pub open spec fn identifier_char(position: int, c: char) -> bool {
    if position == 8 || position == 13 || position == 18 || position == 23 {
        c == '-'
    } else if position == 14 {
        c == '4'
    } else {
        ('0' <= c <= '9') || ('a' <= c <= 'f')
    }
}

/// Whether a text has the shape of a random identifier in hyphenated form.
pub open spec fn is_identifier_text(text: Seq<char>) -> bool {
    &&& text.len() == 36
    &&& forall|i: int| 0 <= i < 36 ==> identifier_char(i, #[trigger] text[i])
}

/// Draws a fresh random identifier by `uuid::Uuid::new_v4` and renders it by
/// the `to_string` of `uuid::Uuid`. Which identifier comes out is left open;
/// the contract claims only the shape that every rendered version 4
/// identifier has. The call fails where the system has no random bytes to
/// give.
#[verifier::external_body]
pub(crate) fn fresh_identifier() -> (id: String)
    ensures
        is_identifier_text(id@),
{
    uuid::Uuid::new_v4().to_string()
}

/// The description of an action that was given none.
pub open spec fn no_description() -> Seq<char> {
    seq!['N', '/', 'A']
}

/// The `count` limit in linear mode of an action that was given none.
pub const DEFAULT_MAX_COUNT: i32 = 10;

/// What a newly made action holds, apart from its identifier.
pub open spec fn blank_action(id: Seq<char>) -> ActionView {
    ActionView {
        id,
        description: no_description(),
        name: Seq::empty(),
        phase: 0,
        pointvalue: 0,
        max_count: DEFAULT_MAX_COUNT as int,
        count: 0,
        pointstages: Seq::empty(),
    }
}

impl ScoringAction {
    /// A blank action under the identifier given.
    pub fn with_id(id: String) -> (action: Self)
        ensures
            action@ == blank_action(id@),
    {
        let description = "N/A".to_owned();
        proof {
            reveal_strlit("N/A");
            assert(description@ =~= no_description());
        }
        let action = ScoringAction {
            id,
            description,
            name: String::new(),
            phase: 0,
            pointvalue: 0,
            max_count: DEFAULT_MAX_COUNT,
            count: 0,
            pointstages: Vec::new(),
        };
        assert(action@.pointstages =~= Seq::empty());
        action
    }
}

impl Default for ScoringAction {
    /// A blank action under a fresh random identifier.
    fn default() -> (action: Self)
        ensures
            is_identifier_text(action@.id),
            action@ == blank_action(action@.id),
    {
        ScoringAction::with_id(fresh_identifier())
    }
}

/// How many actions the built-in registry holds.
pub const BUILTIN_ACTIONS: usize = 3;

/// The point stages of the built-in staged action.
pub open spec fn builtin_stages() -> Seq<int> {
    seq![0, 3, 7, 4, 5, 8]
}

/// The built-in action at `index`, under the identifier given: at 0 a
/// single takeoff worth 2 points and at 1 up to ten deliveries worth 4
/// points each, both in phase 1; at 2 a stack scored by its height, in
/// phase 2.
pub open spec fn builtin_action(index: int, id: Seq<char>) -> ActionView {
    if index == 0 {
        ActionView {
            id,
            description: "Drone leaves the launch pad"@,
            name: "Takeoff"@,
            phase: 1,
            pointvalue: 2,
            max_count: 1,
            count: 0,
            pointstages: Seq::empty(),
        }
    } else if index == 1 {
        ActionView {
            id,
            description: "Packages delivered"@,
            name: "Delivery"@,
            phase: 1,
            pointvalue: 4,
            max_count: DEFAULT_MAX_COUNT as int,
            count: 0,
            pointstages: Seq::empty(),
        }
    } else {
        ActionView {
            id,
            description: "Height of the stack"@,
            name: "Stacking"@,
            phase: 2,
            pointvalue: STAGED as int,
            max_count: DEFAULT_MAX_COUNT as int,
            count: 0,
            pointstages: builtin_stages(),
        }
    }
}

/// Whether a registry is the built-in one: the built-in actions in their
/// order, each under whatever identifier it was given.
pub open spec fn is_builtin_registry(actions: Seq<ActionView>) -> bool {
    &&& actions.len() == BUILTIN_ACTIONS
    &&& forall|i: int|
        0 <= i < actions.len() ==> #[trigger] actions[i] == builtin_action(i, actions[i].id)
}

/// Whether every action of a registry stands under a text of the shape of a
/// random identifier.
pub open spec fn has_identifiers(actions: Seq<ActionView>) -> bool {
    forall|i: int| 0 <= i < actions.len() ==> is_identifier_text((#[trigger] actions[i]).id)
}

/// The built-in registry under the three identifiers given.
pub fn default_actions_with_ids(first: String, second: String, third: String) -> (actions: Vec<
    ScoringAction,
>)
    ensures
        registry_view(actions@) == seq![
            builtin_action(0, first@),
            builtin_action(1, second@),
            builtin_action(2, third@),
        ],
        is_builtin_registry(registry_view(actions@)),
{
    let takeoff = ScoringAction {
        id: first,
        description: "Drone leaves the launch pad".to_owned(),
        name: "Takeoff".to_owned(),
        phase: 1,
        pointvalue: 2,
        max_count: 1,
        count: 0,
        pointstages: Vec::new(),
    };
    let delivery = ScoringAction {
        id: second,
        description: "Packages delivered".to_owned(),
        name: "Delivery".to_owned(),
        phase: 1,
        pointvalue: 4,
        max_count: DEFAULT_MAX_COUNT,
        count: 0,
        pointstages: Vec::new(),
    };
    let mut stages: Vec<i32> = Vec::new();
    stages.push(0);
    stages.push(3);
    stages.push(7);
    stages.push(4);
    stages.push(5);
    stages.push(8);
    let stacking = ScoringAction {
        id: third,
        description: "Height of the stack".to_owned(),
        name: "Stacking".to_owned(),
        phase: 2,
        pointvalue: STAGED,
        max_count: DEFAULT_MAX_COUNT,
        count: 0,
        pointstages: stages,
    };
    proof {
        assert(takeoff@.pointstages =~= Seq::empty());
        assert(delivery@.pointstages =~= Seq::empty());
        assert(stacking@.pointstages =~= builtin_stages());
    }
    let mut actions: Vec<ScoringAction> = Vec::new();
    actions.push(takeoff);
    actions.push(delivery);
    actions.push(stacking);
    proof {
        assert(registry_view(actions@) =~= seq![
            builtin_action(0, first@),
            builtin_action(1, second@),
            builtin_action(2, third@),
        ]);
    }
    actions
}

/// The built-in registry, each action under a fresh random identifier.
pub fn initialize_default_actions() -> (actions: Vec<ScoringAction>)
    ensures
        is_builtin_registry(registry_view(actions@)),
        has_identifiers(registry_view(actions@)),
{
    let first = fresh_identifier();
    let second = fresh_identifier();
    let third = fresh_identifier();
    default_actions_with_ids(first, second, third)
}

/// The model of a registry: the views of its actions, in order.
pub open spec fn registry_view(actions: Seq<ScoringAction>) -> Seq<ActionView> {
    actions.map_values(|a: ScoringAction| a@)
}

} // verus!
