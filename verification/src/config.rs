//! Configurations: actions as a configuration states them, with the fields
//! that it leaves out, and the registry that they make.

use crate::game::{
    blank_action, fresh_identifier, is_identifier_text, registry_view, ActionView, ScoringAction,
    DEFAULT_MAX_COUNT,
};
use vstd::prelude::*;

verus! {

/// One action as a configuration states it: each field given or left out.
#[derive(Clone, Debug)]
pub struct ActionDraft {
    pub id: Option<String>,
    pub description: Option<String>,
    pub name: Option<String>,
    pub phase: Option<i32>,
    pub pointvalue: Option<i32>,
    pub max_count: Option<i32>,
    pub count: Option<i32>,
    pub pointstages: Option<Vec<i32>>,
}

/// What a draft is, as plain mathematical values.
pub struct DraftView {
    pub id: Option<Seq<char>>,
    pub description: Option<Seq<char>>,
    pub name: Option<Seq<char>>,
    pub phase: Option<int>,
    pub pointvalue: Option<int>,
    pub max_count: Option<int>,
    pub count: Option<int>,
    pub pointstages: Option<Seq<int>>,
}

/// A text field of a draft as its characters.
pub open spec fn text_view(field: Option<String>) -> Option<Seq<char>> {
    match field {
        Some(text) => Some(text@),
        None => None,
    }
}

/// A number field of a draft as a mathematical integer.
pub open spec fn number_view(field: Option<i32>) -> Option<int> {
    match field {
        Some(number) => Some(number as int),
        None => None,
    }
}

impl View for ActionDraft {
    type V = DraftView;

    open spec fn view(&self) -> DraftView {
        DraftView {
            id: text_view(self.id),
            description: text_view(self.description),
            name: text_view(self.name),
            phase: number_view(self.phase),
            pointvalue: number_view(self.pointvalue),
            max_count: number_view(self.max_count),
            count: number_view(self.count),
            pointstages: match self.pointstages {
                Some(stages) => Some(stages@.map_values(|p: i32| p as int)),
                None => None,
            },
        }
    }
}

/// The field where it is given, the fallback where it is left out.
pub open spec fn given_or<T>(field: Option<T>, fallback: T) -> T {
    match field {
        Some(value) => value,
        None => fallback,
    }
}

/// The action that a draft stands for: every field that is given as it is
/// given, and every other as a blank action under the identifier `fresh`
/// has it.
pub open spec fn completed(draft: DraftView, fresh: Seq<char>) -> ActionView {
    let blank = blank_action(fresh);
    ActionView {
        id: given_or(draft.id, blank.id),
        description: given_or(draft.description, blank.description),
        name: given_or(draft.name, blank.name),
        phase: given_or(draft.phase, blank.phase),
        pointvalue: given_or(draft.pointvalue, blank.pointvalue),
        max_count: given_or(draft.max_count, blank.max_count),
        count: given_or(draft.count, blank.count),
        pointstages: given_or(draft.pointstages, blank.pointstages),
    }
}

/// Whether `actions` is what `drafts` stand for, one action per draft and
/// in their order; an identifier that a draft leaves out is a fresh one.
pub open spec fn completes(drafts: Seq<DraftView>, actions: Seq<ActionView>) -> bool {
    &&& actions.len() == drafts.len()
    &&& forall|i: int|
        0 <= i < drafts.len() ==> {
            &&& #[trigger] actions[i] == completed(drafts[i], actions[i].id)
            &&& drafts[i].id is None ==> is_identifier_text(actions[i].id)
        }
}

/// The views of drafts, in order.
pub open spec fn drafts_view(drafts: Seq<ActionDraft>) -> Seq<DraftView> {
    drafts.map_values(|d: ActionDraft| d@)
}

impl ActionDraft {
    /// A draft that leaves every field out.
    pub fn empty() -> (draft: Self)
        ensures
            draft@ == (DraftView {
                id: None,
                description: None,
                name: None,
                phase: None,
                pointvalue: None,
                max_count: None,
                count: None,
                pointstages: None,
            }),
    {
        ActionDraft {
            id: None,
            description: None,
            name: None,
            phase: None,
            pointvalue: None,
            max_count: None,
            count: None,
            pointstages: None,
        }
    }
}

impl ScoringAction {
    /// The action that a draft stands for. A field that the draft leaves
    /// out is filled as in a blank action; an identifier that it leaves out
    /// is drawn afresh.
    pub fn from_draft(draft: ActionDraft) -> (action: Self)
        ensures
            action@ == completed(draft@, action@.id),
            draft@.id is None ==> is_identifier_text(action@.id),
    {
        let id = match draft.id {
            Some(id) => id,
            None => fresh_identifier(),
        };
        let description = match draft.description {
            Some(description) => description,
            None => {
                proof {
                    reveal_strlit("N/A");
                }
                "N/A".to_owned()
            },
        };
        let name = match draft.name {
            Some(name) => name,
            None => String::new(),
        };
        let pointstages = match draft.pointstages {
            Some(stages) => stages,
            None => Vec::new(),
        };
        let action = ScoringAction {
            id,
            description,
            name,
            phase: match draft.phase {
                Some(phase) => phase,
                None => 0,
            },
            pointvalue: match draft.pointvalue {
                Some(pointvalue) => pointvalue,
                None => 0,
            },
            max_count: match draft.max_count {
                Some(max_count) => max_count,
                None => DEFAULT_MAX_COUNT,
            },
            count: match draft.count {
                Some(count) => count,
                None => 0,
            },
            pointstages,
        };
        proof {
            let model = completed(draft@, action@.id);
            assert(action@.description =~= model.description);
            assert(action@.pointstages =~= model.pointstages);
        }
        action
    }
}

/// The registry that a configuration stands for: one action per draft, in
/// the order of the drafts.
pub fn registry_from_drafts(drafts: Vec<ActionDraft>) -> (actions: Vec<ScoringAction>)
    ensures
        completes(drafts_view(drafts@), registry_view(actions@)),
{
    let ghost given = drafts@;
    let mut actions: Vec<ScoringAction> = Vec::new();
    for draft in it: drafts
        invariant
            it.seq() == given,
            actions.len() == it.index(),
            completes(drafts_view(given.take(it.index() as int)), registry_view(actions@)),
    {
        let ghost before = registry_view(actions@);
        let action = ScoringAction::from_draft(draft);
        actions.push(action);
        proof {
            let n = it.index() as int;
            let stated = drafts_view(given.take(n + 1));
            let made = registry_view(actions@);
            assert forall|i: int| 0 <= i < stated.len() implies {
                &&& #[trigger] made[i] == completed(stated[i], made[i].id)
                &&& stated[i].id is None ==> is_identifier_text(made[i].id)
            } by {
                if i < n {
                    assert(made[i] == before[i]);
                    assert(stated[i] == drafts_view(given.take(n))[i]);
                }
            }
        }
    }
    proof {
        assert(given.take(given.len() as int) =~= given);
    }
    actions
}

} // verus!
