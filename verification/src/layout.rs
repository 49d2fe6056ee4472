//! How the registry is laid out for display: the phases in the order in
//! which they first occur, the actions of one phase, and the action that a
//! control acts on.

use crate::game::{registry_view, ActionView, ScoringAction};
use itertools::Itertools;
use vstd::prelude::*;

verus! {

/// A sequence without its repetitions: each value stays where it first
/// occurred, and every later occurrence is left out.
pub open spec fn first_occurrences<T>(s: Seq<T>) -> Seq<T>
    decreases s.len(),
{
    if s.len() == 0 {
        Seq::empty()
    } else if s.drop_last().contains(s.last()) {
        first_occurrences(s.drop_last())
    } else {
        first_occurrences(s.drop_last()).push(s.last())
    }
}

/// The phases of the actions of a registry, in the order of the actions.
pub open spec fn phase_column(actions: Seq<ActionView>) -> Seq<int> {
    actions.map_values(|a: ActionView| a.phase)
}

/// The phases of a registry, each once, in the order of first occurrence.
pub open spec fn phases_of(actions: Seq<ActionView>) -> Seq<int> {
    first_occurrences(phase_column(actions))
}

/// Integers of the machine as mathematical ones.
pub open spec fn as_ints(s: Seq<i32>) -> Seq<int> {
    s.map_values(|p: i32| p as int)
}

/// Removes the repetitions from a list of phases by the `unique` adaptor of
/// `itertools::Itertools`, collected into a vector. The adaptor hands on an
/// item the first time it meets it and drops it ever after, so what comes
/// out is the input without its repetitions, in the input's order.
#[verifier::external_body]
fn unique_phases(phases: Vec<i32>) -> (distinct: Vec<i32>)
    ensures
        distinct@ == first_occurrences(phases@),
{
    phases.into_iter().unique().collect()
}

/// A sequence without its repetitions holds the same values, each once.
pub proof fn lemma_first_occurrences<T>(s: Seq<T>)
    ensures
        first_occurrences(s).no_duplicates(),
        forall|x: T| first_occurrences(s).contains(x) <==> s.contains(x),
    decreases s.len(),
{
    let out = first_occurrences(s);
    if s.len() > 0 {
        let front = s.drop_last();
        let x = s.last();
        lemma_first_occurrences(front);
        assert(s =~= front.push(x));
        assert forall|y: T| out.contains(y) <==> s.contains(y) by {
            let kept = first_occurrences(front);
            if s.contains(y) {
                let i = choose|i: int| 0 <= i < s.len() && s[i] == y;
                if i < front.len() {
                    assert(front[i] == y);
                    assert(front.contains(y));
                    assert(kept.contains(y));
                    let k = choose|k: int| 0 <= k < kept.len() && kept[k] == y;
                    assert(out[k] == y);
                } else if front.contains(x) {
                    assert(kept.contains(y));
                } else {
                    assert(out[kept.len() as int] == y);
                }
            }
            if out.contains(y) {
                let k = choose|k: int| 0 <= k < out.len() && out[k] == y;
                if k < kept.len() {
                    assert(kept[k] == y);
                    assert(front.contains(y));
                    let i = choose|i: int| 0 <= i < front.len() && front[i] == y;
                    assert(s[i] == y);
                } else {
                    assert(s[s.len() - 1] == y);
                }
            }
        }
    }
}

/// Taking the repetitions out of machine integers and reading the rest as
/// mathematical integers is the same as reading first and taking out then.
pub proof fn lemma_first_occurrences_as_ints(s: Seq<i32>)
    ensures
        as_ints(first_occurrences(s)) == first_occurrences(as_ints(s)),
    decreases s.len(),
{
    if s.len() == 0 {
        assert(as_ints(first_occurrences(s)) =~= first_occurrences(as_ints(s)));
    } else {
        let front = s.drop_last();
        let x = s.last();
        lemma_first_occurrences_as_ints(front);
        assert(as_ints(s).drop_last() =~= as_ints(front));
        assert(as_ints(s).last() == x as int);
        if front.contains(x) {
            let i = choose|i: int| 0 <= i < front.len() && front[i] == x;
            assert(as_ints(front)[i] == x as int);
        }
        if as_ints(front).contains(x as int) {
            let i = choose|i: int| 0 <= i < front.len() && as_ints(front)[i] == x as int;
            assert(front[i] == x);
        }
        assert(as_ints(first_occurrences(front).push(x)) =~= as_ints(
            first_occurrences(front),
        ).push(x as int));
    }
}

/// The phases of the registry, each once, in the order in which they first
/// occur among the actions.
pub fn distinct_phases(actions: &Vec<ScoringAction>) -> (phases: Vec<i32>)
    ensures
        as_ints(phases@) == phases_of(registry_view(actions@)),
{
    let mut column: Vec<i32> = Vec::new();
    let mut i: usize = 0;
    while i < actions.len()
        invariant
            i <= actions.len(),
            column.len() == i,
            forall|j: int| 0 <= j < i ==> column[j] == (#[trigger] actions[j]).phase,
        decreases actions.len() - i,
    {
        column.push(actions[i].phase);
        i += 1;
    }
    proof {
        assert(as_ints(column@) =~= phase_column(registry_view(actions@)));
        lemma_first_occurrences_as_ints(column@);
    }
    unique_phases(column)
}

/// Whether `picked` lists the actions of one phase: the indices of exactly
/// the actions of that phase, in rising order.
pub open spec fn lists_phase(actions: Seq<ActionView>, phase: int, picked: Seq<int>) -> bool {
    &&& forall|k: int|
        0 <= k < picked.len() ==> 0 <= #[trigger] picked[k] < actions.len()
            && actions[picked[k]].phase == phase
    &&& forall|i: int|
        0 <= i < actions.len() && (#[trigger] actions[i]).phase == phase ==> picked.contains(i)
    &&& forall|k: int, l: int| 0 <= k < l < picked.len() ==> picked[k] < picked[l]
}

/// Indices of the machine as mathematical integers.
pub open spec fn as_indices(s: Seq<usize>) -> Seq<int> {
    s.map_values(|i: usize| i as int)
}

/// The indices of the actions of one phase, in the order of the registry.
pub fn actions_in_phase(actions: &Vec<ScoringAction>, phase: i32) -> (picked: Vec<usize>)
    ensures
        lists_phase(registry_view(actions@), phase as int, as_indices(picked@)),
{
    let ghost model = registry_view(actions@);
    let mut picked: Vec<usize> = Vec::new();
    let mut i: usize = 0;
    while i < actions.len()
        invariant
            i <= actions.len(),
            model == registry_view(actions@),
            lists_phase(model.take(i as int), phase as int, as_indices(picked@)),
        decreases actions.len() - i,
    {
        let ghost before = as_indices(picked@);
        if actions[i].phase == phase {
            picked.push(i);
        }
        proof {
            let after = as_indices(picked@);
            let seen = model.take(i + 1);
            assert forall|n: int|
                0 <= n < seen.len() && (#[trigger] seen[n]).phase == phase implies after.contains(
                n,
            ) by {
                if n < i {
                    assert(model.take(i as int)[n].phase == phase);
                    let k = choose|k: int| 0 <= k < before.len() && before[k] == n;
                    assert(after[k] == n);
                } else {
                    assert(after[after.len() - 1] == n);
                }
            }
            assert forall|k: int| 0 <= k < after.len() implies 0 <= #[trigger] after[k]
                < seen.len() && seen[after[k]].phase == phase by {
                if k < before.len() {
                    assert(after[k] == before[k]);
                }
            }
            assert forall|k: int, l: int| 0 <= k < l < after.len() implies after[k] < after[l] by {
                if l < before.len() {
                    assert(after[k] == before[k] && after[l] == before[l]);
                } else {
                    assert(after[k] == before[k]);
                }
            }
        }
        i += 1;
    }
    proof {
        assert(model.take(i as int) =~= model);
    }
    picked
}

/// The index of the first action under the identifier given: the action
/// that a control shown for that identifier acts on.
pub fn position_of_id(actions: &Vec<ScoringAction>, id: &String) -> (position: Option<usize>)
    ensures
        match position {
            Some(i) => {
                &&& i < actions.len()
                &&& registry_view(actions@)[i as int].id == id@
                &&& forall|j: int| 0 <= j < i ==> (#[trigger] registry_view(actions@)[j]).id != id@
            },
            None => forall|j: int|
                0 <= j < actions.len() ==> (#[trigger] registry_view(actions@)[j]).id != id@,
        },
{
    let mut i: usize = 0;
    while i < actions.len()
        invariant
            i <= actions.len(),
            forall|j: int| 0 <= j < i ==> (#[trigger] registry_view(actions@)[j]).id != id@,
        decreases actions.len() - i,
    {
        if actions[i].id == *id {
            return Some(i);
        }
        i += 1;
    }
    None
}

} // verus!
