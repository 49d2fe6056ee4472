//! The score evaluator: what each action contributes, and their sum.

use crate::game::{registry_view, ActionView, ScoringAction, STAGED};
use vstd::prelude::*;

verus! {

/// Whether an action can be scored: a staged action needs `count` to be an
/// index into its point stages. A linear action can always be scored.
pub open spec fn scorable(a: ActionView) -> bool {
    a.pointvalue == STAGED ==> 0 <= a.count < a.pointstages.len()
}

/// Whether every action of a registry can be scored.
pub open spec fn all_scorable(actions: Seq<ActionView>) -> bool {
    forall|i: int| 0 <= i < actions.len() ==> scorable(#[trigger] actions[i])
}

/// What one action adds to the score: the stage looked up by `count` in
/// staged mode, `pointvalue * count` in linear mode.
pub open spec fn contribution(a: ActionView) -> int {
    if a.pointvalue == STAGED {
        a.pointstages[a.count]
    } else {
        a.pointvalue * a.count
    }
}

/// The score of a registry: the sum of the contributions of its actions.
pub open spec fn total_score(actions: Seq<ActionView>) -> int
    decreases actions.len(),
{
    if actions.len() == 0 {
        0
    } else {
        total_score(actions.drop_last()) + contribution(actions.last())
    }
}

/// Whether a score can be reported as an `i32`.
pub open spec fn fits_i32(score: int) -> bool {
    i32::MIN <= score <= i32::MAX
}

/// The score of a registry as an `i32`, where it has one: where every
/// action can be scored and the sum fits.
pub open spec fn score_of(actions: Seq<ActionView>) -> Option<i32> {
    if all_scorable(actions) && fits_i32(total_score(actions)) {
        Some(total_score(actions) as i32)
    } else {
        None
    }
}

/// The largest magnitude that one contribution can have.
pub open spec fn contribution_bound() -> int {
    0x4000_0000_0000_0000
}

impl ScoringAction {
    /// Whether this action can be scored without reaching past its stages.
    pub fn is_scorable(&self) -> (ok: bool)
        ensures
            ok == scorable(self@),
    {
        if self.pointvalue == STAGED {
            0 <= self.count && (self.count as usize) < self.pointstages.len()
        } else {
            true
        }
    }

    /// What this action adds to the score. The product of two `i32` may not
    /// fit an `i32`, so the contribution is handed out as an `i64`.
    pub fn contribution(&self) -> (points: i64)
        requires
            scorable(self@),
        ensures
            points == contribution(self@),
            self.pointvalue != STAGED ==> points == self.pointvalue * self.count,
            self.pointvalue == STAGED ==> points == self.pointstages[self.count as int],
            -contribution_bound() <= points <= contribution_bound(),
    {
        if self.pointvalue == STAGED {
            self.pointstages[self.count as usize] as i64
        } else {
            let value = self.pointvalue as i64;
            let count = self.count as i64;
            assert(-0x4000_0000_0000_0000 <= value * count <= 0x4000_0000_0000_0000)
                by (nonlinear_arith)
                requires
                    -0x8000_0000 <= value <= 0x7fff_ffff,
                    -0x8000_0000 <= count <= 0x7fff_ffff,
            ;
            value * count
        }
    }
}

/// Whether every action of the registry can be scored.
pub fn registry_is_scorable(actions: &Vec<ScoringAction>) -> (ok: bool)
    ensures
        ok == all_scorable(registry_view(actions@)),
{
    let mut i: usize = 0;
    while i < actions.len()
        invariant
            i <= actions.len(),
            forall|j: int| 0 <= j < i ==> scorable(#[trigger] registry_view(actions@)[j]),
        decreases actions.len() - i,
    {
        if !actions[i].is_scorable() {
            assert(!scorable(registry_view(actions@)[i as int]));
            return false;
        }
        i += 1;
    }
    true
}

/// The sum of all contributions, wide enough for any registry.
fn sum_contributions(actions: &Vec<ScoringAction>) -> (sum: i128)
    requires
        all_scorable(registry_view(actions@)),
    ensures
        sum == total_score(registry_view(actions@)),
{
    let ghost model = registry_view(actions@);
    let mut sum: i128 = 0;
    let mut i: usize = 0;
    while i < actions.len()
        invariant
            i <= actions.len(),
            model == registry_view(actions@),
            all_scorable(model),
            sum == total_score(model.take(i as int)),
            -(i * contribution_bound()) <= sum <= i * contribution_bound(),
        decreases actions.len() - i,
    {
        assert(scorable(model[i as int]));
        let points = actions[i].contribution();
        proof {
            assert(model.take(i + 1).drop_last() =~= model.take(i as int));
            assert(model.take(i + 1).last() == actions[i as int]@);
        }
        sum = sum + points as i128;
        i += 1;
    }
    proof {
        assert(model.take(i as int) =~= model);
    }
    sum
}

/// Reduces the registry to its score.
///
/// A staged action whose `count` is no index into its stages has no score,
/// and neither has a registry whose sum leaves the range of `i32`: both are
/// left out here, and `checked_score` tells them apart from the rest.
pub fn scoring_processor(populated_game: Vec<ScoringAction>) -> (score: i32)
    requires
        all_scorable(registry_view(populated_game@)),
        fits_i32(total_score(registry_view(populated_game@))),
    ensures
        score == total_score(registry_view(populated_game@)),
{
    sum_contributions(&populated_game) as i32
}

/// The score of the registry, or `None` where it has none: where some staged
/// action points past its stages, or the sum does not fit an `i32`.
pub fn checked_score(actions: &Vec<ScoringAction>) -> (score: Option<i32>)
    ensures
        score == score_of(registry_view(actions@)),
{
    if !registry_is_scorable(actions) {
        return None;
    }
    let sum = sum_contributions(actions);
    if sum < i32::MIN as i128 || sum > i32::MAX as i128 {
        None
    } else {
        Some(sum as i32)
    }
}

/// Taking one action out of a registry takes its contribution off the score.
pub proof fn lemma_total_score_remove(actions: Seq<ActionView>, i: int)
    requires
        0 <= i < actions.len(),
    ensures
        total_score(actions) == total_score(actions.remove(i)) + contribution(actions[i]),
    decreases actions.len(),
{
    if i == actions.len() - 1 {
        assert(actions.remove(i) =~= actions.drop_last());
    } else {
        lemma_total_score_remove(actions.drop_last(), i);
        assert(actions.remove(i).drop_last() =~= actions.drop_last().remove(i));
        assert(actions.remove(i).last() == actions.last());
    }
}

/// The score of two registries joined is the sum of their scores.
pub proof fn lemma_total_score_concat(front: Seq<ActionView>, back: Seq<ActionView>)
    ensures
        total_score(front + back) == total_score(front) + total_score(back),
    decreases back.len(),
{
    if back.len() == 0 {
        assert(front + back =~= front);
    } else {
        lemma_total_score_concat(front, back.drop_last());
        assert((front + back).drop_last() =~= front + back.drop_last());
        assert((front + back).last() == back.last());
    }
}

/// The score does not depend on the order of the actions: two registries
/// that hold the same actions, each as often as the other, have one score.
pub proof fn lemma_total_score_order_independent(a: Seq<ActionView>, b: Seq<ActionView>)
    requires
        a.to_multiset() == b.to_multiset(),
    ensures
        total_score(a) == total_score(b),
    decreases a.len(),
{
    a.to_multiset_ensures();
    b.to_multiset_ensures();
    if a.len() == 0 {
        assert(b.len() == 0);
    } else {
        let x = a.last();
        let rest = a.drop_last();
        assert(a =~= rest.push(x));
        rest.to_multiset_ensures();
        assert(a.to_multiset().count(x) > 0);
        assert(b.contains(x));
        let j = choose|j: int| 0 <= j < b.len() && b[j] == x;
        assert(rest.to_multiset() =~= a.to_multiset().remove(x));
        assert(b.remove(j).to_multiset() =~= rest.to_multiset());
        lemma_total_score_order_independent(rest, b.remove(j));
        lemma_total_score_remove(b, j);
    }
}

/// Whether an action at rest contributes nothing: its count is zero, and in
/// staged mode its first stage exists and is worth zero.
pub open spec fn at_rest(a: ActionView) -> bool {
    &&& a.count == 0
    &&& a.pointvalue == STAGED ==> a.pointstages.len() > 0 && a.pointstages[0] == 0
}

/// A registry whose actions are all at rest scores zero.
pub proof fn lemma_total_score_at_rest(actions: Seq<ActionView>)
    requires
        forall|i: int| 0 <= i < actions.len() ==> at_rest(#[trigger] actions[i]),
    ensures
        all_scorable(actions),
        total_score(actions) == 0,
    decreases actions.len(),
{
    if actions.len() > 0 {
        lemma_total_score_at_rest(actions.drop_last());
        assert(at_rest(actions[actions.len() - 1]));
    }
}

} // verus!
