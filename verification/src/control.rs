//! Which control an action is shown with, and the counts that it admits.

use crate::game::{ActionView, ScoringAction, STAGED};
use crate::scoring::scorable;
use vstd::prelude::*;

verus! {

/// The control that sets the count of one action.
#[derive(Clone, Copy, Debug, PartialEq, Eq, Structural)]
pub enum Control {
    /// A slider over the counts from 0 to `max`.
    Slider { max: i32 },
    /// A checkbox for an action that is done once or not at all.
    Checkbox { checked: bool },
}

/// Whether an action is scored through its point stages: it is marked as
/// staged and has stages to look up.
pub open spec fn uses_stages(a: ActionView) -> bool {
    a.pointvalue == STAGED && a.pointstages.len() > 0
}

/// The largest count that the control of an action admits: the last index of
/// the stages where they are used, else `max_count`, and never less than 0.
pub open spec fn count_limit(a: ActionView) -> int {
    if uses_stages(a) {
        if a.pointstages.len() - 1 <= i32::MAX {
            a.pointstages.len() - 1
        } else {
            i32::MAX as int
        }
    } else if a.max_count > 0 {
        a.max_count
    } else {
        0
    }
}

/// The control of an action: a slider up to the count limit where stages are
/// used or more than one unit can be counted, a checkbox otherwise.
pub open spec fn control_of(a: ActionView) -> Control {
    if uses_stages(a) || a.max_count > 1 {
        Control::Slider { max: count_limit(a) as i32 }
    } else {
        Control::Checkbox { checked: a.count == 1 }
    }
}

/// The count nearest to `value` that the control of an action admits.
pub open spec fn clamped_count(a: ActionView, value: int) -> int {
    if value < 0 {
        0
    } else if value > count_limit(a) {
        count_limit(a)
    } else {
        value
    }
}

/// Whether the count of an action lies in the range of its mode: an index
/// into the stages in staged mode, from 0 to `max_count` in linear mode.
pub open spec fn count_in_range(a: ActionView) -> bool {
    if a.pointvalue == STAGED {
        0 <= a.count < a.pointstages.len()
    } else {
        0 <= a.count <= a.max_count
    }
}

/// Whether the mode of an action admits any count at all.
pub open spec fn admits_a_count(a: ActionView) -> bool {
    if a.pointvalue == STAGED {
        a.pointstages.len() > 0
    } else {
        a.max_count >= 0
    }
}

/// An action with `count` put in place of its count.
pub open spec fn with_count(a: ActionView, count: int) -> ActionView {
    ActionView { count, ..a }
}

impl ScoringAction {
    /// The largest count that the control of this action admits.
    pub fn count_limit(&self) -> (limit: i32)
        ensures
            limit == count_limit(self@),
            limit >= 0,
    {
        if self.pointvalue == STAGED && self.pointstages.len() > 0 {
            let last = self.pointstages.len() - 1;
            if last <= i32::MAX as usize {
                last as i32
            } else {
                i32::MAX
            }
        } else if self.max_count > 0 {
            self.max_count
        } else {
            0
        }
    }

    /// The control that this action is shown with.
    pub fn control(&self) -> (control: Control)
        ensures
            control == control_of(self@),
    {
        if (self.pointvalue == STAGED && self.pointstages.len() > 0) || self.max_count > 1 {
            Control::Slider { max: self.count_limit() }
        } else {
            Control::Checkbox { checked: self.count == 1 }
        }
    }

    /// Sets the count to the value nearest to `value` that the control
    /// admits, and leaves everything else as it was.
    pub fn set_count(&mut self, value: i32)
        ensures
            final(self)@ == with_count(old(self)@, clamped_count(old(self)@, value as int)),
    {
        let limit = self.count_limit();
        if value < 0 {
            self.count = 0;
        } else if value > limit {
            self.count = limit;
        } else {
            self.count = value;
        }
    }
}

/// A clamped count lies in the range of the action's mode, wherever the mode
/// admits a count at all; the action can then be scored.
pub proof fn lemma_clamped_count_in_range(a: ActionView, value: int)
    requires
        admits_a_count(a),
    ensures
        count_in_range(with_count(a, clamped_count(a, value))),
        scorable(with_count(a, clamped_count(a, value))),
{
}

/// A count in the range of its mode is what clamping leaves alone, as long
/// as it fits the counter.
pub proof fn lemma_clamp_keeps_count_in_range(a: ActionView)
    requires
        count_in_range(a),
        a.count <= i32::MAX,
    ensures
        clamped_count(a, a.count) == a.count,
{
}

} // verus!
