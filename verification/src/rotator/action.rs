//! Actions as they are rotated: single ones, and ones that are linked to be performed in a row.

use vstd::prelude::*;

use crate::models::{Action, ActionCondition};
use crate::player::actions::{PlayerAction, PlayerActionView};
use crate::player::context::{PlayerContext, PlayerContextView};

verus! {

/// Actions that are performed in a row, without another one in between.
#[derive(Debug)]
pub struct LinkedAction {
    pub inner: PlayerAction,
    pub next: Option<Box<LinkedAction>>,
}

/// The actions of a row, in order.
pub open spec fn linked_row(linked: LinkedAction) -> Seq<PlayerActionView>
    decreases linked,
{
    match linked.next {
        Some(next) => seq![linked.inner@] + linked_row(*next),
        None => seq![linked.inner@],
    }
}

impl View for LinkedAction {
    type V = Seq<PlayerActionView>;

    open spec fn view(&self) -> Seq<PlayerActionView> {
        linked_row(*self)
    }
}

impl Clone for LinkedAction {
    fn clone(&self) -> (r: Self)
        ensures
            r@ == self@,
        decreases self,
    {
        let next = match &self.next {
            Some(next) => {
                let copy: LinkedAction = (**next).clone();
                Some(Box::new(copy))
            },
            None => None,
        };
        LinkedAction { inner: self.inner.clone(), next }
    }
}

/// An action as it is rotated.
#[derive(Debug)]
pub enum RotatorAction {
    Single(PlayerAction),
    /// Performed in order until completion. No other action takes over in between.
    Linked(LinkedAction),
}

/// What a [`RotatorAction`] holds.
pub enum RotatorActionView {
    Single(PlayerActionView),
    Linked(Seq<PlayerActionView>),
}

impl View for RotatorAction {
    type V = RotatorActionView;

    open spec fn view(&self) -> RotatorActionView {
        match self {
            RotatorAction::Single(action) => RotatorActionView::Single(action@),
            RotatorAction::Linked(linked) => RotatorActionView::Linked(linked@),
        }
    }
}

impl Clone for RotatorAction {
    fn clone(&self) -> (r: Self)
        ensures
            r@ == self@,
    {
        match self {
            RotatorAction::Single(action) => RotatorAction::Single(action.clone()),
            RotatorAction::Linked(linked) => RotatorAction::Linked(linked.clone()),
        }
    }
}

/// The rest of a row that is being performed, with the id it was given under.
pub type Queuing = Option<(u32, Box<LinkedAction>)>;

/// What a [`Queuing`] holds.
pub open spec fn queuing_view(queuing: Queuing) -> Option<(u32, Seq<PlayerActionView>)> {
    match queuing {
        Some((id, linked)) => Some((id, (*linked)@)),
        None => None,
    }
}

/// The rest of a row after its first action.
pub open spec fn row_rest(
    id: u32,
    row: Seq<PlayerActionView>,
) -> Option<(u32, Seq<PlayerActionView>)> {
    if row.len() <= 1 {
        None
    } else {
        Some((id, row.skip(1)))
    }
}

/// The player's actions once `action` is given to the player, in precedence or in rotation.
pub open spec fn assigned(
    context: PlayerContextView,
    id: Option<u32>,
    action: PlayerActionView,
    is_priority: bool,
) -> PlayerContextView {
    if is_priority {
        context.with_priority(id, action)
    } else {
        context.with_normal(id, action)
    }
}

/// Gives the player the next action of a row. Whether there was one.
pub fn rotate_queuing_linked_action(
    queuing: &mut Queuing,
    player_context: &mut PlayerContext,
    is_priority: bool,
) -> (r: bool)
    ensures
        r == (queuing_view(*old(queuing)) is Some),
        match queuing_view(*old(queuing)) {
            Some((id, row)) => {
                &&& row.len() > 0
                &&& queuing_view(*final(queuing)) == row_rest(id, row)
                &&& final(player_context)@ == assigned(
                    old(player_context)@,
                    Some(id),
                    row[0],
                    is_priority,
                )
            },
            None => {
                &&& *final(queuing) == *old(queuing)
                &&& *final(player_context) == *old(player_context)
            },
        },
{
    match queuing.take() {
        Some((id, linked)) => {
            let LinkedAction { inner, next } = *linked;
            match next {
                Some(next) => {
                    assert(linked@.skip(1) == (*next)@);
                    assert((*next)@.len() > 0) by {
                        reveal_with_fuel(linked_row, 2);
                    }
                    *queuing = Some((id, next));
                },
                None => {},
            }
            if is_priority {
                player_context.set_priority_action(Some(id), inner);
            } else {
                player_context.set_normal_action(Some(id), inner);
            }
            true
        },
        None => false,
    }
}

/// Whether the action at `index` follows right after the one before it.
pub open spec fn is_linked(actions: Seq<Action>, index: int) -> bool {
    0 <= index < actions.len() && actions[index].spec_condition() == ActionCondition::Linked
}

/// How many actions in a row from `index` on follow right after the one before them.
pub open spec fn linked_run(actions: Seq<Action>, index: int) -> nat
    decreases actions.len() - index,
{
    if is_linked(actions, index) {
        1 + linked_run(actions, index + 1)
    } else {
        0
    }
}

/// The row of the action at `index` and the `count` actions after it.
pub open spec fn row_from(
    actions: Seq<Action>,
    index: int,
    count: nat,
    ms_per_tick: u64,
) -> LinkedAction
    decreases count,
{
    LinkedAction {
        inner: actions[index].spec_player_action(ms_per_tick),
        next: if count == 0 {
            None
        } else {
            Some(Box::new(row_from(actions, index + 1, (count - 1) as nat, ms_per_tick)))
        },
    }
}

/// The action at `index` as it is rotated, together with the actions linked to it.
pub open spec fn rotated(actions: Seq<Action>, index: int, ms_per_tick: u64) -> RotatorAction {
    let run = linked_run(actions, index + 1);
    if run == 0 {
        RotatorAction::Single(actions[index].spec_player_action(ms_per_tick))
    } else {
        RotatorAction::Linked(row_from(actions, index, run, ms_per_tick))
    }
}

/// A run of linked actions ends within the actions, before one that is not linked.
pub proof fn linked_run_is_bounded(actions: Seq<Action>, index: int)
    requires
        0 <= index <= actions.len(),
    ensures
        index + linked_run(actions, index) <= actions.len(),
        !is_linked(actions, index + linked_run(actions, index)),
    decreases actions.len() - index,
{
    if is_linked(actions, index) {
        linked_run_is_bounded(actions, index + 1);
    }
}

fn is_linked_action(action: &Action) -> (r: bool)
    ensures
        r == (action.spec_condition() == ActionCondition::Linked),
{
    match action.condition() {
        ActionCondition::Linked => true,
        _ => false,
    }
}

/// Makes a [`RotatorAction`] of the action at `start_index`, and counts how many actions it
/// takes: the action itself and those linked to it.
pub fn rotator_action(start_index: usize, actions: &Vec<Action>, ms_per_tick: u64) -> (r: (
    RotatorAction,
    usize,
))
    requires
        start_index < actions.len(),
        ms_per_tick > 0,
    ensures
        r.0 == rotated(actions@, start_index as int, ms_per_tick),
        r.1 == 1 + linked_run(actions@, start_index + 1),
        start_index + r.1 <= actions.len(),
        !is_linked(actions@, start_index + r.1),
{
    proof {
        linked_run_is_bounded(actions@, start_index + 1);
    }
    let mut end: usize = start_index + 1;
    while end < actions.len() && is_linked_action(&actions[end])
        invariant
            start_index < end <= actions.len(),
            linked_run(actions@, start_index + 1) == (end - (start_index + 1)) + linked_run(
                actions@,
                end as int,
            ),
        decreases actions.len() - end,
    {
        end += 1;
    }
    assert(linked_run(actions@, end as int) == 0);
    if end == start_index + 1 {
        return (RotatorAction::Single(actions[start_index].player_action(ms_per_tick)), 1);
    }
    let mut last: usize = end - 1;
    let mut row = LinkedAction { inner: actions[last].player_action(ms_per_tick), next: None };
    assert(row == row_from(actions@, last as int, 0, ms_per_tick));
    while last > start_index
        invariant
            start_index <= last < end <= actions.len(),
            ms_per_tick > 0,
            row == row_from(actions@, last as int, (end - 1 - last) as nat, ms_per_tick),
        decreases last,
    {
        last -= 1;
        row = LinkedAction {
            inner: actions[last].player_action(ms_per_tick),
            next: Some(Box::new(row)),
        };
    }
    (RotatorAction::Linked(row), end - start_index)
}

} // verus!
