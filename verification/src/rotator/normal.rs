//! The actions in rotation.

use vstd::prelude::*;

use super::action::{
    assigned, queuing_view, rotate_queuing_linked_action, row_rest, Queuing, RotatorAction,
    RotatorActionView,
};
use crate::player::actions::PlayerActionView;
use crate::player::context::{PlayerContext, PlayerContextView};

verus! {

/// The actions in rotation.
#[derive(Debug)]
pub struct NormalRotation {
    /// The actions, each with its id.
    pub actions: Vec<(u32, RotatorAction)>,
    /// The rest of the row that is being performed.
    pub queuing_linked_action: Queuing,
    pub index: usize,
    /// Whether the actions are being gone through from the end.
    pub backward: bool,
}

/// What a [`NormalRotation`] holds.
pub struct NormalView {
    pub actions: Seq<(u32, RotatorActionView)>,
    pub queuing: Option<(u32, Seq<PlayerActionView>)>,
    pub index: int,
    pub backward: bool,
}

/// What the actions of a [`NormalRotation`] hold.
pub open spec fn actions_view(actions: Seq<(u32, RotatorAction)>) -> Seq<(u32, RotatorActionView)> {
    actions.map_values(|action: (u32, RotatorAction)| (action.0, action.1@))
}

impl View for NormalRotation {
    type V = NormalView;

    open spec fn view(&self) -> NormalView {
        NormalView {
            actions: actions_view(self.actions@),
            queuing: queuing_view(self.queuing_linked_action),
            index: self.index as int,
            backward: self.backward,
        }
    }
}

/// Where going through `len` actions and back is: the position of the next action, and the index
/// and the direction after it.
pub open spec fn there_and_back(len: int, index: int, backward: bool) -> (int, int, bool) {
    let turns = index + 1 == len;
    let index = if turns {
        0
    } else {
        index
    };
    let backward = if turns {
        !backward
    } else {
        backward
    };
    let position = if backward {
        len - index - 1
    } else {
        index
    };
    (position, (index + 1) % len, backward)
}

impl NormalView {
    /// Whether the index is that of an action, if there is one.
    pub open spec fn wf(self) -> bool {
        self.actions.len() > 0 ==> 0 <= self.index < self.actions.len()
    }

    /// Without progress.
    pub open spec fn restarted(self) -> NormalView {
        NormalView { index: 0, queuing: None, ..self }
    }

    /// The rotation and the player's actions once the row that is being performed goes on.
    pub open spec fn row_goes_on(self, context: PlayerContextView) -> (
        NormalView,
        PlayerContextView,
    ) {
        let (id, row) = self.queuing->0;
        (
            NormalView { queuing: row_rest(id, row), ..self },
            assigned(context, Some(id), row[0], false),
        )
    }

    /// The rotation and the player's actions once the action at `position` is started.
    pub open spec fn started(self, position: int, context: PlayerContextView) -> (
        NormalView,
        PlayerContextView,
    ) {
        let (id, action) = self.actions[position];
        match action {
            RotatorActionView::Single(action) => (self, context.with_normal(Some(id), action)),
            RotatorActionView::Linked(row) => {
                (NormalView { queuing: Some((id, row)), ..self }).row_goes_on(context)
            },
        }
    }

    /// What [`NormalRotation::rotate_start_to_end`] does.
    pub open spec fn start_to_end(self, context: PlayerContextView) -> (
        NormalView,
        PlayerContextView,
    ) {
        if context.normal is Some || self.actions.len() == 0 {
            (self, context)
        } else if self.queuing is Some {
            self.row_goes_on(context)
        } else {
            let next = NormalView { index: (self.index + 1) % (self.actions.len() as int), ..self };
            next.started(self.index, context)
        }
    }

    /// What [`NormalRotation::rotate_start_to_end_then_reverse`] does.
    pub open spec fn start_to_end_then_reverse(self, context: PlayerContextView) -> (
        NormalView,
        PlayerContextView,
    ) {
        if context.normal is Some || self.actions.len() == 0 {
            (self, context)
        } else if self.queuing is Some {
            self.row_goes_on(context)
        } else {
            let (position, index, backward) = there_and_back(
                self.actions.len() as int,
                self.index,
                self.backward,
            );
            (NormalView { index, backward, ..self }).started(position, context)
        }
    }

    /// Whether the player is performing a row, or has the rest of one before it.
    pub open spec fn has_row(self, context: PlayerContextView) -> bool {
        ||| self.queuing is Some
        ||| context.normal_id() is Some && exists|i: int|
            0 <= i < self.actions.len() && (#[trigger] self.actions[i]).0 == context.normal_id()->0
                && self.actions[i].1 is Linked
    }
}

impl NormalRotation {
    /// Nothing in rotation.
    pub fn new() -> (r: NormalRotation)
        ensures
            r@ == (NormalView { actions: seq![], queuing: None, index: 0, backward: false }),
    {
        let r = NormalRotation {
            actions: Vec::new(),
            queuing_linked_action: None,
            index: 0,
            backward: false,
        };
        assert(r@.actions == Seq::<(u32, RotatorActionView)>::empty());
        r
    }

    /// Starts over, without turning around.
    pub fn reset_queue(&mut self)
        ensures
            final(self)@ == old(self)@.restarted(),
            final(self).actions == old(self).actions,
    {
        self.index = 0;
        self.queuing_linked_action = None;
    }

    /// Whether the player is performing a row, or has the rest of one before it.
    pub fn has_linked_action_queuing_or_executing(&self, player_context: &PlayerContext) -> (r:
        bool)
        ensures
            r == self@.has_row(player_context@),
    {
        if self.queuing_linked_action.is_some() {
            return true;
        }
        let id: u32 = match player_context.normal_action_id() {
            Some(id) => id,
            None => {
                return false;
            },
        };
        let mut i: usize = 0;
        while i < self.actions.len()
            invariant
                i <= self.actions.len(),
                player_context@.normal_id() == Some(id),
                forall|j: int|
                    0 <= j < i ==> !((#[trigger] self@.actions[j]).0 == id
                        && self@.actions[j].1 is Linked),
            decreases self.actions.len() - i,
        {
            assert(self@.actions[i as int] == (self.actions@[i as int].0, self.actions@[i as int].1@));
            let (action_id, action) = &self.actions[i];
            if *action_id == id {
                if let RotatorAction::Linked(_) = action {
                    return true;
                }
            }
            i += 1;
        }
        false
    }

    fn start(&mut self, position: usize, player_context: &mut PlayerContext)
        requires
            position < old(self).actions.len(),
        ensures
            (final(self)@, final(player_context)@) == old(self)@.started(
                position as int,
                old(player_context)@,
            ),
            final(self).actions == old(self).actions,
    {
        assert(self@.actions[position as int] == (
            self.actions@[position as int].0,
            self.actions@[position as int].1@,
        ));
        let id: u32 = self.actions[position].0;
        let action = self.actions[position].1.clone();
        match action {
            RotatorAction::Single(action) => {
                player_context.set_normal_action(Some(id), action);
            },
            RotatorAction::Linked(linked) => {
                self.queuing_linked_action = Some((id, Box::new(linked)));
                rotate_queuing_linked_action(
                    &mut self.queuing_linked_action,
                    player_context,
                    false,
                );
            },
        }
    }

    /// Gives the player the next action, from the first to the last and over again.
    pub fn rotate_start_to_end(&mut self, player_context: &mut PlayerContext)
        requires
            old(self)@.wf(),
        ensures
            (final(self)@, final(player_context)@) == old(self)@.start_to_end(old(player_context)@),
            final(self)@.wf(),
            final(self).actions == old(self).actions,
    {
        if player_context.has_normal_action() || self.actions.len() == 0 {
            return ;
        }
        if rotate_queuing_linked_action(&mut self.queuing_linked_action, player_context, false) {
            return ;
        }
        let position: usize = self.index;
        self.index = (self.index + 1) % self.actions.len();
        self.start(position, player_context);
    }

    /// Gives the player the next action, from the first to the last, back to the first and over
    /// again.
    pub fn rotate_start_to_end_then_reverse(&mut self, player_context: &mut PlayerContext)
        requires
            old(self)@.wf(),
        ensures
            (final(self)@, final(player_context)@) == old(self)@.start_to_end_then_reverse(
                old(player_context)@,
            ),
            final(self)@.wf(),
            final(self).actions == old(self).actions,
    {
        if player_context.has_normal_action() || self.actions.len() == 0 {
            return ;
        }
        if rotate_queuing_linked_action(&mut self.queuing_linked_action, player_context, false) {
            return ;
        }
        let len: usize = self.actions.len();
        if self.index + 1 == len {
            self.backward = !self.backward;
            self.index = 0;
        }
        let position: usize = if self.backward {
            len - self.index - 1
        } else {
            self.index
        };
        self.index = (self.index + 1) % len;
        self.start(position, player_context);
    }
}

/// The positions that going through `len` actions and back visits, one after the other from the
/// start: the index and the direction before the visit with the given number.
pub open spec fn before_visit(len: int, visit: nat) -> (int, bool)
    decreases visit,
{
    if visit == 0 {
        (0, false)
    } else {
        let (index, backward) = before_visit(len, (visit - 1) as nat);
        let (_, index, backward) = there_and_back(len, index, backward);
        (index, backward)
    }
}

/// The position of the visit with the given number.
pub open spec fn visited(len: int, visit: nat) -> int {
    let (index, backward) = before_visit(len, visit);
    there_and_back(len, index, backward).0
}

/// Going through the actions and back visits them in order up to the last one, then in reverse
/// order down to the first one, and so on: neither end is visited twice in a row.
pub proof fn goes_there_and_back(len: int, visit: nat)
    requires
        len >= 2,
    ensures
        ({
            let period = 2 * (len - 1);
            let step = visit as int % period;
            visited(len, visit) == if step < len {
                step
            } else {
                period - step
            }
        }),
{
    before_visit_is(len, visit);
    vstd::arithmetic::div_mod::lemma_small_mod(0, (2 * (len - 1)) as nat);
    vstd::arithmetic::div_mod::lemma_mod_bound(visit as int, 2 * (len - 1));
}

proof fn before_visit_is(len: int, visit: nat)
    requires
        len >= 2,
    ensures
        ({
            let period = 2 * (len - 1);
            let step = visit as int % period;
            before_visit(len, visit) == if visit == 0 {
                (0int, false)
            } else if step == 0 {
                (len - 1, true)
            } else if step < len {
                (step, false)
            } else {
                (step - (len - 1), true)
            }
        }),
    decreases visit,
{
    let period = 2 * (len - 1);
    if visit > 0 {
        let before = (visit - 1) as nat;
        before_visit_is(len, before);
        let step = before as int % period;
        assert(visit as int % period == if step + 1 == period {
            0
        } else {
            step + 1
        }) by {
            vstd::arithmetic::div_mod::lemma_fundamental_div_mod(before as int, period);
            let q = before as int / period;
            if step + 1 == period {
                assert(visit as int == (q + 1) * period) by (nonlinear_arith)
                    requires
                        before as int == period * q + step,
                        step + 1 == period,
                        visit == before + 1,
                ;
                vstd::arithmetic::div_mod::lemma_fundamental_div_mod_converse(
                    visit as int,
                    period,
                    q + 1,
                    0,
                );
            } else {
                vstd::arithmetic::div_mod::lemma_fundamental_div_mod_converse(
                    visit as int,
                    period,
                    q,
                    step + 1,
                );
            }
        }
        let (index, _) = before_visit(len, before);
        if index + 1 != len {
            assert((index + 1) % len == index + 1) by {
                vstd::arithmetic::div_mod::lemma_small_mod((index + 1) as nat, len as nat);
            }
        }
        assert(1int % len == 1) by {
            vstd::arithmetic::div_mod::lemma_small_mod(1, len as nat);
        }
    }
}

} // verus!
