//! Searching the states of a state group.
use crate::ez_state_partial_copy::{EzStateStateGroup, EzStateStateGroupView, EzStateStateView};
use crate::ez_state_state_extender::{contains_entry_event_with_text_id, EzStateStateExtender};
use crate::ez_state_transition_extender::{targets_open_repository_state, EzStateTransitionExtender};
use vstd::prelude::*;

verus! {

/// The group's own state at `i` adds the text `text_id` to the talk list, and
/// no earlier one does.
pub open spec fn is_first_state_with_text_id(g: EzStateStateGroupView, text_id: u32, i: int) -> bool {
    &&& 0 <= i < g.group_state_count
    &&& contains_entry_event_with_text_id(g.states[i], text_id)
    &&& forall|j: int| 0 <= j < i ==> !contains_entry_event_with_text_id(#[trigger] g.states[j], text_id)
}

/// Whether one of the group's own states adds the text `text_id` to the talk list.
pub open spec fn group_has_state_with_text_id(g: EzStateStateGroupView, text_id: u32) -> bool {
    exists|i: int| 0 <= i < g.group_state_count && contains_entry_event_with_text_id(#[trigger] g.states[i], text_id)
}

/// Whether one of the state's transitions leads to a state that opens the repository.
pub open spec fn has_open_repository_transition(s: EzStateStateView, states: Seq<EzStateStateView>) -> bool {
    exists|p: int| 0 <= p < s.transitions.len() && targets_open_repository_state(#[trigger] s.transitions[p], states)
}

/// The transition at `p` is the first of the state at `i` that leads to a
/// state that opens the repository, and no earlier state of the group has
/// such a transition.
pub open spec fn is_first_open_repository_transition(g: EzStateStateGroupView, p: int, i: int) -> bool {
    &&& 0 <= i < g.group_state_count
    &&& 0 <= p < g.states[i].transitions.len()
    &&& targets_open_repository_state(g.states[i].transitions[p], g.states)
    &&& forall|q: int| 0 <= q < p ==> !targets_open_repository_state(#[trigger] g.states[i].transitions[q], g.states)
    &&& forall|j: int| 0 <= j < i ==> !has_open_repository_transition(#[trigger] g.states[j], g.states)
}

/// Whether one of the group's own states has a transition to a state that
/// opens the repository.
pub open spec fn group_has_open_repository_transition(g: EzStateStateGroupView) -> bool {
    exists|i: int| 0 <= i < g.group_state_count && has_open_repository_transition(#[trigger] g.states[i], g.states)
}

/// Searches the states of a group.
pub trait EzStateStateGroupExtender {
    fn find_state_with_text_id(&self, text_id: u32) -> Option<usize>;

    fn find_state_with_open_repository_transition(&self) -> Option<(usize, usize)>;
}

impl EzStateStateGroupExtender for EzStateStateGroup {
    /// The index of the first of the group's own states that adds the text
    /// `text_id` to the talk list.
    fn find_state_with_text_id(&self, text_id: u32) -> (r: Option<usize>)
        ensures
            r is None <==> !(self@.group_state_count <= self@.states.len() && group_has_state_with_text_id(self@, text_id)),
            r matches Some(i) ==> is_first_state_with_text_id(self@, text_id, i as int),
    {
        if self.group_state_count > self.states.len() {
            return None;
        }
        let n = self.group_state_count;
        for i in 0..n
            invariant
                n == self@.group_state_count,
                n <= self.states@.len(),
                forall|j: int| 0 <= j < i ==> !contains_entry_event_with_text_id(#[trigger] self@.states[j], text_id),
        {
            assert(self@.states[i as int] == self.states@[i as int]@);
            if self.states[i].contains_entry_event_with_text_id(text_id) {
                return Some(i);
            }
        }
        None
    }

    /// The first of the group's own states that has a transition to a state
    /// that opens the repository: the position of its first such transition,
    /// and the state's index.
    fn find_state_with_open_repository_transition(&self) -> (r: Option<(usize, usize)>)
        ensures
            r is None <==> !(self@.group_state_count <= self@.states.len() && group_has_open_repository_transition(self@)),
            r matches Some((p, i)) ==> is_first_open_repository_transition(self@, p as int, i as int),
    {
        if self.group_state_count > self.states.len() {
            return None;
        }
        let n = self.group_state_count;
        for i in 0..n
            invariant
                n == self@.group_state_count,
                n <= self.states@.len(),
                forall|j: int| 0 <= j < i ==> !has_open_repository_transition(#[trigger] self@.states[j], self@.states),
        {
            let state = &self.states[i];
            assert(self@.states[i as int] == state@);
            let transitions = state.transitions.as_slice();
            let m = transitions.len();
            for p in 0..m
                invariant
                    m == transitions@.len(),
                    transitions@ == state.transitions@,
                    state == self.states@[i as int],
                    i < n,
                    n == self@.group_state_count,
                    n <= self.states@.len(),
                    forall|j: int| 0 <= j < i ==> !has_open_repository_transition(#[trigger] self@.states[j], self@.states),
                    forall|q: int| 0 <= q < p ==> !targets_open_repository_state(#[trigger] self@.states[i as int].transitions[q], self@.states),
            {
                assert(self@.states[i as int].transitions[p as int] == transitions@[p as int]@);
                if transitions[p].target_state_contains_open_repository_entry_event(&self.states) {
                    assert(has_open_repository_transition(self@.states[i as int], self@.states));
                    return Some((p, i));
                }
            }
        }
        None
    }
}

} // verus!
