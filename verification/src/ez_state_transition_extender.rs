//! The talk-script transitions that the extenders build and inspect.
use crate::ez_state_expression_extender::{
    call_done_evaluator,
    dialog_confirmed_evaluator,
    talk_data_event_id_evaluator,
    EzStateExpressionFactory,
};
use crate::ez_state_partial_copy::{
    EzStateEventView,
    EzStateExpression,
    EzStateState,
    EzStateStateView,
    EzStateTransition,
    EzStateTransitionView,
    states_view,
};
use crate::ez_state_state_extender::contains_open_repository_entry_event;
use crate::ez_state_state_extender::EzStateStateExtender;
use crate::stl_partial_copy::DynamicSizeSpan;
use vstd::prelude::*;

verus! {

/// A transition to `target` with the evaluator, and no pass event.
pub open spec fn transition_view(target: usize, evaluator: Seq<u8>) -> EzStateTransitionView {
    EzStateTransitionView {
        target_state: Some(target),
        pass_events: Seq::<EzStateEventView>::empty(),
        evaluator,
    }
}

/// The transition to `target` taken when the talk list answered `event_id`.
pub open spec fn talk_list_data_transition(target: usize, event_id: u32) -> EzStateTransitionView {
    transition_view(target, talk_data_event_id_evaluator(event_id))
}

/// Whether the transition leads to a state of the arena that opens the
/// repository on entry.
pub open spec fn targets_open_repository_state(
    t: EzStateTransitionView,
    states: Seq<EzStateStateView>,
) -> bool {
    match t.target_state {
        Some(i) => i < states.len() && contains_open_repository_entry_event(states[i as int]),
        None => false,
    }
}

/// Builds talk-script transitions.
pub trait EzStateTransitionFactory: Sized {
    fn new(target_state: usize, evaluator: EzStateExpression) -> Self;

    fn new_talk_list_data(target_state: usize, event_id: u32) -> Self;

    fn new_dialog_confirmed_transition(target_state: usize) -> Self;

    fn new_call_done_transition(target_state: usize) -> Self;
}

/// Inspects talk-script transitions.
pub trait EzStateTransitionExtender {
    fn target_state_contains_open_repository_entry_event(&self, states: &Vec<EzStateState>) -> bool;
}

impl EzStateTransitionFactory for EzStateTransition {
    fn new(target_state: usize, evaluator: EzStateExpression) -> (r: Self)
        ensures
            r@ == transition_view(target_state, evaluator@),
    {
        let r = Self {
            target_state: Some(target_state),
            pass_events: DynamicSizeSpan::empty(),
            evaluator,
        };
        assert(r@ =~~= transition_view(target_state, evaluator@));
        r
    }

    fn new_talk_list_data(target_state: usize, event_id: u32) -> (r: Self)
        ensures
            r@ == talk_list_data_transition(target_state, event_id),
    {
        Self::new(target_state, EzStateExpression::new_talk_data_event_id_evaluator(event_id))
    }

    fn new_dialog_confirmed_transition(target_state: usize) -> (r: Self)
        ensures
            r@ == transition_view(target_state, dialog_confirmed_evaluator()),
    {
        Self::new(target_state, EzStateExpression::new_dialog_confirmed_evaluator())
    }

    fn new_call_done_transition(target_state: usize) -> (r: Self)
        ensures
            r@ == transition_view(target_state, call_done_evaluator()),
    {
        Self::new(target_state, EzStateExpression::new_call_done_evaluator())
    }
}

impl EzStateTransitionExtender for EzStateTransition {
    fn target_state_contains_open_repository_entry_event(&self, states: &Vec<EzStateState>) -> (r:
        bool)
        ensures
            r == targets_open_repository_state(self@, states_view(states@)),
    {
        match self.target_state {
            Some(i) => {
                if i < states.len() {
                    states[i].contains_open_repository_entry_event()
                } else {
                    false
                }
            },
            None => false,
        }
    }
}

} // verus!
