//! Building and extending talk-script states.
use crate::ez_state_event_extender::{
    add_talk_list_data_event,
    add_talk_list_data_if_event,
    ez_state_command_add_talk_list_data,
    ez_state_command_clear_talk_list_data,
    ez_state_command_close_shop,
    ez_state_command_open_repository,
    ez_state_command_open_shop,
    grace_confirmation_dialog_event,
    no_args_event,
    set_event_flag_event,
    show_shop_message_event,
    EzStateEventFactory,
};
use crate::ez_state_expression_extender::{
    call_done_evaluator,
    close_shop_menu_evaluator,
    dialog_confirmed_evaluator,
    handle_back_button_evaluator,
    u32_argument,
    EzStateExpressionExtender,
    EzStateExpressionFactory,
};
use crate::ez_state_partial_copy::{
    states_view,
    EzStateEvent,
    EzStateEventView,
    EzStateExpression,
    EzStateState,
    EzStateStateView,
    EzStateTransition,
    EzStateTransitionView,
};
use crate::ez_state_transition_extender::{
    talk_list_data_transition,
    transition_view,
    EzStateTransitionFactory,
};
use crate::stl_partial_copy::DynamicSizeSpan;
use vstd::prelude::*;

verus! {

/// What becomes of the array that held the items before an append. The
/// arrays here are owned values, so both choices give the same state.
pub enum MemoryManagement {
    DeallocateOriginalArray,
    PreserveOriginalArray,
}

/// Whether the event adds the text `text_id` to the talk list
/// (an unconditional "add to talk list" whose second argument pushes it).
pub open spec fn event_adds_text_id(e: EzStateEventView, text_id: u32) -> bool {
    &&& e.command == ez_state_command_add_talk_list_data()
    &&& e.arguments.len() > 1
    &&& u32_argument(e.arguments[1]) == Some(text_id)
}

/// Whether one of the state's entry events adds the text `text_id` to the talk list.
pub open spec fn contains_entry_event_with_text_id(s: EzStateStateView, text_id: u32) -> bool {
    exists|i: int| 0 <= i < s.entry_events.len() && event_adds_text_id(#[trigger] s.entry_events[i], text_id)
}

/// Whether one of the state's entry events opens the repository.
pub open spec fn contains_open_repository_entry_event(s: EzStateStateView) -> bool {
    exists|i: int|
        0 <= i < s.entry_events.len() && (#[trigger] s.entry_events[i]).command
            == ez_state_command_open_repository()
}

/// A state with the id and nothing else.
pub open spec fn empty_state(id: i32) -> EzStateStateView {
    EzStateStateView {
        id,
        transitions: Seq::empty(),
        entry_events: Seq::empty(),
        exit_events: Seq::empty(),
        while_events: Seq::empty(),
    }
}

/// The state with one more entry event.
pub open spec fn with_entry_event(s: EzStateStateView, e: EzStateEventView) -> EzStateStateView {
    EzStateStateView { entry_events: s.entry_events.push(e), ..s }
}

/// The state with a transition inserted before the one at `index`.
pub open spec fn with_transition(s: EzStateStateView, index: int, t: EzStateTransitionView) -> EzStateStateView {
    EzStateStateView { transitions: s.transitions.insert(index, t), ..s }
}

/// The state that sets the flag `flag_id` and then, when the talk list
/// answers `event_id`, returns to `target`.
pub open spec fn set_event_flag_state_view(id: i32, flag_id: u32, event_id: u32, target: usize) -> EzStateStateView {
    EzStateStateView {
        id,
        transitions: seq![talk_list_data_transition(target, event_id)],
        entry_events: seq![set_event_flag_event(flag_id)],
        exit_events: Seq::empty(),
        while_events: Seq::empty(),
    }
}

/// The state that asks for confirmation with the text `text_id`: on yes it
/// goes to the state at `confirmed`, otherwise back to `target`.
pub open spec fn confirmation_state_view(id: i32, text_id: u32, confirmed: usize, target: usize) -> EzStateStateView {
    EzStateStateView {
        id,
        transitions: seq![
            transition_view(confirmed, dialog_confirmed_evaluator()),
            transition_view(target, call_done_evaluator()),
        ],
        entry_events: seq![grace_confirmation_dialog_event(text_id)],
        exit_events: Seq::empty(),
        while_events: Seq::empty(),
    }
}

/// Whether a selection asks for confirmation first: a text other than 0.
pub open spec fn asks_confirmation(confirm_text_id: Option<u32>) -> bool {
    confirm_text_id matches Some(t) && t != 0
}

/// The states that a selection allocates, the first at `first_index`: the
/// state that sets the flag, followed by the confirmation state where one is
/// asked for.
pub open spec fn selection_states(
    id: i32,
    flag_id: u32,
    event_id: u32,
    target: usize,
    confirm_text_id: Option<u32>,
    first_index: usize,
) -> Seq<EzStateStateView> {
    if asks_confirmation(confirm_text_id) {
        seq![
            set_event_flag_state_view(id, flag_id, event_id, target),
            confirmation_state_view((id + 1) as i32, confirm_text_id->0, first_index, target),
        ]
    } else {
        seq![set_event_flag_state_view(id, flag_id, event_id, target)]
    }
}

/// The index of the state that a selection enters first.
pub open spec fn selection_index(confirm_text_id: Option<u32>, first_index: usize) -> int {
    if asks_confirmation(confirm_text_id) {
        first_index + 1
    } else {
        first_index as int
    }
}

/// Builds talk-script states.
pub trait EzStateStateFactory: Sized {
    fn new(id: i32) -> Self;
}

/// Inspects and extends talk-script states.
pub trait EzStateStateExtender {
    /// The number of outgoing transitions of the state.
    spec fn transition_count(&self) -> nat;

    fn contains_entry_event_with_text_id(&self, text_id: u32) -> bool;

    fn contains_open_repository_entry_event(&self) -> bool;

    fn append_entry_event(&mut self, entry_event: EzStateEvent, memory_management: MemoryManagement);

    fn append_transition(
        &mut self,
        transition_index: usize,
        transition: EzStateTransition,
        memory_management: MemoryManagement,
    )
        requires
            transition_index <= old(self).transition_count(),
    ;
}

/// The talk-list events that a shop-like state runs.
pub trait EzStateStateEvents {
    /// The id of the state.
    spec fn state_id(&self) -> int;

    fn close_shop_message(&mut self);

    fn clear_talk_list_data(&mut self);

    fn show_shop_message(&mut self);

    fn add_talk_list_data(&mut self, event_id: u32, text_id: u32);

    fn add_talk_list_data_if(&mut self, flag_id: u32, event_id: u32, text_id: u32);

    fn add_back_button_control(&mut self, target_state: usize);

    fn add_close_shop_control(&mut self, transition_state: usize);

    fn set_event_flag_on_talk_list_data_selection(
        &mut self,
        flag_id_to_set: u32,
        talk_list_data_event_id: u32,
        target_state: usize,
        confirm_text_id: Option<u32>,
        arena: &mut Vec<EzStateState>,
    )
        requires
            i32::MIN <= old(self).state_id() + (talk_list_data_event_id as i32) <= i32::MAX,
            asks_confirmation(confirm_text_id) ==> old(self).state_id() + (talk_list_data_event_id as i32) + 1
                <= i32::MAX,
            old(arena)@.len() + 2 <= usize::MAX,
    ;
}

impl EzStateStateFactory for EzStateState {
    fn new(id: i32) -> (r: Self)
        ensures
            r@ == empty_state(id),
    {
        let r = Self {
            id,
            transitions: DynamicSizeSpan::empty(),
            entry_events: DynamicSizeSpan::empty(),
            exit_events: DynamicSizeSpan::empty(),
            while_events: DynamicSizeSpan::empty(),
        };
        assert(r@ =~~= empty_state(id));
        r
    }
}

impl EzStateStateExtender for EzStateState {
    open spec fn transition_count(&self) -> nat {
        self@.transitions.len()
    }

    fn contains_entry_event_with_text_id(&self, text_id: u32) -> (r: bool)
        ensures
            r == contains_entry_event_with_text_id(self@, text_id),
    {
        let events = self.entry_events.as_slice();
        let n = events.len();
        for i in 0..n
            invariant
                n == events@.len(),
                events@ == self.entry_events@,
                forall|j: int| 0 <= j < i ==> !event_adds_text_id(#[trigger] self@.entry_events[j], text_id),
        {
            let event = &events[i];
            assert(self@.entry_events[i as int] == event@);
            if event.command == ez_state_command_add_talk_list_data() {
                let args = event.arguments.as_slice();
                if args.len() > 1 {
                    let id = args[1].to_u32_argument();
                    if let Some(id) = id {
                        if id == text_id {
                            assert(event_adds_text_id(self@.entry_events[i as int], text_id));
                            return true;
                        }
                    }
                }
            }
        }
        false
    }

    fn contains_open_repository_entry_event(&self) -> (r: bool)
        ensures
            r == contains_open_repository_entry_event(self@),
    {
        let events = self.entry_events.as_slice();
        let n = events.len();
        for i in 0..n
            invariant
                n == events@.len(),
                events@ == self.entry_events@,
                forall|j: int|
                    0 <= j < i ==> (#[trigger] self@.entry_events[j]).command
                        != ez_state_command_open_repository(),
        {
            assert(self@.entry_events[i as int] == events@[i as int]@);
            if events[i].command == ez_state_command_open_repository() {
                return true;
            }
        }
        false
    }

    fn append_entry_event(&mut self, entry_event: EzStateEvent, memory_management: MemoryManagement)
        ensures
            final(self)@ == with_entry_event(old(self)@, entry_event@),
    {
        let mut old_events = DynamicSizeSpan::empty();
        std::mem::swap(&mut old_events, &mut self.entry_events);
        let mut events = old_events.into_vec();
        events.push(entry_event);
        self.entry_events = DynamicSizeSpan::from_static_slice(events);
        assert(self@ =~~= with_entry_event(old(self)@, entry_event@));
    }

    fn append_transition(
        &mut self,
        transition_index: usize,
        transition: EzStateTransition,
        memory_management: MemoryManagement,
    )
        ensures
            final(self)@ == with_transition(old(self)@, transition_index as int, transition@),
    {
        let mut old_transitions = DynamicSizeSpan::empty();
        std::mem::swap(&mut old_transitions, &mut self.transitions);
        let mut transitions = old_transitions.into_vec();
        let ghost tv = transition@;
        transitions.insert(transition_index, transition);
        self.transitions = DynamicSizeSpan::from_static_slice(transitions);
        assert(self@ =~~= with_transition(old(self)@, transition_index as int, tv));
    }
}

impl EzStateStateEvents for EzStateState {
    open spec fn state_id(&self) -> int {
        self.id as int
    }

    fn close_shop_message(&mut self)
        ensures
            final(self)@ == with_entry_event(old(self)@, no_args_event(ez_state_command_close_shop())),
    {
        let close_shop = EzStateEvent::new_close_shop_event();
        self.append_entry_event(close_shop, MemoryManagement::DeallocateOriginalArray);
    }

    fn clear_talk_list_data(&mut self)
        ensures
            final(self)@ == with_entry_event(
                old(self)@,
                no_args_event(ez_state_command_clear_talk_list_data()),
            ),
    {
        let clear_talk_list = EzStateEvent::new_clear_talk_list_data_event();
        self.append_entry_event(clear_talk_list, MemoryManagement::DeallocateOriginalArray);
    }

    fn show_shop_message(&mut self)
        ensures
            final(self)@ == with_entry_event(old(self)@, show_shop_message_event()),
    {
        let args = EzStateExpression::new_shop_message_args();
        let open_shop = EzStateEvent::new(ez_state_command_open_shop(), args);
        assert(open_shop@ =~~= show_shop_message_event());
        self.append_entry_event(open_shop, MemoryManagement::DeallocateOriginalArray);
    }

    fn add_talk_list_data(&mut self, event_id: u32, text_id: u32)
        ensures
            final(self)@ == with_entry_event(old(self)@, add_talk_list_data_event(event_id, text_id)),
    {
        let event = EzStateEvent::new_add_talk_list_data_event(event_id, text_id);
        self.append_entry_event(event, MemoryManagement::DeallocateOriginalArray);
    }

    fn add_talk_list_data_if(&mut self, flag_id: u32, event_id: u32, text_id: u32)
        ensures
            final(self)@ == with_entry_event(
                old(self)@,
                add_talk_list_data_if_event(flag_id, event_id, text_id),
            ),
    {
        let event = EzStateEvent::new_add_talk_list_data_if_event(flag_id, event_id, text_id);
        self.append_entry_event(event, MemoryManagement::DeallocateOriginalArray);
    }

    fn add_back_button_control(&mut self, target_state: usize)
        ensures
            final(self)@ == with_transition(
                old(self)@,
                old(self)@.transitions.len() as int,
                transition_view(target_state, handle_back_button_evaluator()),
            ),
    {
        let transition = EzStateTransition::new(
            target_state,
            EzStateExpression::new_handle_back_button_evaluator(),
        );
        let n = self.transitions.len();
        self.append_transition(n, transition, MemoryManagement::DeallocateOriginalArray);
    }

    fn add_close_shop_control(&mut self, transition_state: usize)
        ensures
            final(self)@ == with_transition(
                old(self)@,
                0,
                transition_view(transition_state, close_shop_menu_evaluator()),
            ),
    {
        let transition = EzStateTransition::new(
            transition_state,
            EzStateExpression::new_close_shop_menu_evaluator(),
        );
        self.append_transition(0, transition, MemoryManagement::DeallocateOriginalArray);
    }

    fn set_event_flag_on_talk_list_data_selection(
        &mut self,
        flag_id_to_set: u32,
        talk_list_data_event_id: u32,
        target_state: usize,
        confirm_text_id: Option<u32>,
        arena: &mut Vec<EzStateState>,
    )
        ensures
            states_view(final(arena)@) == states_view(old(arena)@) + selection_states(
                (old(self)@.id + (talk_list_data_event_id as i32)) as i32,
                flag_id_to_set,
                talk_list_data_event_id,
                target_state,
                confirm_text_id,
                old(arena)@.len() as usize,
            ),
            final(self)@ == with_transition(
                old(self)@,
                0,
                talk_list_data_transition(
                    selection_index(confirm_text_id, old(arena)@.len() as usize) as usize,
                    talk_list_data_event_id,
                ),
            ),
    {
        let set_event_flag_state_id = self.id + talk_list_data_event_id as i32;
        let mut set_event_flag_state = EzStateState::new(set_event_flag_state_id);
        let set_event_flag_event = EzStateEvent::new_set_event_flag_event(flag_id_to_set);
        let handle_set_flag_state_transition = EzStateTransition::new_talk_list_data(
            target_state,
            talk_list_data_event_id,
        );
        set_event_flag_state.append_entry_event(
            set_event_flag_event,
            MemoryManagement::DeallocateOriginalArray,
        );
        let n = set_event_flag_state.transitions.len();
        set_event_flag_state.append_transition(
            n,
            handle_set_flag_state_transition,
            MemoryManagement::DeallocateOriginalArray,
        );
        assert(set_event_flag_state@ =~~= set_event_flag_state_view(
            set_event_flag_state_id,
            flag_id_to_set,
            talk_list_data_event_id,
            target_state,
        ));
        let ghost old_arena = states_view(arena@);
        let set_event_flag_index = arena.len();
        arena.push(set_event_flag_state);
        assert(states_view(arena@) =~= old_arena.push(
            set_event_flag_state_view(
                set_event_flag_state_id,
                flag_id_to_set,
                talk_list_data_event_id,
                target_state,
            ),
        ));
        let selection_state = match confirm_text_id {
            None => set_event_flag_index,
            Some(text_id) => {
                if text_id == 0 {
                    set_event_flag_index
                } else {
                    create_confirmation_state(text_id, set_event_flag_index, target_state, arena)
                }
            },
        };
        assert(states_view(arena@) =~= old_arena + selection_states(
            set_event_flag_state_id,
            flag_id_to_set,
            talk_list_data_event_id,
            target_state,
            confirm_text_id,
            set_event_flag_index,
        ));
        let sub_menu_selected_transition = EzStateTransition::new_talk_list_data(
            selection_state,
            talk_list_data_event_id,
        );
        self.append_transition(0, sub_menu_selected_transition, MemoryManagement::DeallocateOriginalArray);
    }
}

/// Allocates the state that asks for confirmation with the text
/// `confirmation_text_id` before the selection at `set_event_flag_state`
/// takes effect; a refusal returns to `original_target_state`. Its id follows
/// that of the state it confirms. Returns its index in the arena.
pub fn create_confirmation_state(
    confirmation_text_id: u32,
    set_event_flag_state: usize,
    original_target_state: usize,
    arena: &mut Vec<EzStateState>,
) -> (r: usize)
    requires
        set_event_flag_state < old(arena)@.len(),
        old(arena)@[set_event_flag_state as int].id < i32::MAX,
        old(arena)@.len() < usize::MAX,
    ensures
        r == old(arena)@.len(),
        states_view(final(arena)@) == states_view(old(arena)@).push(
            confirmation_state_view(
                (old(arena)@[set_event_flag_state as int].id + 1) as i32,
                confirmation_text_id,
                set_event_flag_state,
                original_target_state,
            ),
        ),
{
    let handle_confirmation_state_id = arena[set_event_flag_state].id + 1;
    let mut handle_confirmation_state = EzStateState::new(handle_confirmation_state_id);
    let handle_confirmation_state_event = EzStateEvent::new_grace_confirmation_dialog_event(
        confirmation_text_id,
    );
    handle_confirmation_state.append_entry_event(
        handle_confirmation_state_event,
        MemoryManagement::DeallocateOriginalArray,
    );
    let dialog_confirmed_transition = EzStateTransition::new_dialog_confirmed_transition(
        set_event_flag_state,
    );
    let call_done_transition = EzStateTransition::new_call_done_transition(original_target_state);
    handle_confirmation_state.append_transition(
        0,
        dialog_confirmed_transition,
        MemoryManagement::DeallocateOriginalArray,
    );
    handle_confirmation_state.append_transition(
        1,
        call_done_transition,
        MemoryManagement::DeallocateOriginalArray,
    );
    let ghost expected = confirmation_state_view(
        handle_confirmation_state_id,
        confirmation_text_id,
        set_event_flag_state,
        original_target_state,
    );
    assert(handle_confirmation_state@ =~~= expected);
    let ghost old_arena = states_view(arena@);
    let r = arena.len();
    arena.push(handle_confirmation_state);
    assert(states_view(arena@) =~= old_arena.push(expected));
    r
}

} // verus!
