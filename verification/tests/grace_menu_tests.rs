use er_extend_rs::esd_config::{EsdSubMenuConfig, EsdSubMenuItemConfig, ExtraMenu};
use er_extend_rs::esd_grace_menu_enhancement::{
    insert_text_options_into_grace_menu, HookBehavior, CANCEL_TEXT_ID_U32, SORT_CHEST_TEXT_ID_U32,
};
use er_extend_rs::ez_state_event_extender::{
    ez_state_command_add_talk_list_data, ez_state_command_add_talk_list_data_if, ez_state_command_clear_talk_list_data,
    ez_state_command_close_shop, ez_state_command_open_generic_dialog, ez_state_command_open_repository,
    ez_state_command_open_shop, ez_state_command_set_event_flag, EzStateEventFactory,
};
use er_extend_rs::ez_state_expression_extender::{EzStateExpressionExtender, EzStateExpressionFactory};
use er_extend_rs::ez_state_partial_copy::{
    EzStateEvent, EzStateExpression, EzStateMachineImpl, EzStateState, EzStateStateGroup, EzStateTransition,
};
use er_extend_rs::ez_state_state_extender::{
    create_confirmation_state, EzStateStateEvents, EzStateStateExtender, EzStateStateFactory, MemoryManagement,
};
use er_extend_rs::ez_state_state_group_extender::EzStateStateGroupExtender;
use er_extend_rs::ez_state_transition_extender::{EzStateTransitionExtender, EzStateTransitionFactory};

/// A grace talk script: the initial state shows the chest-sorting entry and
/// leads, on its selection, to a state that opens the repository.
fn grace_group() -> EzStateStateGroup {
    let mut menu = EzStateState::new(1000);
    menu.add_talk_list_data(1, SORT_CHEST_TEXT_ID_U32);
    menu.append_transition(0, EzStateTransition::new_talk_list_data(1, 1), MemoryManagement::PreserveOriginalArray);
    let mut repository = EzStateState::new(1001);
    repository.append_entry_event(
        EzStateEvent::new_no_args_command_event(ez_state_command_open_repository()),
        MemoryManagement::PreserveOriginalArray,
    );
    EzStateStateGroup { states: vec![menu, repository], group_state_count: 2, initial_state: 0 }
}

fn sub_menu() -> EsdSubMenuConfig {
    EsdSubMenuConfig {
        show_on_event_flag_id: None,
        menu_item_text_id: 777,
        sub_menu_item_config: vec![
            EsdSubMenuItemConfig { show_on_event_flag_id: None, text_id: 501, select_flag_id: 9001, confirmation_text_id: None },
            EsdSubMenuItemConfig {
                show_on_event_flag_id: Some(4242),
                text_id: 502,
                select_flag_id: 9002,
                confirmation_text_id: Some(600),
            },
        ],
    }
}

fn u32_args(event: &EzStateEvent) -> Vec<Option<u32>> {
    event.arguments.iter().map(|e| e.to_u32_argument()).collect()
}

fn targets(state: &EzStateState) -> Vec<Option<usize>> {
    state.transitions.iter().map(|t| t.target_state).collect()
}

#[test]
fn state_searches_find_text_and_repository() {
    let group = grace_group();
    assert!(group.states[0].contains_entry_event_with_text_id(SORT_CHEST_TEXT_ID_U32));
    assert!(!group.states[0].contains_entry_event_with_text_id(777));
    assert!(group.states[1].contains_open_repository_entry_event());
    assert!(!group.states[0].contains_open_repository_entry_event());
    assert_eq!(group.find_state_with_text_id(SORT_CHEST_TEXT_ID_U32), Some(0));
    assert_eq!(group.find_state_with_text_id(777), None);
    assert_eq!(group.find_state_with_open_repository_transition(), Some((0, 0)));
    assert!(group.states[0].transitions.as_slice()[0].target_state_contains_open_repository_entry_event(&group.states));
}

#[test]
fn append_transition_inserts_before_the_index() {
    let mut state = EzStateState::new(5);
    state.append_transition(0, EzStateTransition::new_call_done_transition(1), MemoryManagement::DeallocateOriginalArray);
    state.append_transition(1, EzStateTransition::new_call_done_transition(3), MemoryManagement::DeallocateOriginalArray);
    state.append_transition(1, EzStateTransition::new_dialog_confirmed_transition(2), MemoryManagement::PreserveOriginalArray);
    assert_eq!(targets(&state), vec![Some(1), Some(2), Some(3)]);
    state.add_close_shop_control(9);
    state.add_back_button_control(8);
    assert_eq!(targets(&state), vec![Some(9), Some(1), Some(2), Some(3), Some(8)]);
    assert_eq!(state.transitions.as_slice()[4].evaluator.as_slice(), &[0x41, 0xA1]);
}

#[test]
fn shop_events_are_appended_in_order() {
    let mut state = EzStateState::new(7);
    state.close_shop_message();
    state.clear_talk_list_data();
    state.add_talk_list_data_if(12, 1, 34);
    state.show_shop_message();
    let commands: Vec<_> = state.entry_events.iter().map(|e| e.command).collect();
    assert_eq!(
        commands,
        vec![
            ez_state_command_close_shop(),
            ez_state_command_clear_talk_list_data(),
            ez_state_command_add_talk_list_data_if(),
            ez_state_command_open_shop(),
        ]
    );
}

#[test]
fn selection_without_confirmation_allocates_one_state() {
    let mut arena: Vec<EzStateState> = vec![EzStateState::new(1)];
    let mut handler = EzStateState::new(200);
    handler.set_event_flag_on_talk_list_data_selection(9001, 1, 0, None, &mut arena);
    assert_eq!(arena.len(), 2);
    let set_flag = &arena[1];
    assert_eq!(set_flag.id, 201);
    assert_eq!(set_flag.entry_events.as_slice()[0].command, ez_state_command_set_event_flag());
    assert_eq!(u32_args(&set_flag.entry_events.as_slice()[0]), vec![Some(9001), Some(1)]);
    assert_eq!(targets(set_flag), vec![Some(0)]);
    assert_eq!(targets(&handler), vec![Some(1)]);
}

#[test]
fn selection_with_confirmation_goes_through_the_dialog() {
    let mut arena: Vec<EzStateState> = vec![EzStateState::new(1)];
    let mut handler = EzStateState::new(200);
    handler.set_event_flag_on_talk_list_data_selection(9002, 2, 0, Some(600), &mut arena);
    assert_eq!(arena.len(), 3);
    let confirmation = &arena[2];
    assert_eq!(confirmation.id, 203);
    assert_eq!(confirmation.entry_events.as_slice()[0].command, ez_state_command_open_generic_dialog());
    assert_eq!(u32_args(&confirmation.entry_events.as_slice()[0])[1], Some(600));
    assert_eq!(targets(confirmation), vec![Some(1), Some(0)]);
    assert_eq!(targets(&handler), vec![Some(2)]);
    // A confirmation text of 0 asks for no confirmation.
    let mut other = EzStateState::new(300);
    other.set_event_flag_on_talk_list_data_selection(9003, 3, 0, Some(0), &mut arena);
    assert_eq!(arena.len(), 4);
    assert_eq!(targets(&other), vec![Some(3)]);
}

#[test]
fn confirmation_state_confirms_or_goes_back() {
    let mut arena: Vec<EzStateState> = vec![EzStateState::new(1), EzStateState::new(41)];
    let index = create_confirmation_state(600, 1, 0, &mut arena);
    assert_eq!(index, 2);
    let state = &arena[2];
    assert_eq!(state.id, 42);
    assert_eq!(targets(state), vec![Some(1), Some(0)]);
    assert_eq!(u32_args(&state.entry_events.as_slice()[0])[1], Some(600));
    assert_eq!(state.transitions.as_slice()[0].evaluator.as_slice(), EzStateExpression::new_dialog_confirmed_evaluator().as_slice());
    assert_eq!(state.transitions.as_slice()[1].evaluator.as_slice(), EzStateExpression::new_call_done_evaluator().as_slice());
}

#[test]
fn hook_numbers_states_from_the_minimum_base_id() {
    let hook = insert_text_options_into_grace_menu(&ExtraMenu { base_state_and_event_id: 0, extra_menu_items: vec![sub_menu()] });
    assert_eq!(hook.base_state_and_event_id, 0xFFFF);
    assert_eq!(hook.extra_menu_items.len(), 1);
    assert_eq!(hook.extra_menu_items[0].menu_item_text_id, 777);
    let hook = insert_text_options_into_grace_menu(&ExtraMenu { base_state_and_event_id: 200000, extra_menu_items: vec![] });
    assert_eq!(hook.base_state_and_event_id, 200000);
}

#[test]
fn entering_the_initial_state_adds_the_sub_menu() {
    let hook = insert_text_options_into_grace_menu(&ExtraMenu { base_state_and_event_id: 0, extra_menu_items: vec![sub_menu()] });
    let mut machine = EzStateMachineImpl { state_group: grace_group() };
    let behavior = hook.on_enter_state(0, &mut machine);
    assert!(matches!(behavior, HookBehavior::CallOriginalFunctionAfterHook));
    let states = &machine.state_group.states;
    // The shop state, three selection states and the handler were allocated.
    assert_eq!(states.len(), 7);
    assert_eq!(machine.state_group.group_state_count, 2);

    let menu = &states[0];
    let added = &menu.entry_events.as_slice()[1];
    assert_eq!(added.command, ez_state_command_add_talk_list_data());
    assert_eq!(u32_args(added), vec![Some(0xFFFF), Some(777), Some(u32::MAX)]);
    assert_eq!(targets(menu), vec![Some(2), Some(1)]);
    assert_eq!(
        menu.transitions.as_slice()[0].evaluator.as_slice(),
        EzStateExpression::new_talk_data_event_id_evaluator(0xFFFF).as_slice()
    );

    let shop = &states[2];
    assert_eq!(shop.id, 0xFFFF);
    let shop_commands: Vec<_> = shop.entry_events.iter().map(|e| e.command).collect();
    assert_eq!(
        shop_commands,
        vec![
            ez_state_command_close_shop(),
            ez_state_command_clear_talk_list_data(),
            ez_state_command_add_talk_list_data(),
            ez_state_command_add_talk_list_data_if(),
            ez_state_command_add_talk_list_data(),
            ez_state_command_open_shop(),
        ]
    );
    assert_eq!(u32_args(&shop.entry_events.as_slice()[4]), vec![Some(3), Some(CANCEL_TEXT_ID_U32), Some(u32::MAX)]);
    assert_eq!(targets(shop), vec![Some(6)]);

    let handler = &states[6];
    assert_eq!(handler.id, 0x1_0000);
    assert_eq!(targets(handler), vec![Some(5), Some(3), Some(0)]);
    assert_eq!(states[3].id, 0x1_0001);
    assert_eq!(states[4].id, 0x1_0002);
    assert_eq!(states[5].id, 0x1_0003);
    assert_eq!(u32_args(&states[3].entry_events.as_slice()[0]), vec![Some(9001), Some(1)]);
    assert_eq!(u32_args(&states[4].entry_events.as_slice()[0]), vec![Some(9002), Some(1)]);
}

#[test]
fn entering_again_adds_nothing_more() {
    let hook = insert_text_options_into_grace_menu(&ExtraMenu { base_state_and_event_id: 0, extra_menu_items: vec![sub_menu()] });
    let mut machine = EzStateMachineImpl { state_group: grace_group() };
    hook.on_enter_state(0, &mut machine);
    hook.on_enter_state(0, &mut machine);
    assert_eq!(machine.state_group.states.len(), 7);
    assert_eq!(machine.state_group.states[0].entry_events.len(), 2);
    assert_eq!(machine.state_group.states[0].transitions.len(), 2);
}

#[test]
fn entering_another_state_changes_nothing() {
    let hook = insert_text_options_into_grace_menu(&ExtraMenu { base_state_and_event_id: 0, extra_menu_items: vec![sub_menu()] });
    let mut machine = EzStateMachineImpl { state_group: grace_group() };
    hook.on_enter_state(1, &mut machine);
    assert_eq!(machine.state_group.states.len(), 2);
    assert_eq!(machine.state_group.states[0].entry_events.len(), 1);
}

#[test]
fn group_without_the_chest_entry_is_left_alone() {
    let hook = insert_text_options_into_grace_menu(&ExtraMenu { base_state_and_event_id: 0, extra_menu_items: vec![sub_menu()] });
    let mut group = grace_group();
    group.states[0] = EzStateState::new(1000);
    group.states[0].add_talk_list_data(1, 12345);
    let mut machine = EzStateMachineImpl { state_group: group };
    hook.on_enter_state(0, &mut machine);
    assert_eq!(machine.state_group.states.len(), 2);
}

#[test]
fn conditional_sub_menu_entry_checks_its_flag() {
    let mut config = sub_menu();
    config.show_on_event_flag_id = Some(31);
    let second = EsdSubMenuConfig { show_on_event_flag_id: Some(0), menu_item_text_id: 888, sub_menu_item_config: vec![] };
    let hook = insert_text_options_into_grace_menu(&ExtraMenu { base_state_and_event_id: 70000, extra_menu_items: vec![config, second] });
    let mut machine = EzStateMachineImpl { state_group: grace_group() };
    hook.on_enter_state(0, &mut machine);
    let menu = &machine.state_group.states[0];
    let first_added = &menu.entry_events.as_slice()[1];
    assert_eq!(first_added.command, ez_state_command_add_talk_list_data_if());
    assert_eq!(first_added.arguments.as_slice()[0].as_slice(), EzStateExpression::new_get_event_flag_expression(31).as_slice());
    // The second entry is numbered after the first one's two states and its
    // two sub menu entries, and a flag of 0 shows it unconditionally.
    let second_added = &menu.entry_events.as_slice()[2];
    assert_eq!(second_added.command, ez_state_command_add_talk_list_data());
    assert_eq!(u32_args(second_added), vec![Some(70004), Some(888), Some(u32::MAX)]);
    assert_eq!(machine.state_group.states.len(), 7 + 2);
}

fn plain_sub_menu() -> EsdSubMenuConfig {
    EsdSubMenuConfig {
        show_on_event_flag_id: None,
        menu_item_text_id: 778,
        sub_menu_item_config: vec![
            EsdSubMenuItemConfig { show_on_event_flag_id: None, text_id: 501, select_flag_id: 9001, confirmation_text_id: None },
            EsdSubMenuItemConfig { show_on_event_flag_id: None, text_id: 502, select_flag_id: 9002, confirmation_text_id: None },
        ],
    }
}

#[test]
fn base_ids_above_i32_wrap_into_the_state_ids() {
    let hook = insert_text_options_into_grace_menu(&ExtraMenu {
        base_state_and_event_id: 3_000_000_000,
        extra_menu_items: vec![plain_sub_menu()],
    });
    let mut machine = EzStateMachineImpl { state_group: grace_group() };
    hook.on_enter_state(0, &mut machine);
    let states = &machine.state_group.states;
    assert_eq!(states.len(), 2 + 4);
    assert_eq!(states[2].id, 3_000_000_000u32 as i32);
    assert_eq!(states[5].id, 3_000_000_000u32 as i32 + 1);
    assert_eq!(states[3].id, 3_000_000_000u32 as i32 + 2);
}

#[test]
fn last_state_id_may_be_i32_max() {
    let hook = insert_text_options_into_grace_menu(&ExtraMenu {
        base_state_and_event_id: i32::MAX as u32 - 3,
        extra_menu_items: vec![plain_sub_menu()],
    });
    let mut machine = EzStateMachineImpl { state_group: grace_group() };
    hook.on_enter_state(0, &mut machine);
    let states = &machine.state_group.states;
    assert_eq!(states[5].id, i32::MAX - 2);
    assert_eq!(states[4].id, i32::MAX);
}
