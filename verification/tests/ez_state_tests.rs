use er_extend_rs::ez_state_event_extender::{
    ez_state_command_add_talk_list_data, ez_state_command_add_talk_list_data_if, ez_state_command_clear_talk_list_data,
    ez_state_command_close_shop, ez_state_command_open_generic_dialog, ez_state_command_open_shop,
    ez_state_command_set_event_flag, EzStateEventExtender, EzStateEventFactory,
};
use er_extend_rs::ez_state_expression_extender::{EzStateExpressionExtender, EzStateExpressionFactory};
use er_extend_rs::ez_state_partial_copy::{EzStateEvent, EzStateEventCommand, EzStateExpression};
use er_extend_rs::stl_partial_copy::DynamicSizeSpan;
use er_extend_rs::talk_script_extender::TalkScriptCall;

fn argument_bytes(event: &EzStateEvent) -> Vec<Vec<u8>> {
    event.arguments.iter().map(|e| e.as_slice().to_vec()).collect()
}

#[test]
fn plain_u32_indicator_is_little_endian_between_markers() {
    let bytes = EzStateExpression::generate_plain_u32_indicator(0x1234_5678);
    assert_eq!(bytes, vec![0x82, 0x78, 0x56, 0x34, 0x12, 0xA1]);
}

#[test]
fn minus_one_indicator_holds_all_ones() {
    let bytes = EzStateExpression::generate_u32_minus_1_equivalent_indicator();
    assert_eq!(bytes, vec![0x82, 0xFF, 0xFF, 0xFF, 0xFF, 0xA1]);
}

#[test]
fn plain_u32_argument_reads_back_what_was_written() {
    for value in [0u32, 1, 255, 65535, 0xDEAD_BEEF, u32::MAX] {
        let expression = EzStateExpression::from_static_slice(EzStateExpression::generate_plain_u32_indicator(value));
        assert_eq!(expression.to_u32_argument(), Some(value));
    }
}

#[test]
fn to_u32_argument_rejects_other_expressions() {
    let too_short = EzStateExpression::from_static_slice(vec![0x82, 1, 0, 0, 0xA1]);
    assert_eq!(too_short.to_u32_argument(), None);
    let wrong_start = EzStateExpression::from_static_slice(vec![0x83, 1, 0, 0, 0, 0xA1]);
    assert_eq!(wrong_start.to_u32_argument(), None);
    let wrong_end = EzStateExpression::from_static_slice(vec![0x82, 1, 0, 0, 0, 0xA0]);
    assert_eq!(wrong_end.to_u32_argument(), None);
    let evaluator = EzStateExpression::new_call_done_evaluator();
    assert_eq!(evaluator.to_u32_argument(), None);
}

#[test]
fn evaluators_have_their_bytecode() {
    assert_eq!(
        EzStateExpression::new_talk_data_event_id_evaluator(0x0001_0203).as_slice(),
        &[0x57, 0x84, 0x82, 0x03, 0x02, 0x01, 0x00, 0x95, 0xA1]
    );
    assert_eq!(
        EzStateExpression::new_get_event_flag_expression(7).as_slice(),
        &[0x4F, 0x82, 7, 0, 0, 0, 0x85, 0xA1]
    );
    assert_eq!(
        EzStateExpression::new_close_shop_menu_evaluator().as_slice(),
        &[0x7b, 0x41, 0x40, 0x86, 0x41, 0x95, 0x7a, 0x40, 0x85, 0x40, 0x95, 0x98, 0x40, 0x95, 0xA1]
    );
    assert_eq!(EzStateExpression::new_handle_back_button_evaluator().as_slice(), &[0x41, 0xA1]);
    assert_eq!(
        EzStateExpression::new_dialog_confirmed_evaluator().as_slice(),
        &[0xB9, 0x82, 0, 0, 0, 0, 0x95, 0xA1]
    );
    assert_eq!(EzStateExpression::new_call_done_evaluator().as_slice(), &[0xB9, 0xBA, 0x96, 0xA1]);
}

#[test]
fn shop_message_args_push_one() {
    let args = EzStateExpression::new_shop_message_args();
    assert_eq!(args.len(), 1);
    assert_eq!(args.as_slice()[0].as_slice(), &[0x82, 1, 0, 0, 0, 0xA1]);
}

#[test]
fn commands_have_their_bank_and_id() {
    assert_eq!(ez_state_command_open_shop(), EzStateEventCommand { bank: 1, id: 10 });
    assert_eq!(ez_state_command_set_event_flag(), EzStateEventCommand { bank: 1, id: 11 });
    assert_eq!(ez_state_command_close_shop(), EzStateEventCommand { bank: 1, id: 12 });
    assert_eq!(ez_state_command_open_generic_dialog(), EzStateEventCommand { bank: 1, id: 17 });
    assert_eq!(ez_state_command_add_talk_list_data(), EzStateEventCommand { bank: 1, id: 19 });
    assert_eq!(ez_state_command_clear_talk_list_data(), EzStateEventCommand { bank: 1, id: 20 });
    assert_eq!(ez_state_command_add_talk_list_data_if(), EzStateEventCommand { bank: 5, id: 19 });
}

#[test]
fn add_talk_list_data_event_has_id_text_and_end() {
    let event = EzStateEvent::new_add_talk_list_data_event(3, 15000395);
    assert_eq!(event.command, ez_state_command_add_talk_list_data());
    assert_eq!(
        argument_bytes(&event),
        vec![
            EzStateExpression::generate_plain_u32_indicator(3),
            EzStateExpression::generate_plain_u32_indicator(15000395),
            EzStateExpression::generate_u32_minus_1_equivalent_indicator(),
        ]
    );
}

#[test]
fn add_talk_list_data_if_event_starts_with_the_flag_check() {
    let event = EzStateEvent::new_add_talk_list_data_if_event(42, 3, 99);
    assert_eq!(event.command, ez_state_command_add_talk_list_data_if());
    assert_eq!(
        argument_bytes(&event),
        vec![
            vec![0x4F, 0x82, 42, 0, 0, 0, 0x85, 0xA1],
            EzStateExpression::generate_plain_u32_indicator(3),
            EzStateExpression::generate_plain_u32_indicator(99),
            EzStateExpression::generate_plain_u32_indicator(u32::MAX),
        ]
    );
}

#[test]
fn set_event_flag_event_sets_the_flag_on() {
    let event = EzStateEvent::new_set_event_flag_event(1061475001);
    assert_eq!(event.command, ez_state_command_set_event_flag());
    assert_eq!(
        argument_bytes(&event),
        vec![
            EzStateExpression::generate_plain_u32_indicator(1061475001),
            EzStateExpression::generate_plain_u32_indicator(1),
        ]
    );
    let arguments = EzStateEvent::generate_set_event_flag_arguments(5);
    assert_eq!(arguments.len(), 2);
    assert_eq!(arguments[0].to_u32_argument(), Some(5));
    assert_eq!(arguments[1].to_u32_argument(), Some(1));
}

#[test]
fn no_argument_events() {
    let close = EzStateEvent::new_close_shop_event();
    assert_eq!(close.command, ez_state_command_close_shop());
    assert!(close.arguments.is_empty());
    let clear = EzStateEvent::new_clear_talk_list_data_event();
    assert_eq!(clear.command, ez_state_command_clear_talk_list_data());
    assert_eq!(clear.arguments.len(), 0);
    let custom = EzStateEvent::new_no_args_command_event(EzStateEventCommand { bank: 9, id: 8 });
    assert_eq!(custom.command, EzStateEventCommand { bank: 9, id: 8 });
    assert!(custom.arguments.is_empty());
}

#[test]
fn confirmation_dialog_event_carries_the_text() {
    let event = EzStateEvent::new_grace_confirmation_dialog_event(4100);
    assert_eq!(event.command, ez_state_command_open_generic_dialog());
    let values: Vec<Option<u32>> = event.arguments.iter().map(|e| e.to_u32_argument()).collect();
    assert_eq!(values, vec![Some(7), Some(4100), Some(3), Some(4), Some(2)]);
}

#[test]
fn event_from_command_and_arguments() {
    let event = EzStateEvent::new(
        ez_state_command_open_shop(),
        DynamicSizeSpan::from_static_slice(vec![EzStateExpression::from_static_slice(vec![1, 2])]),
    );
    assert_eq!(event.command, ez_state_command_open_shop());
    assert_eq!(argument_bytes(&event), vec![vec![1, 2]]);
}

#[test]
fn span_reads_and_writes_its_items() {
    let mut span = DynamicSizeSpan::from_static_slice(vec![1u32, 2, 3]);
    assert_eq!(span.len(), 3);
    assert!(!span.is_empty());
    assert_eq!(span.iter().copied().collect::<Vec<u32>>(), vec![1, 2, 3]);
    span.as_mut()[1] = 20;
    assert_eq!(span.as_slice(), &[1, 20, 3]);
    assert_eq!(span.into_vec(), vec![1, 20, 3]);
    let empty: DynamicSizeSpan<u32> = DynamicSizeSpan::empty();
    assert!(empty.is_empty());
    let default: DynamicSizeSpan<u32> = DynamicSizeSpan::default();
    assert_eq!(default.len(), 0);
}

#[test]
fn talk_script_calls_have_their_command_and_arguments() {
    let clear = TalkScriptCall::clear_talk_list_data();
    assert_eq!((clear.id, clear.args), (20, vec![]));
    let add = TalkScriptCall::add_talk_list_data(1, 15000395, -1);
    assert_eq!((add.id, add.args), (19, vec![1, 15000395, -1]));
    let show = TalkScriptCall::show_shop_message(1);
    assert_eq!((show.id, show.args), (10, vec![1]));
    let regular = TalkScriptCall::open_regular_shop(100, 199);
    assert_eq!((regular.id, regular.args), (22, vec![100, 199]));
    let sell = TalkScriptCall::open_sell_shop(200, 299);
    assert_eq!((sell.id, sell.args), (46, vec![200, 299]));
    let result = TalkScriptCall::get_talk_list_menu_result();
    assert_eq!((result.id, result.args), (23, vec![]));
    let menu = TalkScriptCall::check_specific_person_menu_is_open(1, 0);
    assert_eq!((menu.id, menu.args), (59, vec![1, 0]));
    let dialog = TalkScriptCall::check_specific_person_generic_dialog_is_open(0);
    assert_eq!((dialog.id, dialog.args), (58, vec![0]));
}
