//! The talk-script events that the extenders build.
use crate::ez_state_expression_extender::{
    get_event_flag_expression,
    plain_u32_indicator,
    shop_message_args,
    EzStateExpressionExtender,
    EzStateExpressionFactory,
};
use crate::ez_state_partial_copy::{
    expressions_view,
    EzStateEvent,
    EzStateEventCommand,
    EzStateEventView,
    EzStateExpression,
};
use crate::stl_partial_copy::DynamicSizeSpan;
use vstd::prelude::*;

verus! {

/// The command that shows the shop message (the talk list).
#[verifier::allow_in_spec]
pub fn ez_state_command_open_shop() -> EzStateEventCommand
    returns
        (EzStateEventCommand { bank: 1, id: 10 }),
{
    EzStateEventCommand { bank: 1, id: 10 }
}

/// The command that sets an event flag.
#[verifier::allow_in_spec]
pub fn ez_state_command_set_event_flag() -> EzStateEventCommand
    returns
        (EzStateEventCommand { bank: 1, id: 11 }),
{
    EzStateEventCommand { bank: 1, id: 11 }
}

/// The command that closes the shop message.
#[verifier::allow_in_spec]
pub fn ez_state_command_close_shop() -> EzStateEventCommand
    returns
        (EzStateEventCommand { bank: 1, id: 12 }),
{
    EzStateEventCommand { bank: 1, id: 12 }
}

/// The command that opens the generic dialog.
#[verifier::allow_in_spec]
pub fn ez_state_command_open_generic_dialog() -> EzStateEventCommand
    returns
        (EzStateEventCommand { bank: 1, id: 17 }),
{
    EzStateEventCommand { bank: 1, id: 17 }
}

/// The command that adds an entry to the talk list.
#[verifier::allow_in_spec]
pub fn ez_state_command_add_talk_list_data() -> EzStateEventCommand
    returns
        (EzStateEventCommand { bank: 1, id: 19 }),
{
    EzStateEventCommand { bank: 1, id: 19 }
}

/// The command that clears the talk list.
#[verifier::allow_in_spec]
pub fn ez_state_command_clear_talk_list_data() -> EzStateEventCommand
    returns
        (EzStateEventCommand { bank: 1, id: 20 }),
{
    EzStateEventCommand { bank: 1, id: 20 }
}

/// The command that opens the item repository (the chest).
#[verifier::allow_in_spec]
pub fn ez_state_command_open_repository() -> EzStateEventCommand
    returns
        (EzStateEventCommand { bank: 1, id: 30 }),
{
    EzStateEventCommand { bank: 1, id: 30 }
}

/// The command that adds an entry to the talk list where its condition holds.
#[verifier::allow_in_spec]
pub fn ez_state_command_add_talk_list_data_if() -> EzStateEventCommand
    returns
        (EzStateEventCommand { bank: 5, id: 19 }),
{
    EzStateEventCommand { bank: 5, id: 19 }
}

/// The arguments of an "add to talk list" event.
pub open spec fn add_talk_list_data_arguments(talk_list_event_id: u32, option_text_id: u32) -> Seq<
    Seq<u8>,
> {
    seq![
        plain_u32_indicator(talk_list_event_id),
        plain_u32_indicator(option_text_id),
        plain_u32_indicator(u32::MAX),
    ]
}

/// The arguments of an "add to talk list if the flag is set" event.
pub open spec fn add_talk_list_data_if_arguments(
    flag_id: u32,
    talk_list_event_id: u32,
    option_text_id: u32,
) -> Seq<Seq<u8>> {
    seq![
        get_event_flag_expression(flag_id),
        plain_u32_indicator(talk_list_event_id),
        plain_u32_indicator(option_text_id),
        plain_u32_indicator(u32::MAX),
    ]
}

/// The arguments of a "set the event flag on" event.
pub open spec fn set_event_flag_arguments(flag_id: u32) -> Seq<Seq<u8>> {
    seq![plain_u32_indicator(flag_id), plain_u32_indicator(1)]
}

/// The arguments of the event that opens the confirmation dialog with a text.
pub open spec fn confirmation_dialog_arguments(text_id: u32) -> Seq<Seq<u8>> {
    seq![
        plain_u32_indicator(7),
        plain_u32_indicator(text_id),
        plain_u32_indicator(3),
        plain_u32_indicator(4),
        plain_u32_indicator(2),
    ]
}

/// The event that adds the entry `option_text_id` to the talk list, answered with
/// `talk_list_event_id`.
pub open spec fn add_talk_list_data_event(talk_list_event_id: u32, option_text_id: u32) -> EzStateEventView {
    EzStateEventView {
        command: ez_state_command_add_talk_list_data(),
        arguments: add_talk_list_data_arguments(talk_list_event_id, option_text_id),
    }
}

/// The event that adds the entry where the flag `flag_id` is set.
pub open spec fn add_talk_list_data_if_event(
    flag_id: u32,
    talk_list_event_id: u32,
    option_text_id: u32,
) -> EzStateEventView {
    EzStateEventView {
        command: ez_state_command_add_talk_list_data_if(),
        arguments: add_talk_list_data_if_arguments(flag_id, talk_list_event_id, option_text_id),
    }
}

/// The event that sets the flag `flag_id` on.
pub open spec fn set_event_flag_event(flag_id: u32) -> EzStateEventView {
    EzStateEventView {
        command: ez_state_command_set_event_flag(),
        arguments: set_event_flag_arguments(flag_id),
    }
}

/// An event with the command and no argument.
pub open spec fn no_args_event(command: EzStateEventCommand) -> EzStateEventView {
    EzStateEventView { command, arguments: Seq::empty() }
}

/// The event that shows the shop message.
pub open spec fn show_shop_message_event() -> EzStateEventView {
    EzStateEventView { command: ez_state_command_open_shop(), arguments: shop_message_args() }
}

/// The event that opens the confirmation dialog with the text `text_id`.
pub open spec fn grace_confirmation_dialog_event(text_id: u32) -> EzStateEventView {
    EzStateEventView {
        command: ez_state_command_open_generic_dialog(),
        arguments: confirmation_dialog_arguments(text_id),
    }
}

/// Builds talk-script events.
pub trait EzStateEventFactory: Sized {
    fn new(command: EzStateEventCommand, arguments: DynamicSizeSpan<EzStateExpression>) -> Self;

    fn new_no_args_command_event(command: EzStateEventCommand) -> Self;

    fn new_add_talk_list_data_event(talk_list_event_id: u32, option_text_id: u32) -> Self;

    fn new_add_talk_list_data_if_event(
        flag_id: u32,
        talk_list_event_id: u32,
        option_text_id: u32,
    ) -> Self;

    fn new_set_event_flag_event(flag_id: u32) -> Self;

    fn new_close_shop_event() -> Self;

    fn new_clear_talk_list_data_event() -> Self;

    fn new_grace_confirmation_dialog_event(confirmation_text_id: u32) -> Self;
}

/// Builds the argument lists of talk-script events.
pub trait EzStateEventExtender {
    fn generate_add_talk_list_data_arguments(
        talk_list_event_id: u32,
        option_text_id: u32,
    ) -> Vec<EzStateExpression>;

    fn generate_add_talk_list_data_if_arguments(
        flag_id: u32,
        talk_list_event_id: u32,
        option_text_id: u32,
    ) -> Vec<EzStateExpression>;

    fn generate_set_event_flag_arguments(flag_id: u32) -> Vec<EzStateExpression>;
}

/// An expression that pushes `x`.
fn plain_expression(x: u32) -> (r: EzStateExpression)
    ensures
        r@ == plain_u32_indicator(x),
{
    EzStateExpression::from_static_slice(EzStateExpression::generate_plain_u32_indicator(x))
}

impl EzStateEventFactory for EzStateEvent {
    fn new(command: EzStateEventCommand, arguments: DynamicSizeSpan<EzStateExpression>) -> (r: Self)
        ensures
            r.command == command,
            r.arguments@ == arguments@,
    {
        Self { command, arguments }
    }

    fn new_no_args_command_event(command: EzStateEventCommand) -> (r: Self)
        ensures
            r@ == no_args_event(command),
    {
        let r = Self { command, arguments: DynamicSizeSpan::empty() };
        assert(r@ =~~= no_args_event(command));
        r
    }

    fn new_add_talk_list_data_event(talk_list_event_id: u32, option_text_id: u32) -> (r: Self)
        ensures
            r@ == add_talk_list_data_event(talk_list_event_id, option_text_id),
    {
        let args = Self::generate_add_talk_list_data_arguments(talk_list_event_id, option_text_id);
        let r = Self {
            command: ez_state_command_add_talk_list_data(),
            arguments: DynamicSizeSpan::from_static_slice(args),
        };
        assert(r@ =~~= add_talk_list_data_event(talk_list_event_id, option_text_id));
        r
    }

    fn new_add_talk_list_data_if_event(
        flag_id: u32,
        talk_list_event_id: u32,
        option_text_id: u32,
    ) -> (r: Self)
        ensures
            r@ == add_talk_list_data_if_event(flag_id, talk_list_event_id, option_text_id),
    {
        let args = Self::generate_add_talk_list_data_if_arguments(
            flag_id,
            talk_list_event_id,
            option_text_id,
        );
        let r = Self {
            command: ez_state_command_add_talk_list_data_if(),
            arguments: DynamicSizeSpan::from_static_slice(args),
        };
        assert(r@ =~~= add_talk_list_data_if_event(flag_id, talk_list_event_id, option_text_id));
        r
    }

    fn new_set_event_flag_event(flag_id: u32) -> (r: Self)
        ensures
            r@ == set_event_flag_event(flag_id),
    {
        let args = Self::generate_set_event_flag_arguments(flag_id);
        let r = Self {
            command: ez_state_command_set_event_flag(),
            arguments: DynamicSizeSpan::from_static_slice(args),
        };
        assert(r@ =~~= set_event_flag_event(flag_id));
        r
    }

    fn new_close_shop_event() -> (r: Self)
        ensures
            r@ == no_args_event(ez_state_command_close_shop()),
    {
        Self::new_no_args_command_event(ez_state_command_close_shop())
    }

    fn new_clear_talk_list_data_event() -> (r: Self)
        ensures
            r@ == no_args_event(ez_state_command_clear_talk_list_data()),
    {
        Self::new_no_args_command_event(ez_state_command_clear_talk_list_data())
    }

    fn new_grace_confirmation_dialog_event(confirmation_text_id: u32) -> (r: Self)
        ensures
            r@ == grace_confirmation_dialog_event(confirmation_text_id),
    {
        let mut args: Vec<EzStateExpression> = Vec::new();
        args.push(plain_expression(7));
        args.push(plain_expression(confirmation_text_id));
        args.push(plain_expression(3));
        args.push(plain_expression(4));
        args.push(plain_expression(2));
        let r = Self {
            command: ez_state_command_open_generic_dialog(),
            arguments: DynamicSizeSpan::from_static_slice(args),
        };
        assert(r@ =~~= grace_confirmation_dialog_event(confirmation_text_id));
        r
    }
}

impl EzStateEventExtender for EzStateEvent {
    fn generate_add_talk_list_data_arguments(talk_list_event_id: u32, option_text_id: u32) -> (r:
        Vec<EzStateExpression>)
        ensures
            expressions_view(r@) == add_talk_list_data_arguments(talk_list_event_id, option_text_id),
    {
        let mut args: Vec<EzStateExpression> = Vec::new();
        args.push(plain_expression(talk_list_event_id));
        args.push(plain_expression(option_text_id));
        args.push(
            EzStateExpression::from_static_slice(
                EzStateExpression::generate_u32_minus_1_equivalent_indicator(),
            ),
        );
        assert(expressions_view(args@) =~= add_talk_list_data_arguments(
            talk_list_event_id,
            option_text_id,
        ));
        args
    }

    fn generate_add_talk_list_data_if_arguments(
        flag_id: u32,
        talk_list_event_id: u32,
        option_text_id: u32,
    ) -> (r: Vec<EzStateExpression>)
        ensures
            expressions_view(r@) == add_talk_list_data_if_arguments(
                flag_id,
                talk_list_event_id,
                option_text_id,
            ),
    {
        let mut args: Vec<EzStateExpression> = Vec::new();
        args.push(EzStateExpression::new_get_event_flag_expression(flag_id));
        args.push(plain_expression(talk_list_event_id));
        args.push(plain_expression(option_text_id));
        args.push(
            EzStateExpression::from_static_slice(
                EzStateExpression::generate_u32_minus_1_equivalent_indicator(),
            ),
        );
        assert(expressions_view(args@) =~= add_talk_list_data_if_arguments(
            flag_id,
            talk_list_event_id,
            option_text_id,
        ));
        args
    }

    fn generate_set_event_flag_arguments(flag_id: u32) -> (r: Vec<EzStateExpression>)
        ensures
            expressions_view(r@) == set_event_flag_arguments(flag_id),
    {
        let mut args: Vec<EzStateExpression> = Vec::new();
        args.push(plain_expression(flag_id));
        args.push(plain_expression(1));
        assert(expressions_view(args@) =~= set_event_flag_arguments(flag_id));
        args
    }
}

} // verus!
