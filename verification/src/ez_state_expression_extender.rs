//! Bytecode of the talk-script expressions that the extenders build and read.
use crate::ez_state_partial_copy::EzStateExpression;
use crate::stl_partial_copy::DynamicSizeSpan;
use vstd::prelude::*;

verus! {

/// Bytecode of `==`.
pub const EQUALS: u8 = 0x95;

/// Bytecode that announces a 4-byte little-endian integer.
pub const U32_INDICATOR: u8 = 0x82;

/// Bytecode that ends an expression.
pub const EXPRESSION_END_INDICATOR: u8 = 0xA1;

/// The 4 little-endian bytes of `x`.
pub open spec fn u32_le_bytes(x: u32) -> Seq<u8> {
    seq![
        (x & 0xff) as u8,
        ((x >> 8u32) & 0xff) as u8,
        ((x >> 16u32) & 0xff) as u8,
        ((x >> 24u32) & 0xff) as u8,
    ]
}

/// The integer whose little-endian bytes are `b0`, `b1`, `b2`, `b3`.
pub open spec fn u32_from_le_bytes(b0: u8, b1: u8, b2: u8, b3: u8) -> u32 {
    (b0 as u32) | ((b1 as u32) << 8u32) | ((b2 as u32) << 16u32) | ((b3 as u32) << 24u32)
}

/// Reading back the little-endian bytes of an integer gives the integer.
pub proof fn lemma_u32_le_bytes_round_trip(x: u32)
    ensures
        u32_from_le_bytes(
            u32_le_bytes(x)[0],
            u32_le_bytes(x)[1],
            u32_le_bytes(x)[2],
            u32_le_bytes(x)[3],
        ) == x,
{
    let b0 = (x & 0xff) as u8;
    let b1 = ((x >> 8u32) & 0xff) as u8;
    let b2 = ((x >> 16u32) & 0xff) as u8;
    let b3 = ((x >> 24u32) & 0xff) as u8;
    assert(u32_le_bytes(x)[0] == b0 && u32_le_bytes(x)[1] == b1 && u32_le_bytes(x)[2] == b2
        && u32_le_bytes(x)[3] == b3);
    assert((b0 as u32) | ((b1 as u32) << 8u32) | ((b2 as u32) << 16u32) | ((b3 as u32) << 24u32)
        == x) by (bit_vector)
        requires
            b0 == (x & 0xff) as u8,
            b1 == ((x >> 8u32) & 0xff) as u8,
            b2 == ((x >> 16u32) & 0xff) as u8,
            b3 == ((x >> 24u32) & 0xff) as u8,
    ;
}

/// Writing the integer whose little-endian bytes were read gives those bytes.
pub proof fn lemma_u32_from_le_bytes_round_trip(b0: u8, b1: u8, b2: u8, b3: u8)
    ensures
        u32_le_bytes(u32_from_le_bytes(b0, b1, b2, b3)) == seq![b0, b1, b2, b3],
{
    let x = u32_from_le_bytes(b0, b1, b2, b3);
    assert((x & 0xff) as u8 == b0 && ((x >> 8u32) & 0xff) as u8 == b1 && ((x >> 16u32) & 0xff) as u8 == b2
        && ((x >> 24u32) & 0xff) as u8 == b3) by (bit_vector)
        requires
            x == (b0 as u32) | ((b1 as u32) << 8u32) | ((b2 as u32) << 16u32) | ((b3 as u32) << 24u32),
    ;
    assert(u32_le_bytes(x) =~= seq![b0, b1, b2, b3]);
}

/// An expression that pushes the integer `x`.
pub open spec fn plain_u32_indicator(x: u32) -> Seq<u8> {
    seq![U32_INDICATOR] + u32_le_bytes(x) + seq![EXPRESSION_END_INDICATOR]
}

/// The integer that an expression pushes, where it is one that pushes a plain
/// integer and does nothing else.
pub open spec fn u32_argument(bytes: Seq<u8>) -> Option<u32> {
    if bytes.len() == 6 && bytes[0] == U32_INDICATOR && bytes[5] == EXPRESSION_END_INDICATOR {
        Some(u32_from_le_bytes(bytes[1], bytes[2], bytes[3], bytes[4]))
    } else {
        None
    }
}

/// The evaluator that holds when the talk list answered with `event_id`.
pub open spec fn talk_data_event_id_evaluator(event_id: u32) -> Seq<u8> {
    seq![0x57u8, 0x84u8, U32_INDICATOR] + u32_le_bytes(event_id) + seq![
        EQUALS,
        EXPRESSION_END_INDICATOR,
    ]
}

/// The expression that reads the event flag `flag_id`.
pub open spec fn get_event_flag_expression(flag_id: u32) -> Seq<u8> {
    seq![0x4Fu8, U32_INDICATOR] + u32_le_bytes(flag_id) + seq![0x85u8, EXPRESSION_END_INDICATOR]
}

/// The evaluator that holds once neither the shop menu nor a generic dialog
/// of the talking person is open.
pub open spec fn close_shop_menu_evaluator() -> Seq<u8> {
    seq![
        0x7bu8,
        0x41u8,
        0x40u8,
        0x86u8,
        0x41u8,
        EQUALS,
        0x7au8,
        0x40u8,
        0x85u8,
        0x40u8,
        EQUALS,
        0x98u8,
        0x40u8,
        EQUALS,
        EXPRESSION_END_INDICATOR,
    ]
}

/// The evaluator that always holds (it pushes 1).
pub open spec fn handle_back_button_evaluator() -> Seq<u8> {
    seq![0x41u8, EXPRESSION_END_INDICATOR]
}

/// The evaluator that holds when the confirmation dialog was accepted.
pub open spec fn dialog_confirmed_evaluator() -> Seq<u8> {
    seq![0xB9u8, U32_INDICATOR, 0u8, 0u8, 0u8, 0u8, EQUALS, EXPRESSION_END_INDICATOR]
}

/// The evaluator that holds when the dialog call is done.
pub open spec fn call_done_evaluator() -> Seq<u8> {
    seq![0xB9u8, 0xBAu8, 0x96u8, EXPRESSION_END_INDICATOR]
}

/// The arguments of the command that shows the shop message: one argument, 1.
pub open spec fn shop_message_args() -> Seq<Seq<u8>> {
    seq![plain_u32_indicator(1)]
}

/// The 4 little-endian bytes of `x`, appended to `v`.
fn push_u32_le_bytes(v: &mut Vec<u8>, x: u32)
    ensures
        final(v)@ == old(v)@ + u32_le_bytes(x),
{
    v.push((x & 0xff) as u8);
    v.push(((x >> 8u32) & 0xff) as u8);
    v.push(((x >> 16u32) & 0xff) as u8);
    v.push(((x >> 24u32) & 0xff) as u8);
}

/// Builds talk-script expressions.
pub trait EzStateExpressionFactory: Sized {
    fn new_talk_data_event_id_evaluator(talk_list_event_id: u32) -> Self;

    fn new_get_event_flag_expression(flag_id: u32) -> Self;

    fn new_close_shop_menu_evaluator() -> Self;

    fn new_handle_back_button_evaluator() -> Self;

    fn new_dialog_confirmed_evaluator() -> Self;

    fn new_call_done_evaluator() -> Self;
}

/// Builds and reads the plain-integer arguments of talk-script events.
pub trait EzStateExpressionExtender: Sized {
    fn new_shop_message_args() -> DynamicSizeSpan<Self>;

    fn generate_plain_u32_indicator(plain_u32: u32) -> Vec<u8>;

    fn generate_u32_minus_1_equivalent_indicator() -> Vec<u8>;

    fn to_u32_argument(&self) -> Option<u32>;
}

impl EzStateExpressionFactory for EzStateExpression {
    fn new_talk_data_event_id_evaluator(talk_list_event_id: u32) -> (r: Self)
        ensures
            r@ == talk_data_event_id_evaluator(talk_list_event_id),
    {
        let mut bytes: Vec<u8> = vec![0x57u8, 0x84u8, U32_INDICATOR];
        push_u32_le_bytes(&mut bytes, talk_list_event_id);
        bytes.push(EQUALS);
        bytes.push(EXPRESSION_END_INDICATOR);
        assert(bytes@ =~= talk_data_event_id_evaluator(talk_list_event_id));
        EzStateExpression::from_static_slice(bytes)
    }

    fn new_get_event_flag_expression(flag_id: u32) -> (r: Self)
        ensures
            r@ == get_event_flag_expression(flag_id),
    {
        let mut bytes: Vec<u8> = vec![0x4Fu8, U32_INDICATOR];
        push_u32_le_bytes(&mut bytes, flag_id);
        bytes.push(0x85u8);
        bytes.push(EXPRESSION_END_INDICATOR);
        assert(bytes@ =~= get_event_flag_expression(flag_id));
        EzStateExpression::from_static_slice(bytes)
    }

    fn new_close_shop_menu_evaluator() -> (r: Self)
        ensures
            r@ == close_shop_menu_evaluator(),
    {
        let bytes: Vec<u8> = vec![
            0x7bu8,  // 59 (CheckSpecificPersonMenuIsOpen)
            0x41u8,  // 1
            0x40u8,  // 0
            0x86u8,  // call with 2 args
            0x41u8,  // 1
            EQUALS,  // ==
            0x7au8,  // 58 (CheckSpecificPersonGenericDialogIsOpen)
            0x40u8,  // 0
            0x85u8,  // call with 1 arg
            0x40u8,  // 0
            EQUALS,  // ==
            0x98u8,  // &&
            0x40u8,  // 0
            EQUALS,  // ==
            EXPRESSION_END_INDICATOR,
        ];
        assert(bytes@ =~= close_shop_menu_evaluator());
        EzStateExpression::from_static_slice(bytes)
    }

    fn new_handle_back_button_evaluator() -> (r: Self)
        ensures
            r@ == handle_back_button_evaluator(),
    {
        let bytes: Vec<u8> = vec![0x41u8, EXPRESSION_END_INDICATOR];
        assert(bytes@ =~= handle_back_button_evaluator());
        EzStateExpression::from_static_slice(bytes)
    }

    fn new_dialog_confirmed_evaluator() -> (r: Self)
        ensures
            r@ == dialog_confirmed_evaluator(),
    {
        let bytes: Vec<u8> = vec![0xB9u8, U32_INDICATOR, 0u8, 0u8, 0u8, 0u8, EQUALS, EXPRESSION_END_INDICATOR];
        assert(bytes@ =~= dialog_confirmed_evaluator());
        EzStateExpression::from_static_slice(bytes)
    }

    fn new_call_done_evaluator() -> (r: Self)
        ensures
            r@ == call_done_evaluator(),
    {
        let bytes: Vec<u8> = vec![0xB9u8, 0xBAu8, 0x96u8, EXPRESSION_END_INDICATOR];
        assert(bytes@ =~= call_done_evaluator());
        EzStateExpression::from_static_slice(bytes)
    }
}

impl EzStateExpressionExtender for EzStateExpression {
    fn new_shop_message_args() -> (r: DynamicSizeSpan<EzStateExpression>)
        ensures
            r@.map_values(|e: EzStateExpression| e@) == shop_message_args(),
    {
        let push_one = EzStateExpression::from_static_slice(
            EzStateExpression::generate_plain_u32_indicator(1),
        );
        let mut args: Vec<EzStateExpression> = Vec::new();
        args.push(push_one);
        let r = DynamicSizeSpan::from_static_slice(args);
        assert(r@.map_values(|e: EzStateExpression| e@) =~= shop_message_args());
        r
    }

    fn generate_plain_u32_indicator(plain_u32: u32) -> (r: Vec<u8>)
        ensures
            r@ == plain_u32_indicator(plain_u32),
    {
        let mut bytes: Vec<u8> = vec![U32_INDICATOR];
        push_u32_le_bytes(&mut bytes, plain_u32);
        bytes.push(EXPRESSION_END_INDICATOR);
        assert(bytes@ =~= plain_u32_indicator(plain_u32));
        bytes
    }

    fn generate_u32_minus_1_equivalent_indicator() -> (r: Vec<u8>)
        ensures
            r@ == plain_u32_indicator(u32::MAX),
    {
        Self::generate_plain_u32_indicator(u32::MAX)
    }

    fn to_u32_argument(&self) -> (r: Option<u32>)
        ensures
            r == u32_argument(self@),
    {
        let bytes = self.as_slice();
        if bytes.len() == 6 && bytes[0] == U32_INDICATOR && bytes[5] == EXPRESSION_END_INDICATOR {
            Some(
                (bytes[1] as u32) | ((bytes[2] as u32) << 8u32) | ((bytes[3] as u32) << 16u32) | ((
                bytes[4] as u32) << 24u32),
            )
        } else {
            None
        }
    }
}

/// An expression is read as the integer `x` exactly where it is the
/// expression that pushes `x`.
pub proof fn law_u32_argument_only_of_plain_indicator(bytes: Seq<u8>, x: u32)
    requires
        u32_argument(bytes) == Some(x),
    ensures
        bytes == plain_u32_indicator(x),
{
    lemma_u32_from_le_bytes_round_trip(bytes[1], bytes[2], bytes[3], bytes[4]);
    assert(bytes =~= plain_u32_indicator(x));
}

/// Reading back the argument of a plain-integer expression gives the integer.
pub proof fn lemma_plain_u32_indicator_round_trip(x: u32)
    ensures
        u32_argument(plain_u32_indicator(x)) == Some(x),
{
    lemma_u32_le_bytes_round_trip(x);
    let b = plain_u32_indicator(x);
    assert(b[1] == u32_le_bytes(x)[0] && b[2] == u32_le_bytes(x)[1] && b[3] == u32_le_bytes(x)[2]
        && b[4] == u32_le_bytes(x)[3]);
}

} // verus!
