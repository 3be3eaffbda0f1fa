//! The talk-script events and queries that the extenders invoke directly:
//! each is the game's command number with its integer arguments.
use vstd::prelude::*;

verus! {

/// Shows the shop message box.
pub const SHOW_SHOP_MESSAGE_ID: i32 = 10;

/// Adds an option to the talk list.
pub const ADD_TALK_LIST_DATA_ID: i32 = 19;

/// Clears the talk list.
pub const CLEAR_TALK_LIST_DATA_ID: i32 = 20;

/// Opens a shop that buys from a range of rows.
pub const OPEN_REGULAR_SHOP_ID: i32 = 22;

/// The option chosen in the talk list.
pub const GET_TALK_LIST_MENU_RESULT_ID: i32 = 23;

/// Opens a shop that sells from a range of rows.
pub const OPEN_SELL_SHOP_ID: i32 = 46;

/// Whether a given generic dialog is open.
pub const CHECK_SPECIFIC_GENERIC_DIALOG_IS_OPEN_ID: i32 = 58;

/// Whether a given menu of a person is open.
pub const CHECK_SPECIFIC_PERSON_MENU_IS_OPEN_ID: i32 = 59;

/// A talk-script event or query: its command number and its arguments, in order.
#[derive(Debug)]
pub struct TalkScriptCall {
    pub id: i32,
    pub args: Vec<i32>,
}

impl TalkScriptCall {
    /// Whether this is the command `id` with the arguments `args`.
    pub open spec fn is_command(&self, id: i32, args: Seq<i32>) -> bool {
        self.id == id && self.args@ == args
    }

    /// Clears the talk list.
    pub fn clear_talk_list_data() -> (r: Self)
        ensures
            r.is_command(CLEAR_TALK_LIST_DATA_ID, seq![]),
    {
        TalkScriptCall { id: CLEAR_TALK_LIST_DATA_ID, args: Vec::new() }
    }

    /// Adds the option with text `text_id` at `index` to the talk list.
    pub fn add_talk_list_data(index: i32, text_id: i32, unk1: i32) -> (r: Self)
        ensures
            r.is_command(ADD_TALK_LIST_DATA_ID, seq![index, text_id, unk1]),
    {
        TalkScriptCall { id: ADD_TALK_LIST_DATA_ID, args: vec![index, text_id, unk1] }
    }

    /// Shows the shop message box.
    pub fn show_shop_message(unk1: i32) -> (r: Self)
        ensures
            r.is_command(SHOW_SHOP_MESSAGE_ID, seq![unk1]),
    {
        let args = vec![unk1];
        assert(args@ =~= seq![unk1]);
        TalkScriptCall { id: SHOW_SHOP_MESSAGE_ID, args }
    }

    /// Opens a shop that buys the rows from `start_id_inclusive` to `end_id_inclusive`.
    pub fn open_regular_shop(start_id_inclusive: i32, end_id_inclusive: i32) -> (r: Self)
        ensures
            r.is_command(OPEN_REGULAR_SHOP_ID, seq![start_id_inclusive, end_id_inclusive]),
    {
        TalkScriptCall { id: OPEN_REGULAR_SHOP_ID, args: vec![start_id_inclusive, end_id_inclusive] }
    }

    /// Opens a shop that sells the rows from `start_id_inclusive` to `end_id_inclusive`.
    pub fn open_sell_shop(start_id_inclusive: i32, end_id_inclusive: i32) -> (r: Self)
        ensures
            r.is_command(OPEN_SELL_SHOP_ID, seq![start_id_inclusive, end_id_inclusive]),
    {
        TalkScriptCall { id: OPEN_SELL_SHOP_ID, args: vec![start_id_inclusive, end_id_inclusive] }
    }

    /// Asks which option of the talk list was chosen.
    pub fn get_talk_list_menu_result() -> (r: Self)
        ensures
            r.is_command(GET_TALK_LIST_MENU_RESULT_ID, seq![]),
    {
        TalkScriptCall { id: GET_TALK_LIST_MENU_RESULT_ID, args: Vec::new() }
    }

    /// Asks whether the menu of type `menu_type` (the game's number for it)
    /// with `id` is open.
    pub fn check_specific_person_menu_is_open(menu_type: i32, id: i32) -> (r: Self)
        ensures
            r.is_command(CHECK_SPECIFIC_PERSON_MENU_IS_OPEN_ID, seq![menu_type, id]),
    {
        TalkScriptCall { id: CHECK_SPECIFIC_PERSON_MENU_IS_OPEN_ID, args: vec![menu_type, id] }
    }

    /// Asks whether the generic dialog `id` is open.
    pub fn check_specific_person_generic_dialog_is_open(id: i32) -> (r: Self)
        ensures
            r.is_command(CHECK_SPECIFIC_GENERIC_DIALOG_IS_OPEN_ID, seq![id]),
    {
        let args = vec![id];
        assert(args@ =~= seq![id]);
        TalkScriptCall { id: CHECK_SPECIFIC_GENERIC_DIALOG_IS_OPEN_ID, args }
    }
}

} // verus!
