//! What the extenders install: the text override hook and the grace menu
//! hook, each with the pattern that locates the function it detours.
use crate::esd_config::{sub_menus_view, ErExtendRsEsdConfig, MIN_BASE_STATE_AND_EVENT_ID};
use crate::esd_grace_menu_enhancement::{insert_text_options_into_grace_menu, GraceMenuHook};
use crate::rva::{
    find_va_for_ez_state_enter_state,
    find_va_for_msg_repository_lookup_entry,
    rva_pattern_query_result,
    HookError,
    RvaPatternQuery,
    CAPTURE_INDEX,
    EZ_STATE_ENTER_STATE_PATTERN,
    MSG_REPOSITORY_LOOKUP_ENTRY_PATTERN,
    NUMBER_OF_CAPTURES,
};
use crate::text_config::{overridden_event_texts, EventTextForTalk, ExtraText, EVENT_TEXT_FOR_TALK_CATEGORY};
use std::collections::HashMap;
use vstd::prelude::*;

verus! {

/// The name of the text configuration file that sits beside the library.
pub const DEFAULT_ER_EXTEND_RS_TEXT_CONFIG_FILE: &'static str = "er-extend-rs-text.toml";

/// The name of the grace menu configuration file that sits beside the library.
pub const ER_EXTEND_RS_ESD_CONFIG_FILE: &'static str = "er-extend-rs-esd-config.toml";

/// The hook on the message lookup: where to find the function, and the
/// messages it answers in place of the game.
pub struct MsgRepositoryHook {
    pub lookup_entry: RvaPatternQuery,
    pub overridden_messages: HashMap<u32, HashMap<i32, Vec<u16>>>,
}

/// The hooked message lookup gives the overridden text of a message where
/// there is one, and otherwise lets the game look it up.
pub open spec fn overridden_text(
    messages: Map<u32, HashMap<i32, Vec<u16>>>,
    category: u32,
    entry: i32,
) -> Option<Seq<u16>> {
    if messages.contains_key(category) && messages[category]@.contains_key(entry) {
        Some(messages[category]@[entry]@)
    } else {
        None
    }
}

impl MsgRepositoryHook {
    /// The overridden text of the message `entry` of the category, if any.
    pub fn lookup(&self, category: u32, entry: i32) -> (r: Option<&Vec<u16>>)
        ensures
            match (r, overridden_text(self.overridden_messages@, category, entry)) {
                (Some(t), Some(expected)) => t@ == expected,
                (None, None) => true,
                _ => false,
            },
    {
        broadcast use vstd::std_specs::hash::group_hash_axioms;

        match self.overridden_messages.get(&category) {
            Some(category_map) => category_map.get(&entry),
            None => None,
        }
    }
}

/// The hooked lookup of messages made from the event text entries answers a
/// message of their category with the text of the last entry for its id, and
/// leaves every other message to the game.
pub proof fn law_lookup_answers_overridden_texts(
    messages: Map<u32, HashMap<i32, Vec<u16>>>,
    entries: Seq<EventTextForTalk>,
    category: u32,
    entry: i32,
)
    requires
        messages.dom() == set![EVENT_TEXT_FOR_TALK_CATEGORY],
        messages[EVENT_TEXT_FOR_TALK_CATEGORY]@.map_values(|v: Vec<u16>| v@) == overridden_event_texts(entries),
    ensures
        overridden_text(messages, category, entry) == if category == EVENT_TEXT_FOR_TALK_CATEGORY
            && overridden_event_texts(entries).contains_key(entry) {
            Some(overridden_event_texts(entries)[entry])
        } else {
            None
        },
{
    if category == EVENT_TEXT_FOR_TALK_CATEGORY {
        let m = messages[EVENT_TEXT_FOR_TALK_CATEGORY]@;
        assert(m.map_values(|v: Vec<u16>| v@).dom() == m.dom());
        if m.contains_key(entry) {
            assert(m.map_values(|v: Vec<u16>| v@)[entry] == m[entry]@);
        }
    }
}

/// The hook that overrides the configured texts, once the pattern that
/// locates the message lookup is parsed; there is nothing to hook where no
/// text is configured.
pub fn initialize_er_extend_rs_text(extra_text: &ExtraText) -> (r: Result<MsgRepositoryHook, HookError>)
    ensures
        extra_text.event_text_for_talk@.len() == 0 ==> r matches Err(HookError::NoDataToHook),
        extra_text.event_text_for_talk@.len() > 0 ==> {
            &&& rva_pattern_query_result(
                MSG_REPOSITORY_LOOKUP_ENTRY_PATTERN@,
                NUMBER_OF_CAPTURES,
                CAPTURE_INDEX,
                match r {
                    Ok(h) => Ok(h.lookup_entry),
                    Err(e) => Err(e),
                },
            )
            &&& r matches Ok(h) ==> {
                &&& h.overridden_messages@.dom() == set![EVENT_TEXT_FOR_TALK_CATEGORY]
                &&& h.overridden_messages@[EVENT_TEXT_FOR_TALK_CATEGORY]@.map_values(|v: Vec<u16>| v@)
                    == overridden_event_texts(extra_text.event_text_for_talk@)
            }
        },
{
    if !extra_text.has_text_overrides() {
        return Err(HookError::NoDataToHook);
    }
    let lookup_entry = match find_va_for_msg_repository_lookup_entry() {
        Ok(q) => q,
        Err(e) => {
            return Err(e);
        },
    };
    let overridden_messages = extra_text.generate_overridden_messages();
    Ok(MsgRepositoryHook { lookup_entry, overridden_messages })
}

/// The hooks that a grace menu configuration installs: the text hook where
/// texts are configured, and the grace menu hook with the pattern that
/// locates the function that enters talk-script states.
pub struct EsdHooks {
    pub text: Option<MsgRepositoryHook>,
    pub enter_state: RvaPatternQuery,
    pub grace_menu: GraceMenuHook,
}

/// The hooks of a grace menu configuration. The text hook comes first: where
/// texts are configured and its pattern does not parse, that error is
/// returned; then the error of the grace menu hook's pattern, if any.
pub fn initialize_er_extend_rs_esd_from_config(er_extend_rs_esd_config: &ErExtendRsEsdConfig) -> (r:
    Result<EsdHooks, HookError>)
    ensures
        ({
            let has_text = er_extend_rs_esd_config.extra_text.event_text_for_talk@.len() > 0;
            let text_parses = pattern_parse_ok(MSG_REPOSITORY_LOOKUP_ENTRY_PATTERN@);
            if has_text && !text_parses {
                rva_pattern_query_result(
                    MSG_REPOSITORY_LOOKUP_ENTRY_PATTERN@,
                    NUMBER_OF_CAPTURES,
                    CAPTURE_INDEX,
                    match r {
                        Ok(h) => Err(HookError::NoDataToHook),
                        Err(e) => Err(e),
                    },
                )
            } else {
                &&& rva_pattern_query_result(
                    EZ_STATE_ENTER_STATE_PATTERN@,
                    NUMBER_OF_CAPTURES,
                    CAPTURE_INDEX,
                    match r {
                        Ok(h) => Ok(h.enter_state),
                        Err(e) => Err(e),
                    },
                )
                &&& r matches Ok(h) ==> {
                    &&& (h.text is Some <==> has_text)
                    &&& h.text matches Some(t) ==> {
                        &&& rva_pattern_query_result(
                            MSG_REPOSITORY_LOOKUP_ENTRY_PATTERN@,
                            NUMBER_OF_CAPTURES,
                            CAPTURE_INDEX,
                            Ok(t.lookup_entry),
                        )
                        &&& t.overridden_messages@.dom() == set![EVENT_TEXT_FOR_TALK_CATEGORY]
                        &&& t.overridden_messages@[EVENT_TEXT_FOR_TALK_CATEGORY]@.map_values(
                            |v: Vec<u16>| v@,
                        ) == overridden_event_texts(
                            er_extend_rs_esd_config.extra_text.event_text_for_talk@,
                        )
                    }
                    &&& sub_menus_view(h.grace_menu.extra_menu_items@) == sub_menus_view(
                        er_extend_rs_esd_config.extra_menu.extra_menu_items@,
                    )
                    &&& h.grace_menu.base_state_and_event_id == if er_extend_rs_esd_config.extra_menu.base_state_and_event_id
                        >= MIN_BASE_STATE_AND_EVENT_ID {
                        er_extend_rs_esd_config.extra_menu.base_state_and_event_id
                    } else {
                        MIN_BASE_STATE_AND_EVENT_ID
                    }
                }
            }
        }),
{
    let extra_text = &er_extend_rs_esd_config.extra_text;
    let text = if extra_text.has_text_overrides() {
        match initialize_er_extend_rs_text(extra_text) {
            Ok(h) => Some(h),
            Err(e) => {
                return Err(e);
            },
        }
    } else {
        None
    };
    let grace_menu = insert_text_options_into_grace_menu(&er_extend_rs_esd_config.extra_menu);
    let enter_state = match find_va_for_ez_state_enter_state() {
        Ok(q) => q,
        Err(e) => {
            return Err(e);
        },
    };
    Ok(EsdHooks { text, enter_state, grace_menu })
}

/// Whether `pelite` parses the pattern text.
pub open spec fn pattern_parse_ok(pattern: Seq<char>) -> bool {
    crate::rva::pattern_parse(pattern) is Ok
}

} // verus!
