use er_extend_rs::esd_config::{
    ErExtendRsEsdConfig, EsdSubMenuConfig, EsdSubMenuItemConfig, ExtraMenu, MIN_BASE_STATE_AND_EVENT_ID,
};
use er_extend_rs::initialization::{initialize_er_extend_rs_esd_from_config, initialize_er_extend_rs_text};
use er_extend_rs::rva::{
    find_va_for_ez_state_enter_state, find_va_for_msg_repository_lookup_entry, parse_rva_pattern, rva_from_captures,
    rva_pattern_query, HookError, CAPTURE_INDEX, EZ_STATE_ENTER_STATE_PATTERN, MSG_REPOSITORY_LOOKUP_ENTRY_PATTERN,
    NUMBER_OF_CAPTURES,
};
use er_extend_rs::text_config::{EventTextForTalk, ExtraText, EVENT_TEXT_FOR_TALK_CATEGORY};
use pelite::pattern::Atom;

fn item(flag: u32) -> EsdSubMenuItemConfig {
    EsdSubMenuItemConfig { show_on_event_flag_id: None, text_id: flag + 1, select_flag_id: flag, confirmation_text_id: None }
}

fn menu(text_id: u32, flags: &[u32]) -> EsdSubMenuConfig {
    EsdSubMenuConfig {
        show_on_event_flag_id: None,
        menu_item_text_id: text_id,
        sub_menu_item_config: flags.iter().map(|f| item(*f)).collect(),
    }
}

fn entry(text_id: i32, text: &str) -> EventTextForTalk {
    EventTextForTalk { text_id, text: text.to_string() }
}

#[test]
fn flag_ids_are_listed_per_menu_in_order() {
    let extra_menu = ExtraMenu { base_state_and_event_id: 0, extra_menu_items: vec![menu(1, &[30, 10]), menu(2, &[10, 20])] };
    assert_eq!(extra_menu.all_menu_item_flag_ids(), vec![30, 10, 10, 20]);
}

#[test]
fn all_flag_ids_are_sorted_and_unique() {
    let config = ErExtendRsEsdConfig {
        extra_menu: ExtraMenu { base_state_and_event_id: 0, extra_menu_items: vec![menu(1, &[30, 10]), menu(2, &[10, 20])] },
        extra_text: ExtraText::default(),
    };
    assert_eq!(config.get_all_menu_item_flag_ids(), vec![10, 20, 30]);
    assert_eq!(ErExtendRsEsdConfig::default().get_all_menu_item_flag_ids(), Vec::<u32>::new());
}

#[test]
fn base_id_is_raised_to_the_minimum() {
    let low = ExtraMenu { base_state_and_event_id: 5, extra_menu_items: vec![] };
    assert_eq!(low.get_min_base_state_and_event_id(), MIN_BASE_STATE_AND_EVENT_ID);
    let exact = ExtraMenu { base_state_and_event_id: 0xFFFF, extra_menu_items: vec![] };
    assert_eq!(exact.get_min_base_state_and_event_id(), 0xFFFF);
    let high = ExtraMenu { base_state_and_event_id: 1_000_000, extra_menu_items: vec![] };
    assert_eq!(high.get_min_base_state_and_event_id(), 1_000_000);
}

#[test]
fn configuration_is_valid_with_text_or_menu() {
    assert!(!ErExtendRsEsdConfig::default().is_valid());
    let with_menu = ErExtendRsEsdConfig {
        extra_menu: ExtraMenu { base_state_and_event_id: 0, extra_menu_items: vec![menu(1, &[])] },
        extra_text: ExtraText::default(),
    };
    assert!(with_menu.is_valid());
    assert!(with_menu.extra_menu.has_extra_menu_items());
    let with_text = ErExtendRsEsdConfig {
        extra_menu: ExtraMenu::default(),
        extra_text: ExtraText::new(vec![entry(1, "x")]),
    };
    assert!(with_text.is_valid());
    assert!(!with_text.extra_menu.has_extra_menu_items());
}

#[test]
fn copied_menu_items_are_equal() {
    let extra_menu = ExtraMenu { base_state_and_event_id: 0, extra_menu_items: vec![menu(1, &[3]), menu(2, &[4, 5])] };
    let copied = extra_menu.copy_extra_menu_items();
    assert_eq!(copied.len(), 2);
    assert_eq!(copied[1].menu_item_text_id, 2);
    assert_eq!(copied[1].sub_menu_item_config, extra_menu.extra_menu_items[1].sub_menu_item_config);
}

#[test]
fn default_items_are_empty() {
    let item = EsdSubMenuItemConfig::default();
    assert_eq!(item, EsdSubMenuItemConfig { show_on_event_flag_id: None, text_id: 0, select_flag_id: 0, confirmation_text_id: None });
    let sub_menu = EsdSubMenuConfig::default();
    assert!(sub_menu.sub_menu_item_config.is_empty());
    assert_eq!(sub_menu.menu_item_text_id, 0);
    let text = EventTextForTalk::default();
    assert_eq!((text.text_id, text.text.as_str()), (0, ""));
}

#[test]
fn overridden_messages_are_utf16_with_terminator() {
    let extra_text = ExtraText::new(vec![entry(1, "Hi"), entry(2, "é"), entry(1, "Yo"), entry(3, "😀")]);
    assert!(extra_text.has_text_overrides());
    let messages = extra_text.generate_overridden_messages();
    assert_eq!(messages.len(), 1);
    let event_texts = &messages[&EVENT_TEXT_FOR_TALK_CATEGORY];
    assert_eq!(event_texts.len(), 3);
    assert_eq!(event_texts[&1], vec![b'Y' as u16, b'o' as u16, 0]);
    assert_eq!(event_texts[&2], vec![0xE9, 0]);
    assert_eq!(event_texts[&3], vec![0xD83D, 0xDE00, 0]);
}

#[test]
fn empty_text_gives_only_the_terminator() {
    let messages = ExtraText::new(vec![entry(-5, "")]).generate_overridden_messages();
    assert_eq!(messages[&33][&-5], vec![0]);
    assert!(ExtraText::new(vec![]).generate_overridden_messages()[&33].is_empty());
}

#[test]
fn text_hook_needs_some_text() {
    assert!(matches!(initialize_er_extend_rs_text(&ExtraText::default()), Err(HookError::NoDataToHook)));
}

#[test]
fn text_hook_answers_the_overridden_messages() {
    let hook = match initialize_er_extend_rs_text(&ExtraText::new(vec![entry(10, "A")])) {
        Ok(hook) => hook,
        Err(e) => panic!("no hook: {:?}", e),
    };
    assert_eq!(hook.lookup(33, 10), Some(&vec![b'A' as u16, 0]));
    assert_eq!(hook.lookup(33, 11), None);
    assert_eq!(hook.lookup(34, 10), None);
    assert_eq!(hook.lookup_entry.pattern, pelite::pattern::parse(MSG_REPOSITORY_LOOKUP_ENTRY_PATTERN).unwrap());
    assert_eq!(hook.lookup_entry.number_of_captures, 2);
    assert_eq!(hook.lookup_entry.capture_index, 1);
}

#[test]
fn esd_hooks_from_a_default_configuration() {
    let hooks = match initialize_er_extend_rs_esd_from_config(&ErExtendRsEsdConfig::default()) {
        Ok(hooks) => hooks,
        Err(e) => panic!("no hooks: {:?}", e),
    };
    assert!(hooks.text.is_none());
    assert_eq!(hooks.grace_menu.base_state_and_event_id, 0xFFFF);
    assert!(hooks.grace_menu.extra_menu_items.is_empty());
    assert_eq!(hooks.enter_state.pattern, pelite::pattern::parse(EZ_STATE_ENTER_STATE_PATTERN).unwrap());
}

#[test]
fn esd_hooks_with_text_install_the_text_hook() {
    let config = ErExtendRsEsdConfig {
        extra_menu: ExtraMenu { base_state_and_event_id: 80000, extra_menu_items: vec![menu(7, &[1])] },
        extra_text: ExtraText::new(vec![entry(7, "Seven")]),
    };
    let hooks = initialize_er_extend_rs_esd_from_config(&config).unwrap();
    let text = hooks.text.unwrap();
    assert_eq!(text.lookup(33, 7).map(|t| t.len()), Some(6));
    assert_eq!(hooks.grace_menu.base_state_and_event_id, 80000);
    assert_eq!(hooks.grace_menu.extra_menu_items.len(), 1);
}

#[test]
fn known_patterns_parse() {
    let enter_state = find_va_for_ez_state_enter_state().unwrap();
    assert_eq!(enter_state.pattern, pelite::pattern::parse(EZ_STATE_ENTER_STATE_PATTERN).unwrap());
    assert_eq!((enter_state.number_of_captures, enter_state.capture_index), (NUMBER_OF_CAPTURES, CAPTURE_INDEX));
    let lookup = find_va_for_msg_repository_lookup_entry().unwrap();
    assert_eq!(lookup.pattern, pelite::pattern::parse(MSG_REPOSITORY_LOOKUP_ENTRY_PATTERN).unwrap());
    assert!(!lookup.pattern.is_empty());
}

#[test]
fn pattern_text_is_parsed_into_atoms() {
    let query = parse_rva_pattern("80 7e", 3, 2).unwrap();
    assert_eq!(query.pattern, pelite::pattern::parse("80 7e").unwrap());
    assert!(query.pattern.contains(&Atom::Byte(0x80)));
    assert_eq!((query.number_of_captures, query.capture_index), (3, 2));
}

#[test]
fn bad_pattern_is_a_parse_error() {
    let expected = pelite::pattern::parse("8 zz").unwrap_err();
    match parse_rva_pattern("8 zz", 2, 1) {
        Err(HookError::ParsePatError(e)) => assert_eq!(e, expected),
        other => panic!("unexpected: {:?}", other.map(|q| q.pattern)),
    }
}

#[test]
fn query_from_a_parse_result() {
    let query = rva_pattern_query(Ok(vec![Atom::Byte(1), Atom::Save(0)]), 1, 0).unwrap();
    assert_eq!(query.pattern, vec![Atom::Byte(1), Atom::Save(0)]);
    let error = pelite::pattern::parse("(").unwrap_err();
    assert!(matches!(rva_pattern_query(Err(error), 1, 0), Err(HookError::ParsePatError(e)) if e == error));
}

#[test]
fn rva_is_the_chosen_capture_or_zero() {
    assert_eq!(rva_from_captures(true, &vec![0x10, 0x2345], 1), 0x2345);
    assert_eq!(rva_from_captures(false, &vec![0x10, 0x2345], 1), 0);
    assert_eq!(rva_from_captures(false, &vec![], 5), 0);
}
