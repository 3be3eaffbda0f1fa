//! Extra entries of the grace menu: each opens a sub menu whose entries set
//! event flags, optionally after a confirmation.
use crate::esd_config::{sub_menus_view, EsdSubMenuConfig, EsdSubMenuConfigView, EsdSubMenuItemConfig, ExtraMenu};
use crate::ez_state_event_extender::{
    add_talk_list_data_event,
    add_talk_list_data_if_event,
    ez_state_command_clear_talk_list_data,
    ez_state_command_close_shop,
    no_args_event,
    show_shop_message_event,
    EzStateEventFactory,
};
use crate::ez_state_expression_extender::{close_shop_menu_evaluator, handle_back_button_evaluator};
use crate::ez_state_partial_copy::{
    states_view,
    EzStateEvent,
    EzStateEventView,
    EzStateMachineImpl,
    EzStateState,
    EzStateStateGroup,
    EzStateStateGroupView,
    EzStateStateView,
    EzStateTransition,
    EzStateTransitionView,
};
use crate::ez_state_state_extender::{
    empty_state,
    asks_confirmation,
    selection_index,
    selection_states,
    with_entry_event,
    with_transition,
    EzStateStateEvents,
    EzStateStateExtender,
    EzStateStateFactory,
    MemoryManagement,
};
use crate::ez_state_state_group_extender::{
    group_has_open_repository_transition,
    group_has_state_with_text_id,
    is_first_open_repository_transition,
    is_first_state_with_text_id,
    EzStateStateGroupExtender,
};
use crate::ez_state_transition_extender::{talk_list_data_transition, transition_view, EzStateTransitionFactory};
use vstd::prelude::*;

verus! {

/// The text of the grace menu entry that sorts the chest; the extra entries
/// are added to the state that shows it.
pub const SORT_CHEST_TEXT_ID_U32: u32 = 15000395;

/// The text of the entry that leaves a sub menu.
pub const CANCEL_TEXT_ID_U32: u32 = 15000372;

/// What the hook asks for after it ran.
pub enum HookBehavior {
    CallOriginalFunctionAfterHook,
    SkipOriginalFunctionCall,
}

// ----------------------------------------------------------------------------
// What a sub menu is made of
// ----------------------------------------------------------------------------

/// Whether an entry shows without condition: no flag, or flag 0.
pub open spec fn shows_always(flag: Option<u32>) -> bool {
    flag is None || flag == Some(0u32)
}

/// The talk-list entry of a sub menu entry, answered with `event_id`.
pub open spec fn talk_entry(item: EsdSubMenuItemConfig, event_id: u32) -> EzStateEventView {
    if shows_always(item.show_on_event_flag_id) {
        add_talk_list_data_event(event_id, item.text_id)
    } else {
        add_talk_list_data_if_event(item.show_on_event_flag_id->0, event_id, item.text_id)
    }
}

/// The talk-list entries of the sub menu entries; the entry at `i` is answered
/// with `i + 1`.
pub open spec fn talk_entries(items: Seq<EsdSubMenuItemConfig>) -> Seq<EzStateEventView> {
    Seq::new(items.len(), |i: int| talk_entry(items[i], (i + 1) as u32))
}

/// The entry events of the state that shows a sub menu.
pub open spec fn shop_entry_events(items: Seq<EsdSubMenuItemConfig>) -> Seq<EzStateEventView> {
    seq![
        no_args_event(ez_state_command_close_shop()),
        no_args_event(ez_state_command_clear_talk_list_data()),
    ] + talk_entries(items) + seq![
        add_talk_list_data_event((items.len() + 1) as u32, CANCEL_TEXT_ID_U32),
        show_shop_message_event(),
    ]
}

/// The state that shows a sub menu and, once it is closed, goes to `handler`.
pub open spec fn shop_state_view(id: i32, items: Seq<EsdSubMenuItemConfig>, handler: usize) -> EzStateStateView {
    EzStateStateView {
        id,
        transitions: seq![transition_view(handler, close_shop_menu_evaluator())],
        entry_events: shop_entry_events(items),
        exit_events: Seq::empty(),
        while_events: Seq::empty(),
    }
}

/// The states allocated for the selections of the entries, the first at
/// `first_index`; the entry at `k` is answered with `k + 1` and its flag
/// state has the id `handler_id + k + 1`.
pub open spec fn selections_states(
    items: Seq<EsdSubMenuItemConfig>,
    handler_id: int,
    target: usize,
    first_index: int,
) -> Seq<EzStateStateView>
    decreases items.len(),
{
    if items.len() == 0 {
        Seq::empty()
    } else {
        let prev = selections_states(items.drop_last(), handler_id, target, first_index);
        let k = items.len() - 1;
        prev + selection_states(
            (handler_id + k + 1) as i32,
            items.last().select_flag_id,
            (k + 1) as u32,
            target,
            items.last().confirmation_text_id,
            (first_index + prev.len()) as usize,
        )
    }
}

/// The transitions of the handler state to the selections, the last entry's first.
pub open spec fn handler_transitions(
    items: Seq<EsdSubMenuItemConfig>,
    handler_id: int,
    target: usize,
    first_index: int,
) -> Seq<EzStateTransitionView>
    decreases items.len(),
{
    if items.len() == 0 {
        Seq::empty()
    } else {
        let prev = selections_states(items.drop_last(), handler_id, target, first_index);
        let k = items.len() - 1;
        seq![
            talk_list_data_transition(
                selection_index(items.last().confirmation_text_id, (first_index + prev.len()) as usize) as usize,
                (k + 1) as u32,
            ),
        ] + handler_transitions(items.drop_last(), handler_id, target, first_index)
    }
}

/// The state that handles the answer of a sub menu: one transition per
/// entry, then the way back to `back_target`.
pub open spec fn handler_state_view(
    id: i32,
    items: Seq<EsdSubMenuItemConfig>,
    target: usize,
    first_index: int,
    back_target: usize,
) -> EzStateStateView {
    EzStateStateView {
        id,
        transitions: handler_transitions(items, id as int, target, first_index) + seq![
            transition_view(back_target, handle_back_button_evaluator()),
        ],
        entry_events: Seq::empty(),
        exit_events: Seq::empty(),
        while_events: Seq::empty(),
    }
}

/// The states allocated for a sub menu numbered from `base`, the first at
/// `shop_index`: the state that shows it, the selection states and the
/// handler state.
pub open spec fn submenu_states(
    cfg: EsdSubMenuConfigView,
    base: u32,
    shop_index: int,
    back_target: usize,
) -> Seq<EzStateStateView> {
    let items = cfg.sub_menu_item_config;
    let handler_id = (base as i32) + 1;
    let sel = selections_states(items, handler_id, shop_index as usize, shop_index + 1);
    seq![shop_state_view(base as i32, items, (shop_index + 1 + sel.len()) as usize)] + sel + seq![
        handler_state_view(handler_id as i32, items, shop_index as usize, shop_index + 1, back_target),
    ]
}

/// The entry event of the state that shows a sub menu for the entry at `k`:
/// an entry with a show flag other than 0 is added to the talk list only
/// where that flag is on (its first argument reads the show flag), any other
/// entry unconditionally; either way it is answered with `k + 1` and shows
/// the entry's text.
pub proof fn law_shop_entry_shows_on_its_show_flag(items: Seq<EsdSubMenuItemConfig>, k: int)
    requires
        0 <= k < items.len(),
    ensures
        ({
            let e = shop_entry_events(items)[k + 2];
            match items[k].show_on_event_flag_id {
                Some(f) if f != 0 => {
                    &&& e.command == crate::ez_state_event_extender::ez_state_command_add_talk_list_data_if()
                    &&& e.arguments.len() == 4
                    &&& e.arguments[0] == crate::ez_state_expression_extender::get_event_flag_expression(f)
                    &&& crate::ez_state_expression_extender::u32_argument(e.arguments[1]) == Some((k + 1) as u32)
                    &&& crate::ez_state_expression_extender::u32_argument(e.arguments[2]) == Some(items[k].text_id)
                },
                _ => {
                    &&& e.command == crate::ez_state_event_extender::ez_state_command_add_talk_list_data()
                    &&& e.arguments.len() == 3
                    &&& crate::ez_state_expression_extender::u32_argument(e.arguments[0]) == Some((k + 1) as u32)
                    &&& crate::ez_state_expression_extender::u32_argument(e.arguments[1]) == Some(items[k].text_id)
                },
            }
        }),
{
    let events = shop_entry_events(items);
    assert(events[k + 2] == talk_entries(items)[k]);
    crate::ez_state_expression_extender::lemma_plain_u32_indicator_round_trip((k + 1) as u32);
    crate::ez_state_expression_extender::lemma_plain_u32_indicator_round_trip(items[k].text_id);
}

/// The state that shows a sub menu first closes the shop message and clears
/// the talk list, then lists the entries, then the cancel entry answered
/// with one more than the number of entries, and then shows the list.
pub proof fn law_shop_lists_entries_then_cancel(items: Seq<EsdSubMenuItemConfig>)
    requires
        items.len() < u32::MAX,
    ensures
        ({
            let events = shop_entry_events(items);
            let n = items.len() as int;
            let cancel = events[n + 2];
            &&& events.len() == n + 4
            &&& events[0].command == ez_state_command_close_shop() && events[0].arguments.len() == 0
            &&& events[1].command == ez_state_command_clear_talk_list_data() && events[1].arguments.len() == 0
            &&& cancel.command == crate::ez_state_event_extender::ez_state_command_add_talk_list_data()
            &&& crate::ez_state_expression_extender::u32_argument(cancel.arguments[0]) == Some((n + 1) as u32)
            &&& crate::ez_state_expression_extender::u32_argument(cancel.arguments[1]) == Some(CANCEL_TEXT_ID_U32)
            &&& events[n + 3].command == crate::ez_state_event_extender::ez_state_command_open_shop()
        }),
{
    let n = items.len() as int;
    crate::ez_state_expression_extender::lemma_plain_u32_indicator_round_trip((n + 1) as u32);
    crate::ez_state_expression_extender::lemma_plain_u32_indicator_round_trip(CANCEL_TEXT_ID_U32);
}

/// Whether the last entry of a sub menu asks for confirmation.
pub open spec fn last_asks_confirmation(items: Seq<EsdSubMenuItemConfig>) -> bool {
    items.len() > 0 && asks_confirmation(items.last().confirmation_text_id)
}

/// The state ids of a sub menu numbered from `base` fit an `i32`: the state
/// that shows it has the id `base` (as an `i32`), the handler the next one,
/// and the selection states of the `n` entries the `n` after it, one more
/// where the last entry asks for confirmation. The entries are no more
/// than an `i32` counts.
pub open spec fn sub_menu_ids_fit(items: Seq<EsdSubMenuItemConfig>, base: u32) -> bool {
    &&& items.len() <= i32::MAX
    &&& (base as i32) + 1 + items.len() + (if last_asks_confirmation(items) {
        1int
    } else {
        0int
    }) <= i32::MAX
}

/// The grace menu entry that opens the sub menu numbered from `base`.
pub open spec fn submenu_opening_event(cfg: EsdSubMenuConfigView, base: u32) -> EzStateEventView {
    if shows_always(cfg.show_on_event_flag_id) {
        add_talk_list_data_event(base, cfg.menu_item_text_id)
    } else {
        add_talk_list_data_if_event(cfg.show_on_event_flag_id->0, base, cfg.menu_item_text_id)
    }
}

/// The selection states of `k` entries take between `k` and `2 k` states.
pub proof fn lemma_selections_states_len(
    items: Seq<EsdSubMenuItemConfig>,
    handler_id: int,
    target: usize,
    first_index: int,
)
    ensures
        items.len() <= selections_states(items, handler_id, target, first_index).len() <= 2 * items.len(),
    decreases items.len(),
{
    if items.len() > 0 {
        lemma_selections_states_len(items.drop_last(), handler_id, target, first_index);
    }
}

// ----------------------------------------------------------------------------
// Searching a group, as functions
// ----------------------------------------------------------------------------

/// The index of the first of the group's own states that adds the text.
pub open spec fn first_state_with_text_id(g: EzStateStateGroupView, text_id: u32) -> Option<int> {
    if g.group_state_count <= g.states.len() && group_has_state_with_text_id(g, text_id) {
        Some(choose|i: int| is_first_state_with_text_id(g, text_id, i))
    } else {
        None
    }
}

/// The first transition to a state that opens the repository: its position
/// and the index of its state.
pub open spec fn first_open_repository_transition(g: EzStateStateGroupView) -> Option<(int, int)> {
    if g.group_state_count <= g.states.len() && group_has_open_repository_transition(g) {
        Some(choose|p: int, i: int| is_first_open_repository_transition(g, p, i))
    } else {
        None
    }
}

/// There is one first state that adds a text.
pub proof fn lemma_first_state_with_text_id_unique(g: EzStateStateGroupView, text_id: u32, i: int)
    requires
        g.group_state_count <= g.states.len(),
        is_first_state_with_text_id(g, text_id, i),
    ensures
        first_state_with_text_id(g, text_id) == Some(i),
{
    assert(group_has_state_with_text_id(g, text_id));
    let j = choose|j: int| is_first_state_with_text_id(g, text_id, j);
    if j < i {
        assert(!crate::ez_state_state_extender::contains_entry_event_with_text_id(g.states[j], text_id));
    } else if i < j {
        assert(!crate::ez_state_state_extender::contains_entry_event_with_text_id(g.states[i], text_id));
    }
}

/// There is one first transition to a state that opens the repository.
pub proof fn lemma_first_open_repository_transition_unique(g: EzStateStateGroupView, p: int, i: int)
    requires
        g.group_state_count <= g.states.len(),
        is_first_open_repository_transition(g, p, i),
    ensures
        first_open_repository_transition(g) == Some((p, i)),
{
    assert(crate::ez_state_state_group_extender::has_open_repository_transition(g.states[i], g.states));
    assert(group_has_open_repository_transition(g));
    let (q, j) = choose|q: int, j: int| is_first_open_repository_transition(g, q, j);
    if j < i {
        assert(crate::ez_state_state_group_extender::has_open_repository_transition(g.states[j], g.states));
    } else if i < j {
        assert(crate::ez_state_state_group_extender::has_open_repository_transition(g.states[i], g.states));
    } else {
        if q < p {
            assert(crate::ez_state_transition_extender::targets_open_repository_state(g.states[i].transitions[q], g.states));
        } else if p < q {
            assert(crate::ez_state_transition_extender::targets_open_repository_state(g.states[i].transitions[p], g.states));
        }
    }
}

/// Where one of the first `m` states adds a text, a first one does.
proof fn lemma_first_state_with_text_id_exists(g: EzStateStateGroupView, text_id: u32, m: int)
    requires
        m <= g.group_state_count,
        exists|i: int| 0 <= i < m && crate::ez_state_state_extender::contains_entry_event_with_text_id(#[trigger] g.states[i], text_id),
    ensures
        exists|i: int| is_first_state_with_text_id(g, text_id, i),
    decreases m,
{
    if exists|i: int| 0 <= i < m - 1 && crate::ez_state_state_extender::contains_entry_event_with_text_id(#[trigger] g.states[i], text_id) {
        lemma_first_state_with_text_id_exists(g, text_id, m - 1);
    } else {
        assert(is_first_state_with_text_id(g, text_id, m - 1));
    }
}

/// Where one of the first `m` states has a transition to a state that opens
/// the repository, a first such transition exists.
proof fn lemma_first_open_repository_transition_exists(g: EzStateStateGroupView, m: int)
    requires
        m <= g.group_state_count,
        exists|i: int| 0 <= i < m && crate::ez_state_state_group_extender::has_open_repository_transition(#[trigger] g.states[i], g.states),
    ensures
        exists|p: int, i: int| is_first_open_repository_transition(g, p, i),
    decreases m,
{
    if exists|i: int| 0 <= i < m - 1 && crate::ez_state_state_group_extender::has_open_repository_transition(#[trigger] g.states[i], g.states) {
        lemma_first_open_repository_transition_exists(g, m - 1);
    } else {
        let i = m - 1;
        assert(crate::ez_state_state_group_extender::has_open_repository_transition(g.states[i], g.states));
        lemma_first_transition_exists(g, i, g.states[i].transitions.len() as int);
    }
}

/// Where one of the first `m` transitions of the state at `i` leads to a
/// state that opens the repository, and no earlier state has such a
/// transition, a first such transition exists.
proof fn lemma_first_transition_exists(g: EzStateStateGroupView, i: int, m: int)
    requires
        0 <= i < g.group_state_count,
        m <= g.states[i].transitions.len(),
        forall|j: int| 0 <= j < i ==> !crate::ez_state_state_group_extender::has_open_repository_transition(#[trigger] g.states[j], g.states),
        exists|p: int| 0 <= p < m && crate::ez_state_transition_extender::targets_open_repository_state(#[trigger] g.states[i].transitions[p], g.states),
    ensures
        exists|p: int| is_first_open_repository_transition(g, p, i),
    decreases m,
{
    if exists|p: int| 0 <= p < m - 1 && crate::ez_state_transition_extender::targets_open_repository_state(#[trigger] g.states[i].transitions[p], g.states) {
        lemma_first_transition_exists(g, i, m - 1);
    } else {
        assert(is_first_open_repository_transition(g, m - 1, i));
    }
}

/// The group after the sub menu numbered from `base` was added, where it is
/// added: not where a state of the group already shows its text, nor where
/// the group has no state that shows the chest-sorting entry or no
/// transition to a state that opens the repository.
pub open spec fn add_menu_item_spec(
    base: u32,
    g: EzStateStateGroupView,
    cfg: EsdSubMenuConfigView,
) -> Option<EzStateStateGroupView> {
    if first_state_with_text_id(g, cfg.menu_item_text_id) is Some {
        None
    } else if first_state_with_text_id(g, SORT_CHEST_TEXT_ID_U32) is None {
        None
    } else if first_open_repository_transition(g) is None {
        None
    } else {
        let sort = first_state_with_text_id(g, SORT_CHEST_TEXT_ID_U32)->0;
        let (p, repo) = first_open_repository_transition(g)->0;
        let shop_index = g.states.len() as int;
        let states1 = g.states + submenu_states(cfg, base, shop_index, g.initial_state as usize);
        let states2 = states1.update(sort, with_entry_event(states1[sort], submenu_opening_event(cfg, base)));
        let states3 = states2.update(
            repo,
            with_transition(states2[repo], p, talk_list_data_transition(shop_index as usize, base)),
        );
        Some(EzStateStateGroupView { states: states3, ..g })
    }
}

/// The ids of the sub menus that are added in turn, numbered from `base`
/// on, fit: each added one's state ids fit an `i32`, and the next offset,
/// advanced by its entries and two more, fits a `u32`. Sub menus that are
/// not added take no ids.
pub open spec fn pass_ids_fit(items: Seq<EsdSubMenuConfigView>, base: int, g: EzStateStateGroupView) -> bool
    decreases items.len(),
{
    if items.len() == 0 {
        true
    } else {
        match add_menu_item_spec(base as u32, g, items[0]) {
            Some(g2) => {
                &&& sub_menu_ids_fit(items[0].sub_menu_item_config, base as u32)
                &&& base + items[0].sub_menu_item_config.len() + 2 <= u32::MAX
                &&& pass_ids_fit(items.drop_first(), base + items[0].sub_menu_item_config.len() + 2, g2)
            },
            None => pass_ids_fit(items.drop_first(), base, g),
        }
    }
}

/// The most states that the sub menus allocate.
pub open spec fn states_needed(items: Seq<EsdSubMenuConfigView>) -> int
    decreases items.len(),
{
    if items.len() == 0 {
        0
    } else {
        states_needed(items.drop_first()) + 2 * items[0].sub_menu_item_config.len() + 2
    }
}

/// The group after the sub menus were added in order, numbered from `base`:
/// each one that is added takes its entries and two more ids.
pub open spec fn add_menu_items_spec(items: Seq<EsdSubMenuConfigView>, base: int, g: EzStateStateGroupView) -> EzStateStateGroupView
    decreases items.len(),
{
    if items.len() == 0 {
        g
    } else {
        match add_menu_item_spec(base as u32, g, items[0]) {
            Some(g2) => add_menu_items_spec(
                items.drop_first(),
                base + items[0].sub_menu_item_config.len() + 2,
                g2,
            ),
            None => add_menu_items_spec(items.drop_first(), base, g),
        }
    }
}

/// The ids and states that sub menus need are never negative.
proof fn lemma_needed_nonneg(items: Seq<EsdSubMenuConfigView>)
    ensures
        states_needed(items) >= 0,
    decreases items.len(),
{
    if items.len() > 0 {
        lemma_needed_nonneg(items.drop_first());
    }
}

/// Adding a sub menu of `n` entries allocates at most `2 n + 2` states.
proof fn lemma_add_menu_item_spec_len(base: u32, g: EzStateStateGroupView, cfg: EsdSubMenuConfigView)
    ensures
        add_menu_item_spec(base, g, cfg) matches Some(g2) ==> g2.states.len() <= g.states.len() + 2
            * cfg.sub_menu_item_config.len() + 2,
{
    let shop_index = g.states.len() as int;
    lemma_selections_states_len(cfg.sub_menu_item_config, (base as i32) + 1, shop_index as usize, shop_index + 1);
    if add_menu_item_spec(base, g, cfg) is Some {
        lemma_first_state_with_text_id_exists(g, SORT_CHEST_TEXT_ID_U32, g.group_state_count as int);
        lemma_first_open_repository_transition_exists(g, g.group_state_count as int);
    }
}

/// A sub menu that shows without condition is added once: after it was
/// added to a group, adding it again, whatever its numbering, leaves the
/// group as it is.
pub proof fn law_unconditional_menu_item_added_once(
    base: u32,
    other_base: u32,
    g: EzStateStateGroupView,
    cfg: EsdSubMenuConfigView,
)
    requires
        add_menu_item_spec(base, g, cfg) is Some,
        shows_always(cfg.show_on_event_flag_id),
    ensures
        add_menu_item_spec(other_base, add_menu_item_spec(base, g, cfg)->0, cfg) is None,
{
    lemma_first_state_with_text_id_exists(g, SORT_CHEST_TEXT_ID_U32, g.group_state_count as int);
    lemma_first_open_repository_transition_exists(g, g.group_state_count as int);
    let g2 = add_menu_item_spec(base, g, cfg)->0;
    let sort = first_state_with_text_id(g, SORT_CHEST_TEXT_ID_U32)->0;
    let (p, repo) = first_open_repository_transition(g)->0;
    let shop_index = g.states.len() as int;
    let states1 = g.states + submenu_states(cfg, base, shop_index, g.initial_state as usize);
    let states2 = states1.update(sort, with_entry_event(states1[sort], submenu_opening_event(cfg, base)));
    let ev = add_talk_list_data_event(base, cfg.menu_item_text_id);
    assert(submenu_opening_event(cfg, base) == ev);
    assert(states2[sort].entry_events.last() == ev);
    assert(g2.states[sort].entry_events == states2[sort].entry_events);
    let last = g2.states[sort].entry_events.len() - 1;
    assert(g2.states[sort].entry_events[last] == ev);
    crate::ez_state_expression_extender::lemma_plain_u32_indicator_round_trip(cfg.menu_item_text_id);
    assert(ev.arguments[1] == crate::ez_state_expression_extender::plain_u32_indicator(cfg.menu_item_text_id));
    assert(crate::ez_state_state_extender::event_adds_text_id(g2.states[sort].entry_events[last], cfg.menu_item_text_id));
    assert(crate::ez_state_state_extender::contains_entry_event_with_text_id(g2.states[sort], cfg.menu_item_text_id));
    assert(group_has_state_with_text_id(g2, cfg.menu_item_text_id));
}

/// Whether adding the sub menu to the group is refused, whatever its
/// numbering: a state of the group already shows its text, or the group has
/// no state that shows the chest-sorting entry or no transition to a state
/// that opens the repository.
pub open spec fn add_refused(g: EzStateStateGroupView, cfg: EsdSubMenuConfigView) -> bool {
    ||| first_state_with_text_id(g, cfg.menu_item_text_id) is Some
    ||| first_state_with_text_id(g, SORT_CHEST_TEXT_ID_U32) is None
    ||| first_open_repository_transition(g) is None
}

/// Adding a sub menu keeps the group's own states, and every text that one
/// of them shows.
proof fn lemma_add_keeps_texts(base: u32, g: EzStateStateGroupView, cfg: EsdSubMenuConfigView, text_id: u32)
    requires
        add_menu_item_spec(base, g, cfg) is Some,
        group_has_state_with_text_id(g, text_id),
    ensures
        add_menu_item_spec(base, g, cfg)->0.group_state_count == g.group_state_count,
        add_menu_item_spec(base, g, cfg)->0.states.len() >= g.states.len(),
        group_has_state_with_text_id(add_menu_item_spec(base, g, cfg)->0, text_id),
{
    let g2 = add_menu_item_spec(base, g, cfg)->0;
    let sort = first_state_with_text_id(g, SORT_CHEST_TEXT_ID_U32)->0;
    let (p, repo) = first_open_repository_transition(g)->0;
    lemma_first_state_with_text_id_exists(g, SORT_CHEST_TEXT_ID_U32, g.group_state_count as int);
    lemma_first_open_repository_transition_exists(g, g.group_state_count as int);
    let i = choose|i: int|
        0 <= i < g.group_state_count && crate::ez_state_state_extender::contains_entry_event_with_text_id(
            #[trigger] g.states[i],
            text_id,
        );
    let old_events = g.states[i].entry_events;
    let new_events = g2.states[i].entry_events;
    assert(new_events.len() >= old_events.len() && forall|j: int| 0 <= j < old_events.len() ==> new_events[j] == old_events[j]);
    let j = choose|j: int|
        0 <= j < old_events.len() && crate::ez_state_state_extender::event_adds_text_id(#[trigger] old_events[j], text_id);
    assert(crate::ez_state_state_extender::event_adds_text_id(new_events[j], text_id));
    assert(crate::ez_state_state_extender::contains_entry_event_with_text_id(g2.states[i], text_id));
}

/// A refusal to add a sub menu outlasts the addition of another one.
proof fn lemma_refusal_persists(base: u32, g: EzStateStateGroupView, cfg: EsdSubMenuConfigView, x: EsdSubMenuConfigView)
    requires
        add_menu_item_spec(base, g, cfg) is Some,
        add_refused(g, x),
    ensures
        add_refused(add_menu_item_spec(base, g, cfg)->0, x),
{
    lemma_add_keeps_texts(base, g, cfg, x.menu_item_text_id);
    let g2 = add_menu_item_spec(base, g, cfg)->0;
    lemma_first_state_with_text_id_exists(g2, x.menu_item_text_id, g2.group_state_count as int);
}

/// A refusal to add a sub menu outlasts the addition of any sub menus.
proof fn lemma_pass_keeps_refusal(items: Seq<EsdSubMenuConfigView>, base: int, g: EzStateStateGroupView, x: EsdSubMenuConfigView)
    requires
        add_refused(g, x),
    ensures
        add_refused(add_menu_items_spec(items, base, g), x),
    decreases items.len(),
{
    if items.len() > 0 {
        match add_menu_item_spec(base as u32, g, items[0]) {
            Some(g2) => {
                lemma_refusal_persists(base as u32, g, items[0], x);
                lemma_pass_keeps_refusal(items.drop_first(), base + items[0].sub_menu_item_config.len() + 2, g2, x);
            },
            None => {
                lemma_pass_keeps_refusal(items.drop_first(), base, g, x);
            },
        }
    }
}

/// Once sub menus that show without condition were added in turn, adding
/// each of them again is refused.
proof fn lemma_pass_refuses_items(items: Seq<EsdSubMenuConfigView>, base: int, g: EzStateStateGroupView)
    requires
        forall|k: int| 0 <= k < items.len() ==> shows_always(#[trigger] items[k].show_on_event_flag_id),
    ensures
        forall|k: int| 0 <= k < items.len() ==> add_refused(add_menu_items_spec(items, base, g), #[trigger] items[k]),
    decreases items.len(),
{
    if items.len() > 0 {
        let rest = items.drop_first();
        assert(shows_always(items[0].show_on_event_flag_id));
        assert forall|k: int| 0 <= k < rest.len() implies shows_always(#[trigger] rest[k].show_on_event_flag_id) by {
            assert(rest[k] == items[k + 1]);
        }
        let result = add_menu_items_spec(items, base, g);
        match add_menu_item_spec(base as u32, g, items[0]) {
            Some(g2) => {
                let next = base + items[0].sub_menu_item_config.len() + 2;
                law_unconditional_menu_item_added_once(base as u32, base as u32, g, items[0]);
                lemma_pass_keeps_refusal(rest, next, g2, items[0]);
                lemma_pass_refuses_items(rest, next, g2);
            },
            None => {
                lemma_pass_keeps_refusal(rest, base, g, items[0]);
                lemma_pass_refuses_items(rest, base, g);
            },
        }
        assert forall|k: int| 0 <= k < items.len() implies add_refused(result, #[trigger] items[k]) by {
            if k > 0 {
                assert(items[k] == rest[k - 1]);
            }
        }
    }
}

/// Sub menus whose addition is refused leave the group as it is.
proof fn lemma_pass_over_refused(items: Seq<EsdSubMenuConfigView>, base: int, g: EzStateStateGroupView)
    requires
        forall|k: int| 0 <= k < items.len() ==> add_refused(g, #[trigger] items[k]),
    ensures
        add_menu_items_spec(items, base, g) == g,
    decreases items.len(),
{
    if items.len() > 0 {
        assert(add_refused(g, items[0]));
        let rest = items.drop_first();
        assert forall|k: int| 0 <= k < rest.len() implies add_refused(g, #[trigger] rest[k]) by {
            assert(rest[k] == items[k + 1]);
        }
        lemma_pass_over_refused(rest, base, g);
    }
}

/// Adding sub menus that show without condition a second time, whatever
/// their numbering, leaves the group as the first time left it: entering the
/// grace menu again adds nothing more.
pub proof fn law_grace_menu_items_added_once(
    items: Seq<EsdSubMenuConfigView>,
    base: int,
    other_base: int,
    g: EzStateStateGroupView,
)
    requires
        forall|k: int| 0 <= k < items.len() ==> shows_always(#[trigger] items[k].show_on_event_flag_id),
    ensures
        add_menu_items_spec(items, other_base, add_menu_items_spec(items, base, g)) == add_menu_items_spec(items, base, g),
{
    lemma_pass_refuses_items(items, base, g);
    lemma_pass_over_refused(items, other_base, add_menu_items_spec(items, base, g));
}

// ----------------------------------------------------------------------------
// Building a sub menu
// ----------------------------------------------------------------------------

/// The state that shows the sub menu of the entries, with the id `id`; its
/// transition to the handler state is added once that state is allocated.
fn new_sub_menu_shop_state(id: i32, items: &Vec<EsdSubMenuItemConfig>) -> (r: EzStateState)
    requires
        items@.len() <= i32::MAX,
    ensures
        r@ == (EzStateStateView { entry_events: shop_entry_events(items@), ..empty_state(id) }),
{
    let n = items.len();
    let mut shop_state_to_open = EzStateState::new(id);
    shop_state_to_open.close_shop_message();
    shop_state_to_open.clear_talk_list_data();
    let ghost start_events = seq![
        no_args_event(ez_state_command_close_shop()),
        no_args_event(ez_state_command_clear_talk_list_data()),
    ];
    assert(shop_state_to_open@.entry_events =~= start_events);
    for index in 0..n
        invariant
            n == items@.len(),
            n <= i32::MAX,
            shop_state_to_open@ == (EzStateStateView {
                entry_events: start_events + talk_entries(items@.take(index as int)),
                ..empty_state(id)
            }),
    {
        let talk_list_data_event_id = index as u32 + 1;
        let sub_menu_item = &items[index];
        match sub_menu_item.show_on_event_flag_id {
            None => shop_state_to_open.add_talk_list_data(talk_list_data_event_id, sub_menu_item.text_id),
            Some(flag_id) => {
                if flag_id == 0 {
                    shop_state_to_open.add_talk_list_data(talk_list_data_event_id, sub_menu_item.text_id)
                } else {
                    shop_state_to_open.add_talk_list_data_if(flag_id, talk_list_data_event_id, sub_menu_item.text_id)
                }
            },
        }
        let ghost expected = talk_entries(items@.take(index as int)).push(
            talk_entry(items@[index as int], talk_list_data_event_id),
        );
        assert forall|k: int| 0 <= k < index + 1 implies #[trigger] talk_entries(items@.take(index + 1))[k]
            == expected[k] by {
            if k < index {
                assert(talk_entries(items@.take(index as int))[k] == talk_entry(items@[k], (k + 1) as u32));
            }
        }
        assert(talk_entries(items@.take(index + 1)) =~= expected);
        assert(shop_state_to_open@.entry_events =~= start_events + talk_entries(items@.take(index + 1)));
    }
    assert(items@.take(n as int) =~= items@);
    let cancel_event_id: u32 = n as u32 + 1;
    shop_state_to_open.add_talk_list_data(cancel_event_id, CANCEL_TEXT_ID_U32);
    shop_state_to_open.show_shop_message();
    assert(shop_state_to_open@.entry_events =~= shop_entry_events(items@));
    assert(shop_state_to_open@ =~~= EzStateStateView {
        entry_events: shop_entry_events(items@),
        ..empty_state(id)
    });
    shop_state_to_open
}

/// The state with the id `handler_id` that handles the answer of the sub
/// menu shown by the state at `shop_index`: the states of the selections are
/// allocated in the arena, and the way back leads to `back_target`.
fn new_sub_menu_handler_state(
    handler_id: i32,
    items: &Vec<EsdSubMenuItemConfig>,
    shop_index: usize,
    back_target: usize,
    arena: &mut Vec<EzStateState>,
) -> (r: EzStateState)
    requires
        items@.len() <= i32::MAX,
        handler_id + items@.len() + (if last_asks_confirmation(items@) {
            1int
        } else {
            0int
        }) <= i32::MAX,
        shop_index + 1 == old(arena)@.len(),
        old(arena)@.len() + 2 * items@.len() + 1 <= usize::MAX,
    ensures
        r@ == handler_state_view(handler_id, items@, shop_index, shop_index + 1, back_target),
        states_view(final(arena)@) == states_view(old(arena)@) + selections_states(
            items@,
            handler_id as int,
            shop_index,
            shop_index + 1,
        ),
{
    let n = items.len();
    let ghost first_index = shop_index as int + 1;
    let ghost old_states = states_view(arena@);
    let mut handler = EzStateState::new(handler_id);
    assert(handler@.transitions =~= handler_transitions(
        items@.take(0),
        handler_id as int,
        shop_index,
        first_index,
    ));
    assert(states_view(arena@) =~= old_states + selections_states(
        items@.take(0),
        handler_id as int,
        shop_index,
        first_index,
    ));
    for index in 0..n
        invariant
            n == items@.len(),
            n <= i32::MAX,
            handler_id + n + (if last_asks_confirmation(items@) {
                1int
            } else {
                0int
            }) <= i32::MAX,
            first_index == shop_index + 1,
            old_states.len() == first_index,
            old_states.len() + 2 * n + 1 <= usize::MAX,
            states_view(arena@) == old_states + selections_states(
                items@.take(index as int),
                handler_id as int,
                shop_index,
                first_index,
            ),
            handler@ == (EzStateStateView {
                transitions: handler_transitions(
                    items@.take(index as int),
                    handler_id as int,
                    shop_index,
                    first_index,
                ),
                ..empty_state(handler_id)
            }),
    {
        let talk_list_data_event_id = index as u32 + 1;
        let sub_menu_item = &items[index];
        let ghost prefix = items@.take(index as int);
        let ghost next = items@.take(index + 1);
        assert(next.drop_last() =~= prefix);
        assert(next.last() == items@[index as int]);
        proof {
            lemma_selections_states_len(prefix, handler_id as int, shop_index, first_index);
        }
        assert(states_view(arena@).len() == arena@.len());
        if index + 1 == n {
            assert(items@.last() == items@[index as int]);
        }
        handler.set_event_flag_on_talk_list_data_selection(
            sub_menu_item.select_flag_id,
            talk_list_data_event_id,
            shop_index,
            sub_menu_item.confirmation_text_id,
            arena,
        );
        assert(states_view(arena@) =~= old_states + selections_states(
            next,
            handler_id as int,
            shop_index,
            first_index,
        ));
        assert(handler@.transitions =~= handler_transitions(
            next,
            handler_id as int,
            shop_index,
            first_index,
        ));
    }
    assert(items@.take(n as int) =~= items@);
    handler.add_back_button_control(back_target);
    assert(handler@ =~~= handler_state_view(handler_id, items@, shop_index, first_index, back_target));
    handler
}

/// Allocates the states of the sub menu numbered from `id_offset` (the
/// state that shows it, the states of its selections and the state that
/// handles its answer) and returns the grace menu entry that opens it with
/// the transition to the state that shows it.
fn create_state_menu_event_and_transition(
    id_offset: u32,
    state_group: &mut EzStateStateGroup,
    sub_menu_config: &EsdSubMenuConfig,
) -> (r: Option<(EzStateEvent, EzStateTransition)>)
    requires
        sub_menu_ids_fit(sub_menu_config.sub_menu_item_config@, id_offset),
        old(state_group).states@.len() + 2 * sub_menu_config.sub_menu_item_config@.len() + 2 <= usize::MAX,
    ensures
        final(state_group)@ == (EzStateStateGroupView {
            states: old(state_group)@.states + submenu_states(
                sub_menu_config@,
                id_offset,
                old(state_group)@.states.len() as int,
                old(state_group).initial_state,
            ),
            ..old(state_group)@
        }),
        r matches Some((e, t)) && e@ == submenu_opening_event(sub_menu_config@, id_offset)
            && t@ == talk_list_data_transition(old(state_group)@.states.len() as usize, id_offset),
{
    let base_id = id_offset;
    let open_shop_state_id = base_id as i32;
    let items = &sub_menu_config.sub_menu_item_config;
    let ghost old_group = state_group@;
    let ghost old_states = states_view(state_group.states@);

    let shop_state_to_open = new_sub_menu_shop_state(open_shop_state_id, items);
    let shop_index = state_group.states.len();
    state_group.states.push(shop_state_to_open);
    let ghost shop_state = state_group.states@[shop_index as int]@;
    assert(states_view(state_group.states@) =~= old_states.push(shop_state));

    let transition_handler_state_id = open_shop_state_id + 1;
    let initial_state = state_group.initial_state;
    let handler = new_sub_menu_handler_state(
        transition_handler_state_id,
        items,
        shop_index,
        initial_state,
        &mut state_group.states,
    );
    proof {
        lemma_selections_states_len(items@, transition_handler_state_id as int, shop_index, shop_index + 1);
    }
    let ghost after_sel = states_view(state_group.states@);
    let ghost sel = selections_states(items@, transition_handler_state_id as int, shop_index, shop_index + 1);
    assert(after_sel == old_states.push(shop_state) + sel);
    assert(after_sel[shop_index as int] == shop_state);
    assert(states_view(state_group.states@).len() == state_group.states@.len());
    let handler_index = state_group.states.len();
    let ghost handler_view = handler@;
    state_group.states.push(handler);
    assert(states_view(state_group.states@) =~= after_sel.push(handler_view));
    assert(states_view(state_group.states@).len() == state_group.states@.len());
    assert(shop_index < state_group.states@.len());

    let ghost before_close = states_view(state_group.states@);
    let ghost arena_before_close = state_group.states@;
    assert(before_close[shop_index as int] == shop_state);
    state_group.states[shop_index].add_close_shop_control(handler_index);
    assert(state_group.states@ == arena_before_close.update(shop_index as int, state_group.states@[shop_index as int]));
    assert(state_group.states@[shop_index as int]@ =~~= shop_state_view(open_shop_state_id, items@, handler_index));
    assert(states_view(state_group.states@) =~= before_close.update(
        shop_index as int,
        shop_state_view(open_shop_state_id, items@, handler_index),
    ));
    assert(states_view(state_group.states@) =~= old_states + submenu_states(
        sub_menu_config@,
        id_offset,
        old_states.len() as int,
        old_group.initial_state as usize,
    ));
    assert(state_group@ =~~= EzStateStateGroupView {
        states: old_states + submenu_states(
            sub_menu_config@,
            id_offset,
            old_states.len() as int,
            old_group.initial_state as usize,
        ),
        ..old_group
    });

    let talk_event_to_open_submenu = match sub_menu_config.show_on_event_flag_id {
        None => EzStateEvent::new_add_talk_list_data_event(base_id, sub_menu_config.menu_item_text_id),
        Some(flag_id) => {
            if flag_id == 0 {
                EzStateEvent::new_add_talk_list_data_event(base_id, sub_menu_config.menu_item_text_id)
            } else {
                EzStateEvent::new_add_talk_list_data_if_event(
                    flag_id,
                    base_id,
                    sub_menu_config.menu_item_text_id,
                )
            }
        },
    };
    let transition_to_open_shop_state = EzStateTransition::new_talk_list_data(shop_index, base_id);
    Some((talk_event_to_open_submenu, transition_to_open_shop_state))
}

/// Adds the sub menu numbered from `id_offset` to the grace menu of the
/// group, unless a state of the group already shows its text or the group
/// has no state that shows the chest-sorting entry or no transition to a
/// state that opens the repository. The entry that opens it is appended to
/// the state that shows the chest-sorting entry, and the transition to it is
/// inserted before the first transition to a state that opens the
/// repository. Returns whether it was added.
fn add_menu_item_to_grace_menu(
    id_offset: u32,
    state_group: &mut EzStateStateGroup,
    sub_menu_config: &EsdSubMenuConfig,
) -> (r: bool)
    requires
        add_menu_item_spec(id_offset, old(state_group)@, sub_menu_config@) is Some ==> sub_menu_ids_fit(
            sub_menu_config.sub_menu_item_config@,
            id_offset,
        ),
        old(state_group).states@.len() + 2 * sub_menu_config.sub_menu_item_config@.len() + 2 <= usize::MAX,
    ensures
        r == add_menu_item_spec(id_offset, old(state_group)@, sub_menu_config@) is Some,
        final(state_group)@ == match add_menu_item_spec(id_offset, old(state_group)@, sub_menu_config@) {
            Some(g) => g,
            None => old(state_group)@,
        },
{
    let ghost g = state_group@;
    let added_item_text_id = sub_menu_config.menu_item_text_id;
    let already_added = state_group.find_state_with_text_id(added_item_text_id);
    if let Some(i) = already_added {
        proof {
            lemma_first_state_with_text_id_unique(g, added_item_text_id, i as int);
        }
        return false;
    }
    let sort_chest = state_group.find_state_with_text_id(SORT_CHEST_TEXT_ID_U32);
    let sort_chest_state = match sort_chest {
        Some(i) => i,
        None => {
            return false;
        },
    };
    proof {
        lemma_first_state_with_text_id_unique(g, SORT_CHEST_TEXT_ID_U32, sort_chest_state as int);
    }
    let open_repository = state_group.find_state_with_open_repository_transition();
    let (transition_index, open_repository_state) = match open_repository {
        Some(found) => found,
        None => {
            return false;
        },
    };
    proof {
        lemma_first_open_repository_transition_unique(g, transition_index as int, open_repository_state as int);
    }
    let created = create_state_menu_event_and_transition(id_offset, state_group, sub_menu_config);
    let (add_talk_list_data_event, add_talk_list_data_transition) = match created {
        Some(c) => c,
        None => {
            return false;
        },
    };
    let ghost shop_index = g.states.len() as int;
    let ghost states1 = g.states + submenu_states(sub_menu_config@, id_offset, shop_index, g.initial_state as usize);
    let ghost ev = add_talk_list_data_event@;
    let ghost tr = add_talk_list_data_transition@;
    assert(states_view(state_group.states@) == states1);
    assert(states_view(state_group.states@).len() == state_group.states@.len());

    let ghost arena1 = state_group.states@;
    state_group.states[sort_chest_state].append_entry_event(
        add_talk_list_data_event,
        MemoryManagement::PreserveOriginalArray,
    );
    assert(state_group.states@ == arena1.update(sort_chest_state as int, state_group.states@[sort_chest_state as int]));
    let ghost states2 = states1.update(sort_chest_state as int, with_entry_event(states1[sort_chest_state as int], ev));
    assert(states_view(state_group.states@) =~= states2);

    let ghost arena2 = state_group.states@;
    assert(states2[open_repository_state as int].transitions == g.states[open_repository_state as int].transitions);
    state_group.states[open_repository_state].append_transition(
        transition_index,
        add_talk_list_data_transition,
        MemoryManagement::PreserveOriginalArray,
    );
    assert(state_group.states@ == arena2.update(open_repository_state as int, state_group.states@[open_repository_state as int]));
    let ghost states3 = states2.update(
        open_repository_state as int,
        with_transition(states2[open_repository_state as int], transition_index as int, tr),
    );
    assert(states_view(state_group.states@) =~= states3);
    assert(state_group@ =~~= EzStateStateGroupView { states: states3, ..g });
    true
}

/// What the hook does when a talk script enters a state: it adds the extra
/// grace menu entries, numbered from `base_state_and_event_id`, where the
/// state is the group's initial state, and then has the game's own code run.
pub struct GraceMenuHook {
    pub extra_menu_items: Vec<EsdSubMenuConfig>,
    pub base_state_and_event_id: u32,
}

/// The hook that adds the configured extra entries to the grace menu, with
/// the ids from which their states are numbered.
pub fn insert_text_options_into_grace_menu(extra_menu: &ExtraMenu) -> (r: GraceMenuHook)
    ensures
        sub_menus_view(r.extra_menu_items@) == sub_menus_view(extra_menu.extra_menu_items@),
        r.base_state_and_event_id == if extra_menu.base_state_and_event_id >= crate::esd_config::MIN_BASE_STATE_AND_EVENT_ID {
            extra_menu.base_state_and_event_id
        } else {
            crate::esd_config::MIN_BASE_STATE_AND_EVENT_ID
        },
{
    let extra_menu_items = extra_menu.copy_extra_menu_items();
    let base_state_and_event_id = extra_menu.get_min_base_state_and_event_id();
    GraceMenuHook { extra_menu_items, base_state_and_event_id }
}

impl GraceMenuHook {
    /// Runs when the machine enters the state at `state`: where that is the
    /// initial state of its group, adds each extra entry in turn; an entry
    /// that is added takes its sub menu entries and two more ids.
    pub fn on_enter_state(&self, state: usize, machine: &mut EzStateMachineImpl) -> (r: HookBehavior)
        requires
            state == old(machine).state_group.initial_state ==> pass_ids_fit(
                sub_menus_view(self.extra_menu_items@),
                self.base_state_and_event_id as int,
                old(machine).state_group@,
            ),
            old(machine).state_group.states@.len() + states_needed(sub_menus_view(self.extra_menu_items@)) <= usize::MAX,
        ensures
            r is CallOriginalFunctionAfterHook,
            final(machine).state_group@ == if state == old(machine).state_group.initial_state {
                add_menu_items_spec(
                    sub_menus_view(self.extra_menu_items@),
                    self.base_state_and_event_id as int,
                    old(machine).state_group@,
                )
            } else {
                old(machine).state_group@
            },
    {
        let entering = state == machine.state_group.initial_state;
        if entering {
            let items = &self.extra_menu_items;
            let ghost all = sub_menus_view(items@);
            let ghost g0 = machine.state_group@;
            let mut id_offset: u32 = self.base_state_and_event_id;
            assert(all.skip(0) =~= all);
            for k in 0..items.len()
                invariant
                    all == sub_menus_view(items@),
                    pass_ids_fit(all.skip(k as int), id_offset as int, machine.state_group@),
                    machine.state_group.states@.len() + states_needed(all.skip(k as int)) <= usize::MAX,
                    add_menu_items_spec(all.skip(k as int), id_offset as int, machine.state_group@)
                        == add_menu_items_spec(all, self.base_state_and_event_id as int, g0),
            {
                let sub_menu_config = &items[k];
                let ghost rest = all.skip(k as int);
                assert(rest[0] == sub_menu_config@);
                assert(rest.drop_first() =~= all.skip(k + 1));
                let ghost before = machine.state_group@;
                proof {
                    lemma_needed_nonneg(rest.drop_first());
                    lemma_add_menu_item_spec_len(id_offset, before, sub_menu_config@);
                }
                if add_menu_item_to_grace_menu(id_offset, &mut machine.state_group, sub_menu_config) {
                    id_offset = id_offset + sub_menu_config.sub_menu_item_config.len() as u32 + 2;
                }
            }
            assert(all.skip(items@.len() as int) =~= Seq::<EsdSubMenuConfigView>::empty());
        }
        HookBehavior::CallOriginalFunctionAfterHook
    }
}

} // verus!
