//! Configuration of the extra grace menu entries and text overrides.
use crate::text_config::ExtraText;
use vstd::prelude::*;

verus! {

/// The smallest id from which the extra menu states and events are numbered.
pub const MIN_BASE_STATE_AND_EVENT_ID: u32 = 0xFFFF;

/// One entry of a sub menu: its text, the flag it sets when chosen, the flag
/// that has to be on for it to show, and the text of an optional confirmation.
#[derive(Clone, Copy, PartialEq, Eq, Structural, Debug)]
pub struct EsdSubMenuItemConfig {
    pub show_on_event_flag_id: Option<u32>,
    pub text_id: u32,
    pub select_flag_id: u32,
    pub confirmation_text_id: Option<u32>,
}

/// An extra entry of the grace menu that opens a sub menu.
#[derive(Clone, Debug)]
pub struct EsdSubMenuConfig {
    pub show_on_event_flag_id: Option<u32>,
    pub menu_item_text_id: u32,
    pub sub_menu_item_config: Vec<EsdSubMenuItemConfig>,
}

/// The extra grace menu entries and the id from which their states are numbered.
pub struct ExtraMenu {
    pub base_state_and_event_id: u32,
    pub extra_menu_items: Vec<EsdSubMenuConfig>,
}

/// The whole configuration: extra menu entries and text overrides.
pub struct ErExtendRsEsdConfig {
    pub extra_menu: ExtraMenu,
    pub extra_text: ExtraText,
}

/// A sub menu entry as a value.
pub struct EsdSubMenuConfigView {
    pub show_on_event_flag_id: Option<u32>,
    pub menu_item_text_id: u32,
    pub sub_menu_item_config: Seq<EsdSubMenuItemConfig>,
}

impl View for EsdSubMenuConfig {
    type V = EsdSubMenuConfigView;

    open spec fn view(&self) -> EsdSubMenuConfigView {
        EsdSubMenuConfigView {
            show_on_event_flag_id: self.show_on_event_flag_id,
            menu_item_text_id: self.menu_item_text_id,
            sub_menu_item_config: self.sub_menu_item_config@,
        }
    }
}

/// The view of each sub menu entry of a sequence.
pub open spec fn sub_menus_view(s: Seq<EsdSubMenuConfig>) -> Seq<EsdSubMenuConfigView> {
    s.map_values(|m: EsdSubMenuConfig| m@)
}

/// The flags that the entries of a sub menu set, in order.
pub open spec fn sub_menu_flag_ids(items: Seq<EsdSubMenuItemConfig>) -> Seq<u32> {
    items.map_values(|i: EsdSubMenuItemConfig| i.select_flag_id)
}

/// The flags that the entries of all sub menus set, sub menu after sub menu.
pub open spec fn all_flag_ids(menus: Seq<EsdSubMenuConfigView>) -> Seq<u32>
    decreases menus.len(),
{
    if menus.len() == 0 {
        Seq::empty()
    } else {
        all_flag_ids(menus.drop_last()) + sub_menu_flag_ids(menus.last().sub_menu_item_config)
    }
}

/// Each element is smaller than the next.
pub open spec fn strictly_increasing(s: Seq<u32>) -> bool {
    forall|i: int, j: int| 0 <= i < j < s.len() ==> s[i] < s[j]
}

impl Default for EsdSubMenuItemConfig {
    fn default() -> (r: Self)
        ensures
            r == (EsdSubMenuItemConfig {
                show_on_event_flag_id: None,
                text_id: 0,
                select_flag_id: 0,
                confirmation_text_id: None,
            }),
    {
        EsdSubMenuItemConfig { show_on_event_flag_id: None, text_id: 0, select_flag_id: 0, confirmation_text_id: None }
    }
}

impl Default for EsdSubMenuConfig {
    fn default() -> (r: Self)
        ensures
            r.show_on_event_flag_id is None,
            r.menu_item_text_id == 0,
            r.sub_menu_item_config@.len() == 0,
    {
        EsdSubMenuConfig { show_on_event_flag_id: None, menu_item_text_id: 0, sub_menu_item_config: Vec::new() }
    }
}

impl Default for ExtraMenu {
    fn default() -> (r: Self)
        ensures
            r.base_state_and_event_id == 0,
            r.extra_menu_items@.len() == 0,
    {
        ExtraMenu { base_state_and_event_id: 0, extra_menu_items: Vec::new() }
    }
}

impl Default for ErExtendRsEsdConfig {
    fn default() -> (r: Self)
        ensures
            r.extra_menu.base_state_and_event_id == 0,
            r.extra_menu.extra_menu_items@.len() == 0,
            r.extra_text.event_text_for_talk@.len() == 0,
    {
        ErExtendRsEsdConfig { extra_menu: ExtraMenu::default(), extra_text: ExtraText::default() }
    }
}

/// Inserts `x` into the strictly increasing `v`, where it is not there yet.
fn insert_sorted_unique(v: &mut Vec<u32>, x: u32)
    requires
        strictly_increasing(old(v)@),
    ensures
        strictly_increasing(final(v)@),
        forall|y: u32|
            #![trigger final(v)@.contains(y)]
            #![trigger old(v)@.contains(y)]
            final(v)@.contains(y) <==> (old(v)@.contains(y) || y == x),
{
    let n = v.len();
    let mut i: usize = 0;
    while i < n && v[i] < x
        invariant
            n == v@.len(),
            v@ == old(v)@,
            i <= n,
            forall|j: int| 0 <= j < i ==> v@[j] < x,
        decreases n - i,
    {
        i = i + 1;
    }
    if i < n && v[i] == x {
        assert(v@.contains(x)) by {
            assert(v@[i as int] == x);
        }
        return;
    }
    let ghost old_v = v@;
    assert forall|j: int| i <= j < n implies x < old_v[j] by {
        if i < n {
            assert(old_v[i as int] >= x);
            assert(old_v[i as int] != x);
            if j > i {
                assert(old_v[i as int] < old_v[j]);
            }
        }
    }
    v.insert(i, x);
    assert forall|y: u32|
        #![trigger v@.contains(y)]
        #![trigger old_v.contains(y)]
        v@.contains(y) <==> (old_v.contains(y) || y == x) by {
        if old_v.contains(y) {
            let k = choose|k: int| 0 <= k < old_v.len() && old_v[k] == y;
            if k < i {
                assert(v@[k] == y);
            } else {
                assert(v@[k + 1] == y);
            }
        }
        if v@.contains(y) {
            let k = choose|k: int| 0 <= k < v@.len() && v@[k] == y;
            if k < i {
                assert(old_v[k] == y);
            } else if k > i {
                assert(old_v[k - 1] == y);
            }
        }
        if y == x {
            assert(v@[i as int] == x);
        }
    }
}

impl EsdSubMenuConfig {
    /// The flags that the entries of the sub menu set, in order.
    fn menu_item_flag_ids(&self) -> (r: Vec<u32>)
        ensures
            r@ == sub_menu_flag_ids(self.sub_menu_item_config@),
    {
        let items = &self.sub_menu_item_config;
        let mut r: Vec<u32> = Vec::new();
        for i in 0..items.len()
            invariant
                r@ == sub_menu_flag_ids(items@.take(i as int)),
        {
            r.push(items[i].select_flag_id);
            assert(r@ =~= sub_menu_flag_ids(items@.take(i + 1)));
        }
        assert(items@.take(items@.len() as int) =~= items@);
        r
    }

    /// A copy of the sub menu entry.
    fn copy(&self) -> (r: Self)
        ensures
            r@ == self@,
    {
        let items = &self.sub_menu_item_config;
        let mut copied: Vec<EsdSubMenuItemConfig> = Vec::new();
        for i in 0..items.len()
            invariant
                copied@ == items@.take(i as int),
        {
            copied.push(items[i]);
            assert(copied@ =~= items@.take(i + 1));
        }
        assert(items@.take(items@.len() as int) =~= items@);
        EsdSubMenuConfig {
            show_on_event_flag_id: self.show_on_event_flag_id,
            menu_item_text_id: self.menu_item_text_id,
            sub_menu_item_config: copied,
        }
    }
}

impl ExtraMenu {
    /// Whether there is at least one extra menu entry.
    pub fn has_extra_menu_items(&self) -> (r: bool)
        ensures
            r == (self.extra_menu_items@.len() > 0),
    {
        self.extra_menu_items.len() > 0
    }

    /// The id from which the extra menu states and events are numbered: the
    /// configured one, raised to the smallest one allowed.
    pub fn get_min_base_state_and_event_id(&self) -> (r: u32)
        ensures
            r == if self.base_state_and_event_id >= MIN_BASE_STATE_AND_EVENT_ID {
                self.base_state_and_event_id
            } else {
                MIN_BASE_STATE_AND_EVENT_ID
            },
    {
        if self.base_state_and_event_id >= MIN_BASE_STATE_AND_EVENT_ID {
            self.base_state_and_event_id
        } else {
            MIN_BASE_STATE_AND_EVENT_ID
        }
    }

    /// The flags that all sub menu entries set, sub menu after sub menu.
    pub fn all_menu_item_flag_ids(&self) -> (r: Vec<u32>)
        ensures
            r@ == all_flag_ids(sub_menus_view(self.extra_menu_items@)),
    {
        let menus = &self.extra_menu_items;
        let mut r: Vec<u32> = Vec::new();
        for i in 0..menus.len()
            invariant
                r@ == all_flag_ids(sub_menus_view(menus@.take(i as int))),
        {
            let ids = menus[i].menu_item_flag_ids();
            let ghost before = r@;
            let mut k: usize = 0;
            while k < ids.len()
                invariant
                    r@ == before + ids@.take(k as int),
                    k <= ids@.len(),
                decreases ids@.len() - k,
            {
                r.push(ids[k]);
                assert(r@ =~= before + ids@.take(k + 1));
                k = k + 1;
            }
            assert(ids@.take(ids@.len() as int) =~= ids@);
            assert(sub_menus_view(menus@.take(i + 1)).drop_last() =~= sub_menus_view(menus@.take(i as int)));
            assert(sub_menus_view(menus@.take(i + 1)).last() == menus@[i as int]@);
        }
        assert(menus@.take(menus@.len() as int) =~= menus@);
        r
    }

    /// A copy of the extra menu entries.
    pub fn copy_extra_menu_items(&self) -> (r: Vec<EsdSubMenuConfig>)
        ensures
            sub_menus_view(r@) == sub_menus_view(self.extra_menu_items@),
    {
        let menus = &self.extra_menu_items;
        let mut r: Vec<EsdSubMenuConfig> = Vec::new();
        for i in 0..menus.len()
            invariant
                r@.len() == i,
                sub_menus_view(r@) == sub_menus_view(menus@.take(i as int)),
        {
            let c = menus[i].copy();
            let ghost before = r@;
            r.push(c);
            assert forall|k: int| 0 <= k < i + 1 implies #[trigger] sub_menus_view(r@)[k]
                == sub_menus_view(menus@.take(i + 1))[k] by {
                if k < i {
                    assert(sub_menus_view(before)[k] == sub_menus_view(menus@.take(i as int))[k]);
                }
            }
            assert(sub_menus_view(r@) =~= sub_menus_view(menus@.take(i + 1)));
        }
        assert(menus@.take(menus@.len() as int) =~= menus@);
        r
    }
}

impl ErExtendRsEsdConfig {
    /// The flags that the extra menu entries set, each once, in increasing order.
    pub fn get_all_menu_item_flag_ids(&self) -> (r: Vec<u32>)
        ensures
            strictly_increasing(r@),
            forall|x: u32| r@.contains(x) <==> all_flag_ids(sub_menus_view(self.extra_menu.extra_menu_items@)).contains(x),
    {
        let all = self.extra_menu.all_menu_item_flag_ids();
        let mut r: Vec<u32> = Vec::new();
        for i in 0..all.len()
            invariant
                strictly_increasing(r@),
                forall|x: u32| r@.contains(x) <==> all@.take(i as int).contains(x),
        {
            let ghost before = r@;
            insert_sorted_unique(&mut r, all[i]);
            assert forall|x: u32| r@.contains(x) <==> all@.take(i + 1).contains(x) by {
                let prefix = all@.take(i as int);
                assert(all@.take(i + 1) =~= prefix.push(all@[i as int]));
                assert(r@.contains(x) <==> (before.contains(x) || x == all@[i as int]));
                assert(before.contains(x) <==> prefix.contains(x));
                if prefix.push(all@[i as int]).contains(x) {
                    let k = choose|k: int| 0 <= k < i + 1 && prefix.push(all@[i as int])[k] == x;
                    if k < i {
                        assert(prefix[k] == x);
                    }
                }
                if prefix.contains(x) {
                    let k = choose|k: int| 0 <= k < i && prefix[k] == x;
                    assert(prefix.push(all@[i as int])[k] == x);
                }
                if x == all@[i as int] {
                    assert(prefix.push(all@[i as int])[i as int] == x);
                }
            }
        }
        assert(all@.take(all@.len() as int) =~= all@);
        r
    }

    /// Whether the configuration has something to do: text overrides or
    /// extra menu entries.
    pub fn is_valid(&self) -> (r: bool)
        ensures
            r == (self.extra_text.event_text_for_talk@.len() > 0
                || self.extra_menu.extra_menu_items@.len() > 0),
    {
        self.extra_text.has_text_overrides() || self.extra_menu.has_extra_menu_items()
    }
}

} // verus!
