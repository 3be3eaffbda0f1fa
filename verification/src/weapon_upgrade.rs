//! Raising the weapons that the player holds to the level that matches the
//! highest regular weapon level reached so far.
use std::collections::HashMap;
use vstd::prelude::*;

verus! {

/// An item of the player's inventory, as far as upgrading reads it: its
/// parameter id (the last two digits are its level), whether it is a weapon,
/// and whether the game still holds the item instance behind it.
#[derive(Clone, Copy, PartialEq, Eq, Structural, Debug)]
pub struct EquipInventoryDataListEntry {
    pub item_param_id: u32,
    pub is_weapon: bool,
    pub has_ga_item: bool,
}

/// The player's data that upgrading reads and changes.
pub struct PlayerGameData {
    pub matching_weapon_level: u8,
    pub items: Vec<EquipInventoryDataListEntry>,
}

/// A row of the weapon parameters: which upgrade shop category the weapon is
/// in (0: none) and the first row of its upgrade table.
#[derive(Clone, Copy, PartialEq, Eq, Structural, Debug)]
pub struct EquipParamWeaponRow {
    pub reinforce_shop_category: u8,
    pub reinforce_type_id: i16,
}

/// The parameter tables that upgrading reads: weapon rows by parameter id,
/// and the maximum upgrade level of each row of the upgrade tables.
pub struct WeaponParamRepository {
    pub equip_param_weapon: HashMap<u32, EquipParamWeaponRow>,
    pub reinforce_param_weapon_max_level: HashMap<u32, u8>,
}

/// The largest parameter id of an item.
pub const MAX_ITEM_PARAM_ID: u32 = 0x0FFF_FFFF;

/// The row of the weapon parameters of a weapon: its base weapon, without level.
pub open spec fn base_weapon_id(weapon_param_id: u32) -> u32 {
    (weapon_param_id / 100 * 100) as u32
}

/// The upgrade level of a weapon: the last two digits of its parameter id.
pub open spec fn weapon_level(weapon_param_id: u32) -> u8 {
    (weapon_param_id % 100) as u8
}

/// The first row of a weapon's upgrade table, where it can be upgraded.
pub open spec fn reinforce_type_id_of(equip: Map<u32, EquipParamWeaponRow>, weapon_param_id: u32) -> Option<i16> {
    let base = base_weapon_id(weapon_param_id);
    if equip.contains_key(base) && equip[base].reinforce_shop_category > 0 {
        Some(equip[base].reinforce_type_id)
    } else {
        None
    }
}

/// The maximum level of the row `param_id` of the upgrade tables (0 where there is none).
pub open spec fn max_reinforce_level(reinforce: Map<u32, u8>, param_id: u32) -> u8 {
    if reinforce.contains_key(param_id) {
        reinforce[param_id]
    } else {
        0
    }
}

/// Searching the upgrade table from row `reinforce_type_id + i` on: the first
/// row whose maximum level is the highest regular level gives its offset; the
/// first whose maximum level is above it gives the offset before it; and
/// where neither is found, no upgrade.
pub open spec fn equivalent_level_from(
    reinforce: Map<u32, u8>,
    reinforce_type_id: i16,
    current_highest_regular_level: u8,
    i: int,
) -> u8
    decreases current_highest_regular_level + 1 - i,
{
    if i < 0 || i > current_highest_regular_level {
        0
    } else {
        let m = max_reinforce_level(reinforce, (reinforce_type_id + i) as u32);
        if m == current_highest_regular_level {
            i as u8
        } else if m > current_highest_regular_level {
            if i == 0 {
                0
            } else {
                (i - 1) as u8
            }
        } else {
            equivalent_level_from(reinforce, reinforce_type_id, current_highest_regular_level, i + 1)
        }
    }
}

/// The upgrade level of a weapon with the upgrade table at `reinforce_type_id`
/// that matches the highest regular level.
pub open spec fn equivalent_level(reinforce: Map<u32, u8>, reinforce_type_id: i16, current_highest_regular_level: u8) -> u8 {
    equivalent_level_from(reinforce, reinforce_type_id, current_highest_regular_level, 0)
}

/// Searching the upgrade table from row `reinforce_type_id + i` on, as far as
/// the search goes, stays within `i16` and does not step back before the
/// first row (a first row whose maximum level is above the highest regular
/// level).
pub open spec fn searchable_from(
    reinforce: Map<u32, u8>,
    reinforce_type_id: i16,
    current_highest_regular_level: u8,
    i: int,
) -> bool
    decreases current_highest_regular_level + 1 - i,
{
    if i < 0 || i > current_highest_regular_level {
        true
    } else if reinforce_type_id + i > i16::MAX {
        false
    } else {
        let m = max_reinforce_level(reinforce, (reinforce_type_id + i) as u32);
        if m == current_highest_regular_level {
            true
        } else if m > current_highest_regular_level {
            i != 0
        } else {
            searchable_from(reinforce, reinforce_type_id, current_highest_regular_level, i + 1)
        }
    }
}

/// The search of an upgrade table, from its first row on, stays within
/// `i16` and does not step back before the first row.
pub open spec fn searchable_table(reinforce: Map<u32, u8>, reinforce_type_id: i16, current_highest_regular_level: u8) -> bool {
    searchable_from(reinforce, reinforce_type_id, current_highest_regular_level, 0)
}

/// The upgrade table of every weapon held that can be upgraded can be searched.
pub open spec fn held_tables_searchable(
    items: Seq<EquipInventoryDataListEntry>,
    equip: Map<u32, EquipParamWeaponRow>,
    reinforce: Map<u32, u8>,
    current_highest_regular_level: u8,
) -> bool {
    forall|i: int|
        0 <= i < items.len() && (#[trigger] items[i]).is_weapon && reinforce_type_id_of(equip, items[i].item_param_id) is Some
            ==> searchable_table(
            reinforce,
            reinforce_type_id_of(equip, items[i].item_param_id)->0,
            current_highest_regular_level,
        )
}

/// The inventory item after upgrading: a weapon that can be upgraded, whose
/// item instance the game holds and whose level is below the matching one,
/// is raised to it.
pub open spec fn upgraded_entry(
    e: EquipInventoryDataListEntry,
    equip: Map<u32, EquipParamWeaponRow>,
    reinforce: Map<u32, u8>,
    current_highest_regular_level: u8,
) -> EquipInventoryDataListEntry {
    if e.is_weapon && e.has_ga_item && reinforce_type_id_of(equip, e.item_param_id) is Some {
        let l = equivalent_level(reinforce, reinforce_type_id_of(equip, e.item_param_id)->0, current_highest_regular_level);
        if l > weapon_level(e.item_param_id) {
            EquipInventoryDataListEntry {
                item_param_id: (e.item_param_id + (l - weapon_level(e.item_param_id))) as u32,
                ..e
            }
        } else {
            e
        }
    } else {
        e
    }
}

/// The inventory after upgrading, where the highest regular level is above 0.
pub open spec fn upgraded_items(
    items: Seq<EquipInventoryDataListEntry>,
    equip: Map<u32, EquipParamWeaponRow>,
    reinforce: Map<u32, u8>,
    current_highest_regular_level: u8,
) -> Seq<EquipInventoryDataListEntry> {
    items.map_values(|e: EquipInventoryDataListEntry| upgraded_entry(e, equip, reinforce, current_highest_regular_level))
}

/// The number of items that upgrading changes.
pub open spec fn upgrade_count(
    items: Seq<EquipInventoryDataListEntry>,
    equip: Map<u32, EquipParamWeaponRow>,
    reinforce: Map<u32, u8>,
    current_highest_regular_level: u8,
) -> int
    decreases items.len(),
{
    if items.len() == 0 {
        0
    } else {
        upgrade_count(items.drop_last(), equip, reinforce, current_highest_regular_level) + if upgraded_entry(
            items.last(),
            equip,
            reinforce,
            current_highest_regular_level,
        ) != items.last() {
            1int
        } else {
            0int
        }
    }
}

/// The count of changed items never exceeds the number of items.
pub proof fn lemma_upgrade_count_bounds(
    items: Seq<EquipInventoryDataListEntry>,
    equip: Map<u32, EquipParamWeaponRow>,
    reinforce: Map<u32, u8>,
    current_highest_regular_level: u8,
)
    ensures
        0 <= upgrade_count(items, equip, reinforce, current_highest_regular_level) <= items.len(),
    decreases items.len(),
{
    if items.len() > 0 {
        lemma_upgrade_count_bounds(items.drop_last(), equip, reinforce, current_highest_regular_level);
    }
}

/// An item that upgrading raises stays within its hundred: its matching
/// level is below 100.
pub open spec fn stays_within_hundred(
    e: EquipInventoryDataListEntry,
    equip: Map<u32, EquipParamWeaponRow>,
    reinforce: Map<u32, u8>,
    current_highest_regular_level: u8,
) -> bool {
    (e.is_weapon && e.has_ga_item && reinforce_type_id_of(equip, e.item_param_id) is Some) ==> equivalent_level(
        reinforce,
        reinforce_type_id_of(equip, e.item_param_id)->0,
        current_highest_regular_level,
    ) < 100
}

/// The matching level is never above the highest regular level.
proof fn lemma_equivalent_level_bound(
    reinforce: Map<u32, u8>,
    reinforce_type_id: i16,
    current_highest_regular_level: u8,
    i: int,
)
    ensures
        equivalent_level_from(reinforce, reinforce_type_id, current_highest_regular_level, i)
            <= current_highest_regular_level,
    decreases current_highest_regular_level + 1 - i,
{
    if 0 <= i <= current_highest_regular_level {
        lemma_equivalent_level_bound(reinforce, reinforce_type_id, current_highest_regular_level, i + 1);
    }
}

/// The search passes over rows below the highest regular level.
proof fn lemma_search_skips_low_rows(
    reinforce: Map<u32, u8>,
    reinforce_type_id: i16,
    current_highest_regular_level: u8,
    i: int,
    k: int,
)
    requires
        0 <= i <= k <= current_highest_regular_level + 1,
        forall|j: int|
            i <= j < k ==> (if reinforce.contains_key(#[trigger] ((reinforce_type_id + j) as u32)) {
                reinforce[(reinforce_type_id + j) as u32]
            } else {
                0u8
            }) < current_highest_regular_level,
    ensures
        equivalent_level_from(reinforce, reinforce_type_id, current_highest_regular_level, i)
            == equivalent_level_from(reinforce, reinforce_type_id, current_highest_regular_level, k),
    decreases k - i,
{
    if i < k {
        lemma_search_skips_low_rows(reinforce, reinforce_type_id, current_highest_regular_level, i + 1, k);
    }
}

/// The matching level of a table is found by reading its rows from the
/// first on, up to and including the row at the highest regular level: where
/// the row at offset `k` is the first whose maximum level reaches the highest
/// regular level, the matching level is `k` if it equals it, and the offset
/// before (0 for the first row) if it is above it.
pub proof fn law_equivalent_level_is_first_row_reaching_level(
    reinforce: Map<u32, u8>,
    reinforce_type_id: i16,
    current_highest_regular_level: u8,
    k: int,
)
    requires
        0 <= k <= current_highest_regular_level,
        forall|j: int|
            0 <= j < k ==> (if reinforce.contains_key(#[trigger] ((reinforce_type_id + j) as u32)) {
                reinforce[(reinforce_type_id + j) as u32]
            } else {
                0u8
            }) < current_highest_regular_level,
    ensures
        ({
            let row = (reinforce_type_id + k) as u32;
            let m: u8 = if reinforce.contains_key(row) {
                reinforce[row]
            } else {
                0u8
            };
            &&& m == current_highest_regular_level ==> equivalent_level(
                reinforce,
                reinforce_type_id,
                current_highest_regular_level,
            ) == k
            &&& m > current_highest_regular_level ==> equivalent_level(
                reinforce,
                reinforce_type_id,
                current_highest_regular_level,
            ) == if k == 0 {
                0
            } else {
                k - 1
            }
        }),
{
    lemma_search_skips_low_rows(reinforce, reinforce_type_id, current_highest_regular_level, 0, k);
}

/// Where no row up to and including the one at the highest regular level
/// reaches that level, there is no upgrade.
pub proof fn law_no_row_reaching_level_gives_no_upgrade(
    reinforce: Map<u32, u8>,
    reinforce_type_id: i16,
    current_highest_regular_level: u8,
)
    requires
        forall|j: int|
            0 <= j <= current_highest_regular_level ==> (if reinforce.contains_key(
                #[trigger] ((reinforce_type_id + j) as u32),
            ) {
                reinforce[(reinforce_type_id + j) as u32]
            } else {
                0u8
            }) < current_highest_regular_level,
    ensures
        equivalent_level(reinforce, reinforce_type_id, current_highest_regular_level) == 0,
{
    lemma_search_skips_low_rows(
        reinforce,
        reinforce_type_id,
        current_highest_regular_level,
        0,
        current_highest_regular_level + 1,
    );
}

/// An upgraded item is upgraded no further, where it stays within its hundred.
proof fn lemma_upgraded_entry_settles(
    e: EquipInventoryDataListEntry,
    equip: Map<u32, EquipParamWeaponRow>,
    reinforce: Map<u32, u8>,
    current_highest_regular_level: u8,
)
    requires
        stays_within_hundred(e, equip, reinforce, current_highest_regular_level),
        e.item_param_id <= MAX_ITEM_PARAM_ID,
    ensures
        upgraded_entry(upgraded_entry(e, equip, reinforce, current_highest_regular_level), equip, reinforce, current_highest_regular_level)
            == upgraded_entry(e, equip, reinforce, current_highest_regular_level),
{
    let u = upgraded_entry(e, equip, reinforce, current_highest_regular_level);
    if u != e {
        let t = reinforce_type_id_of(equip, e.item_param_id)->0;
        let l = equivalent_level(reinforce, t, current_highest_regular_level);
        let id = e.item_param_id;
        let b = id / 100;
        assert(id == b * 100 + id % 100) by (nonlinear_arith)
            requires
                b == id / 100,
        ;
        assert(u.item_param_id == b * 100 + l);
        assert((b * 100 + l) / 100 == b && (b * 100 + l) % 100 == l) by (nonlinear_arith)
            requires
                0 <= l < 100,
                b >= 0,
        ;
        assert(base_weapon_id(u.item_param_id) == base_weapon_id(id));
        assert(weapon_level(u.item_param_id) == l);
    }
}

/// Upgrading keeps an item what it is and never lowers it; a weapon that can
/// be upgraded and whose item the game holds ends at the higher of its level
/// and the matching one, which is never above the highest regular level,
/// where the item stays within its hundred.
pub proof fn law_upgrade_raises_to_matching_level(
    e: EquipInventoryDataListEntry,
    equip: Map<u32, EquipParamWeaponRow>,
    reinforce: Map<u32, u8>,
    current_highest_regular_level: u8,
)
    requires
        stays_within_hundred(e, equip, reinforce, current_highest_regular_level),
        e.item_param_id <= MAX_ITEM_PARAM_ID,
    ensures
        ({
            let u = upgraded_entry(e, equip, reinforce, current_highest_regular_level);
            &&& u.is_weapon == e.is_weapon
            &&& u.has_ga_item == e.has_ga_item
            &&& u.item_param_id >= e.item_param_id
            &&& base_weapon_id(u.item_param_id) == base_weapon_id(e.item_param_id)
            &&& (e.is_weapon && e.has_ga_item && reinforce_type_id_of(equip, e.item_param_id) is Some) ==> {
                let l = equivalent_level(reinforce, reinforce_type_id_of(equip, e.item_param_id)->0, current_highest_regular_level);
                &&& l <= current_highest_regular_level
                &&& weapon_level(u.item_param_id) == if l > weapon_level(e.item_param_id) {
                    l
                } else {
                    weapon_level(e.item_param_id)
                }
            }
        }),
{
    let u = upgraded_entry(e, equip, reinforce, current_highest_regular_level);
    if e.is_weapon && e.has_ga_item && reinforce_type_id_of(equip, e.item_param_id) is Some {
        let t = reinforce_type_id_of(equip, e.item_param_id)->0;
        lemma_equivalent_level_bound(reinforce, t, current_highest_regular_level, 0);
    }
    if u != e {
        let t = reinforce_type_id_of(equip, e.item_param_id)->0;
        let l = equivalent_level(reinforce, t, current_highest_regular_level);
        let id = e.item_param_id;
        let b = id / 100;
        assert(id == b * 100 + id % 100) by (nonlinear_arith)
            requires
                b == id / 100,
        ;
        assert((b * 100 + l) / 100 == b && (b * 100 + l) % 100 == l) by (nonlinear_arith)
            requires
                0 <= l < 100,
                b >= 0,
        ;
    }
}

/// Upgrading a second time changes nothing and counts no weapon, where the
/// items upgrading raises stay within their hundred and the item ids are valid.
pub proof fn law_upgrade_twice_changes_nothing(
    items: Seq<EquipInventoryDataListEntry>,
    equip: Map<u32, EquipParamWeaponRow>,
    reinforce: Map<u32, u8>,
    current_highest_regular_level: u8,
)
    requires
        forall|i: int|
            0 <= i < items.len() ==> (#[trigger] items[i]).item_param_id <= MAX_ITEM_PARAM_ID && stays_within_hundred(
                items[i],
                equip,
                reinforce,
                current_highest_regular_level,
            ),
    ensures
        upgraded_items(upgraded_items(items, equip, reinforce, current_highest_regular_level), equip, reinforce, current_highest_regular_level)
            == upgraded_items(items, equip, reinforce, current_highest_regular_level),
        upgrade_count(upgraded_items(items, equip, reinforce, current_highest_regular_level), equip, reinforce, current_highest_regular_level)
            == 0,
    decreases items.len(),
{
    let once = upgraded_items(items, equip, reinforce, current_highest_regular_level);
    assert forall|i: int| 0 <= i < items.len() implies #[trigger] upgraded_entry(once[i], equip, reinforce, current_highest_regular_level)
        == once[i] by {
        lemma_upgraded_entry_settles(items[i], equip, reinforce, current_highest_regular_level);
    }
    assert(upgraded_items(once, equip, reinforce, current_highest_regular_level) =~= once);
    if items.len() > 0 {
        let rest = items.drop_last();
        law_upgrade_twice_changes_nothing(rest, equip, reinforce, current_highest_regular_level);
        assert(once.drop_last() =~= upgraded_items(rest, equip, reinforce, current_highest_regular_level));
        assert(upgraded_entry(once.last(), equip, reinforce, current_highest_regular_level) == once.last()) by {
            assert(once.last() == once[items.len() - 1]);
        }
    }
}

/// The row of the weapon parameters that a weapon's upgrade table is read
/// from: its parameter id without the level.
pub fn find_base_weapon_id(weapon_param_id: u32) -> (r: u32)
    ensures
        r == base_weapon_id(weapon_param_id),
{
    weapon_param_id / 100 * 100
}

/// The first row of a weapon's upgrade table, where the weapon can be upgraded.
pub fn find_reinforce_type_id_for_weapon(weapon_param_id: u32, repo: &WeaponParamRepository) -> (r: Option<i16>)
    ensures
        r == reinforce_type_id_of(repo.equip_param_weapon@, weapon_param_id),
{
    broadcast use vstd::std_specs::hash::group_hash_axioms;

    let base_weapon_id = find_base_weapon_id(weapon_param_id);
    match repo.equip_param_weapon.get(&base_weapon_id) {
        Some(row) => {
            if row.reinforce_shop_category > 0 {
                Some(row.reinforce_type_id)
            } else {
                None
            }
        },
        None => None,
    }
}

/// The upgrade level of a weapon with the upgrade table at
/// `reinforce_type_id` that matches the highest regular level.
pub fn find_equivalent_weapon_upgrade_level(
    reinforce_type_id: i16,
    current_highest_regular_level: u8,
    repo: &WeaponParamRepository,
) -> (r: u8)
    requires
        searchable_table(repo.reinforce_param_weapon_max_level@, reinforce_type_id, current_highest_regular_level),
    ensures
        r == equivalent_level(repo.reinforce_param_weapon_max_level@, reinforce_type_id, current_highest_regular_level),
        r <= current_highest_regular_level,
{
    broadcast use vstd::std_specs::hash::group_hash_axioms;

    let ghost table = repo.reinforce_param_weapon_max_level@;
    proof {
        lemma_equivalent_level_bound(table, reinforce_type_id, current_highest_regular_level, 0);
    }
    let mut i: u8 = 0;
    loop
        invariant
            i <= current_highest_regular_level,
            searchable_from(table, reinforce_type_id, current_highest_regular_level, i as int),
            table == repo.reinforce_param_weapon_max_level@,
            equivalent_level(table, reinforce_type_id, current_highest_regular_level)
                == equivalent_level_from(table, reinforce_type_id, current_highest_regular_level, i as int),
        decreases current_highest_regular_level - i,
    {
        let param_id = (reinforce_type_id + i as i16) as u32;
        let max_level = match repo.reinforce_param_weapon_max_level.get(&param_id) {
            Some(level) => *level,
            None => 0,
        };
        assert(max_level == max_reinforce_level(table, (reinforce_type_id + i) as u32));
        if max_level == current_highest_regular_level {
            return i;
        } else if max_level > current_highest_regular_level {
            assert(i != 0);
            return i - 1;
        }
        if i == current_highest_regular_level {
            assert(equivalent_level_from(table, reinforce_type_id, current_highest_regular_level, i + 1) == 0);
            return 0;
        }
        i = i + 1;
    }
}

/// Whether the upgrade table at `reinforce_type_id` can be searched for the level.
pub fn is_table_searchable(
    reinforce_type_id: i16,
    current_highest_regular_level: u8,
    repo: &WeaponParamRepository,
) -> (r: bool)
    ensures
        r == searchable_table(repo.reinforce_param_weapon_max_level@, reinforce_type_id, current_highest_regular_level),
{
    broadcast use vstd::std_specs::hash::group_hash_axioms;

    let ghost table = repo.reinforce_param_weapon_max_level@;
    let mut i: u8 = 0;
    loop
        invariant
            i <= current_highest_regular_level,
            table == repo.reinforce_param_weapon_max_level@,
            searchable_table(table, reinforce_type_id, current_highest_regular_level)
                == searchable_from(table, reinforce_type_id, current_highest_regular_level, i as int),
        decreases current_highest_regular_level - i,
    {
        if reinforce_type_id as i32 + i as i32 > i16::MAX as i32 {
            return false;
        }
        let param_id = (reinforce_type_id + i as i16) as u32;
        let max_level = match repo.reinforce_param_weapon_max_level.get(&param_id) {
            Some(level) => *level,
            None => 0,
        };
        assert(max_level == max_reinforce_level(table, (reinforce_type_id + i) as u32));
        if max_level == current_highest_regular_level {
            return true;
        } else if max_level > current_highest_regular_level {
            return i != 0;
        }
        if i == current_highest_regular_level {
            assert(searchable_from(table, reinforce_type_id, current_highest_regular_level, i + 1));
            return true;
        }
        i = i + 1;
    }
}

/// Whether the upgrade table of every weapon held that can be upgraded can
/// be searched for the level.
pub fn held_weapon_tables_searchable(
    items: &Vec<EquipInventoryDataListEntry>,
    current_highest_regular_level: u8,
    repo: &WeaponParamRepository,
) -> (r: bool)
    ensures
        r == held_tables_searchable(
            items@,
            repo.equip_param_weapon@,
            repo.reinforce_param_weapon_max_level@,
            current_highest_regular_level,
        ),
{
    for i in 0..items.len()
        invariant
            forall|j: int|
                0 <= j < i && (#[trigger] items@[j]).is_weapon && reinforce_type_id_of(
                    repo.equip_param_weapon@,
                    items@[j].item_param_id,
                ) is Some ==> searchable_table(
                    repo.reinforce_param_weapon_max_level@,
                    reinforce_type_id_of(repo.equip_param_weapon@, items@[j].item_param_id)->0,
                    current_highest_regular_level,
                ),
    {
        let item = items[i];
        if item.is_weapon {
            if let Some(t) = find_reinforce_type_id_for_weapon(item.item_param_id, repo) {
                if !is_table_searchable(t, current_highest_regular_level, repo) {
                    return false;
                }
            }
        }
    }
    true
}

/// The parameter id of a weapon raised to `upgrade_level`, where that is
/// above its level.
pub fn upgraded_weapon_param_id(weapon_param_id: u32, upgrade_level: u8) -> (r: Option<u32>)
    requires
        weapon_param_id <= MAX_ITEM_PARAM_ID,
    ensures
        r == if upgrade_level > weapon_level(weapon_param_id) {
            Some((weapon_param_id + (upgrade_level - weapon_level(weapon_param_id))) as u32)
        } else {
            None::<u32>
        },
{
    let current_level = (weapon_param_id % 100) as u8;
    if upgrade_level > current_level {
        Some(weapon_param_id + (upgrade_level - current_level) as u32)
    } else {
        None
    }
}

/// Raises the player's weapons to the level that matches the highest
/// regular weapon level.
pub trait PlayerGameDataExtender {
    /// Whether the player's inventory holds valid item ids, and not more
    /// items than a count can hold.
    spec fn well_formed(&self) -> bool;

    /// Whether the upgrade table of every weapon held that can be upgraded
    /// can be searched for the level.
    spec fn held_weapons_searchable(&self, current_highest_regular_level: u8, repo: &WeaponParamRepository) -> bool;

    fn upgrade_held_weapons_to_equivalent_level(
        &mut self,
        current_highest_regular_level: u8,
        repo: Option<&WeaponParamRepository>,
    ) -> i32
        requires
            repo matches Some(repo) ==> (current_highest_regular_level != 0 ==> {
                &&& old(self).well_formed()
                &&& old(self).held_weapons_searchable(current_highest_regular_level, repo)
            }),
    ;
}

impl PlayerGameDataExtender for PlayerGameData {
    open spec fn well_formed(&self) -> bool {
        &&& self.items@.len() <= i32::MAX
        &&& forall|i: int| 0 <= i < self.items@.len() ==> (#[trigger] self.items@[i]).item_param_id <= MAX_ITEM_PARAM_ID
    }

    open spec fn held_weapons_searchable(&self, current_highest_regular_level: u8, repo: &WeaponParamRepository) -> bool {
        held_tables_searchable(
            self.items@,
            repo.equip_param_weapon@,
            repo.reinforce_param_weapon_max_level@,
            current_highest_regular_level,
        )
    }

    /// Nothing changes where the highest regular level is 0 or the
    /// parameters cannot be read; otherwise each weapon that can be upgraded
    /// is raised to the matching level, and the number of weapons raised is
    /// returned.
    fn upgrade_held_weapons_to_equivalent_level(
        &mut self,
        current_highest_regular_level: u8,
        repo: Option<&WeaponParamRepository>,
    ) -> (r: i32)
        ensures
            match repo {
                Some(repo) if current_highest_regular_level != 0 => {
                    &&& final(self).items@ == upgraded_items(
                        old(self).items@,
                        repo.equip_param_weapon@,
                        repo.reinforce_param_weapon_max_level@,
                        current_highest_regular_level,
                    )
                    &&& r == upgrade_count(
                        old(self).items@,
                        repo.equip_param_weapon@,
                        repo.reinforce_param_weapon_max_level@,
                        current_highest_regular_level,
                    )
                },
                _ => final(self).items@ == old(self).items@ && r == 0,
            },
            final(self).matching_weapon_level == old(self).matching_weapon_level,
    {
        broadcast use vstd::std_specs::hash::group_hash_axioms;

        if current_highest_regular_level == 0 {
            return 0;
        }
        let repo = match repo {
            Some(repo) => repo,
            None => {
                return 0;
            },
        };
        let ghost equip = repo.equip_param_weapon@;
        let ghost reinforce = repo.reinforce_param_weapon_max_level@;
        let ghost old_items = self.items@;
        let mut reinforce_type_id_upgrade_level: HashMap<i16, u8> = HashMap::new();
        let mut weapons_upgraded: i32 = 0;
        let n = self.items.len();
        for i in 0..n
            invariant
                n == old_items.len(),
                n <= i32::MAX,
                equip == repo.equip_param_weapon@,
                reinforce == repo.reinforce_param_weapon_max_level@,
                held_tables_searchable(old_items, equip, reinforce, current_highest_regular_level),
                forall|j: int| 0 <= j < n ==> (#[trigger] old_items[j]).item_param_id <= MAX_ITEM_PARAM_ID,
                self.items@.len() == n,
                forall|j: int| 0 <= j < i ==> self.items@[j] == upgraded_entry(#[trigger] old_items[j], equip, reinforce, current_highest_regular_level),
                forall|j: int| i <= j < n ==> self.items@[j] == old_items[j],
                weapons_upgraded == upgrade_count(old_items.take(i as int), equip, reinforce, current_highest_regular_level),
                forall|t: i16| #[trigger] reinforce_type_id_upgrade_level@.contains_key(t)
                    ==> reinforce_type_id_upgrade_level@[t] == equivalent_level(reinforce, t, current_highest_regular_level),
                self.matching_weapon_level == old(self).matching_weapon_level,
        {
            let item = self.items[i];
            assert(old_items.take(i + 1).drop_last() =~= old_items.take(i as int));
            assert(old_items.take(i + 1).last() == old_items[i as int]);
            proof {
                lemma_upgrade_count_bounds(old_items.take(i as int), equip, reinforce, current_highest_regular_level);
            }
            if item.is_weapon {
                if let Some(reinforce_type_id) = find_reinforce_type_id_for_weapon(item.item_param_id, repo) {
                    let upgrade_level = match reinforce_type_id_upgrade_level.get(&reinforce_type_id) {
                        Some(level) => *level,
                        None => {
                            let base = find_base_weapon_id(item.item_param_id);
                            assert(equip.contains_key(base) && equip[base].reinforce_shop_category > 0);
                            assert(old_items[i as int] == item);
                            let level = find_equivalent_weapon_upgrade_level(
                                reinforce_type_id,
                                current_highest_regular_level,
                                repo,
                            );
                            reinforce_type_id_upgrade_level.insert(reinforce_type_id, level);
                            level
                        },
                    };
                    if item.has_ga_item {
                        if let Some(upgraded) = upgraded_weapon_param_id(item.item_param_id, upgrade_level) {
                            self.items.set(i, EquipInventoryDataListEntry { item_param_id: upgraded, ..item });
                            weapons_upgraded = weapons_upgraded + 1;
                        }
                    }
                }
            }
            assert(self.items@[i as int] == upgraded_entry(old_items[i as int], equip, reinforce, current_highest_regular_level));
        }
        assert(old_items.take(n as int) =~= old_items);
        assert(self.items@ =~= upgraded_items(old_items, equip, reinforce, current_highest_regular_level));
        weapons_upgraded
    }
}

} // verus!
