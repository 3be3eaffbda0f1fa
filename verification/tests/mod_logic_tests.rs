use er_extend_rs::absolute_weapon::{
    patch_weapon_reinforcements, AbsoluteWeapon, AbsoluteWeaponAction, AbsoluteWeaponConfig, AbsoluteWeaponEvent,
    StepPhase, WeaponReinforcementPatch, WeaponUpgrades, UPGRADE_ALL_WEAPONS_FLAG_ID,
};
use er_extend_rs::discovery::{
    discover_probable_main_overhaul_mod, is_probably_reborn, tutorial_param_ids_to_check, ProbableMainOverhaulMod,
};
use er_extend_rs::more_difficult_er::{
    area_sp_effect_ids, handle_more_difficult_er_menu, normal_difficulty_level, DifficultyChange, EventFlagMan,
    MoreDifficultEr, BASE_DIFFICULTY_FLAG_ID, BASE_SAVED_DIFFICULTY_FLAG_ID,
};
use er_extend_rs::weapon_upgrade::{
    find_equivalent_weapon_upgrade_level, find_reinforce_type_id_for_weapon, held_weapon_tables_searchable,
    is_table_searchable, upgraded_weapon_param_id,
    EquipInventoryDataListEntry, EquipParamWeaponRow, PlayerGameData, PlayerGameDataExtender, WeaponParamRepository,
};
use std::collections::HashMap;

fn flags(on: &[u32]) -> EventFlagMan {
    EventFlagMan { flags: on.iter().map(|f| (*f, true)).collect::<HashMap<u32, bool>>() }
}

fn saved_levels(man: &EventFlagMan) -> Vec<u32> {
    (0..=5).filter(|l| man.get_flag(BASE_SAVED_DIFFICULTY_FLAG_ID + l)).collect()
}

fn menu_levels(man: &EventFlagMan) -> Vec<u32> {
    (0..=5).filter(|l| man.get_flag(BASE_DIFFICULTY_FLAG_ID + l)).collect()
}

#[test]
fn flag_manager_compares_and_sets() {
    let mut man = flags(&[7]);
    assert!(man.get_flag(7));
    assert!(!man.get_flag(8));
    assert!(man.compare_and_set_flag(7, true, false));
    assert!(!man.get_flag(7));
    assert!(!man.compare_and_set_flag(7, true, false));
    assert!(man.compare_and_set_flag(8, false, true));
    assert!(man.get_flag(8));
    man.set_flag(8, false);
    assert!(!man.get_flag(8));
}

#[test]
fn chosen_level_is_saved_alone() {
    let mut man = flags(&[BASE_DIFFICULTY_FLAG_ID + 3, BASE_SAVED_DIFFICULTY_FLAG_ID + 1, BASE_SAVED_DIFFICULTY_FLAG_ID + 5]);
    handle_more_difficult_er_menu(&mut man, 2);
    assert_eq!(saved_levels(&man), vec![3]);
    assert_eq!(menu_levels(&man), Vec::<u32>::new());
}

#[test]
fn highest_chosen_level_wins() {
    let mut man = flags(&[BASE_DIFFICULTY_FLAG_ID + 1, BASE_DIFFICULTY_FLAG_ID + 4]);
    handle_more_difficult_er_menu(&mut man, 2);
    assert_eq!(saved_levels(&man), vec![4]);
    assert_eq!(menu_levels(&man), Vec::<u32>::new());
}

#[test]
fn normal_level_is_saved_when_nothing_is() {
    let mut man = flags(&[]);
    handle_more_difficult_er_menu(&mut man, 2);
    assert_eq!(saved_levels(&man), vec![2]);
    let mut kept = flags(&[BASE_SAVED_DIFFICULTY_FLAG_ID]);
    handle_more_difficult_er_menu(&mut kept, 2);
    assert_eq!(saved_levels(&kept), vec![0]);
}

#[test]
fn difficulty_applies_the_saved_level_once() {
    let man = flags(&[BASE_SAVED_DIFFICULTY_FLAG_ID + 4]);
    let mut state = MoreDifficultEr::new();
    assert_eq!(state.handle_more_difficult_er_difficulty(&man, 2, false), None);
    assert_eq!(state.current_difficulty_level, None);
    assert_eq!(state.handle_more_difficult_er_difficulty(&man, 2, true), Some(DifficultyChange::Scaled { difficulty_power: 2 }));
    assert_eq!(state.current_difficulty_level, Some(4));
    assert_eq!(state.handle_more_difficult_er_difficulty(&man, 2, true), None);
    let easier = flags(&[BASE_SAVED_DIFFICULTY_FLAG_ID + 1]);
    assert_eq!(state.handle_more_difficult_er_difficulty(&easier, 2, true), Some(DifficultyChange::Scaled { difficulty_power: -1 }));
    let normal = flags(&[BASE_SAVED_DIFFICULTY_FLAG_ID + 2, BASE_SAVED_DIFFICULTY_FLAG_ID + 3]);
    assert_eq!(state.handle_more_difficult_er_difficulty(&normal, 2, true), Some(DifficultyChange::Normal));
    assert_eq!(state.current_difficulty_level, Some(2));
    assert_eq!(state.handle_more_difficult_er_difficulty(&flags(&[]), 2, true), None);
}

#[test]
fn step_twice_applies_nothing_the_second_time() {
    let mut man = flags(&[BASE_DIFFICULTY_FLAG_ID + 5]);
    let mut state = MoreDifficultEr::new();
    assert_eq!(state.step(&mut man, 2, true), Some(DifficultyChange::Scaled { difficulty_power: 3 }));
    let saved = saved_levels(&man);
    assert_eq!(state.step(&mut man, 2, true), None);
    assert_eq!(saved_levels(&man), saved);
    assert_eq!(state.current_difficulty_level, Some(5));
}

#[test]
fn first_step_applies_the_normal_level() {
    let mut man = flags(&[]);
    let mut state = MoreDifficultEr::new();
    assert_eq!(state.step(&mut man, normal_difficulty_level(None), true), Some(DifficultyChange::Normal));
    assert_eq!(normal_difficulty_level(None), 2);
    assert_eq!(normal_difficulty_level(Some(3)), 3);
}

#[test]
fn area_effect_ids_cover_the_four_ranges() {
    let ids = area_sp_effect_ids();
    assert_eq!(ids.len(), 29 + 20 + 16 + 16);
    assert_eq!(ids[0], 7000);
    assert_eq!(ids[28], 7280);
    assert_eq!(ids[29], 19351);
    assert_eq!(ids[48], 19370);
    assert_eq!(ids[49], 20007000);
    assert_eq!(ids[64], 20007150);
    assert_eq!(ids[65], 20007200);
    assert_eq!(ids[80], 20007350);
}

#[test]
fn reborn_is_recognised_by_its_tutorial_text() {
    assert_eq!(tutorial_param_ids_to_check(), vec![1010, 1530, 1550]);
    assert!(is_probably_reborn(&vec![Some(1), None, Some(500000)]));
    assert!(!is_probably_reborn(&vec![Some(1), None, Some(499999)]));
    assert!(!is_probably_reborn(&vec![]));
    assert_eq!(discover_probable_main_overhaul_mod(false, Some(&vec![Some(500000)])), None);
    assert_eq!(discover_probable_main_overhaul_mod(true, None), None);
    assert_eq!(discover_probable_main_overhaul_mod(true, Some(&vec![Some(500000)])), Some(ProbableMainOverhaulMod::Reborn));
    assert_eq!(discover_probable_main_overhaul_mod(true, Some(&vec![None])), Some(ProbableMainOverhaulMod::NoKnownOverhaulMod));
}

#[test]
fn reborn_patches_raise_the_unique_tables() {
    let patches = patch_weapon_reinforcements(&ProbableMainOverhaulMod::Reborn);
    assert_eq!(patches.len(), 5 * 18);
    assert_eq!(patches[0], WeaponReinforcementPatch { reinforce_param_id: 2201, max_reinforce_level: 2 });
    assert_eq!(patches[17], WeaponReinforcementPatch { reinforce_param_id: 9001, max_reinforce_level: 2 });
    assert_eq!(patches[18], WeaponReinforcementPatch { reinforce_param_id: 2202, max_reinforce_level: 4 });
    assert_eq!(patches[89], WeaponReinforcementPatch { reinforce_param_id: 9005, max_reinforce_level: 10 });
    assert!(patch_weapon_reinforcements(&ProbableMainOverhaulMod::NoKnownOverhaulMod).is_empty());
}

#[test]
fn weapon_levels_are_capped_by_the_overhaul() {
    let mut upgrades = WeaponUpgrades { highest_regular_weapon_level: 0, max_regular_weapon_upgrade_level: 0, weapons_upgraded_last_time: 0 };
    upgrades.update_max_regular_weapon_upgrade_level(&ProbableMainOverhaulMod::Reborn);
    assert_eq!(upgrades.max_regular_weapon_upgrade_level, 10);
    upgrades.update_highest_regular_weapon_level_achieved(14);
    assert_eq!(upgrades.highest_regular_weapon_level, 10);
    upgrades.update_max_regular_weapon_upgrade_level(&ProbableMainOverhaulMod::NoKnownOverhaulMod);
    assert_eq!(upgrades.max_regular_weapon_upgrade_level, 25);
    upgrades.update_highest_regular_weapon_level_achieved(14);
    assert_eq!(upgrades.highest_regular_weapon_level, 14);
}

#[test]
fn absolute_weapon_runs_a_full_frame() {
    let mut mod_state = AbsoluteWeapon::new();
    assert_eq!(mod_state.step(AbsoluteWeaponEvent::FrameBegin), AbsoluteWeaponAction::LoadConfigAndInitialize);
    assert_eq!(
        mod_state.step(AbsoluteWeaponEvent::Initialized { patch_weapon_reinforcements: None, hooking_failed: false }),
        AbsoluteWeaponAction::LookUpPlayer
    );
    assert!(mod_state.initialization.patch_weapon_reinforcements);
    assert_eq!(mod_state.step(AbsoluteWeaponEvent::PlayerLookedUp(Some(12))), AbsoluteWeaponAction::DiscoverWorld);
    assert_eq!(
        mod_state.step(AbsoluteWeaponEvent::WorldDiscovered(Some(ProbableMainOverhaulMod::Reborn))),
        AbsoluteWeaponAction::PatchWeaponReinforcements(ProbableMainOverhaulMod::Reborn)
    );
    assert_eq!(
        mod_state.step(AbsoluteWeaponEvent::ReinforcementsPatched),
        AbsoluteWeaponAction::CheckUpgradeFlag(UPGRADE_ALL_WEAPONS_FLAG_ID)
    );
    assert_eq!(mod_state.weapon_upgrades.highest_regular_weapon_level, 10);
    assert_eq!(mod_state.step(AbsoluteWeaponEvent::UpgradeFlagChecked(Some(true))), AbsoluteWeaponAction::UpgradeWeapons(10));
    assert_eq!(mod_state.step(AbsoluteWeaponEvent::WeaponsUpgraded(3)), AbsoluteWeaponAction::Done);
    assert_eq!(mod_state.weapon_upgrades.weapons_upgraded_last_time, 3);
    assert_eq!(mod_state.phase, StepPhase::Idle);
    // The next frame skips the configuration and the world.
    assert_eq!(mod_state.step(AbsoluteWeaponEvent::FrameBegin), AbsoluteWeaponAction::LookUpPlayer);
    assert_eq!(
        mod_state.step(AbsoluteWeaponEvent::PlayerLookedUp(Some(4))),
        AbsoluteWeaponAction::CheckUpgradeFlag(UPGRADE_ALL_WEAPONS_FLAG_ID)
    );
    assert_eq!(mod_state.step(AbsoluteWeaponEvent::UpgradeFlagChecked(Some(false))), AbsoluteWeaponAction::Done);
    assert_eq!(mod_state.weapon_upgrades.highest_regular_weapon_level, 4);
}

#[test]
fn absolute_weapon_forgets_when_the_player_is_gone() {
    let mut mod_state = AbsoluteWeapon::new();
    mod_state.step(AbsoluteWeaponEvent::FrameBegin);
    mod_state.step(AbsoluteWeaponEvent::Initialized { patch_weapon_reinforcements: Some(false), hooking_failed: true });
    assert!(mod_state.initialization.hooking_failed);
    mod_state.step(AbsoluteWeaponEvent::PlayerLookedUp(Some(20)));
    assert_eq!(
        mod_state.step(AbsoluteWeaponEvent::WorldDiscovered(Some(ProbableMainOverhaulMod::NoKnownOverhaulMod))),
        AbsoluteWeaponAction::CheckUpgradeFlag(UPGRADE_ALL_WEAPONS_FLAG_ID)
    );
    assert_eq!(mod_state.weapon_upgrades.highest_regular_weapon_level, 20);
    mod_state.step(AbsoluteWeaponEvent::UpgradeFlagChecked(None));
    assert_eq!(mod_state.step(AbsoluteWeaponEvent::FrameBegin), AbsoluteWeaponAction::LookUpPlayer);
    assert_eq!(mod_state.step(AbsoluteWeaponEvent::PlayerLookedUp(None)), AbsoluteWeaponAction::Done);
    assert!(!mod_state.initialization.world_initialized);
    assert_eq!(mod_state.weapon_upgrades.highest_regular_weapon_level, 0);
    // A report out of turn changes nothing.
    let before = mod_state;
    assert_eq!(mod_state.step(AbsoluteWeaponEvent::WeaponsUpgraded(9)), AbsoluteWeaponAction::Done);
    assert_eq!(mod_state, before);
    let config = AbsoluteWeaponConfig::default();
    assert!(config.patch_weapon_reinforcements.is_none());
}

fn repository() -> WeaponParamRepository {
    let mut equip = HashMap::new();
    equip.insert(1_000_000, EquipParamWeaponRow { reinforce_shop_category: 1, reinforce_type_id: 100 });
    equip.insert(2_000_000, EquipParamWeaponRow { reinforce_shop_category: 0, reinforce_type_id: 200 });
    let mut reinforce = HashMap::new();
    for i in 0..=12u32 {
        reinforce.insert(100 + i, (i * 2) as u8);
    }
    WeaponParamRepository { equip_param_weapon: equip, reinforce_param_weapon_max_level: reinforce }
}

fn weapon(item_param_id: u32) -> EquipInventoryDataListEntry {
    EquipInventoryDataListEntry { item_param_id, is_weapon: true, has_ga_item: true }
}

#[test]
fn equivalent_level_matches_or_stays_below() {
    let repo = repository();
    assert_eq!(find_equivalent_weapon_upgrade_level(100, 10, &repo), 5);
    assert_eq!(find_equivalent_weapon_upgrade_level(100, 11, &repo), 5);
    assert_eq!(find_equivalent_weapon_upgrade_level(100, 0, &repo), 0);
    assert_eq!(find_equivalent_weapon_upgrade_level(500, 3, &repo), 0);
    assert_eq!(find_reinforce_type_id_for_weapon(1_000_007, &repo), Some(100));
    assert_eq!(find_reinforce_type_id_for_weapon(2_000_000, &repo), None);
    assert_eq!(find_reinforce_type_id_for_weapon(3_000_000, &repo), None);
    assert_eq!(upgraded_weapon_param_id(1_000_003, 5), Some(1_000_005));
    assert_eq!(upgraded_weapon_param_id(1_000_005, 5), None);
}

#[test]
fn held_weapons_are_raised_once() {
    let repo = repository();
    let mut player = PlayerGameData {
        matching_weapon_level: 10,
        items: vec![
            weapon(1_000_003),
            weapon(1_000_007),
            EquipInventoryDataListEntry { item_param_id: 1_000_001, is_weapon: false, has_ga_item: true },
            EquipInventoryDataListEntry { item_param_id: 1_000_002, is_weapon: true, has_ga_item: false },
            weapon(2_000_001),
            weapon(1_000_000),
        ],
    };
    assert_eq!(player.upgrade_held_weapons_to_equivalent_level(10, Some(&repo)), 2);
    let ids: Vec<u32> = player.items.iter().map(|i| i.item_param_id).collect();
    assert_eq!(ids, vec![1_000_005, 1_000_007, 1_000_001, 1_000_002, 2_000_001, 1_000_005]);
    assert_eq!(player.upgrade_held_weapons_to_equivalent_level(10, Some(&repo)), 0);
    assert_eq!(player.upgrade_held_weapons_to_equivalent_level(0, Some(&repo)), 0);
    assert_eq!(player.upgrade_held_weapons_to_equivalent_level(10, None), 0);
    assert_eq!(player.items.iter().map(|i| i.item_param_id).collect::<Vec<u32>>(), ids);
}

#[test]
fn normal_level_whose_flag_is_a_menu_flag_is_chosen_on_the_next_pass() {
    // The flag that saves the normal level 12100 is the menu flag of level 0.
    let mut man = flags(&[]);
    handle_more_difficult_er_menu(&mut man, 12100);
    assert_eq!(menu_levels(&man), vec![0]);
    assert_eq!(saved_levels(&man), Vec::<u32>::new());
    handle_more_difficult_er_menu(&mut man, 12100);
    assert_eq!(menu_levels(&man), Vec::<u32>::new());
    assert_eq!(saved_levels(&man), vec![0]);
}

#[test]
fn normal_level_beyond_the_levels_saves_no_level() {
    let mut man = flags(&[]);
    handle_more_difficult_er_menu(&mut man, 9);
    assert_eq!(saved_levels(&man), Vec::<u32>::new());
    assert!(man.get_flag(BASE_SAVED_DIFFICULTY_FLAG_ID + 9));
    let mut state = MoreDifficultEr::new();
    assert_eq!(state.step(&mut man, 9, true), None);
    assert_eq!(state.step(&mut man, 9, true), None);
    assert!(man.get_flag(BASE_SAVED_DIFFICULTY_FLAG_ID + 9));
}

#[test]
fn search_stops_before_rows_it_would_overflow() {
    let mut repo = repository();
    repo.reinforce_param_weapon_max_level.insert(32760, 10);
    assert!(is_table_searchable(32760, 10, &repo));
    assert_eq!(find_equivalent_weapon_upgrade_level(32760, 10, &repo), 0);
    assert!(!is_table_searchable(32760, 11, &repo));
    repo.reinforce_param_weapon_max_level.insert(700, 3);
    assert!(!is_table_searchable(700, 2, &repo));
    assert!(is_table_searchable(100, 10, &repo));
}

#[test]
fn only_held_weapons_tables_are_searched() {
    let mut repo = repository();
    repo.equip_param_weapon.insert(5_000_000, EquipParamWeaponRow { reinforce_shop_category: 1, reinforce_type_id: 700 });
    repo.reinforce_param_weapon_max_level.insert(700, 30);
    let held = vec![weapon(1_000_003)];
    assert!(held_weapon_tables_searchable(&held, 10, &repo));
    let with_bad = vec![weapon(1_000_003), weapon(5_000_001)];
    assert!(!held_weapon_tables_searchable(&with_bad, 10, &repo));
    // At level 0 nothing is searched and nothing changes.
    let mut player = PlayerGameData { matching_weapon_level: 0, items: with_bad };
    assert_eq!(player.upgrade_held_weapons_to_equivalent_level(0, Some(&repo)), 0);
    assert_eq!(player.items[1].item_param_id, 5_000_001);
}

#[test]
fn normal_level_above_i32_wraps_into_the_power() {
    let man = flags(&[BASE_SAVED_DIFFICULTY_FLAG_ID + 1]);
    let mut state = MoreDifficultEr::new();
    assert!(state.difficulty_power_fits(&man, 3_000_000_000, true));
    assert_eq!(
        state.handle_more_difficult_er_difficulty(&man, 3_000_000_000, true),
        Some(DifficultyChange::Scaled { difficulty_power: 1_294_967_297 })
    );
    // Level 0 against a normal level that wraps to i32::MIN overflows.
    let lowest = flags(&[BASE_SAVED_DIFFICULTY_FLAG_ID]);
    assert!(!MoreDifficultEr::new().difficulty_power_fits(&lowest, 2_147_483_648, true));
    assert!(MoreDifficultEr::new().difficulty_power_fits(&lowest, 2_147_483_648, false));
}
