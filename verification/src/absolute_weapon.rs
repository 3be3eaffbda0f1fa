//! The absolute weapon mod: a grace menu entry upgrades all held weapons to
//! the level that matches the highest regular weapon level reached so far.
use crate::discovery::ProbableMainOverhaulMod;
use crate::esd_config::ErExtendRsEsdConfig;
use vstd::prelude::*;

verus! {

/// The first id of the mod's event flags.
pub const BASE_MOD_ID: u32 = 1061470000;

/// The first id of the mod's flags that the game does not save.
pub const BASE_TEMPORARY_FLAG_ID: u32 = BASE_MOD_ID + 5000;

/// The first id of the mod's flags that the game saves.
pub const BASE_SAVED_FLAG_ID: u32 = BASE_MOD_ID;

/// The flag that the grace menu sets to upgrade all held weapons.
pub const UPGRADE_ALL_WEAPONS_FLAG_ID: u32 = BASE_TEMPORARY_FLAG_ID + 1;

/// The flag that toggles the display of the upgrade statistics.
pub const TOGGLE_UPGRADE_STATS_DISPLAY_FLAG_ID: u32 = BASE_TEMPORARY_FLAG_ID + 2;

/// The flag that allows the display of the upgrade statistics.
pub const ALLOW_UPGRADE_STATS_DISPLAY_FLAG_ID: u32 = BASE_SAVED_FLAG_ID + 2;

/// The mod's configuration.
pub struct AbsoluteWeaponConfig {
    pub log_debug_messages: Option<bool>,
    pub allow_debug_window_overlay: Option<bool>,
    pub patch_weapon_reinforcements: Option<bool>,
    pub extra_config: ErExtendRsEsdConfig,
}

impl Default for AbsoluteWeaponConfig {
    fn default() -> (r: Self)
        ensures
            r.log_debug_messages is None,
            r.allow_debug_window_overlay is None,
            r.patch_weapon_reinforcements is None,
            r.extra_config.extra_menu.base_state_and_event_id == 0,
            r.extra_config.extra_menu.extra_menu_items@.len() == 0,
            r.extra_config.extra_text.event_text_for_talk@.len() == 0,
    {
        AbsoluteWeaponConfig {
            log_debug_messages: None,
            allow_debug_window_overlay: None,
            patch_weapon_reinforcements: None,
            extra_config: ErExtendRsEsdConfig::default(),
        }
    }
}

// ----------------------------------------------------------------------------
// Patching the upgrade tables of unique weapons under Reborn
// ----------------------------------------------------------------------------

/// A row of the upgrade tables and the maximum level it is to have.
#[derive(Clone, Copy, PartialEq, Eq, Structural, Debug)]
pub struct WeaponReinforcementPatch {
    pub reinforce_param_id: u32,
    pub max_reinforce_level: u8,
}

/// The first rows of the upgrade tables of the unique weapons.
pub open spec fn unique_weapon_reinforce_type_ids() -> Seq<i16> {
    seq![
        2200i16, 2400i16, 2500i16, 2600i16, 2700i16, 2800i16, 3200i16, 3300i16, 3400i16, 4000i16,
        4100i16, 6100i16, 6200i16, 6300i16, 7000i16, 8300i16, 8500i16, 9000i16,
    ]
}

/// The patches of the row `offset` of each unique weapon's table: maximum level `2 offset`.
pub open spec fn offset_patches(offset: int) -> Seq<WeaponReinforcementPatch> {
    unique_weapon_reinforce_type_ids().map_values(
        |t: i16|
            WeaponReinforcementPatch {
                reinforce_param_id: (t + offset) as u32,
                max_reinforce_level: (offset * 2) as u8,
            },
    )
}

/// The patches of the rows 1 to `n` of the unique weapons' tables, row after row.
pub open spec fn reborn_patches(n: int) -> Seq<WeaponReinforcementPatch>
    decreases n,
{
    if n <= 0 {
        Seq::empty()
    } else {
        reborn_patches(n - 1) + offset_patches(n)
    }
}

/// The patches of rows 1 to `n` hold, row after row, those of each offset.
proof fn lemma_reborn_patches_index(n: int, o: int, t: int)
    requires
        1 <= o <= n,
        0 <= t < 18,
    ensures
        reborn_patches(n).len() == 18 * n,
        reborn_patches(n)[(o - 1) * 18 + t] == offset_patches(o)[t],
    decreases n,
{
    lemma_reborn_patches_len(n);
    lemma_reborn_patches_len(n - 1);
    let prev = reborn_patches(n - 1);
    assert(reborn_patches(n) == prev + offset_patches(n));
    if o < n {
        lemma_reborn_patches_index(n - 1, o, t);
        assert((o - 1) * 18 + t < prev.len());
    } else {
        assert((o - 1) * 18 + t == prev.len() + t);
    }
}

/// The patches of rows 1 to `n` are 18 per row.
proof fn lemma_reborn_patches_len(n: int)
    requires
        n >= 0,
    ensures
        reborn_patches(n).len() == 18 * n,
    decreases n,
{
    if n > 0 {
        lemma_reborn_patches_len(n - 1);
        assert(offset_patches(n).len() == 18);
    }
}

/// Under Reborn, the rows 1 to 5 of the upgrade table of each unique weapon
/// (the tables from 2200 to 9000 below) are patched, offset after offset,
/// table after table: the row at offset `o` to the maximum level `2 o`.
pub proof fn law_reborn_patches_cover_unique_tables(o: int, t: int)
    requires
        1 <= o <= 5,
        0 <= t < 18,
    ensures
        reborn_patches(5).len() == 90,
        ({
            let tables = seq![
                2200int, 2400int, 2500int, 2600int, 2700int, 2800int, 3200int, 3300int, 3400int, 4000int,
                4100int, 6100int, 6200int, 6300int, 7000int, 8300int, 8500int, 9000int,
            ];
            reborn_patches(5)[(o - 1) * 18 + t] == (WeaponReinforcementPatch {
                reinforce_param_id: (tables[t] + o) as u32,
                max_reinforce_level: (2 * o) as u8,
            })
        }),
{
    lemma_reborn_patches_index(5, o, t);
}

/// The rows of the upgrade tables to patch under the overhaul mod: under
/// Reborn, the rows 1 to 5 of each unique weapon's table get the maximum
/// level twice their row; otherwise nothing is patched.
pub fn patch_weapon_reinforcements(overhaul: &ProbableMainOverhaulMod) -> (r: Vec<WeaponReinforcementPatch>)
    ensures
        r@ == match overhaul {
            ProbableMainOverhaulMod::Reborn => reborn_patches(5),
            ProbableMainOverhaulMod::NoKnownOverhaulMod => Seq::empty(),
        },
{
    match overhaul {
        ProbableMainOverhaulMod::Reborn => patch_weapon_reinforcements_for_reborn(),
        ProbableMainOverhaulMod::NoKnownOverhaulMod => Vec::new(),
    }
}

/// The patches of the unique weapons' tables under Reborn.
fn patch_weapon_reinforcements_for_reborn() -> (r: Vec<WeaponReinforcementPatch>)
    ensures
        r@ == reborn_patches(5),
{
    let type_ids: Vec<i16> = vec![
        2200i16, 2400i16, 2500i16, 2600i16, 2700i16, 2800i16, 3200i16, 3300i16, 3400i16, 4000i16,
        4100i16, 6100i16, 6200i16, 6300i16, 7000i16, 8300i16, 8500i16, 9000i16,
    ];
    assert(type_ids@ =~= unique_weapon_reinforce_type_ids());
    let mut patches: Vec<WeaponReinforcementPatch> = Vec::new();
    let mut offset: u8 = 1;
    assert(patches@ =~= reborn_patches(0));
    while offset <= 5
        invariant
            1 <= offset <= 6,
            type_ids@ == unique_weapon_reinforce_type_ids(),
            patches@ == reborn_patches(offset - 1),
        decreases 6 - offset,
    {
        let max_reinforce_level = offset * 2;
        let ghost before = patches@;
        for j in 0..type_ids.len()
            invariant
                1 <= offset <= 5,
                max_reinforce_level == offset * 2,
                type_ids@ == unique_weapon_reinforce_type_ids(),
                patches@ == before + offset_patches(offset as int).take(j as int),
        {
            let type_id = type_ids[j];
            assert(2200 <= type_id <= 9000);
            let type_id_with_offset = (type_id + offset as i16) as u32;
            patches.push(WeaponReinforcementPatch { reinforce_param_id: type_id_with_offset, max_reinforce_level });
            assert(offset_patches(offset as int).take(j + 1) =~= offset_patches(offset as int).take(j as int).push(
                offset_patches(offset as int)[j as int],
            ));
            assert(patches@ =~= before + offset_patches(offset as int).take(j + 1));
        }
        assert(offset_patches(offset as int).take(18) =~= offset_patches(offset as int));
        offset = offset + 1;
    }
    patches
}

// ----------------------------------------------------------------------------
// The mod's state and its step
// ----------------------------------------------------------------------------

/// The weapon levels the mod tracks.
#[derive(Clone, Copy, PartialEq, Eq, Structural, Debug)]
pub struct WeaponUpgrades {
    pub highest_regular_weapon_level: u8,
    pub max_regular_weapon_upgrade_level: u8,
    pub weapons_upgraded_last_time: i32,
}

impl WeaponUpgrades {
    /// The highest regular weapon level under the overhaul mod: 10 under
    /// Reborn, 25 otherwise.
    pub fn update_max_regular_weapon_upgrade_level(&mut self, overhaul: &ProbableMainOverhaulMod)
        ensures
            *final(self) == (WeaponUpgrades {
                max_regular_weapon_upgrade_level: if *overhaul == ProbableMainOverhaulMod::Reborn {
                    10u8
                } else {
                    25u8
                },
                ..*old(self)
            }),
    {
        self.max_regular_weapon_upgrade_level = match overhaul {
            ProbableMainOverhaulMod::Reborn => 10,
            ProbableMainOverhaulMod::NoKnownOverhaulMod => 25,
        };
    }

    /// The highest regular weapon level reached: the player's matching
    /// level, capped at the highest regular level.
    pub fn update_highest_regular_weapon_level_achieved(&mut self, matching_weapon_level: u8)
        ensures
            *final(self) == (WeaponUpgrades {
                highest_regular_weapon_level: if matching_weapon_level <= old(self).max_regular_weapon_upgrade_level {
                    matching_weapon_level
                } else {
                    old(self).max_regular_weapon_upgrade_level
                },
                ..*old(self)
            }),
    {
        self.highest_regular_weapon_level = if matching_weapon_level <= self.max_regular_weapon_upgrade_level {
            matching_weapon_level
        } else {
            self.max_regular_weapon_upgrade_level
        };
    }
}

/// How far the mod got with initializing.
#[derive(Clone, Copy, PartialEq, Eq, Structural, Debug)]
pub struct Initialization {
    pub config_loaded: bool,
    pub hooking_failed: bool,
    pub world_initialized: bool,
    pub patch_weapon_reinforcements: bool,
}

/// What the player toggled.
#[derive(Clone, Copy, PartialEq, Eq, Structural, Debug)]
pub struct Toggles {
    pub show_debug_window_overlay: bool,
}

/// Where the mod is within a frame's step.
#[derive(Clone, Copy, PartialEq, Eq, Structural, Debug)]
pub enum StepPhase {
    Idle,
    AwaitingConfig,
    AwaitingPlayer,
    AwaitingWorld,
    AwaitingPatch,
    AwaitingFlag,
    AwaitingUpgrade,
}

/// What the game reported back to the mod.
#[derive(Clone, Copy, PartialEq, Eq, Structural, Debug)]
pub enum AbsoluteWeaponEvent {
    /// A new frame began.
    FrameBegin,
    /// The configuration was loaded, with its reinforcement patch setting,
    /// and the grace menu hooks were installed or failed.
    Initialized { patch_weapon_reinforcements: Option<bool>, hooking_failed: bool },
    /// The player's matching weapon level, where there is a player.
    PlayerLookedUp(Option<u8>),
    /// The overhaul mod, where the world is loaded.
    WorldDiscovered(Option<ProbableMainOverhaulMod>),
    /// The reinforcement patches were applied.
    ReinforcementsPatched,
    /// Whether the upgrade flag was set (and is now cleared), where the flags
    /// can be read.
    UpgradeFlagChecked(Option<bool>),
    /// The number of weapons that were upgraded.
    WeaponsUpgraded(i32),
}

/// What the mod asks the game to do next.
#[derive(Clone, Copy, PartialEq, Eq, Structural, Debug)]
pub enum AbsoluteWeaponAction {
    /// Load the configuration and install the grace menu hooks.
    LoadConfigAndInitialize,
    /// Look up the player.
    LookUpPlayer,
    /// Find out which overhaul mod runs.
    DiscoverWorld,
    /// Apply the reinforcement patches of the overhaul mod.
    PatchWeaponReinforcements(ProbableMainOverhaulMod),
    /// Compare the flag with on, and clear it where it was on.
    CheckUpgradeFlag(u32),
    /// Upgrade the held weapons to the level that matches this one.
    UpgradeWeapons(u8),
    /// Nothing more this frame.
    Done,
}

/// The mod's state.
#[derive(Clone, Copy, PartialEq, Eq, Structural, Debug)]
pub struct AbsoluteWeapon {
    pub initialization: Initialization,
    pub toggles: Toggles,
    pub weapon_upgrades: WeaponUpgrades,
    pub pending_matching_weapon_level: u8,
    pub phase: StepPhase,
}

/// The state after the player was gone: the world is to be discovered again
/// and the levels start over.
pub open spec fn reset_spec(s: AbsoluteWeapon) -> AbsoluteWeapon {
    AbsoluteWeapon {
        initialization: Initialization { world_initialized: false, ..s.initialization },
        toggles: Toggles { show_debug_window_overlay: false },
        weapon_upgrades: WeaponUpgrades {
            highest_regular_weapon_level: 0,
            weapons_upgraded_last_time: 0,
            ..s.weapon_upgrades
        },
        ..s
    }
}

/// The state once the player's level was taken into account; the flag
/// check comes next.
pub open spec fn after_level_update(s: AbsoluteWeapon) -> (AbsoluteWeapon, AbsoluteWeaponAction) {
    let level = s.pending_matching_weapon_level;
    let max = s.weapon_upgrades.max_regular_weapon_upgrade_level;
    (
        AbsoluteWeapon {
            weapon_upgrades: WeaponUpgrades {
                highest_regular_weapon_level: if level <= max { level } else { max },
                ..s.weapon_upgrades
            },
            phase: StepPhase::AwaitingFlag,
            ..s
        },
        AbsoluteWeaponAction::CheckUpgradeFlag(UPGRADE_ALL_WEAPONS_FLAG_ID),
    )
}

/// One transition of the mod: from its state and what the game reported, to
/// its next state and what it asks for. A report that does not fit the phase
/// changes nothing.
pub open spec fn step_spec(s: AbsoluteWeapon, e: AbsoluteWeaponEvent) -> (AbsoluteWeapon, AbsoluteWeaponAction) {
    match e {
        AbsoluteWeaponEvent::FrameBegin => {
            if !s.initialization.config_loaded {
                (AbsoluteWeapon { phase: StepPhase::AwaitingConfig, ..s }, AbsoluteWeaponAction::LoadConfigAndInitialize)
            } else {
                (AbsoluteWeapon { phase: StepPhase::AwaitingPlayer, ..s }, AbsoluteWeaponAction::LookUpPlayer)
            }
        },
        AbsoluteWeaponEvent::Initialized { patch_weapon_reinforcements, hooking_failed } => {
            if s.phase == StepPhase::AwaitingConfig {
                (
                    AbsoluteWeapon {
                        initialization: Initialization {
                            config_loaded: true,
                            hooking_failed: s.initialization.hooking_failed || hooking_failed,
                            patch_weapon_reinforcements: match patch_weapon_reinforcements {
                                Some(p) => p,
                                None => true,
                            },
                            ..s.initialization
                        },
                        phase: StepPhase::AwaitingPlayer,
                        ..s
                    },
                    AbsoluteWeaponAction::LookUpPlayer,
                )
            } else {
                (s, AbsoluteWeaponAction::Done)
            }
        },
        AbsoluteWeaponEvent::PlayerLookedUp(level) => {
            if s.phase == StepPhase::AwaitingPlayer {
                match level {
                    None => (AbsoluteWeapon { phase: StepPhase::Idle, ..reset_spec(s) }, AbsoluteWeaponAction::Done),
                    Some(l) => {
                        let s2 = AbsoluteWeapon { pending_matching_weapon_level: l, ..s };
                        if !s.initialization.world_initialized {
                            (AbsoluteWeapon { phase: StepPhase::AwaitingWorld, ..s2 }, AbsoluteWeaponAction::DiscoverWorld)
                        } else {
                            after_level_update(s2)
                        }
                    },
                }
            } else {
                (s, AbsoluteWeaponAction::Done)
            }
        },
        AbsoluteWeaponEvent::WorldDiscovered(overhaul) => {
            if s.phase == StepPhase::AwaitingWorld {
                match overhaul {
                    None => after_level_update(
                        AbsoluteWeapon {
                            initialization: Initialization { world_initialized: false, ..s.initialization },
                            ..s
                        },
                    ),
                    Some(o) => {
                        let s2 = AbsoluteWeapon {
                            initialization: Initialization { world_initialized: true, ..s.initialization },
                            weapon_upgrades: WeaponUpgrades {
                                max_regular_weapon_upgrade_level: if o == ProbableMainOverhaulMod::Reborn {
                                    10u8
                                } else {
                                    25u8
                                },
                                ..s.weapon_upgrades
                            },
                            ..s
                        };
                        if s.initialization.patch_weapon_reinforcements {
                            (
                                AbsoluteWeapon { phase: StepPhase::AwaitingPatch, ..s2 },
                                AbsoluteWeaponAction::PatchWeaponReinforcements(o),
                            )
                        } else {
                            after_level_update(s2)
                        }
                    },
                }
            } else {
                (s, AbsoluteWeaponAction::Done)
            }
        },
        AbsoluteWeaponEvent::ReinforcementsPatched => {
            if s.phase == StepPhase::AwaitingPatch {
                after_level_update(s)
            } else {
                (s, AbsoluteWeaponAction::Done)
            }
        },
        AbsoluteWeaponEvent::UpgradeFlagChecked(was_set) => {
            if s.phase == StepPhase::AwaitingFlag {
                if was_set == Some(true) {
                    (
                        AbsoluteWeapon { phase: StepPhase::AwaitingUpgrade, ..s },
                        AbsoluteWeaponAction::UpgradeWeapons(s.weapon_upgrades.highest_regular_weapon_level),
                    )
                } else {
                    (AbsoluteWeapon { phase: StepPhase::Idle, ..s }, AbsoluteWeaponAction::Done)
                }
            } else {
                (s, AbsoluteWeaponAction::Done)
            }
        },
        AbsoluteWeaponEvent::WeaponsUpgraded(n) => {
            if s.phase == StepPhase::AwaitingUpgrade {
                (
                    AbsoluteWeapon {
                        weapon_upgrades: WeaponUpgrades { weapons_upgraded_last_time: n, ..s.weapon_upgrades },
                        phase: StepPhase::Idle,
                        ..s
                    },
                    AbsoluteWeaponAction::Done,
                )
            } else {
                (s, AbsoluteWeaponAction::Done)
            }
        },
    }
}

impl AbsoluteWeapon {
    /// The state before anything happened.
    pub fn new() -> (r: Self)
        ensures
            r == (AbsoluteWeapon {
                initialization: Initialization {
                    config_loaded: false,
                    hooking_failed: false,
                    world_initialized: false,
                    patch_weapon_reinforcements: false,
                },
                toggles: Toggles { show_debug_window_overlay: false },
                weapon_upgrades: WeaponUpgrades {
                    highest_regular_weapon_level: 0,
                    max_regular_weapon_upgrade_level: 0,
                    weapons_upgraded_last_time: 0,
                },
                pending_matching_weapon_level: 0,
                phase: StepPhase::Idle,
            }),
    {
        AbsoluteWeapon {
            initialization: Initialization {
                config_loaded: false,
                hooking_failed: false,
                world_initialized: false,
                patch_weapon_reinforcements: false,
            },
            toggles: Toggles { show_debug_window_overlay: false },
            weapon_upgrades: WeaponUpgrades {
                highest_regular_weapon_level: 0,
                max_regular_weapon_upgrade_level: 0,
                weapons_upgraded_last_time: 0,
            },
            pending_matching_weapon_level: 0,
            phase: StepPhase::Idle,
        }
    }

    /// Forgets what depends on the player: the world is discovered again
    /// and the levels start over.
    pub fn reset(&mut self)
        ensures
            *final(self) == reset_spec(*old(self)),
    {
        self.initialization.world_initialized = false;
        self.toggles.show_debug_window_overlay = false;
        self.weapon_upgrades.highest_regular_weapon_level = 0;
        self.weapon_upgrades.weapons_upgraded_last_time = 0;
    }

    /// Takes the player's pending level into account and asks for the flag check.
    fn update_level_and_check_flag(&mut self) -> (r: AbsoluteWeaponAction)
        ensures
            (*final(self), r) == after_level_update(*old(self)),
    {
        let level = self.pending_matching_weapon_level;
        self.weapon_upgrades.update_highest_regular_weapon_level_achieved(level);
        self.phase = StepPhase::AwaitingFlag;
        AbsoluteWeaponAction::CheckUpgradeFlag(UPGRADE_ALL_WEAPONS_FLAG_ID)
    }

    /// One transition of the mod: takes what the game reported and says what
    /// the game is to do next.
    pub fn step(&mut self, event: AbsoluteWeaponEvent) -> (r: AbsoluteWeaponAction)
        ensures
            (*final(self), r) == step_spec(*old(self), event),
    {
        match event {
            AbsoluteWeaponEvent::FrameBegin => {
                if !self.initialization.config_loaded {
                    self.phase = StepPhase::AwaitingConfig;
                    AbsoluteWeaponAction::LoadConfigAndInitialize
                } else {
                    self.phase = StepPhase::AwaitingPlayer;
                    AbsoluteWeaponAction::LookUpPlayer
                }
            },
            AbsoluteWeaponEvent::Initialized { patch_weapon_reinforcements, hooking_failed } => {
                if self.phase == StepPhase::AwaitingConfig {
                    self.initialization.config_loaded = true;
                    if hooking_failed {
                        self.initialization.hooking_failed = true;
                    }
                    self.initialization.patch_weapon_reinforcements = match patch_weapon_reinforcements {
                        Some(p) => p,
                        None => true,
                    };
                    self.phase = StepPhase::AwaitingPlayer;
                    AbsoluteWeaponAction::LookUpPlayer
                } else {
                    AbsoluteWeaponAction::Done
                }
            },
            AbsoluteWeaponEvent::PlayerLookedUp(level) => {
                if self.phase == StepPhase::AwaitingPlayer {
                    match level {
                        None => {
                            self.reset();
                            self.phase = StepPhase::Idle;
                            AbsoluteWeaponAction::Done
                        },
                        Some(l) => {
                            self.pending_matching_weapon_level = l;
                            if !self.initialization.world_initialized {
                                self.phase = StepPhase::AwaitingWorld;
                                AbsoluteWeaponAction::DiscoverWorld
                            } else {
                                self.update_level_and_check_flag()
                            }
                        },
                    }
                } else {
                    AbsoluteWeaponAction::Done
                }
            },
            AbsoluteWeaponEvent::WorldDiscovered(overhaul) => {
                if self.phase == StepPhase::AwaitingWorld {
                    match overhaul {
                        None => {
                            self.initialization.world_initialized = false;
                            self.update_level_and_check_flag()
                        },
                        Some(o) => {
                            self.initialization.world_initialized = true;
                            self.weapon_upgrades.update_max_regular_weapon_upgrade_level(&o);
                            if self.initialization.patch_weapon_reinforcements {
                                self.phase = StepPhase::AwaitingPatch;
                                AbsoluteWeaponAction::PatchWeaponReinforcements(o)
                            } else {
                                self.update_level_and_check_flag()
                            }
                        },
                    }
                } else {
                    AbsoluteWeaponAction::Done
                }
            },
            AbsoluteWeaponEvent::ReinforcementsPatched => {
                if self.phase == StepPhase::AwaitingPatch {
                    self.update_level_and_check_flag()
                } else {
                    AbsoluteWeaponAction::Done
                }
            },
            AbsoluteWeaponEvent::UpgradeFlagChecked(was_set) => {
                if self.phase == StepPhase::AwaitingFlag {
                    match was_set {
                        Some(true) => {
                            self.phase = StepPhase::AwaitingUpgrade;
                            AbsoluteWeaponAction::UpgradeWeapons(self.weapon_upgrades.highest_regular_weapon_level)
                        },
                        _ => {
                            self.phase = StepPhase::Idle;
                            AbsoluteWeaponAction::Done
                        },
                    }
                } else {
                    AbsoluteWeaponAction::Done
                }
            },
            AbsoluteWeaponEvent::WeaponsUpgraded(n) => {
                if self.phase == StepPhase::AwaitingUpgrade {
                    self.weapon_upgrades.weapons_upgraded_last_time = n;
                    self.phase = StepPhase::Idle;
                }
                AbsoluteWeaponAction::Done
            },
        }
    }
}

/// Whenever the mod checks the upgrade flag or upgrades, the level it uses
/// is within the highest regular level.
pub open spec fn level_capped(s: AbsoluteWeapon) -> bool {
    (s.phase == StepPhase::AwaitingFlag || s.phase == StepPhase::AwaitingUpgrade)
        ==> s.weapon_upgrades.highest_regular_weapon_level <= s.weapon_upgrades.max_regular_weapon_upgrade_level
}

/// Every step keeps the level that the mod upgrades to within the highest
/// regular level (10 under Reborn, 25 otherwise, once the world is known),
/// and the weapons are never upgraded beyond it.
pub proof fn law_step_keeps_level_capped(s: AbsoluteWeapon, e: AbsoluteWeaponEvent)
    requires
        level_capped(s),
    ensures
        level_capped(step_spec(s, e).0),
        step_spec(s, e).1 matches AbsoluteWeaponAction::UpgradeWeapons(l)
            ==> l <= step_spec(s, e).0.weapon_upgrades.max_regular_weapon_upgrade_level,
{
}

/// Once the world is known, a frame in which the player has reached the
/// matching weapon level `p` and the upgrade flag was set upgrades the
/// weapons to `p`, capped at the highest regular level, never to the cap
/// itself where the player is below it.
pub proof fn law_upgrade_level_is_level_reached(s: AbsoluteWeapon, p: u8)
    requires
        s.phase == StepPhase::AwaitingPlayer,
        s.initialization.world_initialized,
    ensures
        ({
            let cap = s.weapon_upgrades.max_regular_weapon_upgrade_level;
            let (s1, a1) = step_spec(s, AbsoluteWeaponEvent::PlayerLookedUp(Some(p)));
            let (s2, a2) = step_spec(s1, AbsoluteWeaponEvent::UpgradeFlagChecked(Some(true)));
            &&& a1 == AbsoluteWeaponAction::CheckUpgradeFlag(UPGRADE_ALL_WEAPONS_FLAG_ID)
            &&& a2 == AbsoluteWeaponAction::UpgradeWeapons(if p <= cap { p } else { cap })
            &&& step_spec(s1, AbsoluteWeaponEvent::UpgradeFlagChecked(Some(false))).1 == AbsoluteWeaponAction::Done
            &&& step_spec(s1, AbsoluteWeaponEvent::UpgradeFlagChecked(None)).1 == AbsoluteWeaponAction::Done
        }),
{
}

/// In the frame that first finds the world, a player who has reached the
/// matching weapon level `p` and set the upgrade flag gets the weapons
/// upgraded to `p`, capped at 10 under Reborn and 25 otherwise.
pub proof fn law_first_frame_upgrade_level(s: AbsoluteWeapon, p: u8, o: ProbableMainOverhaulMod)
    requires
        s.phase == StepPhase::AwaitingPlayer,
        !s.initialization.world_initialized,
    ensures
        ({
            let cap: u8 = if o == ProbableMainOverhaulMod::Reborn { 10 } else { 25 };
            let (s1, a1) = step_spec(s, AbsoluteWeaponEvent::PlayerLookedUp(Some(p)));
            let (s2, a2) = step_spec(s1, AbsoluteWeaponEvent::WorldDiscovered(Some(o)));
            let (s3, a3) = if s.initialization.patch_weapon_reinforcements {
                step_spec(s2, AbsoluteWeaponEvent::ReinforcementsPatched)
            } else {
                (s2, a2)
            };
            let (s4, a4) = step_spec(s3, AbsoluteWeaponEvent::UpgradeFlagChecked(Some(true)));
            &&& a1 == AbsoluteWeaponAction::DiscoverWorld
            &&& s.initialization.patch_weapon_reinforcements ==> a2 == AbsoluteWeaponAction::PatchWeaponReinforcements(o)
            &&& a3 == AbsoluteWeaponAction::CheckUpgradeFlag(UPGRADE_ALL_WEAPONS_FLAG_ID)
            &&& a4 == AbsoluteWeaponAction::UpgradeWeapons(if p <= cap { p } else { cap })
        }),
{
}

/// A frame in which the player is gone forgets the world and the levels
/// reached, whatever the mod's state.
pub proof fn law_player_gone_resets(s: AbsoluteWeapon)
    requires
        s.initialization.config_loaded,
    ensures
        ({
            let (s1, a1) = step_spec(s, AbsoluteWeaponEvent::FrameBegin);
            let (s2, a2) = step_spec(s1, AbsoluteWeaponEvent::PlayerLookedUp(None));
            &&& a1 == AbsoluteWeaponAction::LookUpPlayer
            &&& a2 == AbsoluteWeaponAction::Done
            &&& !s2.initialization.world_initialized
            &&& s2.weapon_upgrades.highest_regular_weapon_level == 0
            &&& s2.weapon_upgrades.weapons_upgraded_last_time == 0
            &&& s2.phase == StepPhase::Idle
        }),
{
}

} // verus!
