//! Verified core of the Elden Ring extenders: talk-script state machines,
//! grace menu extension, configuration handling, text overrides and the
//! decisions of the standalone mods.
pub mod stl_partial_copy;
pub mod ez_state_partial_copy;
pub mod ez_state_expression_extender;
pub mod ez_state_event_extender;
pub mod ez_state_transition_extender;
pub mod ez_state_state_extender;
pub mod ez_state_state_group_extender;
pub mod talk_script_extender;
pub mod text_config;
pub mod esd_config;
pub mod esd_grace_menu_enhancement;
pub mod rva;
pub mod initialization;
pub mod discovery;
pub mod weapon_upgrade;
pub mod absolute_weapon;
pub mod more_difficult_er;
