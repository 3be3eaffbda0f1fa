//! The more difficult mod: a grace menu chooses a difficulty level, which
//! scales the area effects of the enemies.
use std::collections::HashMap;
use vstd::prelude::*;

verus! {

/// The first of the flags that save the chosen difficulty level.
pub const BASE_SAVED_DIFFICULTY_FLAG_ID: u32 = 1061460000;

/// The first of the flags that the grace menu sets to choose a level.
pub const BASE_DIFFICULTY_FLAG_ID: u32 = 1061472100;

/// The highest difficulty level; the levels run from 0 to it.
pub const MAX_DIFFICULTY_LEVEL: u32 = 5;

/// The level of the game's own difficulty, where the configuration gives none.
pub const DEFAULT_NORMAL_DIFFICULTY_LEVEL: u32 = 2;

/// The event flags that the mod reads and writes; a flag that is not held is off.
pub struct EventFlagMan {
    pub flags: HashMap<u32, bool>,
}

/// Whether the flag is on.
pub open spec fn flag_on(m: Map<u32, bool>, flag: u32) -> bool {
    m.contains_key(flag) && m[flag]
}

impl EventFlagMan {
    /// Whether the flag is on.
    pub fn get_flag(&self, flag: u32) -> (r: bool)
        ensures
            r == flag_on(self.flags@, flag),
    {
        broadcast use vstd::std_specs::hash::group_hash_axioms;

        match self.flags.get(&flag) {
            Some(v) => *v,
            None => false,
        }
    }

    /// Turns the flag on or off.
    pub fn set_flag(&mut self, flag: u32, set_to: bool)
        ensures
            final(self).flags@ == old(self).flags@.insert(flag, set_to),
    {
        broadcast use vstd::std_specs::hash::group_hash_axioms;

        self.flags.insert(flag, set_to);
    }

    /// Where the flag is `expected`, sets it to `set_to`; returns whether it was.
    pub fn compare_and_set_flag(&mut self, flag: u32, expected: bool, set_to: bool) -> (r: bool)
        ensures
            r == (flag_on(old(self).flags@, flag) == expected),
            final(self).flags@ == if r {
                old(self).flags@.insert(flag, set_to)
            } else {
                old(self).flags@
            },
    {
        let matches = self.get_flag(flag) == expected;
        if matches {
            self.set_flag(flag, set_to);
        }
        matches
    }
}

/// Whether the flag is one of those the grace menu sets.
pub open spec fn is_menu_flag(flag: u32) -> bool {
    BASE_DIFFICULTY_FLAG_ID <= flag <= BASE_DIFFICULTY_FLAG_ID + MAX_DIFFICULTY_LEVEL
}

/// Whether the flag is one of those that save the level.
pub open spec fn is_saved_flag(flag: u32) -> bool {
    BASE_SAVED_DIFFICULTY_FLAG_ID <= flag <= BASE_SAVED_DIFFICULTY_FLAG_ID + MAX_DIFFICULTY_LEVEL
}

/// The highest level whose grace menu flag is on, among the levels up to `l`.
pub open spec fn highest_chosen_level(m: Map<u32, bool>, l: int) -> Option<u32>
    decreases l + 1,
{
    if l < 0 {
        None
    } else if flag_on(m, (BASE_DIFFICULTY_FLAG_ID + l) as u32) {
        Some(l as u32)
    } else {
        highest_chosen_level(m, l - 1)
    }
}

/// Each flag once the grace menu's choice is taken: the menu flags are off,
/// and where a level was chosen (the highest, where several were) the saved
/// flags hold that level alone.
pub open spec fn flag_after_choice(m: Map<u32, bool>, flag: u32) -> bool {
    if is_menu_flag(flag) {
        false
    } else if is_saved_flag(flag) {
        match highest_chosen_level(m, MAX_DIFFICULTY_LEVEL as int) {
            Some(l) => flag == BASE_SAVED_DIFFICULTY_FLAG_ID + l,
            None => flag_on(m, flag),
        }
    } else {
        flag_on(m, flag)
    }
}

/// No saved flag is on once the choice is taken.
pub open spec fn no_level_saved(m: Map<u32, bool>) -> bool {
    forall|l: int| 0 <= l <= MAX_DIFFICULTY_LEVEL ==> !#[trigger] flag_after_choice(m, (BASE_SAVED_DIFFICULTY_FLAG_ID + l) as u32)
}

/// Each flag after the grace menu was handled: the choice is taken, and where
/// no level is saved then, the normal level is saved.
pub open spec fn flag_after_menu(m: Map<u32, bool>, normal_difficulty_level: u32, flag: u32) -> bool {
    if no_level_saved(m) && flag == BASE_SAVED_DIFFICULTY_FLAG_ID + normal_difficulty_level {
        true
    } else {
        flag_after_choice(m, flag)
    }
}

/// The flags `after` are those `before` once the grace menu was handled.
pub open spec fn menu_handled(before: Map<u32, bool>, normal_difficulty_level: u32, after: Map<u32, bool>) -> bool {
    forall|flag: u32| #[trigger] flag_on(after, flag) == flag_after_menu(before, normal_difficulty_level, flag)
}

/// The first level whose saved flag is on.
pub open spec fn first_saved_level_from(m: Map<u32, bool>, l: int) -> Option<u32>
    decreases MAX_DIFFICULTY_LEVEL + 1 - l,
{
    if l < 0 || l > MAX_DIFFICULTY_LEVEL {
        None
    } else if flag_on(m, (BASE_SAVED_DIFFICULTY_FLAG_ID + l) as u32) {
        Some(l as u32)
    } else {
        first_saved_level_from(m, l + 1)
    }
}

/// The level whose saved flag is on first.
pub open spec fn saved_level(m: Map<u32, bool>) -> Option<u32> {
    first_saved_level_from(m, 0)
}

/// How the area effects are to change.
#[derive(Clone, Copy, PartialEq, Eq, Structural, Debug)]
pub enum DifficultyChange {
    /// Back to the game's own values.
    Normal,
    /// The game's values times the multiplier to this power.
    Scaled { difficulty_power: i32 },
}

/// The mod's state: the level whose values are applied.
#[derive(Clone, Copy, PartialEq, Eq, Structural, Debug)]
pub struct MoreDifficultEr {
    pub current_difficulty_level: Option<u32>,
}

/// The change for a newly saved level: its distance from the normal level,
/// both taken as `i32` (the normal level wraps where it is above `i32::MAX`).
pub open spec fn difficulty_change(level: u32, normal_difficulty_level: u32) -> DifficultyChange {
    if level == normal_difficulty_level {
        DifficultyChange::Normal
    } else {
        DifficultyChange::Scaled { difficulty_power: (level - (normal_difficulty_level as i32)) as i32 }
    }
}

/// Where handling the saved level computes its difficulty power, the power
/// fits an `i32`.
pub open spec fn power_fits(
    before: MoreDifficultEr,
    flags: Map<u32, bool>,
    normal_difficulty_level: u32,
    repo_available: bool,
) -> bool {
    match saved_level(flags) {
        Some(l) if repo_available && before.current_difficulty_level != Some(l) && l != normal_difficulty_level => i32::MIN
            <= l - (normal_difficulty_level as i32) <= i32::MAX,
        _ => true,
    }
}

/// What handling the saved level does, from the state `before` and the flags:
/// where the parameters can be written and the first saved level differs from
/// the applied one, it is applied and its change returned; else nothing changes.
pub open spec fn difficulty_handled(
    before: MoreDifficultEr,
    flags: Map<u32, bool>,
    normal_difficulty_level: u32,
    repo_available: bool,
    r: Option<DifficultyChange>,
    after: MoreDifficultEr,
) -> bool {
    match saved_level(flags) {
        Some(l) if repo_available && before.current_difficulty_level != Some(l) => {
            &&& r == Some(difficulty_change(l, normal_difficulty_level))
            &&& after.current_difficulty_level == Some(l)
        },
        _ => r is None && after == before,
    }
}

/// The level of the game's own difficulty: the configured one, 2 by default.
pub fn normal_difficulty_level(configured: Option<u32>) -> (r: u32)
    ensures
        r == match configured {
            Some(l) => l,
            None => DEFAULT_NORMAL_DIFFICULTY_LEVEL,
        },
{
    match configured {
        Some(l) => l,
        None => DEFAULT_NORMAL_DIFFICULTY_LEVEL,
    }
}

/// The ids of the area effects that the difficulty scales, range after range:
/// 7000 to 7280 by 10, 19351 to 19370, 20007000 to 20007150 by 10, and
/// 20007200 to 20007350 by 10.
pub open spec fn area_sp_effect_id_seq() -> Seq<u32> {
    Seq::new(29, |k: int| (7000 + 10 * k) as u32) + Seq::new(20, |k: int| (19351 + k) as u32) + Seq::new(
        16,
        |k: int| (20007000 + 10 * k) as u32,
    ) + Seq::new(16, |k: int| (20007200 + 10 * k) as u32)
}

/// Appends `count` ids from `start` on, `step` apart.
fn push_id_range(ids: &mut Vec<u32>, start: u32, step: u32, count: u32)
    requires
        start + step * count <= u32::MAX,
    ensures
        final(ids)@ == old(ids)@ + Seq::new(count as nat, |k: int| (start + step * k) as u32),
{
    let ghost before = ids@;
    let mut k: u32 = 0;
    let mut id: u32 = start;
    while k < count
        invariant
            k <= count,
            start + step * count <= u32::MAX,
            id == start + step * k,
            ids@ == before + Seq::new(k as nat, |j: int| (start + step * j) as u32),
        decreases count - k,
    {
        ids.push(id);
        assert(ids@ =~= before + Seq::new((k + 1) as nat, |j: int| (start + step * j) as u32));
        proof {
            assert(step * (k + 1) == step * k + step) by (nonlinear_arith);
            assert(step * (k + 1) <= step * count) by (nonlinear_arith)
                requires
                    k < count,
            ;
        }
        id = id + step;
        k = k + 1;
    }
}

/// The ids of the area effects that the difficulty scales.
pub fn area_sp_effect_ids() -> (r: Vec<u32>)
    ensures
        r@ == area_sp_effect_id_seq(),
{
    let mut ids: Vec<u32> = Vec::new();
    push_id_range(&mut ids, 7000, 10, 29);
    push_id_range(&mut ids, 19351, 1, 20);
    push_id_range(&mut ids, 20007000, 10, 16);
    push_id_range(&mut ids, 20007200, 10, 16);
    assert(ids@ =~= area_sp_effect_id_seq());
    ids
}

/// Each flag once the grace menu flags of the levels below `n` were taken.
pub open spec fn flag_after_choice_upto(m: Map<u32, bool>, n: int, flag: u32) -> bool {
    if is_menu_flag(flag) && flag < BASE_DIFFICULTY_FLAG_ID + n {
        false
    } else if is_saved_flag(flag) {
        match highest_chosen_level(m, n - 1) {
            Some(l) => flag == BASE_SAVED_DIFFICULTY_FLAG_ID + l,
            None => flag_on(m, flag),
        }
    } else {
        flag_on(m, flag)
    }
}

/// The highest chosen level, where there is one, is one of the levels.
proof fn lemma_highest_chosen_level_bound(m: Map<u32, bool>, l: int)
    ensures
        highest_chosen_level(m, l) matches Some(c) ==> 0 <= c <= l,
    decreases l + 1,
{
    if l >= 0 {
        lemma_highest_chosen_level_bound(m, l - 1);
    }
}

/// Takes the choice of the grace menu: every level whose menu flag is on
/// clears it and saves that level alone, the levels in increasing order; then,
/// where no level is saved, the normal level is saved.
pub fn handle_more_difficult_er_menu(flag_man: &mut EventFlagMan, normal_difficulty_level: u32)
    requires
        normal_difficulty_level <= u32::MAX - BASE_SAVED_DIFFICULTY_FLAG_ID,
    ensures
        menu_handled(old(flag_man).flags@, normal_difficulty_level, final(flag_man).flags@),
{
    let ghost m0 = flag_man.flags@;
    let mut level: u32 = 0;
    while level <= MAX_DIFFICULTY_LEVEL
        invariant
            level <= MAX_DIFFICULTY_LEVEL + 1,
            forall|flag: u32| #[trigger] flag_on(flag_man.flags@, flag) == flag_after_choice_upto(m0, level as int, flag),
        decreases MAX_DIFFICULTY_LEVEL + 1 - level,
    {
        let flag_id = BASE_DIFFICULTY_FLAG_ID + level;
        let ghost before = flag_man.flags@;
        assert(flag_on(before, flag_id) == flag_after_choice_upto(m0, level as int, flag_id));
        let chosen = flag_man.compare_and_set_flag(flag_id, true, false);
        assert(chosen == flag_on(m0, flag_id));
        let ghost before_inner = flag_man.flags@;
        if chosen {
            let mut saved_level: u32 = 0;
            while saved_level <= MAX_DIFFICULTY_LEVEL
                invariant
                    level <= MAX_DIFFICULTY_LEVEL,
                    saved_level <= MAX_DIFFICULTY_LEVEL + 1,
                    forall|flag: u32| #[trigger] flag_on(flag_man.flags@, flag) == if is_saved_flag(flag) && flag < BASE_SAVED_DIFFICULTY_FLAG_ID + saved_level {
                        flag == BASE_SAVED_DIFFICULTY_FLAG_ID + level
                    } else {
                        flag_on(before_inner, flag)
                    },
                decreases MAX_DIFFICULTY_LEVEL + 1 - saved_level,
            {
                let level_to_set = saved_level == level;
                let target = BASE_SAVED_DIFFICULTY_FLAG_ID + saved_level;
                let ghost pre = flag_man.flags@;
                flag_man.compare_and_set_flag(target, !level_to_set, level_to_set);
                proof {
                    assert(flag_on(flag_man.flags@, target) == level_to_set);
                    assert forall|flag: u32| #[trigger] flag_on(flag_man.flags@, flag) == if is_saved_flag(flag) && flag < BASE_SAVED_DIFFICULTY_FLAG_ID + saved_level + 1 {
                        flag == BASE_SAVED_DIFFICULTY_FLAG_ID + level
                    } else {
                        flag_on(before_inner, flag)
                    } by {
                        if flag != target {
                            assert(flag_on(flag_man.flags@, flag) == flag_on(pre, flag));
                        }
                    }
                }
                saved_level = saved_level + 1;
            }
        }
        proof {
            assert forall|flag: u32| #[trigger] flag_on(flag_man.flags@, flag) == flag_after_choice_upto(m0, level + 1, flag) by {
                assert(flag_on(before, flag) == flag_after_choice_upto(m0, level as int, flag));
                if flag != flag_id {
                    assert(flag_on(before_inner, flag) == flag_on(before, flag));
                }
            }
        }
        level = level + 1;
    }
    assert forall|flag: u32| #[trigger] flag_on(flag_man.flags@, flag) == flag_after_choice(m0, flag) by {
        assert(flag_on(flag_man.flags@, flag) == flag_after_choice_upto(m0, MAX_DIFFICULTY_LEVEL + 1, flag));
    }
    let mut nothing_set = true;
    let mut saved_level: u32 = 0;
    while saved_level <= MAX_DIFFICULTY_LEVEL
        invariant
            saved_level <= MAX_DIFFICULTY_LEVEL + 1,
            forall|flag: u32| #[trigger] flag_on(flag_man.flags@, flag) == flag_after_choice(m0, flag),
            nothing_set == forall|l: int| 0 <= l < saved_level ==> !#[trigger] flag_after_choice(m0, (BASE_SAVED_DIFFICULTY_FLAG_ID + l) as u32),
        decreases MAX_DIFFICULTY_LEVEL + 1 - saved_level,
    {
        if flag_man.get_flag(BASE_SAVED_DIFFICULTY_FLAG_ID + saved_level) {
            nothing_set = false;
        }
        saved_level = saved_level + 1;
    }
    assert(nothing_set == no_level_saved(m0));
    let ghost chosen_flags = flag_man.flags@;
    if nothing_set {
        flag_man.set_flag(BASE_SAVED_DIFFICULTY_FLAG_ID + normal_difficulty_level, true);
    }
    assert forall|flag: u32| #[trigger] flag_on(flag_man.flags@, flag) == flag_after_menu(m0, normal_difficulty_level, flag) by {
        assert(flag_on(chosen_flags, flag) == flag_after_choice(m0, flag));
    }
}

/// Where no grace menu flag up to level `l` is on, no level up to it was chosen.
proof fn lemma_nothing_chosen(m: Map<u32, bool>, l: int)
    requires
        forall|k: int| 0 <= k <= l ==> !#[trigger] flag_on(m, (BASE_DIFFICULTY_FLAG_ID + k) as u32),
    ensures
        highest_chosen_level(m, l) is None,
    decreases l + 1,
{
    if l >= 0 {
        assert(!flag_on(m, (BASE_DIFFICULTY_FLAG_ID + l) as u32));
        lemma_nothing_chosen(m, l - 1);
    }
}

/// The first saved level, searched from `from` on, depends on which flags are on alone.
proof fn lemma_first_saved_level_congruent(m1: Map<u32, bool>, m2: Map<u32, bool>, from: int)
    requires
        forall|flag: u32| #[trigger] flag_on(m1, flag) == flag_on(m2, flag),
    ensures
        first_saved_level_from(m1, from) == first_saved_level_from(m2, from),
    decreases MAX_DIFFICULTY_LEVEL + 1 - from,
{
    if 0 <= from <= MAX_DIFFICULTY_LEVEL {
        assert(flag_on(m1, (BASE_SAVED_DIFFICULTY_FLAG_ID + from) as u32) == flag_on(
            m2,
            (BASE_SAVED_DIFFICULTY_FLAG_ID + from) as u32,
        ));
        lemma_first_saved_level_congruent(m1, m2, from + 1);
    }
}

/// Where the saved flags from `from` up to `l` are off and that of `l` is on,
/// the first saved level from `from` on is `l`.
proof fn lemma_first_saved_level_is(m: Map<u32, bool>, from: int, l: int)
    requires
        0 <= from <= l <= MAX_DIFFICULTY_LEVEL,
        forall|k: int| from <= k < l ==> !#[trigger] flag_on(m, (BASE_SAVED_DIFFICULTY_FLAG_ID + k) as u32),
        flag_on(m, (BASE_SAVED_DIFFICULTY_FLAG_ID + l) as u32),
    ensures
        first_saved_level_from(m, from) == Some(l as u32),
    decreases l - from,
{
    if from < l {
        assert(!flag_on(m, (BASE_SAVED_DIFFICULTY_FLAG_ID + from) as u32));
        lemma_first_saved_level_is(m, from + 1, l);
    }
}

/// Where a saved flag at `k` or above `from` is on, some level is found from `from` on.
proof fn lemma_first_saved_level_found(m: Map<u32, bool>, from: int, k: int)
    requires
        0 <= from <= k <= MAX_DIFFICULTY_LEVEL,
        flag_on(m, (BASE_SAVED_DIFFICULTY_FLAG_ID + k) as u32),
    ensures
        first_saved_level_from(m, from) is Some,
    decreases k - from,
{
    if from < k && !flag_on(m, (BASE_SAVED_DIFFICULTY_FLAG_ID + from) as u32) {
        lemma_first_saved_level_found(m, from + 1, k);
    }
}

/// Whether the flag that saves the normal level is one of the grace menu's
/// flags (a normal level from 12100 to 12105).
pub open spec fn normal_flag_is_menu_flag(normal_difficulty_level: u32) -> bool {
    BASE_DIFFICULTY_FLAG_ID <= BASE_SAVED_DIFFICULTY_FLAG_ID + normal_difficulty_level <= BASE_DIFFICULTY_FLAG_ID
        + MAX_DIFFICULTY_LEVEL
}

/// Where no saved flag is on, no level is found.
proof fn lemma_no_saved_level(m: Map<u32, bool>, from: int)
    requires
        forall|j: int| 0 <= j <= MAX_DIFFICULTY_LEVEL ==> !#[trigger] flag_on(m, (BASE_SAVED_DIFFICULTY_FLAG_ID + j) as u32),
    ensures
        first_saved_level_from(m, from) is None,
    decreases MAX_DIFFICULTY_LEVEL + 1 - from,
{
    if 0 <= from <= MAX_DIFFICULTY_LEVEL {
        assert(!flag_on(m, (BASE_SAVED_DIFFICULTY_FLAG_ID + from) as u32));
        lemma_no_saved_level(m, from + 1);
    }
}

/// Once the grace menu was handled, no menu flag is on, and some saved flag
/// is (the returned level's), unless none was on, none was chosen, and the
/// normal level is none of the levels.
proof fn lemma_menu_saved_levels(m0: Map<u32, bool>, normal_difficulty_level: u32, m1: Map<u32, bool>) -> (k: Option<int>)
    requires
        !normal_flag_is_menu_flag(normal_difficulty_level),
        menu_handled(m0, normal_difficulty_level, m1),
    ensures
        forall|j: int| 0 <= j <= MAX_DIFFICULTY_LEVEL ==> !#[trigger] flag_on(m1, (BASE_DIFFICULTY_FLAG_ID + j) as u32),
        match k {
            Some(k) => 0 <= k <= MAX_DIFFICULTY_LEVEL && flag_on(m1, (BASE_SAVED_DIFFICULTY_FLAG_ID + k) as u32),
            None => no_level_saved(m0) && forall|j: int|
                0 <= j <= MAX_DIFFICULTY_LEVEL ==> !#[trigger] flag_on(m1, (BASE_SAVED_DIFFICULTY_FLAG_ID + j) as u32),
        },
{
    assert forall|j: int| 0 <= j <= MAX_DIFFICULTY_LEVEL implies !#[trigger] flag_on(m1, (BASE_DIFFICULTY_FLAG_ID + j) as u32) by {
        assert(flag_on(m1, (BASE_DIFFICULTY_FLAG_ID + j) as u32) == flag_after_menu(
            m0,
            normal_difficulty_level,
            (BASE_DIFFICULTY_FLAG_ID + j) as u32,
        ));
    }
    lemma_highest_chosen_level_bound(m0, MAX_DIFFICULTY_LEVEL as int);
    let k: Option<int> = match highest_chosen_level(m0, MAX_DIFFICULTY_LEVEL as int) {
        Some(c) => Some(c as int),
        None => if !no_level_saved(m0) {
            Some(choose|l: int| 0 <= l <= MAX_DIFFICULTY_LEVEL && #[trigger] flag_after_choice(m0, (BASE_SAVED_DIFFICULTY_FLAG_ID + l) as u32))
        } else if normal_difficulty_level <= MAX_DIFFICULTY_LEVEL {
            Some(normal_difficulty_level as int)
        } else {
            None
        },
    };
    match k {
        Some(k) => {
            assert(flag_on(m1, (BASE_SAVED_DIFFICULTY_FLAG_ID + k) as u32) == flag_after_menu(
                m0,
                normal_difficulty_level,
                (BASE_SAVED_DIFFICULTY_FLAG_ID + k) as u32,
            ));
        },
        None => {
            assert forall|j: int| 0 <= j <= MAX_DIFFICULTY_LEVEL implies !#[trigger] flag_on(m1, (BASE_SAVED_DIFFICULTY_FLAG_ID + j) as u32) by {
                assert(flag_on(m1, (BASE_SAVED_DIFFICULTY_FLAG_ID + j) as u32) == flag_after_menu(
                    m0,
                    normal_difficulty_level,
                    (BASE_SAVED_DIFFICULTY_FLAG_ID + j) as u32,
                ));
                assert(!flag_after_choice(m0, (BASE_SAVED_DIFFICULTY_FLAG_ID + j) as u32));
            }
        },
    }
    k
}

/// Handling the grace menu a second time changes no flag, unless the flag
/// that saves the normal level is one of the menu's own.
pub proof fn law_menu_handled_twice_changes_nothing(
    m0: Map<u32, bool>,
    m1: Map<u32, bool>,
    m2: Map<u32, bool>,
    normal_difficulty_level: u32,
)
    requires
        !normal_flag_is_menu_flag(normal_difficulty_level),
        menu_handled(m0, normal_difficulty_level, m1),
        menu_handled(m1, normal_difficulty_level, m2),
    ensures
        forall|flag: u32| #[trigger] flag_on(m2, flag) == flag_on(m1, flag),
{
    let k = lemma_menu_saved_levels(m0, normal_difficulty_level, m1);
    lemma_nothing_chosen(m1, MAX_DIFFICULTY_LEVEL as int);
    match k {
        Some(k) => {
            assert(flag_after_choice(m1, (BASE_SAVED_DIFFICULTY_FLAG_ID + k) as u32));
            assert(!no_level_saved(m1));
        },
        None => {
            assert forall|j: int| 0 <= j <= MAX_DIFFICULTY_LEVEL implies !#[trigger] flag_after_choice(m1, (BASE_SAVED_DIFFICULTY_FLAG_ID + j) as u32) by {
                assert(!flag_on(m1, (BASE_SAVED_DIFFICULTY_FLAG_ID + j) as u32));
            }
            assert(no_level_saved(m1));
        },
    }
    assert forall|flag: u32| #[trigger] flag_on(m2, flag) == flag_on(m1, flag) by {
        assert(flag_on(m2, flag) == flag_after_menu(m1, normal_difficulty_level, flag));
        assert(flag_on(m1, flag) == flag_after_menu(m0, normal_difficulty_level, flag));
        if is_menu_flag(flag) {
            let j: int = flag - BASE_DIFFICULTY_FLAG_ID;
            assert(flag == (BASE_DIFFICULTY_FLAG_ID + j) as u32);
            assert(!flag_on(m1, (BASE_DIFFICULTY_FLAG_ID + j) as u32));
        }
    }
}

/// Where the grace menu chose a level (the highest, where several were), once
/// it is handled that level alone is saved, it is the saved level, and no
/// menu flag is on.
pub proof fn law_chosen_level_saved_alone(
    m0: Map<u32, bool>,
    normal_difficulty_level: u32,
    m1: Map<u32, bool>,
    l: u32,
)
    requires
        menu_handled(m0, normal_difficulty_level, m1),
        highest_chosen_level(m0, MAX_DIFFICULTY_LEVEL as int) == Some(l),
    ensures
        l <= MAX_DIFFICULTY_LEVEL,
        forall|k: int| 0 <= k <= MAX_DIFFICULTY_LEVEL ==> #[trigger] flag_on(m1, (BASE_SAVED_DIFFICULTY_FLAG_ID + k) as u32) == (k == l),
        forall|k: int| 0 <= k <= MAX_DIFFICULTY_LEVEL ==> !#[trigger] flag_on(m1, (BASE_DIFFICULTY_FLAG_ID + k) as u32),
        saved_level(m1) == Some(l),
{
    lemma_highest_chosen_level_bound(m0, MAX_DIFFICULTY_LEVEL as int);
    assert(flag_after_choice(m0, (BASE_SAVED_DIFFICULTY_FLAG_ID + l) as u32));
    assert(!no_level_saved(m0));
    assert forall|k: int| 0 <= k <= MAX_DIFFICULTY_LEVEL implies #[trigger] flag_on(m1, (BASE_SAVED_DIFFICULTY_FLAG_ID + k) as u32) == (k == l) by {
        assert(flag_on(m1, (BASE_SAVED_DIFFICULTY_FLAG_ID + k) as u32) == flag_after_menu(
            m0,
            normal_difficulty_level,
            (BASE_SAVED_DIFFICULTY_FLAG_ID + k) as u32,
        ));
    }
    assert forall|k: int| 0 <= k <= MAX_DIFFICULTY_LEVEL implies !#[trigger] flag_on(m1, (BASE_DIFFICULTY_FLAG_ID + k) as u32) by {
        assert(flag_on(m1, (BASE_DIFFICULTY_FLAG_ID + k) as u32) == flag_after_menu(
            m0,
            normal_difficulty_level,
            (BASE_DIFFICULTY_FLAG_ID + k) as u32,
        ));
    }
    lemma_first_saved_level_is(m1, 0, l as int);
}

/// A second step on what a first step left, with the parameters writable both
/// times, changes nothing and applies nothing, unless the flag that saves the
/// normal level is one of the menu's own.
pub proof fn law_step_twice_settles(
    s0: MoreDifficultEr,
    m0: Map<u32, bool>,
    r1: Option<DifficultyChange>,
    s1: MoreDifficultEr,
    m1: Map<u32, bool>,
    r2: Option<DifficultyChange>,
    s2: MoreDifficultEr,
    m2: Map<u32, bool>,
    normal_difficulty_level: u32,
)
    requires
        !normal_flag_is_menu_flag(normal_difficulty_level),
        menu_handled(m0, normal_difficulty_level, m1),
        difficulty_handled(s0, m1, normal_difficulty_level, true, r1, s1),
        menu_handled(m1, normal_difficulty_level, m2),
        difficulty_handled(s1, m2, normal_difficulty_level, true, r2, s2),
    ensures
        forall|flag: u32| #[trigger] flag_on(m2, flag) == flag_on(m1, flag),
        r2 is None,
        s2 == s1,
{
    law_menu_handled_twice_changes_nothing(m0, m1, m2, normal_difficulty_level);
    lemma_first_saved_level_congruent(m2, m1, 0);
    match lemma_menu_saved_levels(m0, normal_difficulty_level, m1) {
        Some(k) => lemma_first_saved_level_found(m1, 0, k),
        None => lemma_no_saved_level(m1, 0),
    }
}

/// Handling the saved level a second time with the same flags, the
/// parameters writable both times, applies nothing and changes nothing.
pub proof fn law_difficulty_handled_twice_changes_nothing(
    s0: MoreDifficultEr,
    flags: Map<u32, bool>,
    normal_difficulty_level: u32,
    r1: Option<DifficultyChange>,
    s1: MoreDifficultEr,
    r2: Option<DifficultyChange>,
    s2: MoreDifficultEr,
)
    requires
        difficulty_handled(s0, flags, normal_difficulty_level, true, r1, s1),
        difficulty_handled(s1, flags, normal_difficulty_level, true, r2, s2),
    ensures
        r2 is None,
        s2 == s1,
{
}

impl MoreDifficultEr {
    /// The state before any level was applied.
    pub fn new() -> (r: Self)
        ensures
            r.current_difficulty_level is None,
    {
        MoreDifficultEr { current_difficulty_level: None }
    }

    /// Where the parameters can be written and the first saved level differs
    /// from the applied one, applies it: back to the game's values for the
    /// normal level, scaled by the multiplier to the power of its distance
    /// from the normal level otherwise.
    pub fn handle_more_difficult_er_difficulty(
        &mut self,
        flag_man: &EventFlagMan,
        normal_difficulty_level: u32,
        repo_available: bool,
    ) -> (r: Option<DifficultyChange>)
        requires
            power_fits(*old(self), flag_man.flags@, normal_difficulty_level, repo_available),
        ensures
            difficulty_handled(*old(self), flag_man.flags@, normal_difficulty_level, repo_available, r, *final(self)),
    {
        if !repo_available {
            return None;
        }
        let mut level: u32 = 0;
        let mut found: Option<u32> = None;
        while level <= MAX_DIFFICULTY_LEVEL
            invariant
                level <= MAX_DIFFICULTY_LEVEL + 1,
                found is None ==> saved_level(flag_man.flags@) == first_saved_level_from(flag_man.flags@, level as int),
                found matches Some(l) ==> saved_level(flag_man.flags@) == Some(l) && l <= MAX_DIFFICULTY_LEVEL,
            decreases MAX_DIFFICULTY_LEVEL + 1 - level,
        {
            if found.is_none() && flag_man.get_flag(BASE_SAVED_DIFFICULTY_FLAG_ID + level) {
                found = Some(level);
            }
            level = level + 1;
        }
        let difficulty_level_flag = match found {
            Some(l) => l,
            None => {
                return None;
            },
        };
        let current = match self.current_difficulty_level {
            Some(c) => c,
            None => u32::MAX,
        };
        if difficulty_level_flag == current {
            return None;
        }
        let change = if difficulty_level_flag == normal_difficulty_level {
            DifficultyChange::Normal
        } else {
            DifficultyChange::Scaled {
                difficulty_power: difficulty_level_flag as i32 - normal_difficulty_level as i32,
            }
        };
        self.current_difficulty_level = Some(difficulty_level_flag);
        Some(change)
    }

    /// Whether handling the saved level would compute a difficulty power that
    /// fits an `i32`.
    pub fn difficulty_power_fits(&self, flag_man: &EventFlagMan, normal_difficulty_level: u32, repo_available: bool) -> (r:
        bool)
        ensures
            r == power_fits(*self, flag_man.flags@, normal_difficulty_level, repo_available),
    {
        if !repo_available {
            return true;
        }
        let mut level: u32 = 0;
        let mut found: Option<u32> = None;
        while level <= MAX_DIFFICULTY_LEVEL
            invariant
                level <= MAX_DIFFICULTY_LEVEL + 1,
                found is None ==> saved_level(flag_man.flags@) == first_saved_level_from(flag_man.flags@, level as int),
                found matches Some(l) ==> saved_level(flag_man.flags@) == Some(l) && l <= MAX_DIFFICULTY_LEVEL,
            decreases MAX_DIFFICULTY_LEVEL + 1 - level,
        {
            if found.is_none() && flag_man.get_flag(BASE_SAVED_DIFFICULTY_FLAG_ID + level) {
                found = Some(level);
            }
            level = level + 1;
        }
        match found {
            None => true,
            Some(l) => {
                if self.current_difficulty_level == Some(l) || l == normal_difficulty_level {
                    true
                } else {
                    let power = l as i64 - (normal_difficulty_level as i32) as i64;
                    i32::MIN as i64 <= power && power <= i32::MAX as i64
                }
            },
        }
    }

    /// One step of the mod once the world and the flags are there: the grace
    /// menu's choice is taken, then the saved level is applied where it changed.
    pub fn step(&mut self, flag_man: &mut EventFlagMan, normal_difficulty_level: u32, repo_available: bool) -> (r:
        Option<DifficultyChange>)
        requires
            normal_difficulty_level <= u32::MAX - BASE_SAVED_DIFFICULTY_FLAG_ID,
            forall|m: Map<u32, bool>|
                #[trigger] menu_handled(old(flag_man).flags@, normal_difficulty_level, m) ==> power_fits(
                    *old(self),
                    m,
                    normal_difficulty_level,
                    repo_available,
                ),
        ensures
            menu_handled(old(flag_man).flags@, normal_difficulty_level, final(flag_man).flags@),
            difficulty_handled(
                *old(self),
                final(flag_man).flags@,
                normal_difficulty_level,
                repo_available,
                r,
                *final(self),
            ),
    {
        handle_more_difficult_er_menu(flag_man, normal_difficulty_level);
        self.handle_more_difficult_er_difficulty(flag_man, normal_difficulty_level, repo_available)
    }
}

} // verus!
