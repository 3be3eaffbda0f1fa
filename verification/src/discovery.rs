//! Telling which overhaul mod the game runs, from its tutorial parameters.
use vstd::prelude::*;

verus! {

/// The overhaul mod that the game probably runs.
#[derive(Debug, Clone, Copy, PartialEq, Eq, Structural)]
pub enum ProbableMainOverhaulMod {
    Reborn,
    NoKnownOverhaulMod,
}

/// The text that Reborn gives the tutorial of the witching hour unlock.
pub const EXPECTED_UNLOCK_EVENT_WITCHING_HOUR_TEXT_ID: i32 = 500000;

/// The tutorial parameters whose texts are checked, in order.
pub open spec fn tutorial_param_ids() -> Seq<u32> {
    seq![1010u32, 1530u32, 1550u32]
}

/// The tutorial parameters whose texts are checked, in order.
pub fn tutorial_param_ids_to_check() -> (r: Vec<u32>)
    ensures
        r@ == tutorial_param_ids(),
{
    let r: Vec<u32> = vec![1010u32, 1530u32, 1550u32];
    assert(r@ =~= tutorial_param_ids());
    r
}

/// Whether one of the parameters that exist has the witching hour text.
pub open spec fn probably_reborn(text_ids: Seq<Option<i32>>) -> bool {
    exists|i: int| 0 <= i < text_ids.len() && text_ids[i] == Some(EXPECTED_UNLOCK_EVENT_WITCHING_HOUR_TEXT_ID)
}

/// Reborn is recognised exactly where one of the checked tutorial texts,
/// wherever it stands, is the witching hour text 500000.
pub proof fn law_reborn_recognised_by_any_tutorial_text(text_ids: Seq<Option<i32>>, i: int)
    ensures
        0 <= i < text_ids.len() && text_ids[i] == Some(500000i32) ==> probably_reborn(text_ids),
        (forall|j: int| 0 <= j < text_ids.len() ==> text_ids[j] != Some(500000i32)) ==> !probably_reborn(text_ids),
{
}

/// Whether the game probably runs Reborn: the text ids of the checked
/// tutorial parameters (`None` for one that does not exist) hold the text
/// that Reborn gives the witching hour unlock.
pub fn is_probably_reborn(text_ids: &Vec<Option<i32>>) -> (r: bool)
    ensures
        r == probably_reborn(text_ids@),
{
    for i in 0..text_ids.len()
        invariant
            forall|j: int| 0 <= j < i ==> text_ids@[j] != Some(EXPECTED_UNLOCK_EVENT_WITCHING_HOUR_TEXT_ID),
    {
        if let Some(text_id) = text_ids[i] {
            if text_id == EXPECTED_UNLOCK_EVENT_WITCHING_HOUR_TEXT_ID {
                return true;
            }
        }
    }
    false
}

/// The overhaul mod, once the world is loaded and the parameters can be read:
/// `None` before that, Reborn where the tutorial texts show it, and no known
/// overhaul mod otherwise.
pub fn discover_probable_main_overhaul_mod(
    world_loaded: bool,
    tutorial_text_ids: Option<&Vec<Option<i32>>>,
) -> (r: Option<ProbableMainOverhaulMod>)
    ensures
        r == match tutorial_text_ids {
            Some(ids) if world_loaded => Some(
                if probably_reborn(ids@) {
                    ProbableMainOverhaulMod::Reborn
                } else {
                    ProbableMainOverhaulMod::NoKnownOverhaulMod
                },
            ),
            _ => None::<ProbableMainOverhaulMod>,
        },
{
    if !world_loaded {
        return None;
    }
    let ids = match tutorial_text_ids {
        Some(ids) => ids,
        None => {
            return None;
        },
    };
    if is_probably_reborn(ids) {
        return Some(ProbableMainOverhaulMod::Reborn);
    }
    Some(ProbableMainOverhaulMod::NoKnownOverhaulMod)
}

} // verus!
