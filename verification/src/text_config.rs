//! Text overrides: which message of which category the game shows in place
//! of its own, and the UTF-16 strings it is handed.
use std::collections::HashMap;
use vstd::prelude::*;

verus! {

/// The message category of the event texts shown in talk menus.
pub const EVENT_TEXT_FOR_TALK_CATEGORY: u32 = 33;

/// One overridden event text: the text shown for the message `text_id`.
pub struct EventTextForTalk {
    pub text_id: i32,
    pub text: String,
}

impl Default for EventTextForTalk {
    fn default() -> (r: Self)
        ensures
            r.text_id == 0,
            r.text@.len() == 0,
    {
        EventTextForTalk { text_id: 0, text: String::new() }
    }
}

/// The texts that override the game's messages.
pub struct ExtraText {
    pub event_text_for_talk: Vec<EventTextForTalk>,
}

impl Default for ExtraText {
    fn default() -> (r: Self)
        ensures
            r.event_text_for_talk@.len() == 0,
    {
        ExtraText { event_text_for_talk: Vec::new() }
    }
}

/// The UTF-16 code units of a character.
pub open spec fn char_utf16(c: char) -> Seq<u16> {
    let v = c as u32;
    if v < 0x10000 {
        seq![v as u16]
    } else {
        seq![
            (0xD800u32 + ((v - 0x10000u32) as u32 >> 10u32)) as u16,
            (0xDC00u32 + ((v - 0x10000u32) as u32 & 0x3FFu32)) as u16,
        ]
    }
}

/// The UTF-16 encoding of a string.
pub open spec fn utf16(s: Seq<char>) -> Seq<u16>
    decreases s.len(),
{
    if s.len() == 0 {
        Seq::empty()
    } else {
        utf16(s.drop_last()) + char_utf16(s.last())
    }
}

/// The UTF-16 encoding of a string followed by the terminating 0, as the game
/// reads its messages.
pub open spec fn utf16_nul_terminated(s: Seq<char>) -> Seq<u16> {
    utf16(s).push(0u16)
}

/// The message of each text id after all entries have been applied in order:
/// a later entry for a text id replaces an earlier one.
pub open spec fn overridden_event_texts(entries: Seq<EventTextForTalk>) -> Map<i32, Seq<u16>>
    decreases entries.len(),
{
    if entries.len() == 0 {
        Map::empty()
    } else {
        overridden_event_texts(entries.drop_last()).insert(
            entries.last().text_id,
            utf16_nul_terminated(entries.last().text@),
        )
    }
}

/// The text shown for a message id is that of the last entry for it.
pub proof fn law_last_entry_overrides(entries: Seq<EventTextForTalk>, k: int)
    requires
        0 <= k < entries.len(),
        forall|j: int| k < j < entries.len() ==> (#[trigger] entries[j]).text_id != entries[k].text_id,
    ensures
        overridden_event_texts(entries).contains_key(entries[k].text_id),
        overridden_event_texts(entries)[entries[k].text_id] == utf16_nul_terminated(entries[k].text@),
    decreases entries.len(),
{
    if k < entries.len() - 1 {
        let rest = entries.drop_last();
        assert forall|j: int| k < j < rest.len() implies (#[trigger] rest[j]).text_id != rest[k].text_id by {
            assert(rest[j] == entries[j]);
        }
        law_last_entry_overrides(rest, k);
        assert(entries.last() == entries[entries.len() - 1]);
    }
}

/// A message id that no entry names is not overridden.
pub proof fn law_unnamed_text_not_overridden(entries: Seq<EventTextForTalk>, text_id: i32)
    requires
        forall|j: int| 0 <= j < entries.len() ==> (#[trigger] entries[j]).text_id != text_id,
    ensures
        !overridden_event_texts(entries).contains_key(text_id),
    decreases entries.len(),
{
    if entries.len() > 0 {
        let rest = entries.drop_last();
        assert forall|j: int| 0 <= j < rest.len() implies (#[trigger] rest[j]).text_id != text_id by {
            assert(rest[j] == entries[j]);
        }
        law_unnamed_text_not_overridden(rest, text_id);
        assert(entries.last() == entries[entries.len() - 1]);
    }
}

/// Appends the UTF-16 code units of `c`.
fn push_char_utf16(units: &mut Vec<u16>, c: char)
    ensures
        final(units)@ == old(units)@ + char_utf16(c),
{
    let v = c as u32;
    assert(v as int == c as int && c as int <= 0x10FFFF);
    if v < 0x10000 {
        units.push(v as u16);
    } else {
        let u = v - 0x10000;
        assert(u >> 10u32 <= 0x3FF) by (bit_vector)
            requires
                u <= 0xFFFFF,
        ;
        assert(u & 0x3FFu32 <= 0x3FF) by (bit_vector);
        units.push((0xD800u32 + (u >> 10u32)) as u16);
        units.push((0xDC00u32 + (u & 0x3FFu32)) as u16);
    }
    assert(units@ =~= old(units)@ + char_utf16(c));
}

/// The UTF-16 code units of the text, with the terminating 0.
fn encode_utf16_nul_terminated(text: &String) -> (r: Vec<u16>)
    ensures
        r@ == utf16_nul_terminated(text@),
{
    let mut units: Vec<u16> = Vec::new();
    let ghost mut done: Seq<char> = Seq::empty();
    for c in it: text.as_str().chars()
        invariant
            it.seq() == text@,
            done == text@.take(it.index() as int),
            units@ == utf16(done),
    {
        push_char_utf16(&mut units, c);
        proof {
            let next = text@.take(it.index() + 1);
            assert(next.drop_last() =~= done);
            assert(next.last() == c);
            assert(units@ =~= utf16(done) + char_utf16(c));
            done = next;
        }
    }
    proof {
        assert(done =~= text@);
    }
    units.push(0u16);
    units
}

impl ExtraText {
    /// Text overrides with the given event texts.
    pub fn new(event_text_for_talk_map: Vec<EventTextForTalk>) -> (r: Self)
        ensures
            r.event_text_for_talk@ == event_text_for_talk_map@,
    {
        ExtraText { event_text_for_talk: event_text_for_talk_map }
    }

    /// Whether there is at least one text to override.
    pub fn has_text_overrides(&self) -> (r: bool)
        ensures
            r == (self.event_text_for_talk@.len() > 0),
    {
        self.event_text_for_talk.len() > 0
    }

    /// The overridden messages by category and then by message id: the event
    /// texts under their category, each id with the UTF-16 text of its last
    /// entry.
    pub fn generate_overridden_messages(&self) -> (r: HashMap<u32, HashMap<i32, Vec<u16>>>)
        ensures
            r@.dom() == set![EVENT_TEXT_FOR_TALK_CATEGORY],
            r@[EVENT_TEXT_FOR_TALK_CATEGORY]@.map_values(|v: Vec<u16>| v@)
                == overridden_event_texts(self.event_text_for_talk@),
    {
        broadcast use vstd::std_specs::hash::group_hash_axioms;

        let mut overridden_messages: HashMap<u32, HashMap<i32, Vec<u16>>> = HashMap::new();
        let mut event_text_for_talk_map: HashMap<i32, Vec<u16>> = HashMap::new();
        let entries = &self.event_text_for_talk;
        let n = entries.len();
        for i in 0..n
            invariant
                n == entries@.len(),
                event_text_for_talk_map@.map_values(|v: Vec<u16>| v@) == overridden_event_texts(
                    entries@.take(i as int),
                ),
        {
            let entry = &entries[i];
            let text = encode_utf16_nul_terminated(&entry.text);
            let ghost before = event_text_for_talk_map@;
            event_text_for_talk_map.insert(entry.text_id, text);
            proof {
                let taken = entries@.take(i + 1);
                assert(taken.drop_last() =~= entries@.take(i as int));
                assert(taken.last() == entries@[i as int]);
                assert(event_text_for_talk_map@.map_values(|v: Vec<u16>| v@) =~= overridden_event_texts(
                    taken,
                ));
            }
        }
        proof {
            assert(entries@.take(n as int) =~= entries@);
        }
        overridden_messages.insert(EVENT_TEXT_FOR_TALK_CATEGORY, event_text_for_talk_map);
        assert(overridden_messages@.dom() =~= set![EVENT_TEXT_FOR_TALK_CATEGORY]);
        overridden_messages
    }
}

} // verus!
