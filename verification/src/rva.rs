//! Byte patterns that locate the game's functions, and the errors of hooking them.
use pelite::pattern::{Atom, ParsePatError};
use vstd::prelude::*;

verus! {

/// A pattern atom of `pelite`.
#[verifier::external_type_specification]
#[verifier::external_body]
pub struct ExAtom(Atom);

/// The error of `pelite` when a pattern does not parse.
#[verifier::external_type_specification]
#[verifier::external_body]
pub struct ExParsePatError(ParsePatError);

/// The error of `pelite` when an address cannot be mapped.
#[verifier::external_type_specification]
#[verifier::external_body]
pub struct ExPeliteError(pelite::Error);

/// Why installing a detour failed.
#[derive(Debug, Clone, Copy, PartialEq, Eq, Structural)]
pub enum RetourError {
    SameAddress,
    InvalidCode,
    NoPatchArea,
    NotExecutable,
    NotInitialized,
    AlreadyInitialized,
    OutOfMemory,
    UnsupportedInstruction,
    RegionFailure,
}

/// Why hooking a function of the game failed.
#[derive(Debug)]
pub enum HookError {
    Retour(RetourError),
    Pelite(pelite::Error),
    ParsePatError(ParsePatError),
    NoDataToHook,
}

/// What `pelite::pattern::parse` returns for a pattern: its atoms, or the
/// syntax error.
pub uninterp spec fn pattern_parse(pattern: Seq<char>) -> Result<Seq<Atom>, ParsePatError>;

/// The number of `{` in a pattern text. `pelite` counts their nesting in a
/// byte, which overflows from 256 of them on.
pub open spec fn open_brace_count(pattern: Seq<char>) -> nat {
    pattern.filter(|c: char| c == '{').len()
}

/// Parses a byte pattern with `pelite::pattern::parse`. The contract says
/// that the result is the one that `pelite` gives for this text; which texts
/// parse, and to which atoms, is left to `pelite`. Texts with 256 or more `{`
/// are left out, as `pelite`'s nesting counter can overflow on them.
#[verifier::external_body]
fn parse_pattern(pattern_str: &str) -> (r: Result<Vec<Atom>, ParsePatError>)
    requires
        open_brace_count(pattern_str@) < 256,
    ensures
        match (r, pattern_parse(pattern_str@)) {
            (Ok(atoms), Ok(parsed)) => atoms@ == parsed,
            (Err(e), Err(parsed)) => e == parsed,
            _ => false,
        },
{
    pelite::pattern::parse(pattern_str)
}

/// A parsed pattern that locates a function, with the number of values it
/// captures and the index of the capture that holds the function's
/// relative address.
pub struct RvaPatternQuery {
    pub pattern: Vec<Atom>,
    pub number_of_captures: usize,
    pub capture_index: usize,
}

/// The query for the pattern text, or the syntax error that `pelite`
/// reports for it.
pub open spec fn rva_pattern_query_result(
    pattern: Seq<char>,
    number_of_captures: usize,
    capture_index: usize,
    r: Result<RvaPatternQuery, HookError>,
) -> bool {
    match pattern_parse(pattern) {
        Ok(atoms) => r matches Ok(q) && q.pattern@ == atoms && q.number_of_captures
            == number_of_captures && q.capture_index == capture_index,
        Err(e) => r matches Err(HookError::ParsePatError(e2)) && e2 == e,
    }
}

/// The query for a parsed pattern, or the syntax error as a hook error.
pub fn rva_pattern_query(
    parsed: Result<Vec<Atom>, ParsePatError>,
    number_of_captures: usize,
    capture_index: usize,
) -> (r: Result<RvaPatternQuery, HookError>)
    ensures
        match parsed {
            Ok(atoms) => r matches Ok(q) && q.pattern@ == atoms@ && q.number_of_captures
                == number_of_captures && q.capture_index == capture_index,
            Err(e) => r matches Err(HookError::ParsePatError(e2)) && e2 == e,
        },
{
    match parsed {
        Ok(pattern) => Ok(RvaPatternQuery { pattern, number_of_captures, capture_index }),
        Err(e) => Err(HookError::ParsePatError(e)),
    }
}

/// Parses the pattern text into the query that the scanner runs.
pub fn parse_rva_pattern(pattern_str: &str, number_of_captures: usize, capture_index: usize) -> (r:
    Result<RvaPatternQuery, HookError>)
    requires
        open_brace_count(pattern_str@) < 256,
    ensures
        rva_pattern_query_result(pattern_str@, number_of_captures, capture_index, r),
{
    rva_pattern_query(parse_pattern(pattern_str), number_of_captures, capture_index)
}

/// The relative address that a scan found: the chosen capture where the
/// pattern matched, 0 where it did not.
pub fn rva_from_captures(matched: bool, captures: &Vec<u32>, capture_index: usize) -> (r: u32)
    requires
        matched ==> capture_index < captures@.len(),
    ensures
        r == if matched {
            captures@[capture_index as int]
        } else {
            0
        },
{
    if matched {
        captures[capture_index]
    } else {
        0
    }
}

/// The pattern of the call to the function that enters a talk-script state.
pub const EZ_STATE_ENTER_STATE_PATTERN: &'static str =
    "80 7e 18 00 74 15 4c 8d 44 24 40 48 8b d6 48 8b 4e 20 e8 $ { ' }";

/// The pattern of the call to the function that looks up a message.
pub const MSG_REPOSITORY_LOOKUP_ENTRY_PATTERN: &'static str =
    "8B DA 44 8B CA 33 D2 48 8B F9 44 8D 42 6F e8 $ { ' }";

/// Both patterns capture two values; the second is the call's target.
pub const NUMBER_OF_CAPTURES: usize = 2;

/// The capture that holds the call's target.
pub const CAPTURE_INDEX: usize = 1;

/// A pattern text shorter than 256 characters holds fewer than 256 `{`.
proof fn lemma_short_pattern(pattern: Seq<char>)
    requires
        pattern.len() < 256,
    ensures
        open_brace_count(pattern) < 256,
{
    pattern.lemma_filter_len(|c: char| c == '{');
}

/// The query that locates the function that enters a talk-script state.
pub fn find_va_for_ez_state_enter_state() -> (r: Result<RvaPatternQuery, HookError>)
    ensures
        rva_pattern_query_result(EZ_STATE_ENTER_STATE_PATTERN@, NUMBER_OF_CAPTURES, CAPTURE_INDEX, r),
{
    proof {
        reveal_strlit("80 7e 18 00 74 15 4c 8d 44 24 40 48 8b d6 48 8b 4e 20 e8 $ { ' }");
        lemma_short_pattern(EZ_STATE_ENTER_STATE_PATTERN@);
    }
    parse_rva_pattern(EZ_STATE_ENTER_STATE_PATTERN, NUMBER_OF_CAPTURES, CAPTURE_INDEX)
}

/// The query that locates the function that looks up a message.
pub fn find_va_for_msg_repository_lookup_entry() -> (r: Result<RvaPatternQuery, HookError>)
    ensures
        rva_pattern_query_result(MSG_REPOSITORY_LOOKUP_ENTRY_PATTERN@, NUMBER_OF_CAPTURES, CAPTURE_INDEX, r),
{
    proof {
        reveal_strlit("8B DA 44 8B CA 33 D2 48 8B F9 44 8D 42 6F e8 $ { ' }");
        lemma_short_pattern(MSG_REPOSITORY_LOOKUP_ENTRY_PATTERN@);
    }
    parse_rva_pattern(MSG_REPOSITORY_LOOKUP_ENTRY_PATTERN, NUMBER_OF_CAPTURES, CAPTURE_INDEX)
}

} // verus!
