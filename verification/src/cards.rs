//! Static card attributes: grade, kind and race, with total conversions from
//! the raw dictionary encodings (numeric grade codes, lower-case text tokens).
//! Every unrecognized input maps to an explicit `Unknown` variant, never to a
//! fault, so untrusted request data cannot crash the pipeline.

use vstd::prelude::*;

use crate::text::str_eq;

verus! {

/// Rarity tier of a card. `Mythical` is the top tier: it carries elimination
/// immunity and is gated to round four or later.
#[derive(Clone, Copy, PartialEq, Eq, Structural, Debug)]
pub enum GradeEnum {
    Unknown,
    Common,
    Uncommon,
    Hero,
    Legend,
    Mythical,
}

/// Kind of a card, deciding which action endpoints accept it.
#[derive(Clone, Copy, PartialEq, Eq, Structural, Debug)]
pub enum KindEnum {
    Unknown,
    Unit,
    Item,
    Energy,
    Support,
}

/// Race of a card, the key under which attached energy is counted.
#[derive(Clone, Copy, PartialEq, Eq, Structural, Debug)]
pub enum RaceEnumValue {
    Unknown,
    Undead,
    Human,
    Angel,
    Machine,
    Trent,
}

/// Numeric grade code used by the static card dictionary.
pub const GRADE_CODE_COMMON: i32 = 1;

/// Numeric grade code used by the static card dictionary.
pub const GRADE_CODE_UNCOMMON: i32 = 2;

/// Numeric grade code used by the static card dictionary.
pub const GRADE_CODE_HERO: i32 = 3;

/// Numeric grade code used by the static card dictionary.
pub const GRADE_CODE_LEGEND: i32 = 4;

/// Numeric grade code used by the static card dictionary.
pub const GRADE_CODE_MYTHICAL: i32 = 5;

/// Total mapping from a dictionary grade code to a grade.
pub open spec fn spec_grade_from_code(code: int) -> GradeEnum {
    if code == GRADE_CODE_COMMON {
        GradeEnum::Common
    } else if code == GRADE_CODE_UNCOMMON {
        GradeEnum::Uncommon
    } else if code == GRADE_CODE_HERO {
        GradeEnum::Hero
    } else if code == GRADE_CODE_LEGEND {
        GradeEnum::Legend
    } else if code == GRADE_CODE_MYTHICAL {
        GradeEnum::Mythical
    } else {
        GradeEnum::Unknown
    }
}

/// Converts a dictionary grade code to a grade; codes outside the known range
/// yield `GradeEnum::Unknown`.
pub fn grade_from_code(code: i32) -> (grade: GradeEnum)
    ensures
        grade == spec_grade_from_code(code as int),
{
    if code == GRADE_CODE_COMMON {
        GradeEnum::Common
    } else if code == GRADE_CODE_UNCOMMON {
        GradeEnum::Uncommon
    } else if code == GRADE_CODE_HERO {
        GradeEnum::Hero
    } else if code == GRADE_CODE_LEGEND {
        GradeEnum::Legend
    } else if code == GRADE_CODE_MYTHICAL {
        GradeEnum::Mythical
    } else {
        GradeEnum::Unknown
    }
}

/// Total mapping from a race token to a race.
pub open spec fn spec_race_from_text(s: Seq<char>) -> RaceEnumValue {
    if s == "undead"@ {
        RaceEnumValue::Undead
    } else if s == "human"@ {
        RaceEnumValue::Human
    } else if s == "angel"@ {
        RaceEnumValue::Angel
    } else if s == "machine"@ {
        RaceEnumValue::Machine
    } else if s == "trent"@ {
        RaceEnumValue::Trent
    } else {
        RaceEnumValue::Unknown
    }
}

/// Converts a race token from the static dictionary to a race value. The
/// mapping is total: any unrecognized token yields `RaceEnumValue::Unknown`
/// instead of a fault.
pub fn convert_race_string_to_enum(race_str: &str) -> (race: RaceEnumValue)
    ensures
        race == spec_race_from_text(race_str@),
{
    if str_eq(race_str, "undead") {
        RaceEnumValue::Undead
    } else if str_eq(race_str, "human") {
        RaceEnumValue::Human
    } else if str_eq(race_str, "angel") {
        RaceEnumValue::Angel
    } else if str_eq(race_str, "machine") {
        RaceEnumValue::Machine
    } else if str_eq(race_str, "trent") {
        RaceEnumValue::Trent
    } else {
        RaceEnumValue::Unknown
    }
}

/// Total mapping from a kind token to a kind.
pub open spec fn spec_kind_from_text(s: Seq<char>) -> KindEnum {
    if s == "unit"@ {
        KindEnum::Unit
    } else if s == "item"@ {
        KindEnum::Item
    } else if s == "energy"@ {
        KindEnum::Energy
    } else if s == "support"@ {
        KindEnum::Support
    } else {
        KindEnum::Unknown
    }
}

/// Converts a kind token from the static dictionary to a kind value. The
/// mapping is total: any unrecognized token yields `KindEnum::Unknown`
/// instead of a fault.
pub fn convert_kind_string_to_enum(kind_str: &str) -> (kind: KindEnum)
    ensures
        kind == spec_kind_from_text(kind_str@),
{
    if str_eq(kind_str, "unit") {
        KindEnum::Unit
    } else if str_eq(kind_str, "item") {
        KindEnum::Item
    } else if str_eq(kind_str, "energy") {
        KindEnum::Energy
    } else if str_eq(kind_str, "support") {
        KindEnum::Support
    } else {
        KindEnum::Unknown
    }
}

} // verus!
