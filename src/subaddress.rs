//! Subaddress types: the unit, suite or apartment designator that follows a street name.
use vstd::prelude::*;
use crate::text::{lemma_upper_idempotent, str_eq, string_of, to_upper, upper};

verus! {

/// The subaddress type of an address, as designated by postal addressing standards.
#[derive(Clone, Copy, Debug, PartialEq, Eq, Structural, PartialOrd, Ord, Hash)]
pub enum SubaddressType {
    APARTMENT,
    BASEMENT,
    BUILDING,
    DEPARTMENT,
    FLOOR,
    FRONT,
    HANGAR,
    KEY,
    LOBBY,
    LOT,
    LOWER,
    OFFICE,
    PENTHOUSE,
    PIER,
    REAR,
    ROOM,
    SIDE,
    SLIP,
    SPACE,
    STOP,
    SUITE,
    TRAILER,
    UNIT,
    UPPER,
}

/// The standard postal abbreviation of a subaddress type.
pub open spec fn subaddress_abbreviation(t: SubaddressType) -> Seq<char> {
    match t {
        SubaddressType::APARTMENT => "APT"@,
        SubaddressType::BASEMENT => "BSMT"@,
        SubaddressType::BUILDING => "BLDG"@,
        SubaddressType::DEPARTMENT => "DEPT"@,
        SubaddressType::FLOOR => "FL"@,
        SubaddressType::FRONT => "FRNT"@,
        SubaddressType::HANGAR => "HNGR"@,
        SubaddressType::KEY => "KEY"@,
        SubaddressType::LOBBY => "LBBY"@,
        SubaddressType::LOT => "LOT"@,
        SubaddressType::LOWER => "LOWR"@,
        SubaddressType::OFFICE => "OFC"@,
        SubaddressType::PENTHOUSE => "PH"@,
        SubaddressType::PIER => "PIER"@,
        SubaddressType::REAR => "REAR"@,
        SubaddressType::ROOM => "RM"@,
        SubaddressType::SIDE => "SIDE"@,
        SubaddressType::SLIP => "SLIP"@,
        SubaddressType::SPACE => "SPC"@,
        SubaddressType::STOP => "STOP"@,
        SubaddressType::SUITE => "STE"@,
        SubaddressType::TRAILER => "TRLR"@,
        SubaddressType::UNIT => "UNIT"@,
        SubaddressType::UPPER => "UPPR"@,
    }
}

/// The full name of a subaddress type.
pub open spec fn subaddress_name(t: SubaddressType) -> Seq<char> {
    match t {
        SubaddressType::APARTMENT => "APARTMENT"@,
        SubaddressType::BASEMENT => "BASEMENT"@,
        SubaddressType::BUILDING => "BUILDING"@,
        SubaddressType::DEPARTMENT => "DEPARTMENT"@,
        SubaddressType::FLOOR => "FLOOR"@,
        SubaddressType::FRONT => "FRONT"@,
        SubaddressType::HANGAR => "HANGAR"@,
        SubaddressType::KEY => "KEY"@,
        SubaddressType::LOBBY => "LOBBY"@,
        SubaddressType::LOT => "LOT"@,
        SubaddressType::LOWER => "LOWER"@,
        SubaddressType::OFFICE => "OFFICE"@,
        SubaddressType::PENTHOUSE => "PENTHOUSE"@,
        SubaddressType::PIER => "PIER"@,
        SubaddressType::REAR => "REAR"@,
        SubaddressType::ROOM => "ROOM"@,
        SubaddressType::SIDE => "SIDE"@,
        SubaddressType::SLIP => "SLIP"@,
        SubaddressType::SPACE => "SPACE"@,
        SubaddressType::STOP => "STOP"@,
        SubaddressType::SUITE => "SUITE"@,
        SubaddressType::TRAILER => "TRAILER"@,
        SubaddressType::UNIT => "UNIT"@,
        SubaddressType::UPPER => "UPPER"@,
    }
}

/// The subaddress type that the upper-case spelling `s` stands for: its abbreviation or its
/// full name.
pub open spec fn subaddress_of_alias(s: Seq<char>) -> Option<SubaddressType> {
    if s == "APT"@ || s == "APARTMENT"@ {
        Some(SubaddressType::APARTMENT)
    } else if s == "BSMT"@ || s == "BASEMENT"@ {
        Some(SubaddressType::BASEMENT)
    } else if s == "BLDG"@ || s == "BUILDING"@ {
        Some(SubaddressType::BUILDING)
    } else if s == "DEPT"@ || s == "DEPARTMENT"@ {
        Some(SubaddressType::DEPARTMENT)
    } else if s == "FL"@ || s == "FLOOR"@ {
        Some(SubaddressType::FLOOR)
    } else if s == "FRNT"@ || s == "FRONT"@ {
        Some(SubaddressType::FRONT)
    } else if s == "HNGR"@ || s == "HANGAR"@ {
        Some(SubaddressType::HANGAR)
    } else if s == "KEY"@ {
        Some(SubaddressType::KEY)
    } else if s == "LBBY"@ || s == "LOBBY"@ {
        Some(SubaddressType::LOBBY)
    } else if s == "LOT"@ {
        Some(SubaddressType::LOT)
    } else if s == "LOWR"@ || s == "LOWER"@ {
        Some(SubaddressType::LOWER)
    } else if s == "OFC"@ || s == "OFFICE"@ {
        Some(SubaddressType::OFFICE)
    } else if s == "PH"@ || s == "PENTHOUSE"@ {
        Some(SubaddressType::PENTHOUSE)
    } else if s == "PIER"@ {
        Some(SubaddressType::PIER)
    } else if s == "REAR"@ {
        Some(SubaddressType::REAR)
    } else if s == "RM"@ || s == "ROOM"@ {
        Some(SubaddressType::ROOM)
    } else if s == "SIDE"@ {
        Some(SubaddressType::SIDE)
    } else if s == "SLIP"@ {
        Some(SubaddressType::SLIP)
    } else if s == "SPC"@ || s == "SPACE"@ {
        Some(SubaddressType::SPACE)
    } else if s == "STOP"@ {
        Some(SubaddressType::STOP)
    } else if s == "STE"@ || s == "SUITE"@ {
        Some(SubaddressType::SUITE)
    } else if s == "TRLR"@ || s == "TRAILER"@ {
        Some(SubaddressType::TRAILER)
    } else if s == "UNIT"@ {
        Some(SubaddressType::UNIT)
    } else if s == "UPPR"@ || s == "UPPER"@ {
        Some(SubaddressType::UPPER)
    } else {
        None
    }
}

/// What the recognizer returns for the token `s`: its spelling is compared without regard to
/// the case of ASCII letters.
pub open spec fn recognize_subaddress_type(s: Seq<char>) -> Option<SubaddressType> {
    subaddress_of_alias(upper(s))
}

impl SubaddressType {
    /// The standard postal abbreviation, for labels.
    pub fn abbreviate(&self) -> (r: String)
        ensures
            r@ == subaddress_abbreviation(*self),
    {
        let abbr = match self {
            SubaddressType::APARTMENT => "APT",
            SubaddressType::BASEMENT => "BSMT",
            SubaddressType::BUILDING => "BLDG",
            SubaddressType::DEPARTMENT => "DEPT",
            SubaddressType::FLOOR => "FL",
            SubaddressType::FRONT => "FRNT",
            SubaddressType::HANGAR => "HNGR",
            SubaddressType::KEY => "KEY",
            SubaddressType::LOBBY => "LBBY",
            SubaddressType::LOT => "LOT",
            SubaddressType::LOWER => "LOWR",
            SubaddressType::OFFICE => "OFC",
            SubaddressType::PENTHOUSE => "PH",
            SubaddressType::PIER => "PIER",
            SubaddressType::REAR => "REAR",
            SubaddressType::ROOM => "RM",
            SubaddressType::SIDE => "SIDE",
            SubaddressType::SLIP => "SLIP",
            SubaddressType::SPACE => "SPC",
            SubaddressType::STOP => "STOP",
            SubaddressType::SUITE => "STE",
            SubaddressType::TRAILER => "TRLR",
            SubaddressType::UNIT => "UNIT",
            SubaddressType::UPPER => "UPPR",
        };
        abbr.to_owned()
    }

    /// The full name.
    pub fn name(&self) -> (r: String)
        ensures
            r@ == subaddress_name(*self),
    {
        let full = match self {
            SubaddressType::APARTMENT => "APARTMENT",
            SubaddressType::BASEMENT => "BASEMENT",
            SubaddressType::BUILDING => "BUILDING",
            SubaddressType::DEPARTMENT => "DEPARTMENT",
            SubaddressType::FLOOR => "FLOOR",
            SubaddressType::FRONT => "FRONT",
            SubaddressType::HANGAR => "HANGAR",
            SubaddressType::KEY => "KEY",
            SubaddressType::LOBBY => "LOBBY",
            SubaddressType::LOT => "LOT",
            SubaddressType::LOWER => "LOWER",
            SubaddressType::OFFICE => "OFFICE",
            SubaddressType::PENTHOUSE => "PENTHOUSE",
            SubaddressType::PIER => "PIER",
            SubaddressType::REAR => "REAR",
            SubaddressType::ROOM => "ROOM",
            SubaddressType::SIDE => "SIDE",
            SubaddressType::SLIP => "SLIP",
            SubaddressType::SPACE => "SPACE",
            SubaddressType::STOP => "STOP",
            SubaddressType::SUITE => "SUITE",
            SubaddressType::TRAILER => "TRAILER",
            SubaddressType::UNIT => "UNIT",
            SubaddressType::UPPER => "UPPER",
        };
        full.to_owned()
    }
}

/// Matches a token held as characters, in any letter case, against the abbreviations and full
/// names of the subaddress types.
pub fn subaddress_type_of_chars(t: &[char]) -> (r: Option<SubaddressType>)
    ensures
        r == recognize_subaddress_type(t@),
{
    let u = string_of(to_upper(t).as_slice());
    let s = u.as_str();
    if str_eq(s, "APT") || str_eq(s, "APARTMENT") {
        Some(SubaddressType::APARTMENT)
    } else if str_eq(s, "BSMT") || str_eq(s, "BASEMENT") {
        Some(SubaddressType::BASEMENT)
    } else if str_eq(s, "BLDG") || str_eq(s, "BUILDING") {
        Some(SubaddressType::BUILDING)
    } else if str_eq(s, "DEPT") || str_eq(s, "DEPARTMENT") {
        Some(SubaddressType::DEPARTMENT)
    } else if str_eq(s, "FL") || str_eq(s, "FLOOR") {
        Some(SubaddressType::FLOOR)
    } else if str_eq(s, "FRNT") || str_eq(s, "FRONT") {
        Some(SubaddressType::FRONT)
    } else if str_eq(s, "HNGR") || str_eq(s, "HANGAR") {
        Some(SubaddressType::HANGAR)
    } else if str_eq(s, "KEY") {
        Some(SubaddressType::KEY)
    } else if str_eq(s, "LBBY") || str_eq(s, "LOBBY") {
        Some(SubaddressType::LOBBY)
    } else if str_eq(s, "LOT") {
        Some(SubaddressType::LOT)
    } else if str_eq(s, "LOWR") || str_eq(s, "LOWER") {
        Some(SubaddressType::LOWER)
    } else if str_eq(s, "OFC") || str_eq(s, "OFFICE") {
        Some(SubaddressType::OFFICE)
    } else if str_eq(s, "PH") || str_eq(s, "PENTHOUSE") {
        Some(SubaddressType::PENTHOUSE)
    } else if str_eq(s, "PIER") {
        Some(SubaddressType::PIER)
    } else if str_eq(s, "REAR") {
        Some(SubaddressType::REAR)
    } else if str_eq(s, "RM") || str_eq(s, "ROOM") {
        Some(SubaddressType::ROOM)
    } else if str_eq(s, "SIDE") {
        Some(SubaddressType::SIDE)
    } else if str_eq(s, "SLIP") {
        Some(SubaddressType::SLIP)
    } else if str_eq(s, "SPC") || str_eq(s, "SPACE") {
        Some(SubaddressType::SPACE)
    } else if str_eq(s, "STOP") {
        Some(SubaddressType::STOP)
    } else if str_eq(s, "STE") || str_eq(s, "SUITE") {
        Some(SubaddressType::SUITE)
    } else if str_eq(s, "TRLR") || str_eq(s, "TRAILER") {
        Some(SubaddressType::TRAILER)
    } else if str_eq(s, "UNIT") {
        Some(SubaddressType::UNIT)
    } else if str_eq(s, "UPPR") || str_eq(s, "UPPER") {
        Some(SubaddressType::UPPER)
    } else {
        None
    }
}

/// What a part of the subaddress type spellings hold, character by character.
proof fn lemma_subaddress_literals_0()
    ensures
        "APT"@.len() == 3 && "APT"@[0] == 'A' && "APT"@[1] == 'P' && "APT"@[2] == 'T',
        "APARTMENT"@.len() == 9 && "APARTMENT"@[0] == 'A' && "APARTMENT"@[1] == 'P' && "APARTMENT"@[2] == 'A' && "APARTMENT"@[3] == 'R' && "APARTMENT"@[4] == 'T' && "APARTMENT"@[5] == 'M' && "APARTMENT"@[6] == 'E' && "APARTMENT"@[7] == 'N' && "APARTMENT"@[8] == 'T',
        "BSMT"@.len() == 4 && "BSMT"@[0] == 'B' && "BSMT"@[1] == 'S' && "BSMT"@[2] == 'M' && "BSMT"@[3] == 'T',
        "BASEMENT"@.len() == 8 && "BASEMENT"@[0] == 'B' && "BASEMENT"@[1] == 'A' && "BASEMENT"@[2] == 'S' && "BASEMENT"@[3] == 'E' && "BASEMENT"@[4] == 'M' && "BASEMENT"@[5] == 'E' && "BASEMENT"@[6] == 'N' && "BASEMENT"@[7] == 'T',
        "BLDG"@.len() == 4 && "BLDG"@[0] == 'B' && "BLDG"@[1] == 'L' && "BLDG"@[2] == 'D' && "BLDG"@[3] == 'G',
        "BUILDING"@.len() == 8 && "BUILDING"@[0] == 'B' && "BUILDING"@[1] == 'U' && "BUILDING"@[2] == 'I' && "BUILDING"@[3] == 'L' && "BUILDING"@[4] == 'D' && "BUILDING"@[5] == 'I' && "BUILDING"@[6] == 'N' && "BUILDING"@[7] == 'G',
        "DEPT"@.len() == 4 && "DEPT"@[0] == 'D' && "DEPT"@[1] == 'E' && "DEPT"@[2] == 'P' && "DEPT"@[3] == 'T',
        "DEPARTMENT"@.len() == 10 && "DEPARTMENT"@[0] == 'D' && "DEPARTMENT"@[1] == 'E' && "DEPARTMENT"@[2] == 'P' && "DEPARTMENT"@[3] == 'A' && "DEPARTMENT"@[4] == 'R' && "DEPARTMENT"@[5] == 'T' && "DEPARTMENT"@[6] == 'M' && "DEPARTMENT"@[7] == 'E' && "DEPARTMENT"@[8] == 'N' && "DEPARTMENT"@[9] == 'T',
        "FL"@.len() == 2 && "FL"@[0] == 'F' && "FL"@[1] == 'L',
        "FLOOR"@.len() == 5 && "FLOOR"@[0] == 'F' && "FLOOR"@[1] == 'L' && "FLOOR"@[2] == 'O' && "FLOOR"@[3] == 'O' && "FLOOR"@[4] == 'R',
        "FRNT"@.len() == 4 && "FRNT"@[0] == 'F' && "FRNT"@[1] == 'R' && "FRNT"@[2] == 'N' && "FRNT"@[3] == 'T',
        "FRONT"@.len() == 5 && "FRONT"@[0] == 'F' && "FRONT"@[1] == 'R' && "FRONT"@[2] == 'O' && "FRONT"@[3] == 'N' && "FRONT"@[4] == 'T',
{
    reveal_strlit("APT");
    reveal_strlit("APARTMENT");
    reveal_strlit("BSMT");
    reveal_strlit("BASEMENT");
    reveal_strlit("BLDG");
    reveal_strlit("BUILDING");
    reveal_strlit("DEPT");
    reveal_strlit("DEPARTMENT");
    reveal_strlit("FL");
    reveal_strlit("FLOOR");
    reveal_strlit("FRNT");
    reveal_strlit("FRONT");
}

/// What a part of the subaddress type spellings hold, character by character.
proof fn lemma_subaddress_literals_1()
    ensures
        "HNGR"@.len() == 4 && "HNGR"@[0] == 'H' && "HNGR"@[1] == 'N' && "HNGR"@[2] == 'G' && "HNGR"@[3] == 'R',
        "HANGAR"@.len() == 6 && "HANGAR"@[0] == 'H' && "HANGAR"@[1] == 'A' && "HANGAR"@[2] == 'N' && "HANGAR"@[3] == 'G' && "HANGAR"@[4] == 'A' && "HANGAR"@[5] == 'R',
        "KEY"@.len() == 3 && "KEY"@[0] == 'K' && "KEY"@[1] == 'E' && "KEY"@[2] == 'Y',
        "LBBY"@.len() == 4 && "LBBY"@[0] == 'L' && "LBBY"@[1] == 'B' && "LBBY"@[2] == 'B' && "LBBY"@[3] == 'Y',
        "LOBBY"@.len() == 5 && "LOBBY"@[0] == 'L' && "LOBBY"@[1] == 'O' && "LOBBY"@[2] == 'B' && "LOBBY"@[3] == 'B' && "LOBBY"@[4] == 'Y',
        "LOT"@.len() == 3 && "LOT"@[0] == 'L' && "LOT"@[1] == 'O' && "LOT"@[2] == 'T',
        "LOWR"@.len() == 4 && "LOWR"@[0] == 'L' && "LOWR"@[1] == 'O' && "LOWR"@[2] == 'W' && "LOWR"@[3] == 'R',
        "LOWER"@.len() == 5 && "LOWER"@[0] == 'L' && "LOWER"@[1] == 'O' && "LOWER"@[2] == 'W' && "LOWER"@[3] == 'E' && "LOWER"@[4] == 'R',
        "OFC"@.len() == 3 && "OFC"@[0] == 'O' && "OFC"@[1] == 'F' && "OFC"@[2] == 'C',
        "OFFICE"@.len() == 6 && "OFFICE"@[0] == 'O' && "OFFICE"@[1] == 'F' && "OFFICE"@[2] == 'F' && "OFFICE"@[3] == 'I' && "OFFICE"@[4] == 'C' && "OFFICE"@[5] == 'E',
        "PH"@.len() == 2 && "PH"@[0] == 'P' && "PH"@[1] == 'H',
        "PENTHOUSE"@.len() == 9 && "PENTHOUSE"@[0] == 'P' && "PENTHOUSE"@[1] == 'E' && "PENTHOUSE"@[2] == 'N' && "PENTHOUSE"@[3] == 'T' && "PENTHOUSE"@[4] == 'H' && "PENTHOUSE"@[5] == 'O' && "PENTHOUSE"@[6] == 'U' && "PENTHOUSE"@[7] == 'S' && "PENTHOUSE"@[8] == 'E',
{
    reveal_strlit("HNGR");
    reveal_strlit("HANGAR");
    reveal_strlit("KEY");
    reveal_strlit("LBBY");
    reveal_strlit("LOBBY");
    reveal_strlit("LOT");
    reveal_strlit("LOWR");
    reveal_strlit("LOWER");
    reveal_strlit("OFC");
    reveal_strlit("OFFICE");
    reveal_strlit("PH");
    reveal_strlit("PENTHOUSE");
}

/// What a part of the subaddress type spellings hold, character by character.
proof fn lemma_subaddress_literals_2()
    ensures
        "PIER"@.len() == 4 && "PIER"@[0] == 'P' && "PIER"@[1] == 'I' && "PIER"@[2] == 'E' && "PIER"@[3] == 'R',
        "REAR"@.len() == 4 && "REAR"@[0] == 'R' && "REAR"@[1] == 'E' && "REAR"@[2] == 'A' && "REAR"@[3] == 'R',
        "RM"@.len() == 2 && "RM"@[0] == 'R' && "RM"@[1] == 'M',
        "ROOM"@.len() == 4 && "ROOM"@[0] == 'R' && "ROOM"@[1] == 'O' && "ROOM"@[2] == 'O' && "ROOM"@[3] == 'M',
        "SIDE"@.len() == 4 && "SIDE"@[0] == 'S' && "SIDE"@[1] == 'I' && "SIDE"@[2] == 'D' && "SIDE"@[3] == 'E',
        "SLIP"@.len() == 4 && "SLIP"@[0] == 'S' && "SLIP"@[1] == 'L' && "SLIP"@[2] == 'I' && "SLIP"@[3] == 'P',
        "SPC"@.len() == 3 && "SPC"@[0] == 'S' && "SPC"@[1] == 'P' && "SPC"@[2] == 'C',
        "SPACE"@.len() == 5 && "SPACE"@[0] == 'S' && "SPACE"@[1] == 'P' && "SPACE"@[2] == 'A' && "SPACE"@[3] == 'C' && "SPACE"@[4] == 'E',
        "STOP"@.len() == 4 && "STOP"@[0] == 'S' && "STOP"@[1] == 'T' && "STOP"@[2] == 'O' && "STOP"@[3] == 'P',
        "STE"@.len() == 3 && "STE"@[0] == 'S' && "STE"@[1] == 'T' && "STE"@[2] == 'E',
        "SUITE"@.len() == 5 && "SUITE"@[0] == 'S' && "SUITE"@[1] == 'U' && "SUITE"@[2] == 'I' && "SUITE"@[3] == 'T' && "SUITE"@[4] == 'E',
        "TRLR"@.len() == 4 && "TRLR"@[0] == 'T' && "TRLR"@[1] == 'R' && "TRLR"@[2] == 'L' && "TRLR"@[3] == 'R',
{
    reveal_strlit("PIER");
    reveal_strlit("REAR");
    reveal_strlit("RM");
    reveal_strlit("ROOM");
    reveal_strlit("SIDE");
    reveal_strlit("SLIP");
    reveal_strlit("SPC");
    reveal_strlit("SPACE");
    reveal_strlit("STOP");
    reveal_strlit("STE");
    reveal_strlit("SUITE");
    reveal_strlit("TRLR");
}

/// What a part of the subaddress type spellings hold, character by character.
proof fn lemma_subaddress_literals_3()
    ensures
        "TRAILER"@.len() == 7 && "TRAILER"@[0] == 'T' && "TRAILER"@[1] == 'R' && "TRAILER"@[2] == 'A' && "TRAILER"@[3] == 'I' && "TRAILER"@[4] == 'L' && "TRAILER"@[5] == 'E' && "TRAILER"@[6] == 'R',
        "UNIT"@.len() == 4 && "UNIT"@[0] == 'U' && "UNIT"@[1] == 'N' && "UNIT"@[2] == 'I' && "UNIT"@[3] == 'T',
        "UPPR"@.len() == 4 && "UPPR"@[0] == 'U' && "UPPR"@[1] == 'P' && "UPPR"@[2] == 'P' && "UPPR"@[3] == 'R',
        "UPPER"@.len() == 5 && "UPPER"@[0] == 'U' && "UPPER"@[1] == 'P' && "UPPER"@[2] == 'P' && "UPPER"@[3] == 'E' && "UPPER"@[4] == 'R',
{
    reveal_strlit("TRAILER");
    reveal_strlit("UNIT");
    reveal_strlit("UPPR");
    reveal_strlit("UPPER");
}

/// Every subaddress type is recognized from its own postal abbreviation.
pub proof fn lemma_subaddress_round_trip(t: SubaddressType)
    ensures
        recognize_subaddress_type(subaddress_abbreviation(t)) == Some(t),
{
    lemma_subaddress_literals_0();
    lemma_subaddress_literals_1();
    lemma_subaddress_literals_2();
    lemma_subaddress_literals_3();
    let a = subaddress_abbreviation(t);
    assert(upper(a) =~= a);
    match t {
        SubaddressType::APARTMENT => assert(subaddress_of_alias(a) == Some(t)),
        SubaddressType::BASEMENT => assert(subaddress_of_alias(a) == Some(t)),
        SubaddressType::BUILDING => assert(subaddress_of_alias(a) == Some(t)),
        SubaddressType::DEPARTMENT => assert(subaddress_of_alias(a) == Some(t)),
        SubaddressType::FLOOR => assert(subaddress_of_alias(a) == Some(t)),
        SubaddressType::FRONT => assert(subaddress_of_alias(a) == Some(t)),
        SubaddressType::HANGAR => assert(subaddress_of_alias(a) == Some(t)),
        SubaddressType::KEY => assert(subaddress_of_alias(a) == Some(t)),
        SubaddressType::LOBBY => assert(subaddress_of_alias(a) == Some(t)),
        SubaddressType::LOT => assert(subaddress_of_alias(a) == Some(t)),
        SubaddressType::LOWER => assert(subaddress_of_alias(a) == Some(t)),
        SubaddressType::OFFICE => assert(subaddress_of_alias(a) == Some(t)),
        SubaddressType::PENTHOUSE => assert(subaddress_of_alias(a) == Some(t)),
        SubaddressType::PIER => assert(subaddress_of_alias(a) == Some(t)),
        SubaddressType::REAR => assert(subaddress_of_alias(a) == Some(t)),
        SubaddressType::ROOM => assert(subaddress_of_alias(a) == Some(t)),
        SubaddressType::SIDE => assert(subaddress_of_alias(a) == Some(t)),
        SubaddressType::SLIP => assert(subaddress_of_alias(a) == Some(t)),
        SubaddressType::SPACE => assert(subaddress_of_alias(a) == Some(t)),
        SubaddressType::STOP => assert(subaddress_of_alias(a) == Some(t)),
        SubaddressType::SUITE => assert(subaddress_of_alias(a) == Some(t)),
        SubaddressType::TRAILER => assert(subaddress_of_alias(a) == Some(t)),
        SubaddressType::UNIT => assert(subaddress_of_alias(a) == Some(t)),
        SubaddressType::UPPER => assert(subaddress_of_alias(a) == Some(t)),
    }
}

/// Recognition ignores the case of ASCII letters: a spelling and its upper-case form are
/// recognized alike, and every spelling whose upper-case form is listed is recognized as the
/// listed subaddress type.
pub proof fn lemma_subaddress_case_insensitive(a: Seq<char>)
    ensures
        recognize_subaddress_type(upper(a)) == recognize_subaddress_type(a),
        recognize_subaddress_type(a) == subaddress_of_alias(upper(a)),
{
    lemma_upper_idempotent(a);
}

/// Every listed spelling of a subaddress type is recognized as it stands.
pub proof fn lemma_subaddress_aliases(a: Seq<char>)
    requires
        subaddress_of_alias(a) is Some,
    ensures
        recognize_subaddress_type(a) == subaddress_of_alias(a),
{
    lemma_subaddress_literals_0();
    lemma_subaddress_literals_1();
    lemma_subaddress_literals_2();
    lemma_subaddress_literals_3();
    assert(upper(a) =~= a);
}

} // verus!
