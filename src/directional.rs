//! Street name pre-directionals: the compass prefix of a street name.
use vstd::prelude::*;
use crate::text::{lemma_upper_idempotent, chars_of, str_eq, string_of, to_upper, upper};

verus! {

/// The street name pre-directional component of a complete street name.
#[derive(Clone, Copy, Debug, PartialEq, Eq, Structural, PartialOrd, Ord, Hash)]
pub enum StreetNamePreDirectional {
    NORTHEAST,
    NORTHWEST,
    SOUTHEAST,
    SOUTHWEST,
    NORTH,
    SOUTH,
    EAST,
    WEST,
}

/// The postal abbreviation of a directional.
pub open spec fn directional_abbreviation(d: StreetNamePreDirectional) -> Seq<char> {
    match d {
        StreetNamePreDirectional::NORTH => "N"@,
        StreetNamePreDirectional::SOUTH => "S"@,
        StreetNamePreDirectional::EAST => "E"@,
        StreetNamePreDirectional::WEST => "W"@,
        StreetNamePreDirectional::NORTHEAST => "NE"@,
        StreetNamePreDirectional::NORTHWEST => "NW"@,
        StreetNamePreDirectional::SOUTHEAST => "SE"@,
        StreetNamePreDirectional::SOUTHWEST => "SW"@,
    }
}

/// The full name of a directional.
pub open spec fn directional_name(d: StreetNamePreDirectional) -> Seq<char> {
    match d {
        StreetNamePreDirectional::NORTHEAST => "NORTHEAST"@,
        StreetNamePreDirectional::NORTHWEST => "NORTHWEST"@,
        StreetNamePreDirectional::SOUTHEAST => "SOUTHEAST"@,
        StreetNamePreDirectional::SOUTHWEST => "SOUTHWEST"@,
        StreetNamePreDirectional::NORTH => "NORTH"@,
        StreetNamePreDirectional::SOUTH => "SOUTH"@,
        StreetNamePreDirectional::EAST => "EAST"@,
        StreetNamePreDirectional::WEST => "WEST"@,
    }
}

/// The directional whose postal abbreviation is `s`, compared exactly.
pub open spec fn directional_of_abbreviation(s: Seq<char>) -> Option<StreetNamePreDirectional> {
    if s == "NE"@ { Some(StreetNamePreDirectional::NORTHEAST) }
    else if s == "NW"@ { Some(StreetNamePreDirectional::NORTHWEST) }
    else if s == "SE"@ { Some(StreetNamePreDirectional::SOUTHEAST) }
    else if s == "SW"@ { Some(StreetNamePreDirectional::SOUTHWEST) }
    else if s == "N"@ { Some(StreetNamePreDirectional::NORTH) }
    else if s == "S"@ { Some(StreetNamePreDirectional::SOUTH) }
    else if s == "E"@ { Some(StreetNamePreDirectional::EAST) }
    else if s == "W"@ { Some(StreetNamePreDirectional::WEST) }
    else { None }
}

/// The directional that the upper-case spelling `s` stands for: a postal abbreviation, an
/// abbreviation with periods, or the full word.
pub open spec fn directional_of_alias(s: Seq<char>) -> Option<StreetNamePreDirectional> {
    if s == "NE"@ || s == "N.E."@ || s == "NE."@ || s == "NORTHEAST"@ {
        Some(StreetNamePreDirectional::NORTHEAST)
    } else if s == "NW"@ || s == "N.W."@ || s == "NW."@ || s == "NORTHWEST"@ {
        Some(StreetNamePreDirectional::NORTHWEST)
    } else if s == "SE"@ || s == "S.E."@ || s == "SE."@ || s == "SOUTHEAST"@ {
        Some(StreetNamePreDirectional::SOUTHEAST)
    } else if s == "SW"@ || s == "S.W."@ || s == "SW."@ || s == "SOUTHWEST"@ {
        Some(StreetNamePreDirectional::SOUTHWEST)
    } else if s == "N"@ || s == "N."@ || s == "NORTH"@ {
        Some(StreetNamePreDirectional::NORTH)
    } else if s == "S"@ || s == "S."@ || s == "SOUTH"@ {
        Some(StreetNamePreDirectional::SOUTH)
    } else if s == "E"@ || s == "E."@ || s == "EAST"@ {
        Some(StreetNamePreDirectional::EAST)
    } else if s == "W"@ || s == "W."@ || s == "WEST"@ {
        Some(StreetNamePreDirectional::WEST)
    } else {
        None
    }
}

/// What the recognizer returns for the token `s`: its spelling is compared without regard to
/// the case of ASCII letters.
pub open spec fn recognize_directional(s: Seq<char>) -> Option<StreetNamePreDirectional> {
    directional_of_alias(upper(s))
}

impl StreetNamePreDirectional {
    /// The postal abbreviation, for labels.
    pub fn abbreviate(&self) -> (r: String)
        ensures
            r@ == directional_abbreviation(*self),
    {
        let abbr = match self {
            StreetNamePreDirectional::NORTH => "N",
            StreetNamePreDirectional::SOUTH => "S",
            StreetNamePreDirectional::EAST => "E",
            StreetNamePreDirectional::WEST => "W",
            StreetNamePreDirectional::NORTHEAST => "NE",
            StreetNamePreDirectional::NORTHWEST => "NW",
            StreetNamePreDirectional::SOUTHEAST => "SE",
            StreetNamePreDirectional::SOUTHWEST => "SW",
        };
        abbr.to_owned()
    }

    /// The full name.
    pub fn name(&self) -> (r: String)
        ensures
            r@ == directional_name(*self),
    {
        let full = match self {
            StreetNamePreDirectional::NORTHEAST => "NORTHEAST",
            StreetNamePreDirectional::NORTHWEST => "NORTHWEST",
            StreetNamePreDirectional::SOUTHEAST => "SOUTHEAST",
            StreetNamePreDirectional::SOUTHWEST => "SOUTHWEST",
            StreetNamePreDirectional::NORTH => "NORTH",
            StreetNamePreDirectional::SOUTH => "SOUTH",
            StreetNamePreDirectional::EAST => "EAST",
            StreetNamePreDirectional::WEST => "WEST",
        };
        full.to_owned()
    }

    /// Matches `input`, in any letter case, against the postal abbreviations.
    pub fn match_abbreviated(input: &str) -> (r: Option<Self>)
        ensures
            r == directional_of_abbreviation(upper(input@)),
    {
        let t = chars_of(input);
        let u = string_of(to_upper(t.as_slice()).as_slice());
        let s = u.as_str();
        if str_eq(s, "NE") { Some(Self::NORTHEAST) }
        else if str_eq(s, "NW") { Some(Self::NORTHWEST) }
        else if str_eq(s, "SE") { Some(Self::SOUTHEAST) }
        else if str_eq(s, "SW") { Some(Self::SOUTHWEST) }
        else if str_eq(s, "N") { Some(Self::NORTH) }
        else if str_eq(s, "S") { Some(Self::SOUTH) }
        else if str_eq(s, "E") { Some(Self::EAST) }
        else if str_eq(s, "W") { Some(Self::WEST) }
        else { None }
    }

    /// Matches `input`, in any letter case, against the abbreviations and spelling variants.
    pub fn match_mixed(input: &str) -> (r: Option<Self>)
        ensures
            r == recognize_directional(input@),
    {
        let t = chars_of(input);
        Self::match_chars(t.as_slice())
    }

    /// Matches a token held as characters; see [`Self::match_mixed`].
    pub fn match_chars(t: &[char]) -> (r: Option<Self>)
        ensures
            r == recognize_directional(t@),
    {
        let u = string_of(to_upper(t).as_slice());
        let s = u.as_str();
        if str_eq(s, "NE") || str_eq(s, "N.E.") || str_eq(s, "NE.") || str_eq(s, "NORTHEAST") {
            Some(Self::NORTHEAST)
        } else if str_eq(s, "NW") || str_eq(s, "N.W.") || str_eq(s, "NW.") || str_eq(s, "NORTHWEST") {
            Some(Self::NORTHWEST)
        } else if str_eq(s, "SE") || str_eq(s, "S.E.") || str_eq(s, "SE.") || str_eq(s, "SOUTHEAST") {
            Some(Self::SOUTHEAST)
        } else if str_eq(s, "SW") || str_eq(s, "S.W.") || str_eq(s, "SW.") || str_eq(s, "SOUTHWEST") {
            Some(Self::SOUTHWEST)
        } else if str_eq(s, "N") || str_eq(s, "N.") || str_eq(s, "NORTH") {
            Some(Self::NORTH)
        } else if str_eq(s, "S") || str_eq(s, "S.") || str_eq(s, "SOUTH") {
            Some(Self::SOUTH)
        } else if str_eq(s, "E") || str_eq(s, "E.") || str_eq(s, "EAST") {
            Some(Self::EAST)
        } else if str_eq(s, "W") || str_eq(s, "W.") || str_eq(s, "WEST") {
            Some(Self::WEST)
        } else {
            None
        }
    }
}

/// What the directional spellings hold, character by character.
proof fn lemma_directional_literals()
    ensures
        "NE"@.len() == 2 && "NE"@[0] == 'N' && "NE"@[1] == 'E',
        "N.E."@.len() == 4 && "N.E."@[0] == 'N' && "N.E."@[1] == '.' && "N.E."@[2] == 'E' && "N.E."@[3] == '.',
        "NE."@.len() == 3 && "NE."@[0] == 'N' && "NE."@[1] == 'E' && "NE."@[2] == '.',
        "NORTHEAST"@.len() == 9 && "NORTHEAST"@[0] == 'N' && "NORTHEAST"@[1] == 'O' && "NORTHEAST"@[2] == 'R' && "NORTHEAST"@[3] == 'T' && "NORTHEAST"@[4] == 'H' && "NORTHEAST"@[5] == 'E' && "NORTHEAST"@[6] == 'A' && "NORTHEAST"@[7] == 'S' && "NORTHEAST"@[8] == 'T',
        "NW"@.len() == 2 && "NW"@[0] == 'N' && "NW"@[1] == 'W',
        "N.W."@.len() == 4 && "N.W."@[0] == 'N' && "N.W."@[1] == '.' && "N.W."@[2] == 'W' && "N.W."@[3] == '.',
        "NW."@.len() == 3 && "NW."@[0] == 'N' && "NW."@[1] == 'W' && "NW."@[2] == '.',
        "NORTHWEST"@.len() == 9 && "NORTHWEST"@[0] == 'N' && "NORTHWEST"@[1] == 'O' && "NORTHWEST"@[2] == 'R' && "NORTHWEST"@[3] == 'T' && "NORTHWEST"@[4] == 'H' && "NORTHWEST"@[5] == 'W' && "NORTHWEST"@[6] == 'E' && "NORTHWEST"@[7] == 'S' && "NORTHWEST"@[8] == 'T',
        "SE"@.len() == 2 && "SE"@[0] == 'S' && "SE"@[1] == 'E',
        "S.E."@.len() == 4 && "S.E."@[0] == 'S' && "S.E."@[1] == '.' && "S.E."@[2] == 'E' && "S.E."@[3] == '.',
        "SE."@.len() == 3 && "SE."@[0] == 'S' && "SE."@[1] == 'E' && "SE."@[2] == '.',
        "SOUTHEAST"@.len() == 9 && "SOUTHEAST"@[0] == 'S' && "SOUTHEAST"@[1] == 'O' && "SOUTHEAST"@[2] == 'U' && "SOUTHEAST"@[3] == 'T' && "SOUTHEAST"@[4] == 'H' && "SOUTHEAST"@[5] == 'E' && "SOUTHEAST"@[6] == 'A' && "SOUTHEAST"@[7] == 'S' && "SOUTHEAST"@[8] == 'T',
        "SW"@.len() == 2 && "SW"@[0] == 'S' && "SW"@[1] == 'W',
        "S.W."@.len() == 4 && "S.W."@[0] == 'S' && "S.W."@[1] == '.' && "S.W."@[2] == 'W' && "S.W."@[3] == '.',
        "SW."@.len() == 3 && "SW."@[0] == 'S' && "SW."@[1] == 'W' && "SW."@[2] == '.',
        "SOUTHWEST"@.len() == 9 && "SOUTHWEST"@[0] == 'S' && "SOUTHWEST"@[1] == 'O' && "SOUTHWEST"@[2] == 'U' && "SOUTHWEST"@[3] == 'T' && "SOUTHWEST"@[4] == 'H' && "SOUTHWEST"@[5] == 'W' && "SOUTHWEST"@[6] == 'E' && "SOUTHWEST"@[7] == 'S' && "SOUTHWEST"@[8] == 'T',
        "N"@.len() == 1 && "N"@[0] == 'N',
        "N."@.len() == 2 && "N."@[0] == 'N' && "N."@[1] == '.',
        "NORTH"@.len() == 5 && "NORTH"@[0] == 'N' && "NORTH"@[1] == 'O' && "NORTH"@[2] == 'R' && "NORTH"@[3] == 'T' && "NORTH"@[4] == 'H',
        "S"@.len() == 1 && "S"@[0] == 'S',
        "S."@.len() == 2 && "S."@[0] == 'S' && "S."@[1] == '.',
        "SOUTH"@.len() == 5 && "SOUTH"@[0] == 'S' && "SOUTH"@[1] == 'O' && "SOUTH"@[2] == 'U' && "SOUTH"@[3] == 'T' && "SOUTH"@[4] == 'H',
        "E"@.len() == 1 && "E"@[0] == 'E',
        "E."@.len() == 2 && "E."@[0] == 'E' && "E."@[1] == '.',
        "EAST"@.len() == 4 && "EAST"@[0] == 'E' && "EAST"@[1] == 'A' && "EAST"@[2] == 'S' && "EAST"@[3] == 'T',
        "W"@.len() == 1 && "W"@[0] == 'W',
        "W."@.len() == 2 && "W."@[0] == 'W' && "W."@[1] == '.',
        "WEST"@.len() == 4 && "WEST"@[0] == 'W' && "WEST"@[1] == 'E' && "WEST"@[2] == 'S' && "WEST"@[3] == 'T',
{
    reveal_strlit("NE");
    reveal_strlit("N.E.");
    reveal_strlit("NE.");
    reveal_strlit("NORTHEAST");
    reveal_strlit("NW");
    reveal_strlit("N.W.");
    reveal_strlit("NW.");
    reveal_strlit("NORTHWEST");
    reveal_strlit("SE");
    reveal_strlit("S.E.");
    reveal_strlit("SE.");
    reveal_strlit("SOUTHEAST");
    reveal_strlit("SW");
    reveal_strlit("S.W.");
    reveal_strlit("SW.");
    reveal_strlit("SOUTHWEST");
    reveal_strlit("N");
    reveal_strlit("N.");
    reveal_strlit("NORTH");
    reveal_strlit("S");
    reveal_strlit("S.");
    reveal_strlit("SOUTH");
    reveal_strlit("E");
    reveal_strlit("E.");
    reveal_strlit("EAST");
    reveal_strlit("W");
    reveal_strlit("W.");
    reveal_strlit("WEST");
}

/// Every directional is recognized from its own abbreviation.
pub proof fn lemma_directional_round_trip(d: StreetNamePreDirectional)
    ensures
        recognize_directional(directional_abbreviation(d)) == Some(d),
        directional_of_abbreviation(upper(directional_abbreviation(d))) == Some(d),
{
    lemma_directional_literals();
    let a = directional_abbreviation(d);
    assert(upper(a) =~= a);
    match d {
        StreetNamePreDirectional::NORTHEAST => {
            assert(directional_of_alias(a) == Some(d));
            assert(directional_of_abbreviation(a) == Some(d));
        }
        StreetNamePreDirectional::NORTHWEST => {
            assert(directional_of_alias(a) == Some(d));
            assert(directional_of_abbreviation(a) == Some(d));
        }
        StreetNamePreDirectional::SOUTHEAST => {
            assert(directional_of_alias(a) == Some(d));
            assert(directional_of_abbreviation(a) == Some(d));
        }
        StreetNamePreDirectional::SOUTHWEST => {
            assert(directional_of_alias(a) == Some(d));
            assert(directional_of_abbreviation(a) == Some(d));
        }
        StreetNamePreDirectional::NORTH => {
            assert(directional_of_alias(a) == Some(d));
            assert(directional_of_abbreviation(a) == Some(d));
        }
        StreetNamePreDirectional::SOUTH => {
            assert(directional_of_alias(a) == Some(d));
            assert(directional_of_abbreviation(a) == Some(d));
        }
        StreetNamePreDirectional::EAST => {
            assert(directional_of_alias(a) == Some(d));
            assert(directional_of_abbreviation(a) == Some(d));
        }
        StreetNamePreDirectional::WEST => {
            assert(directional_of_alias(a) == Some(d));
            assert(directional_of_abbreviation(a) == Some(d));
        }
    }
}

/// Recognition ignores the case of ASCII letters: a spelling and its upper-case form are
/// recognized alike, and every spelling whose upper-case form is listed is recognized as the
/// listed directional.
pub proof fn lemma_directional_case_insensitive(a: Seq<char>)
    ensures
        recognize_directional(upper(a)) == recognize_directional(a),
        recognize_directional(a) == directional_of_alias(upper(a)),
{
    lemma_upper_idempotent(a);
}

/// Every listed spelling of a directional is recognized as it stands.
pub proof fn lemma_directional_aliases(a: Seq<char>)
    requires
        directional_of_alias(a) is Some,
    ensures
        recognize_directional(a) == directional_of_alias(a),
{
    lemma_directional_literals();
    assert(upper(a) =~= a);
}

} // verus!
