//! The rarity of an MTGO item.

use vstd::prelude::*;
use crate::views::same_str;
use vstd::string::*;

verus! {

/// The rarity of an MTGO item (a card, a booster, an event ticket).
#[derive(Debug, Clone, Copy, PartialEq, Eq, Structural, PartialOrd, Ord, Hash)]
pub enum Rarity {
    Common,
    Uncommon,
    Rare,
    Mythic,
    Booster,
    /// Anything without one of the rarities above, such as an event ticket.
    Other,
}

/// The rarity that a one-letter code or a name stands for.
pub open spec fn rarity_of(s: Seq<char>) -> Rarity {
    if s == "C"@ {
        Rarity::Common
    } else if s == "U"@ {
        Rarity::Uncommon
    } else if s == "R"@ {
        Rarity::Rare
    } else if s == "M"@ {
        Rarity::Mythic
    } else if s == "B"@ {
        Rarity::Booster
    } else if s == "Uncommon"@ {
        Rarity::Uncommon
    } else if s == "Rare"@ {
        Rarity::Rare
    } else if s == "Mythic"@ {
        Rarity::Mythic
    } else if s == "Booster"@ {
        Rarity::Booster
    } else if s == "Common"@ {
        Rarity::Common
    } else {
        Rarity::Other
    }
}

/// The name of a rarity.
pub open spec fn rarity_name(r: Rarity) -> Seq<char> {
    match r {
        Rarity::Common => "Common"@,
        Rarity::Uncommon => "Uncommon"@,
        Rarity::Rare => "Rare"@,
        Rarity::Mythic => "Mythic"@,
        Rarity::Booster => "Booster"@,
        Rarity::Other => "None"@,
    }
}

impl Rarity {
    /// The name of the rarity; `None` for [`Rarity::Other`].
    pub fn to_string(&self) -> (r: String)
        ensures
            r@ == rarity_name(*self),
    {
        match self {
            Rarity::Common => "Common".to_owned(),
            Rarity::Uncommon => "Uncommon".to_owned(),
            Rarity::Rare => "Rare".to_owned(),
            Rarity::Mythic => "Mythic".to_owned(),
            Rarity::Booster => "Booster".to_owned(),
            Rarity::Other => "None".to_owned(),
        }
    }
}

impl Rarity {
    /// The rarity a name or a one-letter code stands for; one-letter codes are
    /// tried first.
    pub fn from_code(s: &str) -> (r: Self)
        ensures
            r == rarity_of(s@),
    {
        if same_str(s, "C") {
            Rarity::Common
        } else if same_str(s, "U") {
            Rarity::Uncommon
        } else if same_str(s, "R") {
            Rarity::Rare
        } else if same_str(s, "M") {
            Rarity::Mythic
        } else if same_str(s, "B") {
            Rarity::Booster
        } else if same_str(s, "Uncommon") {
            Rarity::Uncommon
        } else if same_str(s, "Rare") {
            Rarity::Rare
        } else if same_str(s, "Mythic") {
            Rarity::Mythic
        } else if same_str(s, "Booster") {
            Rarity::Booster
        } else if same_str(s, "Common") {
            Rarity::Common
        } else {
            Rarity::Other
        }
    }
}

impl Default for Rarity {
    fn default() -> (r: Self)
        ensures
            r == Rarity::Common,
    {
        Rarity::Common
    }
}

impl<'a> From<&'a str> for Rarity {
    fn from(s: &'a str) -> (r: Self) {
        Rarity::from_code(s)
    }
}

impl<'a> vstd::std_specs::convert::FromSpecImpl<&'a str> for Rarity {
    open spec fn obeys_from_spec() -> bool {
        true
    }

    open spec fn from_spec(s: &'a str) -> Rarity {
        rarity_of(s@)
    }
}

} // verus!
