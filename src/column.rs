//! Sort state of the columns of the collection table.

use vstd::prelude::*;

verus! {

/// A column with a value description in the collection table.
#[derive(Debug, Clone, Copy, PartialEq, Eq, Structural)]
pub enum Column {
    Name,
    Quantity,
    Foil,
    Goatbots,
    Scryfall,
    CardSet,
    Rarity,
}

/// The sort order of a column.
#[derive(Debug, Clone, Copy, PartialEq, Eq, Structural)]
pub enum Ordering {
    Ascending,
    Descending,
}

/// The most recent sort state of a column.
#[derive(Debug, Clone, Copy, PartialEq, Eq, Structural)]
pub enum SortedBy {
    Unsorted,
    Name(Ordering),
    Quantity(Ordering),
    Foil(Ordering),
    Goatbots(Ordering),
    Scryfall(Ordering),
    CardSet(Ordering),
    Rarity(Ordering),
}

impl SortedBy {
    /// The order the column is sorted by, if it has been sorted at all.
    pub open spec fn order(self) -> Option<Ordering> {
        match self {
            SortedBy::Unsorted => None,
            SortedBy::Name(o) => Some(o),
            SortedBy::Quantity(o) => Some(o),
            SortedBy::Foil(o) => Some(o),
            SortedBy::Goatbots(o) => Some(o),
            SortedBy::Scryfall(o) => Some(o),
            SortedBy::CardSet(o) => Some(o),
            SortedBy::Rarity(o) => Some(o),
        }
    }

    /// Returns true if the column is sorted by descending order.
    pub fn is_descending(&self) -> (r: bool)
        ensures
            r == (self.order() == Some(Ordering::Descending)),
    {
        match self {
            SortedBy::Unsorted => false,
            SortedBy::Name(d)
            | SortedBy::Quantity(d)
            | SortedBy::Foil(d)
            | SortedBy::Goatbots(d)
            | SortedBy::Scryfall(d)
            | SortedBy::CardSet(d)
            | SortedBy::Rarity(d) => *d == Ordering::Descending,
        }
    }

    /// Returns true if the column has been sorted by any order at any point.
    pub fn is_sorted(&self) -> (r: bool)
        ensures
            r == (self.order() is Some),
            r == !(*self is Unsorted),
    {
        !matches!(self, SortedBy::Unsorted)
    }
}

/// The sort state of each column of the collection table.
///
/// Every column starts out unsorted, so that the first toggle sorts it
/// descending.
#[derive(Debug, Clone, Copy, PartialEq, Eq, Structural)]
pub struct SortStates {
    /// The sort state of the name column
    pub name: SortedBy,
    /// The sort state of the quantity column
    pub quantity: SortedBy,
    /// The sort state of the foil column
    pub foil: SortedBy,
    /// The sort state of the Goatbots column
    pub goatbots: SortedBy,
    /// The sort state of the Cardhoarder column
    pub cardhoarder: SortedBy,
    /// The sort state of the set column
    pub set: SortedBy,
    /// The sort state of the rarity column
    pub rarity: SortedBy,
}

impl SortStates {
    /// Every column unsorted.
    pub open spec fn all_unsorted(self) -> bool {
        &&& self.name == SortedBy::Unsorted
        &&& self.quantity == SortedBy::Unsorted
        &&& self.foil == SortedBy::Unsorted
        &&& self.goatbots == SortedBy::Unsorted
        &&& self.cardhoarder == SortedBy::Unsorted
        &&& self.set == SortedBy::Unsorted
        &&& self.rarity == SortedBy::Unsorted
    }

    pub fn new() -> (r: Self)
        ensures
            r.all_unsorted(),
    {
        SortStates {
            name: SortedBy::Unsorted,
            quantity: SortedBy::Unsorted,
            foil: SortedBy::Unsorted,
            goatbots: SortedBy::Unsorted,
            cardhoarder: SortedBy::Unsorted,
            set: SortedBy::Unsorted,
            rarity: SortedBy::Unsorted,
        }
    }

    /// Returns the [SortedBy] state of the `name` column
    pub fn name_ord(&self) -> (r: SortedBy)
        ensures
            r == self.name,
    {
        self.name
    }

    /// Sets the [SortedBy] state of the `name` column
    pub fn set_name_ord(&mut self, new_ord: SortedBy)
        ensures
            *final(self) == (SortStates { name: new_ord, ..*old(self) }),
    {
        self.name = new_ord;
    }

    /// Returns the [SortedBy] state of the `quantity` column
    pub fn quantity_ord(&self) -> (r: SortedBy)
        ensures
            r == self.quantity,
    {
        self.quantity
    }

    /// Sets the [SortedBy] state of the `quantity` column
    pub fn set_quantity_ord(&mut self, new_ord: SortedBy)
        ensures
            *final(self) == (SortStates { quantity: new_ord, ..*old(self) }),
    {
        self.quantity = new_ord;
    }

    /// Returns the [SortedBy] state of the `foil` column
    pub fn foil_ord(&self) -> (r: SortedBy)
        ensures
            r == self.foil,
    {
        self.foil
    }

    /// Sets the [SortedBy] state of the `foil` column
    pub fn set_foil_ord(&mut self, new_ord: SortedBy)
        ensures
            *final(self) == (SortStates { foil: new_ord, ..*old(self) }),
    {
        self.foil = new_ord;
    }

    /// Returns the [SortedBy] state of the `goatbots` column
    pub fn goatbots_ord(&self) -> (r: SortedBy)
        ensures
            r == self.goatbots,
    {
        self.goatbots
    }

    /// Sets the [SortedBy] state of the `goatbots` column
    pub fn set_goatbots_ord(&mut self, new_ord: SortedBy)
        ensures
            *final(self) == (SortStates { goatbots: new_ord, ..*old(self) }),
    {
        self.goatbots = new_ord;
    }

    /// Returns the [SortedBy] state of the `cardhoarder` column
    pub fn cardhoarder_ord(&self) -> (r: SortedBy)
        ensures
            r == self.cardhoarder,
    {
        self.cardhoarder
    }

    /// Sets the [SortedBy] state of the `cardhoarder` column
    pub fn set_cardhoarder_ord(&mut self, new_ord: SortedBy)
        ensures
            *final(self) == (SortStates { cardhoarder: new_ord, ..*old(self) }),
    {
        self.cardhoarder = new_ord;
    }

    /// Returns the [SortedBy] state of the `set` column
    pub fn set_ord(&self) -> (r: SortedBy)
        ensures
            r == self.set,
    {
        self.set
    }

    /// Sets the [SortedBy] state of the `set` column
    pub fn set_set_ord(&mut self, new_ord: SortedBy)
        ensures
            *final(self) == (SortStates { set: new_ord, ..*old(self) }),
    {
        self.set = new_ord;
    }

    /// Returns the [SortedBy] state of the `rarity` column
    pub fn rarity_ord(&self) -> (r: SortedBy)
        ensures
            r == self.rarity,
    {
        self.rarity
    }

    /// Sets the [SortedBy] state of the `rarity` column
    pub fn set_rarity_ord(&mut self, new_ord: SortedBy)
        ensures
            *final(self) == (SortStates { rarity: new_ord, ..*old(self) }),
    {
        self.rarity = new_ord;
    }
}

impl Default for SortStates {
    fn default() -> (r: Self)
        ensures
            r.all_unsorted(),
    {
        Self::new()
    }
}

} // verus!
