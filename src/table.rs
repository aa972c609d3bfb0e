//! Columns and messages of the collection table.

use vstd::prelude::*;

verus! {

/// A category of card data that the table can be sorted by.
#[derive(Debug, Clone, Copy, PartialEq, Eq, Structural)]
pub enum Category {
    Name,
    Quantity,
    Foil,
    Goatbots,
    Scryfall,
    CardSet,
    Rarity,
}

/// A message from the collection table.
#[derive(Debug, Clone, Copy, PartialEq, Eq, Structural)]
pub enum CtMessage {
    SortBy(Category),
}

/// Basic column layout of the collection table.
#[derive(Debug, Clone, Copy)]
pub struct CollectionColumn {
    /// The name of the column
    pub name: &'static str,
    /// The width of the column
    pub width: i32,
    /// The index of the column
    pub idx: i32,
}

impl CollectionColumn {
    /// A column at index `idx` named `name`, `width` wide.
    pub fn new(idx: i32, name: &'static str, width: i32) -> (r: Self)
        ensures
            r.idx == idx,
            r.name@ == name@,
            r.width == width,
    {
        Self { idx, name, width }
    }
}

} // verus!
