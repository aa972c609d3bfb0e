//! Containers for the statistics shown about a collection.

use crate::views::strings_view;
use vstd::prelude::*;

verus! {

/// A count of unique items together with their total quantity.
#[derive(Debug, Clone, Copy, PartialEq, Eq, Structural)]
pub struct UniqueTotal {
    unique: usize,
    total: usize,
}

impl UniqueTotal {
    pub closed spec fn spec_unique(self) -> nat {
        self.unique as nat
    }

    pub closed spec fn spec_total(self) -> nat {
        self.total as nat
    }

    pub fn new(unique: usize, total: usize) -> (r: Self)
        ensures
            r.spec_unique() == unique,
            r.spec_total() == total,
    {
        Self { unique, total }
    }

    pub fn unique(&self) -> (r: usize)
        ensures
            r == self.spec_unique(),
    {
        self.unique
    }

    pub fn total(&self) -> (r: usize)
        ensures
            r == self.spec_total(),
    {
        self.total
    }
}

impl Default for UniqueTotal {
    fn default() -> (r: Self)
        ensures
            r.spec_unique() == 0,
            r.spec_total() == 0,
    {
        Self { unique: 0, total: 0 }
    }
}

/// A statistic with a title and several values, one per line.
#[derive(Debug)]
pub struct MultiValueStat {
    title: String,
    values: Option<Vec<String>>,
}

impl MultiValueStat {
    pub closed spec fn spec_title(&self) -> Seq<char> {
        self.title@
    }

    /// The values, or `None` once they have been taken.
    pub closed spec fn spec_values(&self) -> Option<Seq<Seq<char>>> {
        match self.values {
            Some(v) => Some(strings_view(v@)),
            None => None,
        }
    }

    pub fn new(title: String, values: Vec<String>) -> (r: Self)
        ensures
            r.spec_title() == title@,
            r.spec_values() == Some(strings_view(values@)),
    {
        Self { title, values: Some(values) }
    }

    /// Appends `value`; after the values were taken, it becomes the only one.
    pub fn add_value(&mut self, value: String)
        ensures
            final(self).spec_title() == old(self).spec_title(),
            final(self).spec_values() == Some(
                match old(self).spec_values() {
                    Some(v) => v,
                    None => Seq::empty(),
                }.push(value@),
            ),
    {
        match self.values.take() {
            Some(mut values) => {
                values.push(value);
                proof {
                    assert(strings_view(values@) =~= match old(self).spec_values() {
                        Some(v) => v,
                        None => Seq::empty(),
                    }.push(value@));
                }
                self.values = Some(values);
            },
            None => {
                let values = vec![value];
                proof {
                    assert(strings_view(values@) =~= Seq::<Seq<char>>::empty().push(value@));
                }
                self.values = Some(values);
            },
        }
    }

    pub fn title(&self) -> (r: &str)
        ensures
            r@ == self.spec_title(),
    {
        self.title.as_str()
    }

    /// Takes the values out, leaving none behind; empty if they were taken
    /// before.
    pub fn take_values(&mut self) -> (r: Vec<String>)
        ensures
            strings_view(r@) == match old(self).spec_values() {
                Some(v) => v,
                None => Seq::empty(),
            },
            final(self).spec_values() is None,
            final(self).spec_title() == old(self).spec_title(),
    {
        match self.values.take() {
            Some(values) => values,
            None => {
                let r: Vec<String> = Vec::new();
                assert(strings_view(r@) =~= Seq::<Seq<char>>::empty());
                r
            },
        }
    }
}

/// The views of a list of pairs of strings.
pub open spec fn pairs_view(v: Seq<(String, String)>) -> Seq<(Seq<char>, Seq<char>)> {
    v.map_values(|p: (String, String)| (p.0@, p.1@))
}

/// A statistic with a title and several described values.
#[derive(Debug)]
pub struct CategoryStat {
    title: String,
    value_pairs: Vec<(String, String)>,
}

impl CategoryStat {
    pub closed spec fn spec_title(&self) -> Seq<char> {
        self.title@
    }

    /// The (description, value) pairs, in order.
    pub closed spec fn spec_pairs(&self) -> Seq<(Seq<char>, Seq<char>)> {
        pairs_view(self.value_pairs@)
    }

    pub fn new(title: String, value_pairs: Vec<(String, String)>) -> (r: Self)
        ensures
            r.spec_title() == title@,
            r.spec_pairs() == pairs_view(value_pairs@),
    {
        Self { title, value_pairs }
    }

    pub fn title(&self) -> (r: &str)
        ensures
            r@ == self.spec_title(),
    {
        self.title.as_str()
    }

    /// Takes the pairs out, leaving none behind.
    pub fn take_value_pairs(&mut self) -> (r: Vec<(String, String)>)
        ensures
            pairs_view(r@) == old(self).spec_pairs(),
            final(self).spec_pairs() == Seq::<(Seq<char>, Seq<char>)>::empty(),
            final(self).spec_title() == old(self).spec_title(),
    {
        let mut r: Vec<(String, String)> = Vec::new();
        std::mem::swap(&mut r, &mut self.value_pairs);
        assert(pairs_view(self.value_pairs@) =~= Seq::<(Seq<char>, Seq<char>)>::empty());
        r
    }
}

/// The statistics of one collection.
#[derive(Debug)]
pub struct CollectionStats {
    file_from: String,
    total_cards: UniqueTotal,
    total_value: Option<MultiValueStat>,
    most_expensive_item: String,
    cards_under_a_tenth_tix: UniqueTotal,
    cards_over_5_tix: UniqueTotal,
    rarity_distribution: Option<MultiValueStat>,
}

impl CollectionStats {
    pub closed spec fn spec_file_from(&self) -> Seq<char> {
        self.file_from@
    }

    pub closed spec fn spec_total_cards(&self) -> UniqueTotal {
        self.total_cards
    }

    pub closed spec fn spec_most_expensive_item(&self) -> Seq<char> {
        self.most_expensive_item@
    }

    pub closed spec fn spec_cards_under_a_tenth_tix(&self) -> UniqueTotal {
        self.cards_under_a_tenth_tix
    }

    pub closed spec fn spec_cards_over_5_tix(&self) -> UniqueTotal {
        self.cards_over_5_tix
    }

    /// The total value statistic, if one is held.
    pub closed spec fn spec_total_value(&self) -> Option<MultiValueStat> {
        self.total_value
    }

    /// The rarity distribution statistic, if one is held.
    pub closed spec fn spec_rarity_distribution(&self) -> Option<MultiValueStat> {
        self.rarity_distribution
    }

    /// Everything empty or zero, and no multi-value statistic held.
    pub open spec fn is_empty(&self) -> bool {
        &&& self.spec_file_from() == Seq::<char>::empty()
        &&& self.spec_most_expensive_item() == Seq::<char>::empty()
        &&& self.spec_total_cards().spec_unique() == 0
        &&& self.spec_total_cards().spec_total() == 0
        &&& self.spec_cards_under_a_tenth_tix().spec_unique() == 0
        &&& self.spec_cards_under_a_tenth_tix().spec_total() == 0
        &&& self.spec_cards_over_5_tix().spec_unique() == 0
        &&& self.spec_cards_over_5_tix().spec_total() == 0
        &&& self.spec_total_value() is None
        &&& self.spec_rarity_distribution() is None
    }

    /// An empty container.
    pub fn new() -> (r: Self)
        ensures
            r.is_empty(),
    {
        Self {
            file_from: String::new(),
            total_value: None,
            total_cards: UniqueTotal::default(),
            most_expensive_item: String::new(),
            cards_under_a_tenth_tix: UniqueTotal::default(),
            cards_over_5_tix: UniqueTotal::default(),
            rarity_distribution: None,
        }
    }

    /// All but the file the collection came from stays as it was.
    pub open spec fn same_but_file_from(&self, other: &Self) -> bool {
        &&& self.spec_total_cards() == other.spec_total_cards()
        &&& self.spec_most_expensive_item() == other.spec_most_expensive_item()
        &&& self.spec_cards_under_a_tenth_tix() == other.spec_cards_under_a_tenth_tix()
        &&& self.spec_cards_over_5_tix() == other.spec_cards_over_5_tix()
        &&& self.spec_total_value() == other.spec_total_value()
        &&& self.spec_rarity_distribution() == other.spec_rarity_distribution()
    }

    pub fn set_file_from(&mut self, file_from: &str)
        ensures
            final(self).spec_file_from() == file_from@,
            final(self).same_but_file_from(old(self)),
    {
        self.file_from = file_from.to_owned();
    }

    pub fn set_total_cards(&mut self, total_unique_cards: usize, total_card_quantity: usize)
        ensures
            final(self).spec_total_cards().spec_unique() == total_unique_cards,
            final(self).spec_total_cards().spec_total() == total_card_quantity,
            final(self).spec_file_from() == old(self).spec_file_from(),
            final(self).spec_most_expensive_item() == old(self).spec_most_expensive_item(),
            final(self).spec_cards_under_a_tenth_tix() == old(self).spec_cards_under_a_tenth_tix(),
            final(self).spec_cards_over_5_tix() == old(self).spec_cards_over_5_tix(),
            final(self).spec_total_value() == old(self).spec_total_value(),
            final(self).spec_rarity_distribution() == old(self).spec_rarity_distribution(),
    {
        self.total_cards = UniqueTotal::new(total_unique_cards, total_card_quantity);
    }

    pub fn set_most_expensive_item(&mut self, most_expensive_item: &str)
        ensures
            final(self).spec_most_expensive_item() == most_expensive_item@,
            final(self).spec_file_from() == old(self).spec_file_from(),
            final(self).spec_total_cards() == old(self).spec_total_cards(),
            final(self).spec_cards_under_a_tenth_tix() == old(self).spec_cards_under_a_tenth_tix(),
            final(self).spec_cards_over_5_tix() == old(self).spec_cards_over_5_tix(),
            final(self).spec_total_value() == old(self).spec_total_value(),
            final(self).spec_rarity_distribution() == old(self).spec_rarity_distribution(),
    {
        self.most_expensive_item = most_expensive_item.to_owned();
    }

    pub fn set_cards_under_a_tenth_tix(&mut self, cards_under_tenth_tix_unique: usize, cards_under_tenth_tix_quantity: usize)
        ensures
            final(self).spec_cards_under_a_tenth_tix().spec_unique() == cards_under_tenth_tix_unique,
            final(self).spec_cards_under_a_tenth_tix().spec_total() == cards_under_tenth_tix_quantity,
            final(self).spec_file_from() == old(self).spec_file_from(),
            final(self).spec_total_cards() == old(self).spec_total_cards(),
            final(self).spec_most_expensive_item() == old(self).spec_most_expensive_item(),
            final(self).spec_cards_over_5_tix() == old(self).spec_cards_over_5_tix(),
            final(self).spec_total_value() == old(self).spec_total_value(),
            final(self).spec_rarity_distribution() == old(self).spec_rarity_distribution(),
    {
        self.cards_under_a_tenth_tix = UniqueTotal::new(cards_under_tenth_tix_unique, cards_under_tenth_tix_quantity);
    }

    pub fn set_cards_over_5_tix(&mut self, cards_over_5_tix_unique: usize, cards_over_5_tix_quantity: usize)
        ensures
            final(self).spec_cards_over_5_tix().spec_unique() == cards_over_5_tix_unique,
            final(self).spec_cards_over_5_tix().spec_total() == cards_over_5_tix_quantity,
            final(self).spec_file_from() == old(self).spec_file_from(),
            final(self).spec_total_cards() == old(self).spec_total_cards(),
            final(self).spec_most_expensive_item() == old(self).spec_most_expensive_item(),
            final(self).spec_cards_under_a_tenth_tix() == old(self).spec_cards_under_a_tenth_tix(),
            final(self).spec_total_value() == old(self).spec_total_value(),
            final(self).spec_rarity_distribution() == old(self).spec_rarity_distribution(),
    {
        self.cards_over_5_tix = UniqueTotal::new(cards_over_5_tix_unique, cards_over_5_tix_quantity);
    }

    /// Sets the total value statistic.
    pub fn set_total_value(&mut self, total_value: MultiValueStat)
        ensures
            final(self).spec_total_value() == Some(total_value),
            final(self).spec_file_from() == old(self).spec_file_from(),
            final(self).spec_total_cards() == old(self).spec_total_cards(),
            final(self).spec_most_expensive_item() == old(self).spec_most_expensive_item(),
            final(self).spec_cards_under_a_tenth_tix() == old(self).spec_cards_under_a_tenth_tix(),
            final(self).spec_cards_over_5_tix() == old(self).spec_cards_over_5_tix(),
            final(self).spec_rarity_distribution() == old(self).spec_rarity_distribution(),
    {
        self.total_value = Some(total_value);
    }

    /// Sets the rarity distribution statistic.
    pub fn set_rarity_distribution(&mut self, rarity_distribution: MultiValueStat)
        ensures
            final(self).spec_rarity_distribution() == Some(rarity_distribution),
            final(self).spec_file_from() == old(self).spec_file_from(),
            final(self).spec_total_cards() == old(self).spec_total_cards(),
            final(self).spec_most_expensive_item() == old(self).spec_most_expensive_item(),
            final(self).spec_cards_under_a_tenth_tix() == old(self).spec_cards_under_a_tenth_tix(),
            final(self).spec_cards_over_5_tix() == old(self).spec_cards_over_5_tix(),
            final(self).spec_total_value() == old(self).spec_total_value(),
    {
        self.rarity_distribution = Some(rarity_distribution);
    }

    pub fn file_from(&self) -> (r: &str)
        ensures
            r@ == self.spec_file_from(),
    {
        self.file_from.as_str()
    }

    pub fn total_cards(&self) -> (r: UniqueTotal)
        ensures
            r == self.spec_total_cards(),
    {
        self.total_cards
    }

    pub fn most_expensive_item(&self) -> (r: &str)
        ensures
            r@ == self.spec_most_expensive_item(),
    {
        self.most_expensive_item.as_str()
    }

    pub fn cards_under_a_tenth_tix(&self) -> (r: UniqueTotal)
        ensures
            r == self.spec_cards_under_a_tenth_tix(),
    {
        self.cards_under_a_tenth_tix
    }

    pub fn cards_over_5_tix(&self) -> (r: UniqueTotal)
        ensures
            r == self.spec_cards_over_5_tix(),
    {
        self.cards_over_5_tix
    }

    /// Takes the total value statistic out, leaving none behind.
    pub fn take_total_value(&mut self) -> (r: Option<MultiValueStat>)
        ensures
            r == old(self).spec_total_value(),
            final(self).spec_total_value() is None,
            final(self).spec_file_from() == old(self).spec_file_from(),
            final(self).spec_total_cards() == old(self).spec_total_cards(),
            final(self).spec_most_expensive_item() == old(self).spec_most_expensive_item(),
            final(self).spec_cards_under_a_tenth_tix() == old(self).spec_cards_under_a_tenth_tix(),
            final(self).spec_cards_over_5_tix() == old(self).spec_cards_over_5_tix(),
            final(self).spec_rarity_distribution() == old(self).spec_rarity_distribution(),
    {
        self.total_value.take()
    }

    /// Takes the rarity distribution statistic out, leaving none behind.
    pub fn take_rarity_distribution(&mut self) -> (r: Option<MultiValueStat>)
        ensures
            r == old(self).spec_rarity_distribution(),
            final(self).spec_rarity_distribution() is None,
            final(self).spec_file_from() == old(self).spec_file_from(),
            final(self).spec_total_cards() == old(self).spec_total_cards(),
            final(self).spec_most_expensive_item() == old(self).spec_most_expensive_item(),
            final(self).spec_cards_under_a_tenth_tix() == old(self).spec_cards_under_a_tenth_tix(),
            final(self).spec_cards_over_5_tix() == old(self).spec_cards_over_5_tix(),
            final(self).spec_total_value() == old(self).spec_total_value(),
    {
        self.rarity_distribution.take()
    }
}

impl Default for CollectionStats {
    fn default() -> (r: Self)
        ensures
            r.is_empty(),
    {
        Self::new()
    }
}

} // verus!
