//! Lines of collection statistics, formatted for a browser widget that reads
//! `@` format codes at the start of each column.

use crate::stats::{pairs_view, CategoryStat, MultiValueStat, UniqueTotal};
use crate::views::strings_view;
use vstd::prelude::*;
use vstd::string::*;

verus! {

/// The format of an item's title: bold in a larger font, on a dark grey
/// background for every other item.
pub open spec fn title_fmt(index: nat) -> Seq<char> {
    if index % 2 == 0 {
        "@S15@b@."@
    } else {
        "@S15@b@B49@."@
    }
}

/// The format of an item's values: a smaller fixed-width font, on a dark grey
/// background for every other item.
pub open spec fn value_fmt(index: nat) -> Seq<char> {
    if index % 2 == 0 {
        "@S13@F13"@
    } else {
        "@S13@F13@B49"@
    }
}

/// The decimal digits of `n`, most significant first.
pub open spec fn decimal(n: nat) -> Seq<char>
    decreases n,
{
    if n < 10 {
        "0123456789"@.subrange(n as int, n + 1 as int)
    } else {
        decimal(n / 10) + "0123456789"@.subrange((n % 10) as int, (n % 10) + 1 as int)
    }
}

/// The line of a titled single value.
pub open spec fn item_line(index: nat, title: Seq<char>, value: Seq<char>) -> Seq<char> {
    title_fmt(index) + title + "\t"@ + value_fmt(index) + "@."@ + value
}

/// The value of a unique count and total: `unique (total)`.
pub open spec fn unique_total_value(unique: nat, total: nat) -> Seq<char> {
    decimal(unique) + " ("@ + decimal(total) + ")"@
}

/// The lines of a multi-value statistic: the title beside the first value,
/// then one line per further value.
pub open spec fn multi_value_lines(index: nat, title: Seq<char>, values: Seq<Seq<char>>) -> Seq<Seq<char>> {
    let first = title_fmt(index) + title + "\t"@ + value_fmt(index) + if values.len() > 0 {
        values[0]
    } else {
        Seq::empty()
    };
    seq![first] + Seq::new(
        if values.len() > 0 {
            (values.len() - 1) as nat
        } else {
            0
        },
        |k: int| title_fmt(index) + " \t"@ + value_fmt(index) + values[k + 1],
    )
}

/// The lines of a category: an underlined title, then one line per
/// description and value.
pub open spec fn category_lines(index: nat, title: Seq<char>, pairs: Seq<(Seq<char>, Seq<char>)>) -> Seq<
    Seq<char>,
> {
    seq!["@_"@ + title_fmt(index) + title + "\t"@ + value_fmt(index)] + Seq::new(
        pairs.len(),
        |k: int| "@S13@r@."@ + pairs[k].0 + "   \t"@ + value_fmt(index) + "@."@ + pairs[k].1,
    )
}

/// The decimal form of `n`.
pub fn decimal_string(n: usize) -> (r: String)
    ensures
        r@ == decimal(n as nat),
    decreases n,
{
    let digits = "0123456789";
    proof {
        reveal_strlit("0123456789");
    }
    let d = n % 10;
    let last = digits.substring_char(d, d + 1);
    if n < 10 {
        last.to_owned()
    } else {
        let head = decimal_string(n / 10);
        head.concat(last)
    }
}

/// Formatted lines of statistics, each item alternating its background.
pub struct BrowserItems {
    item_index: usize,
    formatted_items: Vec<String>,
    title_format: String,
    alt_title_format: String,
    value_format: String,
    alt_value_format: String,
}

impl BrowserItems {
    /// The number of items added so far.
    pub closed spec fn spec_index(&self) -> nat {
        self.item_index as nat
    }

    /// The formatted lines, in order.
    pub closed spec fn spec_items(&self) -> Seq<Seq<char>> {
        strings_view(self.formatted_items@)
    }

    /// The format strings are the ones of [`title_fmt`] and [`value_fmt`].
    pub closed spec fn wf(&self) -> bool {
        &&& self.title_format@ == title_fmt(0)
        &&& self.alt_title_format@ == title_fmt(1)
        &&& self.value_format@ == value_fmt(0)
        &&& self.alt_value_format@ == value_fmt(1)
    }

    fn title_format(&self) -> (r: &str)
        requires
            self.wf(),
        ensures
            r@ == title_fmt(self.spec_index()),
    {
        if self.item_index % 2 == 0 {
            self.title_format.as_str()
        } else {
            self.alt_title_format.as_str()
        }
    }

    fn value_format(&self) -> (r: &str)
        requires
            self.wf(),
        ensures
            r@ == value_fmt(self.spec_index()),
    {
        if self.item_index % 2 == 0 {
            self.value_format.as_str()
        } else {
            self.alt_value_format.as_str()
        }
    }

    /// No lines and no items yet.
    pub fn new() -> (r: Self)
        ensures
            r.wf(),
            r.spec_index() == 0,
            r.spec_items() == Seq::<Seq<char>>::empty(),
    {
        let r = Self {
            item_index: 0,
            formatted_items: Vec::new(),
            title_format: "@S15@b@.".to_owned(),
            alt_title_format: "@S15@b@B49@.".to_owned(),
            value_format: "@S13@F13".to_owned(),
            alt_value_format: "@S13@F13@B49".to_owned(),
        };
        assert(r.spec_items() =~= Seq::<Seq<char>>::empty());
        r
    }

    /// Moves the lines of `other` to the end of these.
    pub fn append(&mut self, other: &mut Self)
        requires
            old(self).wf(),
        ensures
            final(self).wf(),
            final(self).spec_index() == old(self).spec_index(),
            final(self).spec_items() == old(self).spec_items() + old(other).spec_items(),
            final(other).spec_items() == Seq::<Seq<char>>::empty(),
            final(other).spec_index() == old(other).spec_index(),
    {
        self.formatted_items.append(&mut other.formatted_items);
        assert(self.spec_items() =~= old(self).spec_items() + old(other).spec_items());
        assert(other.spec_items() =~= Seq::<Seq<char>>::empty());
    }

    /// Adds an item of a title and one value.
    pub fn add_item(&mut self, title: &str, value: &str)
        requires
            old(self).wf(),
            old(self).spec_index() < usize::MAX,
        ensures
            final(self).wf(),
            final(self).spec_index() == old(self).spec_index() + 1,
            final(self).spec_items() == old(self).spec_items().push(
                item_line(old(self).spec_index(), title@, value@),
            ),
    {
        let line = self.title_format().to_owned().concat(title).concat("\t").concat(self.value_format()).concat(
            "@.",
        ).concat(value);
        self.formatted_items.push(line);
        self.item_index = self.item_index + 1;
        assert(self.spec_items() =~= old(self).spec_items().push(item_line(old(self).spec_index(), title@, value@)));
    }

    /// Adds an item of a title and a unique count with its total.
    pub fn add_item_unique_total(&mut self, title: &str, unique_total_pair: UniqueTotal)
        requires
            old(self).wf(),
            old(self).spec_index() < usize::MAX,
        ensures
            final(self).wf(),
            final(self).spec_index() == old(self).spec_index() + 1,
            final(self).spec_items() == old(self).spec_items().push(
                item_line(
                    old(self).spec_index(),
                    title@,
                    unique_total_value(unique_total_pair.spec_unique(), unique_total_pair.spec_total()),
                ),
            ),
    {
        let value = decimal_string(unique_total_pair.unique()).concat(" (").concat(
            decimal_string(unique_total_pair.total()).as_str(),
        ).concat(")");
        self.add_item(title, value.as_str());
    }

    /// Adds a multi-value statistic: its title beside its first value, and
    /// one line for each further value.
    pub fn add_multi_value_item(&mut self, stat: MultiValueStat)
        requires
            old(self).wf(),
            old(self).spec_index() < usize::MAX,
        ensures
            final(self).wf(),
            final(self).spec_index() == old(self).spec_index() + 1,
            final(self).spec_items() == old(self).spec_items() + multi_value_lines(
                old(self).spec_index(),
                stat.spec_title(),
                match stat.spec_values() {
                    Some(v) => v,
                    None => Seq::empty(),
                },
            ),
    {
        let mut stat = stat;
        let ghost title = stat.spec_title();
        let values = stat.take_values();
        let ghost vs = strings_view(values@);
        let ghost idx = self.spec_index();
        let ghost lines = multi_value_lines(idx, title, vs);
        let mut first = self.title_format().to_owned().concat(stat.title()).concat("\t").concat(
            self.value_format(),
        );
        if values.len() > 0 {
            first = first.concat(values[0].as_str());
        }
        assert(first@ == lines[0]);
        self.formatted_items.push(first);
        let ghost start = old(self).spec_items();
        assert(self.spec_items() =~= start + lines.take(1));
        let mut i: usize = 1;
        while i < values.len()
            invariant
                1 <= i,
                values.len() > 0 ==> i <= values.len(),
                values.len() == 0 ==> i == 1,
                self.wf(),
                self.spec_index() == idx,
                vs == strings_view(values@),
                lines == multi_value_lines(idx, title, vs),
                self.spec_items() == start + lines.take(i as int),
            decreases values.len() - i,
        {
            let line = self.title_format().to_owned().concat(" \t").concat(self.value_format()).concat(
                values[i].as_str(),
            );
            assert(line@ == lines[i as int]);
            self.formatted_items.push(line);
            assert(start + lines.take(i + 1) =~= (start + lines.take(i as int)).push(lines[i as int]));
            i = i + 1;
        }
        assert(lines.take(i as int) =~= lines);
        self.item_index = self.item_index + 1;
    }

    /// Adds a category: an underlined title, then a line for each description
    /// and value.
    pub fn add_category_item(&mut self, cat: CategoryStat)
        requires
            old(self).wf(),
            old(self).spec_index() < usize::MAX,
        ensures
            final(self).wf(),
            final(self).spec_index() == old(self).spec_index() + 1,
            final(self).spec_items() == old(self).spec_items() + category_lines(
                old(self).spec_index(),
                cat.spec_title(),
                cat.spec_pairs(),
            ),
    {
        let mut cat = cat;
        let ghost title = cat.spec_title();
        let ghost idx = self.spec_index();
        let cat_title = "@_".to_owned().concat(self.title_format()).concat(cat.title()).concat("\t").concat(
            self.value_format(),
        );
        let pairs = cat.take_value_pairs();
        let ghost ps = pairs_view(pairs@);
        let ghost lines = category_lines(idx, title, ps);
        assert(cat_title@ == lines[0]);
        self.formatted_items.push(cat_title);
        let ghost start = old(self).spec_items();
        assert(self.spec_items() =~= start + lines.take(1));
        let mut i: usize = 0;
        while i < pairs.len()
            invariant
                i <= pairs.len(),
                self.wf(),
                self.spec_index() == idx,
                ps == pairs_view(pairs@),
                lines == category_lines(idx, title, ps),
                self.spec_items() == start + lines.take(i + 1),
            decreases pairs.len() - i,
        {
            let line = "@S13@r@.".to_owned().concat(pairs[i].0.as_str()).concat("   \t").concat(
                self.value_format(),
            ).concat("@.").concat(pairs[i].1.as_str());
            assert(line@ == lines[i + 1]);
            self.formatted_items.push(line);
            assert(start + lines.take(i + 2) =~= (start + lines.take(i + 1)).push(lines[i + 1]));
            i = i + 1;
        }
        assert(lines.take(i + 1) =~= lines);
        self.item_index = self.item_index + 1;
    }

    /// Takes all lines out, in order, leaving none behind.
    pub fn drain(&mut self) -> (r: Vec<String>)
        requires
            old(self).wf(),
        ensures
            final(self).wf(),
            strings_view(r@) == old(self).spec_items(),
            final(self).spec_items() == Seq::<Seq<char>>::empty(),
            final(self).spec_index() == old(self).spec_index(),
    {
        let mut r: Vec<String> = Vec::new();
        std::mem::swap(&mut r, &mut self.formatted_items);
        assert(self.spec_items() =~= Seq::<Seq<char>>::empty());
        r
    }
}

} // verus!
