//! Locating the card data files in the application data directory: the
//! choice among directory entries and the check that every file was found.
//! Listing the directory is left to the caller.

use vstd::prelude::*;
use vstd::string::*;

verus! {

/// What the locator needs to know of one directory entry.
#[derive(Debug)]
pub struct FileInfo {
    /// The entry's file name
    pub name: String,
    /// The entry's path
    pub path: String,
    /// Whether the entry is a regular file
    pub is_file: bool,
    /// Seconds since the entry was last modified
    pub age_secs: u64,
}

/// `pat` occurs in `s` starting at `k`.
pub open spec fn occurs_at(s: Seq<char>, pat: Seq<char>, k: int) -> bool {
    0 <= k && k + pat.len() <= s.len() && s.subrange(k, k + pat.len()) == pat
}

/// `pat` occurs somewhere in `s`.
pub open spec fn contains(s: Seq<char>, pat: Seq<char>) -> bool {
    exists|k: int| occurs_at(s, pat, k)
}

/// The entry is a file, young enough, whose name contains `pat`.
pub open spec fn file_matches(e: FileInfo, pat: Seq<char>, max_age: Option<u64>) -> bool {
    &&& e.is_file
    &&& (match max_age {
        Some(m) => e.age_secs <= m,
        None => true,
    })
    &&& contains(e.name@, pat)
}

/// Whether `pat` occurs in `s`.
pub fn str_contains(s: &str, pat: &str) -> (r: bool)
    ensures
        r == contains(s@, pat@),
{
    let n = s.unicode_len();
    let m = pat.unicode_len();
    if m > n {
        proof {
            assert forall|k: int| !occurs_at(s@, pat@, k) by {}
        }
        return false;
    }
    let mut k: usize = 0;
    while k <= n - m
        invariant
            n == s@.len(),
            m == pat@.len(),
            m <= n,
            k <= n - m + 1,
            forall|j: int| 0 <= j < k ==> !occurs_at(s@, pat@, j),
        decreases n - m + 1 - k,
    {
        let mut i: usize = 0;
        while i < m && s.get_char(k + i) == pat.get_char(i)
            invariant
                n == s@.len(),
                m == pat@.len(),
                k + m <= n,
                i <= m,
                forall|t: int| 0 <= t < i ==> s@[k + t] == pat@[t],
            decreases m - i,
        {
            i = i + 1;
        }
        if i == m {
            assert(s@.subrange(k as int, k + m) =~= pat@);
            assert(occurs_at(s@, pat@, k as int));
            return true;
        }
        assert(s@.subrange(k as int, k + m)[i as int] != pat@[i as int]);
        k = k + 1;
    }
    proof {
        assert forall|j: int| !occurs_at(s@, pat@, j) by {
            if 0 <= j && j < k {
            } else if j >= k {
                assert(j + m > n);
            }
        }
    }
    false
}

/// The index of the first entry that is a file no older than
/// `max_file_age_secs` (when given) and whose name contains `f_name`.
pub fn first_file_match(entries: &Vec<FileInfo>, f_name: &str, max_file_age_secs: Option<u64>) -> (r: Option<usize>)
    ensures
        r is None ==> forall|i: int| 0 <= i < entries@.len() ==> !file_matches(#[trigger] entries@[i], f_name@, max_file_age_secs),
        r is Some ==> {
            let i = r->Some_0 as int;
            &&& 0 <= i < entries@.len()
            &&& file_matches(entries@[i], f_name@, max_file_age_secs)
            &&& forall|j: int| 0 <= j < i ==> !file_matches(#[trigger] entries@[j], f_name@, max_file_age_secs)
        },
{
    let mut i: usize = 0;
    while i < entries.len()
        invariant
            i <= entries@.len(),
            forall|j: int| 0 <= j < i ==> !file_matches(#[trigger] entries@[j], f_name@, max_file_age_secs),
        decreases entries.len() - i,
    {
        let e = &entries[i];
        let young = match max_file_age_secs {
            Some(max) => e.age_secs <= max,
            None => true,
        };
        if e.is_file && young && str_contains(e.name.as_str(), f_name) {
            return Some(i);
        }
        i = i + 1;
    }
    None
}

/// The paths of the card data files.
#[derive(Debug)]
pub struct CardDataPaths {
    scryfall: String,
    card_definitions: String,
    price_history: String,
}

/// The line reporting that the file described as `what` was not found in
/// `dir`.
pub open spec fn not_found_line(what: Seq<char>, dir: Seq<char>) -> Seq<char> {
    "Could not find "@ + what + " in \""@ + dir + "\""@
}

/// The lines, in order, for each of the three files that was not found.
pub open spec fn missing_lines(
    dir: Seq<char>,
    scryfall: Option<String>,
    card_definitions: Option<String>,
    price_history: Option<String>,
) -> Seq<Seq<char>> {
    (if scryfall is None {
        seq![not_found_line("Scryfall data JSON"@, dir)]
    } else {
        Seq::empty()
    }) + (if card_definitions is None {
        seq![not_found_line("card definition JSON"@, dir)]
    } else {
        Seq::empty()
    }) + (if price_history is None {
        seq![not_found_line("price history JSON"@, dir)]
    } else {
        Seq::empty()
    })
}

/// `lines` joined by newlines.
pub open spec fn joined(lines: Seq<Seq<char>>) -> Seq<char>
    decreases lines.len(),
{
    if lines.len() == 0 {
        Seq::empty()
    } else if lines.len() == 1 {
        lines[0]
    } else {
        joined(lines.drop_last()) + "\n"@ + lines.last()
    }
}

fn not_found(what: &str, dir: &str) -> (r: String)
    ensures
        r@ == not_found_line(what@, dir@),
{
    "Could not find ".to_owned().concat(what).concat(" in \"").concat(dir).concat("\"")
}

/// Appends `line` to the newline-joined `text` of `lines`.
fn join_next(text: String, line: String, is_first: bool, Ghost(lines): Ghost<Seq<Seq<char>>>) -> (r: String)
    requires
        text@ == joined(lines),
        is_first == (lines.len() == 0),
    ensures
        r@ == joined(lines.push(line@)),
{
    proof {
        assert(lines.push(line@).drop_last() =~= lines);
    }
    if is_first {
        proof {
            assert(lines.push(line@).len() == 1);
        }
        line
    } else {
        text.concat("\n").concat(line.as_str())
    }
}

/// `found` is the path of the first entry that is a file whose name contains
/// `pat`, or `None` when there is no such entry.
pub open spec fn match_of(entries: Seq<FileInfo>, pat: Seq<char>, found: Option<String>) -> bool {
    match found {
        None => forall|i: int| 0 <= i < entries.len() ==> !file_matches(#[trigger] entries[i], pat, None),
        Some(p) => exists|k: int|
            0 <= k < entries.len() && file_matches(entries[k], pat, None) && (forall|j: int|
                0 <= j < k ==> !file_matches(#[trigger] entries[j], pat, None)) && p@ == (#[trigger] entries[k]).path@,
    }
}

/// The path of the first entry that is a file whose name contains `pat`.
fn first_path(entries: &Vec<FileInfo>, pat: &str) -> (r: Option<String>)
    ensures
        match_of(entries@, pat@, r),
{
    match first_file_match(entries, pat, None) {
        Some(i) => {
            let p = entries[i].path.clone();
            assert(p@ == entries@[i as int].path@);
            Some(p)
        },
        None => None,
    }
}

/// What [`CardDataPaths::find`] gives for what was found of each file: the
/// paths when all three were found, else one line for each file not found,
/// joined by newlines.
pub open spec fn find_outcome(
    dir: Seq<char>,
    scryfall: Option<String>,
    card_definitions: Option<String>,
    price_history: Option<String>,
    r: Result<CardDataPaths, String>,
) -> bool {
    &&& (r is Ok <==> (scryfall is Some && card_definitions is Some && price_history is Some))
    &&& (r is Ok ==> {
        let p = r->Ok_0;
        &&& p.spec_scryfall() == scryfall->Some_0@
        &&& p.spec_card_definitions() == card_definitions->Some_0@
        &&& p.spec_price_history() == price_history->Some_0@
    })
    &&& (r is Err ==> r->Err_0@ == joined(missing_lines(dir, scryfall, card_definitions, price_history)))
}

impl CardDataPaths {
    /// The substring that names the Scryfall data file.
    pub const FIND_SCRYFALL: &'static str = "scryfall";

    /// The substring that names the card definitions file.
    pub const FIND_CARD_DEFINITIONS: &'static str = "card-def";

    /// The substring that names the price history file.
    pub const FIND_PRICE_HISTORY: &'static str = "price-his";

    pub closed spec fn spec_scryfall(&self) -> Seq<char> {
        self.scryfall@
    }

    pub closed spec fn spec_card_definitions(&self) -> Seq<char> {
        self.card_definitions@
    }

    pub closed spec fn spec_price_history(&self) -> Seq<char> {
        self.price_history@
    }

    /// The card data paths from what the search of `appdata_dir` found for
    /// each file. If any was not found, the error has one line for each file
    /// not found, joined by newlines.
    pub fn find(
        appdata_dir: &str,
        scryfall: Option<String>,
        card_definitions: Option<String>,
        price_history: Option<String>,
    ) -> (r: Result<Self, String>)
        ensures
            find_outcome(appdata_dir@, scryfall, card_definitions, price_history, r),
    {
        let ghost dir = appdata_dir@;
        let ghost lines = missing_lines(dir, scryfall, card_definitions, price_history);
        let ghost first: Seq<Seq<char>> = if scryfall is None {
            seq![not_found_line("Scryfall data JSON"@, dir)]
        } else {
            Seq::empty()
        };
        let ghost second: Seq<Seq<char>> = if card_definitions is None {
            seq![not_found_line("card definition JSON"@, dir)]
        } else {
            Seq::empty()
        };
        let mut text = String::new();
        let ghost mut done: Seq<Seq<char>> = Seq::empty();
        let mut any = false;
        assert(text@ =~= joined(done));
        if scryfall.is_none() {
            text = join_next(text, not_found("Scryfall data JSON", appdata_dir), !any, Ghost(done));
            any = true;
            proof {
                done = done.push(not_found_line("Scryfall data JSON"@, dir));
            }
        }
        assert(done =~= first);
        if card_definitions.is_none() {
            text = join_next(text, not_found("card definition JSON", appdata_dir), !any, Ghost(done));
            any = true;
            proof {
                done = done.push(not_found_line("card definition JSON"@, dir));
            }
        }
        assert(done =~= first + second);
        if price_history.is_none() {
            text = join_next(text, not_found("price history JSON", appdata_dir), !any, Ghost(done));
            any = true;
            proof {
                done = done.push(not_found_line("price history JSON"@, dir));
            }
        }
        assert(done =~= lines);
        match (scryfall, card_definitions, price_history) {
            (Some(s), Some(c), Some(p)) => Ok(CardDataPaths { scryfall: s, card_definitions: c, price_history: p }),
            _ => Err(text),
        }
    }

    /// Locates the card data files among the entries of `appdata_dir`: the
    /// first file whose name contains `scryfall`, `card-def` and `price-his`
    /// respectively, whatever its age; then as [`CardDataPaths::find`].
    pub fn find_in(appdata_dir: &str, entries: &Vec<FileInfo>) -> (r: Result<Self, String>)
        ensures
            exists|s: Option<String>, c: Option<String>, p: Option<String>|
                match_of(entries@, "scryfall"@, s) && match_of(entries@, "card-def"@, c) && match_of(
                    entries@,
                    "price-his"@,
                    p,
                ) && #[trigger] find_outcome(appdata_dir@, s, c, p, r),
    {
        let s = first_path(entries, Self::FIND_SCRYFALL);
        let c = first_path(entries, Self::FIND_CARD_DEFINITIONS);
        let p = first_path(entries, Self::FIND_PRICE_HISTORY);
        let r = Self::find(appdata_dir, s, c, p);
        assert(find_outcome(appdata_dir@, s, c, p, r));
        r
    }

    /// The path of the Scryfall data JSON file.
    pub fn scryfall_path(&self) -> (r: &str)
        ensures
            r@ == self.spec_scryfall(),
    {
        self.scryfall.as_str()
    }

    /// The path of the card definitions JSON file.
    pub fn card_definitions_path(&self) -> (r: &str)
        ensures
            r@ == self.spec_card_definitions(),
    {
        self.card_definitions.as_str()
    }

    /// The path of the price history JSON file.
    pub fn price_history_path(&self) -> (r: &str)
        ensures
            r@ == self.spec_price_history(),
    {
        self.price_history.as_str()
    }
}

/// The application data directory and the card data files found in it.
#[derive(Debug)]
pub struct AppData {
    appdata_dir: String,
    card_data: CardDataPaths,
}

impl AppData {
    pub closed spec fn spec_appdata_dir(&self) -> Seq<char> {
        self.appdata_dir@
    }

    pub closed spec fn spec_card_data(&self) -> &CardDataPaths {
        &self.card_data
    }

    /// The data directory `appdata_dir` with the card data files located in
    /// it.
    pub fn new(appdata_dir: String, card_data: CardDataPaths) -> (r: Self)
        ensures
            r.spec_appdata_dir() == appdata_dir@,
            r.spec_card_data().spec_scryfall() == card_data.spec_scryfall(),
            r.spec_card_data().spec_card_definitions() == card_data.spec_card_definitions(),
            r.spec_card_data().spec_price_history() == card_data.spec_price_history(),
    {
        AppData { appdata_dir, card_data }
    }

    /// The path of the application data directory.
    pub fn appdata_dir_path(&self) -> (r: &str)
        ensures
            r@ == self.spec_appdata_dir(),
    {
        self.appdata_dir.as_str()
    }

    /// The path of the Scryfall data JSON file.
    pub fn scryfall_path(&self) -> (r: &str)
        ensures
            r@ == self.spec_card_data().spec_scryfall(),
    {
        self.card_data.scryfall_path()
    }

    /// The path of the card definitions JSON file.
    pub fn card_definitions_path(&self) -> (r: &str)
        ensures
            r@ == self.spec_card_data().spec_card_definitions(),
    {
        self.card_data.card_definitions_path()
    }

    /// The path of the price history JSON file.
    pub fn price_history_path(&self) -> (r: &str)
        ensures
            r@ == self.spec_card_data().spec_price_history(),
    {
        self.card_data.price_history_path()
    }
}

} // verus!
