//! The incremental archive manager.
//!
//! An [`Archive`] is either pending ([`UnArchived`]: a location and the files
//! registered for it) or materialized ([`Archived`]: a location that holds a
//! valid container). The functions here decide and compute; the caller does
//! the file I/O around them: it reads the sources, hands their contents in,
//! writes the container bytes handed back, and removes the files that
//! [`Archive::files_to_delete`] or [`Archive::move_to_archive`] name, only
//! once the container is durably written.

pub use crate::container::{
    entry_data_start, entry_size, fits_compressed, is_control, listing, locator_at_end, name_fits, opens, packed,
    raw_ok, readable, reads_back, window_fits, BZIP2_METHOD, NAME_MAX_CHARS, SMALL_FILE_MAX,
};
use crate::container::{
    all_written, compressed_size, data_start, entry_name, held, origin, pending, read_entry, source, EntryReader,
    EntryWriter,
};
use crate::views::same_str;
use std::marker::PhantomData;
use crate::views::strings_view;
use vstd::prelude::*;
use vstd::string::*;

verus! {

/// Marker of an archive that has not been written yet.
pub struct UnArchived;

/// Marker of an archive whose location holds a container.
pub struct Archived;

/// Whether a registered file is removed once it is in the container.
#[derive(Debug, Clone, Copy, PartialEq, Eq, Structural)]
pub enum ShouldDelete {
    Yes,
    No,
}

/// Why building or merging a container failed.
#[derive(Debug, PartialEq, Eq)]
pub enum ArchiveError {
    /// The source file at this path could not be read.
    SourceUnreadable(String),
    /// This path has no base name to name an entry by.
    InvalidFileName(String),
    /// A second entry would get this name.
    DuplicateName(String),
    /// The existing container could not be opened or read.
    CorruptContainer,
    /// Writing the new container failed.
    WriteFailed,
}

/// The mathematical form of an [`ArchiveError`].
pub enum ArchiveFault {
    SourceUnreadable(Seq<char>),
    InvalidFileName(Seq<char>),
    DuplicateName(Seq<char>),
    CorruptContainer,
    WriteFailed,
}

impl View for ArchiveError {
    type V = ArchiveFault;

    open spec fn view(&self) -> ArchiveFault {
        match self {
            ArchiveError::SourceUnreadable(p) => ArchiveFault::SourceUnreadable(p@),
            ArchiveError::InvalidFileName(p) => ArchiveFault::InvalidFileName(p@),
            ArchiveError::DuplicateName(n) => ArchiveFault::DuplicateName(n@),
            ArchiveError::CorruptContainer => ArchiveFault::CorruptContainer,
            ArchiveError::WriteFailed => ArchiveFault::WriteFailed,
        }
    }
}

/// A separator between the components of a path: `/`, and `\` as on
/// Windows. Both are separators on every system, so on Unix a file whose name
/// holds `\` is entered under the part after it.
pub open spec fn is_separator(c: char) -> bool {
    c == '/' || c == '\\'
}

/// The compression level of every entry this library writes: BZIP2 at 6.
pub const COMPRESSION_LEVEL: u32 = 6;

/// The last part of a path: everything after its last separator.
pub open spec fn last_part(p: Seq<char>) -> Seq<char>
    decreases p.len(),
{
    if p.len() == 0 {
        Seq::empty()
    } else if is_separator(p.last()) {
        Seq::empty()
    } else {
        last_part(p.drop_last()).push(p.last())
    }
}

/// The base name of a path: its last part, unless that is `.` or `..`, which
/// name no file. A path ending in a separator names a directory and has no
/// base name either.
pub open spec fn base_name(p: Seq<char>) -> Seq<char> {
    let part = last_part(p);
    if part == "."@ || part == ".."@ {
        Seq::empty()
    } else {
        part
    }
}

/// The base name of each path.
pub open spec fn bases(paths: Seq<Seq<char>>) -> Seq<Seq<char>> {
    paths.map_values(|p: Seq<char>| base_name(p))
}

/// The paths of the registered files.
pub open spec fn paths_of(files: Seq<(String, ShouldDelete)>) -> Seq<Seq<char>> {
    files.map_values(|f: (String, ShouldDelete)| f.0@)
}

/// Every source was read.
pub open spec fn all_read(contents: Seq<Option<Vec<u8>>>) -> bool {
    forall|i: int| 0 <= i < contents.len() ==> (#[trigger] contents[i]) is Some
}

/// `i` is the first source that could not be read.
pub open spec fn first_unread(contents: Seq<Option<Vec<u8>>>, i: int) -> bool {
    &&& 0 <= i < contents.len()
    &&& contents[i] is None
    &&& forall|j: int| 0 <= j < i ==> (#[trigger] contents[j]) is Some
}

/// The contents read, one for each source.
pub open spec fn datas(contents: Seq<Option<Vec<u8>>>) -> Seq<Seq<u8>> {
    contents.map_values(|c: Option<Vec<u8>>| c->Some_0@)
}

/// The `i`-th new name is empty or cannot be stored, or is taken by an
/// existing entry or by an earlier new name.
pub open spec fn name_clash(taken: Seq<Seq<char>>, names: Seq<Seq<char>>, i: int) -> bool {
    ||| names[i].len() == 0
    ||| !name_fits(names[i])
    ||| exists|k: int| 0 <= k < taken.len() && taken[k] == names[i]
    ||| exists|k: int| 0 <= k < i && names[k] == names[i]
}

/// All new names are non-empty and distinct from each other and from `taken`.
pub open spec fn names_ok(taken: Seq<Seq<char>>, names: Seq<Seq<char>>) -> bool {
    forall|i: int| 0 <= i < names.len() ==> !#[trigger] name_clash(taken, names, i)
}

/// `i` is the first new name that clashes.
pub open spec fn first_clash(taken: Seq<Seq<char>>, names: Seq<Seq<char>>, i: int) -> bool {
    &&& 0 <= i < names.len()
    &&& name_clash(taken, names, i)
    &&& forall|j: int| 0 <= j < i ==> !#[trigger] name_clash(taken, names, j)
}

/// The fault reported for a clashing name of the file at `path`.
pub open spec fn clash_fault(path: Seq<char>, name: Seq<char>) -> ArchiveFault {
    if name.len() == 0 || !name_fits(name) {
        ArchiveFault::InvalidFileName(path)
    } else {
        ArchiveFault::DuplicateName(name)
    }
}

/// The entries written for new files: each named by its base name and stored
/// compressed.
pub open spec fn new_entries(names: Seq<Seq<char>>, data: Seq<Seq<u8>>) -> Seq<(Seq<char>, Seq<u8>, u16)> {
    Seq::new(names.len(), |i: int| (names[i], packed(data[i], COMPRESSION_LEVEL), BZIP2_METHOD))
}

/// The names of a container's entries.
pub open spec fn entry_names(entries: Seq<(Seq<char>, Seq<u8>, u16)>) -> Seq<Seq<char>> {
    entries.map_values(|e: (Seq<char>, Seq<u8>, u16)| e.0)
}

/// Every content is small enough to be written, compressed, without the
/// large-file option.
pub open spec fn sizes_ok(data: Seq<Seq<u8>>) -> bool {
    forall|i: int|
        0 <= i < data.len() ==> (#[trigger] data[i]).len() <= SMALL_FILE_MAX && fits_compressed(data[i].len())
}

/// `bytes` is a container built fresh from files at `paths` holding `data`.
pub open spec fn build_result(paths: Seq<Seq<char>>, data: Seq<Seq<u8>>, bytes: Seq<u8>) -> bool {
    &&& names_ok(Seq::empty(), bases(paths))
    &&& listing(bytes) == new_entries(bases(paths), data)
}

/// `merged` is the container `existing` with the files at `paths` holding
/// `data` merged in.
pub open spec fn merge_result(
    existing: Seq<u8>,
    paths: Seq<Seq<char>>,
    data: Seq<Seq<u8>>,
    merged: Seq<u8>,
) -> bool {
    &&& names_ok(entry_names(listing(existing)), bases(paths))
    &&& listing(merged) == listing(existing) + new_entries(bases(paths), data)
}

/// The fault once every source was read: the first clashing name, or else a
/// failed write. A write fails on a content too large, or when the bytes
/// written, checked before they are handed out, would not read back as
/// written (a container that needs ZIP64 end records).
pub open spec fn name_or_write_fault(
    taken: Seq<Seq<char>>,
    paths: Seq<Seq<char>>,
    data: Seq<Seq<u8>>,
    f: ArchiveFault,
) -> bool {
    if names_ok(taken, bases(paths)) {
        f == ArchiveFault::WriteFailed
    } else {
        exists|i: int|
            first_clash(taken, bases(paths), i) && f == clash_fault(paths[i], #[trigger] bases(paths)[i])
    }
}

/// The fault that building from `paths` with `contents` reports.
pub open spec fn build_fault(paths: Seq<Seq<char>>, contents: Seq<Option<Vec<u8>>>, f: ArchiveFault) -> bool {
    if !all_read(contents) {
        exists|i: int| first_unread(contents, i) && f == ArchiveFault::SourceUnreadable(#[trigger] paths[i])
    } else {
        name_or_write_fault(Seq::empty(), paths, datas(contents), f)
    }
}

/// `k` is the first entry of `entries` whose name cannot be stored again.
pub open spec fn first_unfit(entries: Seq<(Seq<char>, Seq<u8>, u16)>, k: int) -> bool {
    &&& 0 <= k < entries.len()
    &&& !name_fits(entries[k].0)
    &&& forall|j: int| 0 <= j < k ==> name_fits(#[trigger] entries[j].0)
}

/// Every entry's name can be stored again.
pub open spec fn all_fit(entries: Seq<(Seq<char>, Seq<u8>, u16)>) -> bool {
    forall|j: int| 0 <= j < entries.len() ==> name_fits(#[trigger] entries[j].0)
}

/// The fault that merging `paths` with `contents` into the container
/// `existing` reports, in the order of the steps: an unreadable container,
/// else the first old entry whose name cannot be stored again, else the
/// first unreadable source, else the first clashing name, else a failed
/// write.
pub open spec fn merge_fault(
    existing: Seq<u8>,
    paths: Seq<Seq<char>>,
    contents: Seq<Option<Vec<u8>>>,
    f: ArchiveFault,
) -> bool {
    if !readable(existing) {
        f == ArchiveFault::CorruptContainer
    } else if !all_fit(listing(existing)) {
        exists|k: int|
            first_unfit(listing(existing), k) && f == ArchiveFault::InvalidFileName(
                #[trigger] listing(existing)[k].0,
            )
    } else if !all_read(contents) {
        exists|i: int| first_unread(contents, i) && f == ArchiveFault::SourceUnreadable(#[trigger] paths[i])
    } else {
        name_or_write_fault(entry_names(listing(existing)), paths, datas(contents), f)
    }
}

/// The paths, in order, of the files registered for removal.
pub open spec fn deletions(files: Seq<(String, ShouldDelete)>) -> Seq<Seq<char>>
    decreases files.len(),
{
    if files.len() == 0 {
        Seq::empty()
    } else if files.last().1 == ShouldDelete::Yes {
        deletions(files.drop_last()).push(files.last().0@)
    } else {
        deletions(files.drop_last())
    }
}

/// The base name of `path`: the part after its last `/` or `\`, or nothing
/// when that part is empty, `.` or `..`.
pub fn file_name(path: &str) -> (r: String)
    ensures
        r@ == base_name(path@),
{
    let n = path.unicode_len();
    let mut i: usize = n;
    proof {
        assert(path@.subrange(0, n as int) =~= path@);
        assert(path@.subrange(n as int, n as int) =~= Seq::<char>::empty());
    }
    while i > 0 && !separator(path.get_char(i - 1))
        invariant
            i <= n,
            n == path@.len(),
            last_part(path@) == last_part(path@.subrange(0, i as int)) + path@.subrange(i as int, n as int),
        decreases i,
    {
        proof {
            let p = path@;
            let c = p[i - 1];
            let head = p.subrange(0, i as int);
            assert(head.drop_last() =~= p.subrange(0, i - 1));
            assert(head.last() == c);
            assert(last_part(head) == last_part(p.subrange(0, i - 1)).push(c));
            assert(last_part(p.subrange(0, i - 1)).push(c) + p.subrange(i as int, n as int)
                =~= last_part(p.subrange(0, i - 1)) + p.subrange(i - 1, n as int));
        }
        i = i - 1;
    }
    proof {
        let head = path@.subrange(0, i as int);
        if i > 0 {
            assert(head.last() == path@[i - 1]);
        }
        assert(last_part(head) =~= Seq::<char>::empty());
        assert(last_part(path@) =~= path@.subrange(i as int, n as int));
    }
    let part = path.substring_char(i, n);
    if same_str(part, ".") || same_str(part, "..") {
        String::new()
    } else {
        part.to_owned()
    }
}

/// Whether `name` is the name of a price-history snapshot, which starts with
/// `mtgo-cards_`.
pub fn is_price_history_name(name: &str) -> (r: bool)
    ensures
        r == "mtgo-cards_"@.is_prefix_of(name@),
{
    let prefix = "mtgo-cards_";
    proof {
        reveal_strlit("mtgo-cards_");
    }
    let n = prefix.unicode_len();
    if name.unicode_len() < n {
        return false;
    }
    let mut i: usize = 0;
    while i < n
        invariant
            i <= n,
            n == prefix@.len(),
            prefix@ == "mtgo-cards_"@,
            n <= name@.len(),
            forall|k: int| 0 <= k < i ==> prefix@[k] == name@[k],
        decreases n - i,
    {
        if prefix.get_char(i) != name.get_char(i) {
            assert(name@.subrange(0, n as int)[i as int] == name@[i as int]);
            assert(name@.subrange(0, n as int) != prefix@);
            return false;
        }
        i = i + 1;
    }
    assert(name@.subrange(0, n as int) =~= prefix@);
    true
}

fn separator(c: char) -> (r: bool)
    ensures
        r == is_separator(c),
{
    c == '/' || c == '\\'
}

/// The base names of `paths`, in order.
fn base_names(paths: &Vec<String>) -> (r: Vec<String>)
    ensures
        r@.len() == paths@.len(),
        strings_view(r@) == bases(strings_view(paths@)),
{
    let mut r: Vec<String> = Vec::new();
    let mut i: usize = 0;
    while i < paths.len()
        invariant
            i <= paths.len(),
            r@.len() == i,
            forall|k: int| 0 <= k < i ==> (#[trigger] r@[k])@ == base_name(paths@[k]@),
        decreases paths.len() - i,
    {
        r.push(file_name(paths[i].as_str()));
        i = i + 1;
    }
    assert(strings_view(r@) =~= bases(strings_view(paths@)));
    r
}

/// The index of the first source that could not be read, if any.
fn find_unread(contents: &Vec<Option<Vec<u8>>>) -> (r: Option<usize>)
    ensures
        r is None ==> all_read(contents@),
        r is Some ==> first_unread(contents@, r->Some_0 as int),
{
    let mut i: usize = 0;
    while i < contents.len()
        invariant
            i <= contents.len(),
            forall|j: int| 0 <= j < i ==> (#[trigger] contents@[j]) is Some,
        decreases contents.len() - i,
    {
        if contents[i].is_none() {
            return Some(i);
        }
        i = i + 1;
    }
    None
}

/// The index of the first of `names` that is empty or already taken.
fn find_clash(taken: &Vec<String>, names: &Vec<String>) -> (r: Option<usize>)
    ensures
        r is None ==> names_ok(strings_view(taken@), strings_view(names@)),
        r is Some ==> first_clash(strings_view(taken@), strings_view(names@), r->Some_0 as int),
{
    let ghost tv = strings_view(taken@);
    let ghost nv = strings_view(names@);
    let mut i: usize = 0;
    while i < names.len()
        invariant
            i <= names.len(),
            tv == strings_view(taken@),
            nv == strings_view(names@),
            forall|j: int| 0 <= j < i ==> !#[trigger] name_clash(tv, nv, j),
        decreases names.len() - i,
    {
        if names[i].as_str().unicode_len() == 0 || !fits_name(names[i].as_str()) {
            return Some(i);
        }
        let mut k: usize = 0;
        while k < taken.len()
            invariant
                i < names.len(),
                k <= taken.len(),
                tv == strings_view(taken@),
                nv == strings_view(names@),
                forall|j: int| 0 <= j < i ==> !#[trigger] name_clash(tv, nv, j),
                forall|m: int| 0 <= m < k ==> tv[m] != nv[i as int],
            decreases taken.len() - k,
        {
            if taken[k] == names[i] {
                assert(tv[k as int] == nv[i as int]);
                assert(name_clash(tv, nv, i as int));
                return Some(i);
            }
            k = k + 1;
        }
        let mut k: usize = 0;
        while k < i
            invariant
                i < names.len(),
                k <= i,
                tv == strings_view(taken@),
                nv == strings_view(names@),
                forall|j: int| 0 <= j < i ==> !#[trigger] name_clash(tv, nv, j),
                forall|m: int| 0 <= m < k ==> nv[m] != nv[i as int],
            decreases i - k,
        {
            if names[k] == names[i] {
                assert(nv[k as int] == nv[i as int]);
                assert(name_clash(tv, nv, i as int));
                return Some(i);
            }
            k = k + 1;
        }
        i = i + 1;
    }
    None
}

/// Whether `name` can be stored as an entry name.
pub fn fits_name(name: &str) -> (r: bool)
    ensures
        r == name_fits(name@),
{
    let n = name.unicode_len();
    if n as u64 > NAME_MAX_CHARS {
        return false;
    }
    let mut i: usize = 0;
    while i < n
        invariant
            i <= n,
            n == name@.len(),
            n <= NAME_MAX_CHARS,
            forall|k: int| 0 <= k < i ==> !is_control(#[trigger] name@[k]),
        decreases n - i,
    {
        let c = name.get_char(i);
        if (c as u32) < 0x20 || (c as u32) == 0x7f {
            assert(is_control(name@[i as int]));
            return false;
        }
        i = i + 1;
    }
    true
}

/// Whether the bytes 42 from the end of `b` read as a ZIP64 locator.
fn ends_with_locator(b: &Vec<u8>) -> (r: bool)
    ensures
        r == locator_at_end(b@),
{
    let n = b.len();
    n >= 42 && b[n - 42] == 0x50u8 && b[n - 41] == 0x4bu8 && b[n - 40] == 0x06u8 && b[n - 39] == 0x07u8
}

/// New names that clash with nothing can all be stored.
proof fn lemma_names_ok_fit(taken: Seq<Seq<char>>, names: Seq<Seq<char>>)
    requires
        names_ok(taken, names),
    ensures
        forall|i: int| 0 <= i < names.len() ==> name_fits(#[trigger] names[i]),
{
    assert forall|i: int| 0 <= i < names.len() implies name_fits(#[trigger] names[i]) by {
        assert(!name_clash(taken, names, i));
    }
}

/// The error for the clashing name `name` of the file at `path`.
fn clash_error(path: &String, name: &String) -> (e: ArchiveError)
    ensures
        e@ == clash_fault(path@, name@),
{
    if name.as_str().unicode_len() == 0 || !fits_name(name.as_str()) {
        ArchiveError::InvalidFileName(path.clone())
    } else {
        ArchiveError::DuplicateName(name.clone())
    }
}

/// Writes one new entry for each source, named by `names`, in order. It
/// fails only on a content too large.
fn write_entries(w: &mut EntryWriter, names: &Vec<String>, contents: &Vec<Option<Vec<u8>>>) -> (r: Result<
    (),
    ArchiveError,
>)
    requires
        names.len() == contents.len(),
        all_read(contents@),
        pending(*old(w)) is None,
    ensures
        sizes_ok(datas(contents@)) ==> r is Ok,
        r is Ok ==> all_written(*final(w)) == all_written(*old(w)) + new_entries(
            strings_view(names@),
            datas(contents@),
        ),
        r is Ok ==> crate::container::closes_ok(pending(*final(w))) || !sizes_ok(datas(contents@)),
        r is Err ==> r->Err_0@ == ArchiveFault::WriteFailed && !sizes_ok(datas(contents@)),
{
    let ghost start = all_written(*w);
    let ghost data = datas(contents@);
    let ghost all = new_entries(strings_view(names@), data);
    let mut i: usize = 0;
    assert(start + all.take(0) =~= start);
    while i < names.len()
        invariant
            i <= names.len(),
            names.len() == contents.len(),
            all_read(contents@),
            data == datas(contents@),
            all == new_entries(strings_view(names@), data),
            all_written(*w) == start + all.take(i as int),
            sizes_ok(data) ==> crate::container::closes_ok(pending(*w)),
        decreases names.len() - i,
    {
        assert(contents@[i as int] is Some);
        let d = contents[i].as_ref().unwrap();
        assert(data[i as int] == d@);
        if w.start_file(names[i].as_str(), COMPRESSION_LEVEL).is_err() {
            return Err(ArchiveError::WriteFailed);
        }
        if w.write_all(d.as_slice()).is_err() {
            return Err(ArchiveError::WriteFailed);
        }
        assert(Seq::<u8>::empty() + d@ =~= d@);
        assert(all[i as int] == (names@[i as int]@, packed(d@, COMPRESSION_LEVEL), BZIP2_METHOD));
        assert(data[i as int] == d@);
        assert(start + all.take(i + 1) =~= (start + all.take(i as int)).push(all[i as int]));
        i = i + 1;
    }
    assert(all.take(names.len() as int) =~= all);
    Ok(())
}

/// A ZIP container at a stable location, pending or materialized as `State`
/// says.
pub struct Archive<State = UnArchived> {
    location: String,
    files: Vec<(String, ShouldDelete)>,
    _state: PhantomData<State>,
}

impl<State> Archive<State> {
    /// Where the container is, or is to be, written.
    pub closed spec fn spec_location(&self) -> Seq<char> {
        self.location@
    }

    /// The files registered, in order, with their removal policy.
    pub closed spec fn spec_files(&self) -> Seq<(String, ShouldDelete)> {
        self.files@
    }
}

impl Archive<UnArchived> {
    /// A pending archive at `location` with no files registered; nothing is
    /// written until [`Archive::archive`].
    pub fn new(location: &str) -> (r: Self)
        ensures
            r.spec_location() == location@,
            r.spec_files() == Seq::<(String, ShouldDelete)>::empty(),
    {
        Archive { location: location.to_owned(), files: Vec::new(), _state: PhantomData }
    }

    /// Registers `file` for the archive; it is kept once archived.
    pub fn add_file(&mut self, file: String)
        ensures
            final(self).spec_location() == old(self).spec_location(),
            final(self).spec_files() == old(self).spec_files().push((file, ShouldDelete::No)),
    {
        self.files.push((file, ShouldDelete::No));
    }

    /// Registers `file` for the archive; it is removed once archived.
    pub fn move_file(&mut self, file: String)
        ensures
            final(self).spec_location() == old(self).spec_location(),
            final(self).spec_files() == old(self).spec_files().push((file, ShouldDelete::Yes)),
    {
        self.files.push((file, ShouldDelete::Yes));
    }

    /// The paths of the registered files, in order of registration.
    pub fn file_paths(&self) -> (r: Vec<String>)
        ensures
            strings_view(r@) == paths_of(self.spec_files()),
    {
        paths(&self.files)
    }

    /// Builds the container from the registered files, whose contents, in
    /// order of registration, are `contents` (`None` where a file could not
    /// be read). Each becomes an entry named by its base name and compressed
    /// with BZIP2 at level 6.
    ///
    /// Returns the materialized archive and the bytes to write at its
    /// location, which form a readable container. Unless every file was read
    /// and the base names are distinct, name files and can be stored, the
    /// first of these that fails is reported; otherwise only a failed write
    /// can stop it (see [`name_or_write_fault`]), and not at all when every
    /// file is below the large-file threshold and the bytes written read back.
    /// Only once they are written are the files of
    /// [`Archive::files_to_delete`] to be removed.
    pub fn archive(self, contents: Vec<Option<Vec<u8>>>) -> (r: Result<(Archive<Archived>, Vec<u8>), ArchiveError>)
        requires
            contents@.len() == self.spec_files().len(),
        ensures
            r is Ok ==> {
                let (a, bytes) = r->Ok_0;
                &&& a.spec_location() == self.spec_location()
                &&& a.spec_files() == self.spec_files()
                &&& all_read(contents@)
                &&& build_result(paths_of(self.spec_files()), datas(contents@), bytes@)
                &&& readable(bytes@)
            },
            r is Err ==> build_fault(paths_of(self.spec_files()), contents@, r->Err_0@),
            all_read(contents@) && names_ok(Seq::empty(), bases(paths_of(self.spec_files()))) ==> r is Ok
                || r->Err_0@ == ArchiveFault::WriteFailed,
    {
        let paths = paths(&self.files);
        if let Some(i) = find_unread(&contents) {
            assert(paths_of(self.spec_files())[i as int] == paths@[i as int]@);
            return Err(ArchiveError::SourceUnreadable(paths[i].clone()));
        }
        let names = base_names(&paths);
        let taken: Vec<String> = Vec::new();
        assert(strings_view(taken@) =~= Seq::<Seq<char>>::empty());
        if let Some(i) = find_clash(&taken, &names) {
            return Err(clash_error(&paths[i], &names[i]));
        }
        let mut w = EntryWriter::new();
        let written = write_entries(&mut w, &names, &contents);
        if written.is_err() {
            return Err(ArchiveError::WriteFailed);
        }
        let bytes = match w.finish() {
            Ok(b) => b,
            Err(_) => {
                return Err(ArchiveError::WriteFailed);
            },
        };
        if ends_with_locator(&bytes) {
            return Err(ArchiveError::WriteFailed);
        }
        proof {
            lemma_names_ok_fit(strings_view(taken@), strings_view(names@));
        }
        assert(Seq::<(Seq<char>, Seq<u8>, u16)>::empty() + new_entries(strings_view(names@), datas(contents@))
            =~= new_entries(strings_view(names@), datas(contents@)));
        Ok((Archive { location: self.location, files: self.files, _state: PhantomData }, bytes))
    }
}

/// The paths of `files`, in order.
fn paths(files: &Vec<(String, ShouldDelete)>) -> (r: Vec<String>)
    ensures
        r@.len() == files@.len(),
        strings_view(r@) == paths_of(files@),
{
    let mut r: Vec<String> = Vec::new();
    let mut i: usize = 0;
    while i < files.len()
        invariant
            i <= files.len(),
            r@.len() == i,
            forall|k: int| 0 <= k < i ==> (#[trigger] r@[k])@ == files@[k].0@,
        decreases files.len() - i,
    {
        r.push(files[i].0.clone());
        i = i + 1;
    }
    assert(strings_view(r@) =~= paths_of(files@));
    r
}

impl Archive<Archived> {
    /// An archive at `location`, which already holds a valid container. Its
    /// entries are not read, and no files are registered.
    pub fn init(location: &str) -> (r: Self)
        ensures
            r.spec_location() == location@,
            r.spec_files() == Seq::<(String, ShouldDelete)>::empty(),
    {
        Archive { location: location.to_owned(), files: Vec::new(), _state: PhantomData }
    }

    /// The location of the container.
    pub fn location(&self) -> (r: &str)
        ensures
            r@ == self.spec_location(),
    {
        self.location.as_str()
    }

    /// The location of the container.
    pub fn get_location(&self) -> (r: &str)
        ensures
            r@ == self.spec_location(),
    {
        self.location.as_str()
    }

    /// The paths of the files the container was built from, in order; none
    /// for an archive made by [`Archive::init`].
    pub fn get_files(&self) -> (r: Vec<String>)
        ensures
            strings_view(r@) == paths_of(self.spec_files()),
    {
        paths(&self.files)
    }

    /// The files registered for removal, in order: those to remove once the
    /// container is written.
    pub fn files_to_delete(&self) -> (r: Vec<String>)
        ensures
            strings_view(r@) == deletions(self.spec_files()),
    {
        let mut r: Vec<String> = Vec::new();
        let mut i: usize = 0;
        assert(self.files@.take(0) =~= Seq::<(String, ShouldDelete)>::empty());
        while i < self.files.len()
            invariant
                i <= self.files.len(),
                strings_view(r@) == deletions(self.files@.take(i as int)),
            decreases self.files.len() - i,
        {
            let ghost before = r@;
            assert(self.files@.take(i + 1).drop_last() =~= self.files@.take(i as int));
            if self.files[i].1 == ShouldDelete::Yes {
                r.push(self.files[i].0.clone());
                assert(strings_view(r@) =~= strings_view(before).push(self.files@[i as int].0@));
            }
            i = i + 1;
        }
        assert(self.files@.take(self.files.len() as int) =~= self.files@);
        r
    }

    /// The sibling path at which the merged container is written before it
    /// replaces the one at the location in a single rename.
    pub fn temp_location(&self) -> (r: String)
        ensures
            r@ == self.spec_location() + ".tmp"@,
    {
        let r = self.location.clone().concat(".tmp");
        proof {
            reveal_strlit(".tmp");
        }
        r
    }

    /// Merges the files at `new_files`, whose contents are `contents` (`None`
    /// where a file could not be read), into `existing`, the container at the
    /// location.
    ///
    /// Every entry of `existing` is carried over as it is stored, never
    /// decompressed; each new file follows as an entry named by its base name
    /// and compressed with BZIP2 at level 6. Returns the bytes of the new
    /// container, to be written at [`Archive::temp_location`] and renamed onto
    /// the location; on an error nothing is to be written.
    ///
    /// The steps go in order: the container must be readable, its names must
    /// be ones that can be stored again, every file must have been read, and
    /// the new names must be fresh and storable; the first of these that
    /// fails is reported. Past them only a failed write can stop it (see
    /// [`name_or_write_fault`]). On success both the old and the new
    /// container are readable.
    pub fn add_to_archive(&self, existing: &Vec<u8>, new_files: &Vec<String>, contents: &Vec<Option<Vec<u8>>>) -> (r:
        Result<Vec<u8>, ArchiveError>)
        requires
            new_files.len() == contents.len(),
        ensures
            r is Ok ==> all_read(contents@) && readable(existing@) && readable(r->Ok_0@) && merge_result(
                existing@,
                strings_view(new_files@),
                datas(contents@),
                r->Ok_0@,
            ),
            r is Err ==> merge_fault(existing@, strings_view(new_files@), contents@, r->Err_0@),
            all_read(contents@) && readable(existing@) && all_fit(listing(existing@)) && names_ok(
                entry_names(listing(existing@)),
                bases(strings_view(new_files@)),
            ) ==> r is Ok || r->Err_0@ == ArchiveFault::WriteFailed,
    {
        merge(existing, new_files, contents)
    }

    /// Merges as [`Archive::add_to_archive`] does, and also names the files to
    /// remove once the new container has replaced the old one: all of
    /// `files`.
    pub fn move_to_archive(&self, existing: &Vec<u8>, files: &Vec<String>, contents: &Vec<Option<Vec<u8>>>) -> (r:
        Result<(Vec<u8>, Vec<String>), ArchiveError>)
        requires
            files.len() == contents.len(),
        ensures
            r is Ok ==> {
                let (bytes, remove) = r->Ok_0;
                &&& all_read(contents@)
                &&& readable(existing@)
                &&& readable(bytes@)
                &&& merge_result(existing@, strings_view(files@), datas(contents@), bytes@)
                &&& strings_view(remove@) == strings_view(files@)
            },
            r is Err ==> merge_fault(existing@, strings_view(files@), contents@, r->Err_0@),
            all_read(contents@) && readable(existing@) && all_fit(listing(existing@)) && names_ok(
                entry_names(listing(existing@)),
                bases(strings_view(files@)),
            ) ==> r is Ok || r->Err_0@ == ArchiveFault::WriteFailed,
    {
        match merge(existing, files, contents) {
            Ok(bytes) => Ok((bytes, files.clone())),
            Err(e) => Err(e),
        }
    }
}

/// The merge behind [`Archive::add_to_archive`].
fn merge(existing: &Vec<u8>, new_files: &Vec<String>, contents: &Vec<Option<Vec<u8>>>) -> (r: Result<
    Vec<u8>,
    ArchiveError,
>)
    requires
        new_files.len() == contents.len(),
    ensures
        r is Ok ==> all_read(contents@) && readable(existing@) && readable(r->Ok_0@) && merge_result(
            existing@,
            strings_view(new_files@),
            datas(contents@),
            r->Ok_0@,
        ),
        r is Err ==> merge_fault(existing@, strings_view(new_files@), contents@, r->Err_0@),
{
    let ghost bytes = existing@;
    let ghost old_entries = listing(bytes);
    let len = existing.len() as u64;
    let copy = existing.clone();
    assert(copy@ =~= existing@);
    let mut reader = match EntryReader::open(copy) {
        Ok(r) => r,
        Err(_) => {
            return Err(ArchiveError::CorruptContainer);
        },
    };
    let n = reader.len();
    let mut taken: Vec<String> = Vec::new();
    let mut i: usize = 0;
    while i < n
        invariant
            i <= n,
            n == old_entries.len(),
            old_entries == listing(bytes),
            bytes == existing@,
            len == bytes.len(),
            opens(bytes),
            held(reader) == old_entries,
            source(reader) == bytes,
            taken@.len() == i,
            forall|k: int| 0 <= k < i ==> (#[trigger] taken@[k])@ == old_entries[k].0,
            forall|k: int| 0 <= k < i ==> #[trigger] raw_ok(bytes, k) && window_fits(bytes, k),
        decreases n - i,
    {
        let file = match reader.by_index_raw(i) {
            Ok(f) => f,
            Err(_) => {
                assert(!raw_ok(bytes, i as int));
                assert(!readable(bytes));
                return Err(ArchiveError::CorruptContainer);
            },
        };
        assert(origin(file) == (bytes, i as int));
        assert(raw_ok(bytes, i as int));
        let start = data_start(&file);
        let size = compressed_size(&file);
        if start > len || size > len - start {
            assert(!window_fits(bytes, i as int));
            assert(!readable(bytes));
            return Err(ArchiveError::CorruptContainer);
        }
        assert(start == entry_data_start(bytes, i as int) && size == entry_size(bytes, i as int));
        assert(window_fits(bytes, i as int));
        taken.push(entry_name(&file));
        assert forall|k: int| 0 <= k < i + 1 implies #[trigger] raw_ok(bytes, k) && window_fits(bytes, k) by {
            if k < i {
            }
        }
        i = i + 1;
    }
    assert(readable(bytes));
    assert(strings_view(taken@) =~= entry_names(old_entries));
    let mut i: usize = 0;
    while i < n
        invariant
            i <= n,
            n == old_entries.len(),
            old_entries == listing(bytes),
            bytes == existing@,
            readable(bytes),
            taken@.len() == n,
            forall|k: int| 0 <= k < n ==> (#[trigger] taken@[k])@ == old_entries[k].0,
            forall|k: int| 0 <= k < i ==> name_fits(#[trigger] old_entries[k].0),
        decreases n - i,
    {
        if !fits_name(taken[i].as_str()) {
            assert(first_unfit(old_entries, i as int));
            assert(!all_fit(old_entries));
            return Err(ArchiveError::InvalidFileName(taken[i].clone()));
        }
        i = i + 1;
    }
    assert(all_fit(old_entries));
    if let Some(i) = find_unread(contents) {
        assert(strings_view(new_files@)[i as int] == new_files@[i as int]@);
        return Err(ArchiveError::SourceUnreadable(new_files[i].clone()));
    }
    assert(all_read(contents@));
    let names = base_names(new_files);
    if let Some(k) = find_clash(&taken, &names) {
        return Err(clash_error(&new_files[k], &names[k]));
    }
    proof {
        lemma_names_ok_fit(strings_view(taken@), strings_view(names@));
    }
    let mut w = EntryWriter::new();
    let mut i: usize = 0;
    while i < n
        invariant
            i <= n,
            n == old_entries.len(),
            old_entries == listing(bytes),
            bytes == existing@,
            all_read(contents@),
            readable(bytes),
            held(reader) == old_entries,
            source(reader) == bytes,
            pending(w) is None,
            all_written(w) == old_entries.take(i as int),
            names@.len() == contents@.len(),
        decreases n - i,
    {
        assert(raw_ok(bytes, i as int) && window_fits(bytes, i as int));
        let file = match reader.by_index_raw(i) {
            Ok(f) => f,
            Err(_) => {
                return Err(ArchiveError::CorruptContainer);
            },
        };
        assert(origin(file) == (bytes, i as int));
        if w.raw_copy_file(file).is_err() {
            return Err(ArchiveError::CorruptContainer);
        }
        assert(all_written(w) =~= old_entries.take(i as int).push(old_entries[i as int]));
        assert(old_entries.take(i + 1) =~= old_entries.take(i as int).push(old_entries[i as int]));
        i = i + 1;
    }
    assert(old_entries.take(n as int) =~= old_entries);
    if write_entries(&mut w, &names, contents).is_err() {
        return Err(ArchiveError::WriteFailed);
    }
    let out = match w.finish() {
        Ok(b) => b,
        Err(_) => {
            return Err(ArchiveError::WriteFailed);
        },
    };
    if ends_with_locator(&out) {
        return Err(ArchiveError::WriteFailed);
    }
    proof {
        let all = all_written(w);
        let fresh = new_entries(strings_view(names@), datas(contents@));
        assert(all == old_entries + fresh);
        assert forall|j: int| 0 <= j < all.len() implies name_fits(#[trigger] all[j].0) by {
            if j < old_entries.len() {
                assert(all[j] == old_entries[j]);
            } else {
                assert(all[j] == fresh[j - old_entries.len()]);
            }
        }
    }
    Ok(out)
}

/// The views of entries read back from a container.
pub open spec fn entries_view(v: Seq<(String, Vec<u8>)>) -> Seq<(Seq<char>, Seq<u8>)> {
    v.map_values(|e: (String, Vec<u8>)| (e.0@, e.1@))
}

/// `read` is what reading the container `bytes` back gives: each entry's
/// name, and its stored bytes decompressed.
pub open spec fn read_back(bytes: Seq<u8>, read: Seq<(Seq<char>, Seq<u8>)>) -> bool {
    &&& read.len() == listing(bytes).len()
    &&& forall|i: int|
        0 <= i < read.len() ==> {
            &&& (#[trigger] read[i]).0 == listing(bytes)[i].0
            &&& forall|d: Seq<u8>|
                listing(bytes)[i].2 == BZIP2_METHOD && listing(bytes)[i].1 == packed(d, COMPRESSION_LEVEL) ==> read[i].1 == d
        }
}

/// Reads every entry of the container `bytes`, in order: its name and its
/// decompressed contents.
pub fn read_entries(bytes: Vec<u8>) -> (r: Result<Vec<(String, Vec<u8>)>, ArchiveError>)
    ensures
        r is Ok ==> read_back(bytes@, entries_view(r->Ok_0@)),
        r is Err ==> r->Err_0@ == ArchiveFault::CorruptContainer,
        opens(bytes@) && (forall|i: int| 0 <= i < listing(bytes@).len() ==> #[trigger] reads_back(bytes@, i))
            ==> r is Ok,
{
    let ghost entries = listing(bytes@);
    let ghost all = bytes@;
    let copy = bytes.clone();
    assert(copy@ =~= bytes@);
    let mut reader = match EntryReader::open(copy) {
        Ok(r) => r,
        Err(_) => {
            assert(!opens(all));
            return Err(ArchiveError::CorruptContainer);
        },
    };
    let n = reader.len();
    let mut out: Vec<(String, Vec<u8>)> = Vec::new();
    let mut i: usize = 0;
    while i < n
        invariant
            i <= n,
            n == entries.len(),
            entries == listing(all),
            all == bytes@,
            held(reader) == entries,
            source(reader) == all,
            opens(all),
            out@.len() == i,
            forall|k: int|
                0 <= k < i ==> {
                    &&& (#[trigger] out@[k]).0@ == entries[k].0
                    &&& forall|d: Seq<u8>|
                        entries[k].2 == BZIP2_METHOD && entries[k].1 == packed(d, COMPRESSION_LEVEL) ==> out@[k].1@ == d
                },
        decreases n - i,
    {
        let mut file = match reader.by_index(i) {
            Ok(Ok(f)) => f,
            Ok(Err(_)) => {
                assert(!reads_back(all, i as int));
                return Err(ArchiveError::CorruptContainer);
            },
            Err(_) => {
                assert(!reads_back(all, i as int));
                return Err(ArchiveError::CorruptContainer);
            },
        };
        let name = entry_name(&file);
        let data = match read_entry(&mut file) {
            Ok(d) => d,
            Err(_) => {
                assert(!reads_back(all, i as int));
                return Err(ArchiveError::CorruptContainer);
            },
        };
        out.push((name, data));
        i = i + 1;
    }
    proof {
        let v = entries_view(out@);
        assert forall|k: int| 0 <= k < v.len() implies {
            &&& (#[trigger] v[k]).0 == listing(bytes@)[k].0
            &&& forall|d: Seq<u8>|
                listing(bytes@)[k].2 == BZIP2_METHOD && listing(bytes@)[k].1 == packed(d, COMPRESSION_LEVEL) ==> v[k].1 == d
        } by {
            assert(v[k] == (out@[k].0@, out@[k].1@));
        }
    }
    Ok(out)
}

/// Building a container from files whose base names are distinct and reading
/// it back gives exactly one entry per file, in order, named by the file's
/// base name and holding the file's contents.
pub proof fn round_trip(paths: Seq<Seq<char>>, data: Seq<Seq<u8>>, bytes: Seq<u8>, read: Seq<(Seq<char>, Seq<u8>)>)
    requires
        paths.len() == data.len(),
        build_result(paths, data, bytes),
        read_back(bytes, read),
    ensures
        read.len() == paths.len(),
        forall|i: int| 0 <= i < read.len() ==> #[trigger] read[i] == (base_name(paths[i]), data[i]),
{
    assert forall|i: int| 0 <= i < read.len() implies #[trigger] read[i] == (base_name(paths[i]), data[i]) by {
        assert(listing(bytes)[i] == (bases(paths)[i], packed(data[i], COMPRESSION_LEVEL), BZIP2_METHOD));
        assert(read[i].0 == listing(bytes)[i].0);
        assert(listing(bytes)[i].2 == BZIP2_METHOD && listing(bytes)[i].1 == packed(data[i], COMPRESSION_LEVEL) ==> read[i].1 == data[i]);
    }
}

/// Merging K new files into a container of M entries gives M + K entries: the
/// M old ones first, each with the very name, stored (compressed) bytes and
/// compression method it had, then one per new file, named by its base name
/// and compressed with BZIP2.
pub proof fn merge_keeps_old_entries(existing: Seq<u8>, paths: Seq<Seq<char>>, data: Seq<Seq<u8>>, merged: Seq<u8>)
    requires
        paths.len() == data.len(),
        merge_result(existing, paths, data, merged),
    ensures
        listing(merged).len() == listing(existing).len() + paths.len(),
        forall|i: int| 0 <= i < listing(existing).len() ==> #[trigger] listing(merged)[i] == listing(existing)[i],
        forall|k: int|
            0 <= k < paths.len() ==> #[trigger] listing(merged)[listing(existing).len() + k] == (
                base_name(paths[k]),
                packed(data[k], COMPRESSION_LEVEL),
                BZIP2_METHOD,
            ),
{
    let m = listing(existing).len();
    assert forall|k: int| 0 <= k < paths.len() implies #[trigger] listing(merged)[m + k] == (
        base_name(paths[k]),
        packed(data[k], COMPRESSION_LEVEL),
        BZIP2_METHOD,
    ) by {
        assert(new_entries(bases(paths), data)[k] == (bases(paths)[k], packed(data[k], COMPRESSION_LEVEL), BZIP2_METHOD));
    }
}

/// Merging no files into a container gives a container with the same
/// entries: the same names, stored bytes and methods, in the same order.
pub proof fn merging_nothing_keeps_entries(existing: Seq<u8>, merged: Seq<u8>)
    requires
        merge_result(existing, Seq::empty(), Seq::empty(), merged),
    ensures
        listing(merged) == listing(existing),
{
    assert(new_entries(bases(Seq::<Seq<char>>::empty()), Seq::<Seq<u8>>::empty()) =~= Seq::empty());
    assert(listing(existing) + Seq::<(Seq<char>, Seq<u8>, u16)>::empty() =~= listing(existing));
}

/// A container just built can be merged into: it is readable, and every
/// name in it can be stored again, so a merge of read files under fresh
/// storable names can fail only in writing.
pub proof fn built_container_accepts_merge(paths: Seq<Seq<char>>, data: Seq<Seq<u8>>, bytes: Seq<u8>)
    requires
        paths.len() == data.len(),
        build_result(paths, data, bytes),
        readable(bytes),
    ensures
        readable(bytes),
        all_fit(listing(bytes)),
        entry_names(listing(bytes)) == bases(paths),
{
    lemma_names_ok_fit(Seq::empty(), bases(paths));
    assert forall|j: int| 0 <= j < listing(bytes).len() implies name_fits(#[trigger] listing(bytes)[j].0) by {
        assert(listing(bytes)[j] == new_entries(bases(paths), data)[j]);
    }
    assert(entry_names(listing(bytes)) =~= bases(paths));
}

/// A merge into a sound container, handed a new file that could not be read,
/// fails naming the first such file, before anything is written, so the
/// container at the location stays as it was. (Every merge that reads a file
/// back fails this way or earlier: its success needs every file read.)
pub proof fn unreadable_file_fails_merge(
    existing: Seq<u8>,
    paths: Seq<Seq<char>>,
    contents: Seq<Option<Vec<u8>>>,
    f: ArchiveFault,
    i: int,
)
    requires
        readable(existing),
        all_fit(listing(existing)),
        0 <= i < contents.len(),
        contents[i] is None,
        merge_fault(existing, paths, contents, f),
    ensures
        exists|j: int| first_unread(contents, j) && f == ArchiveFault::SourceUnreadable(#[trigger] paths[j]),
{
}

/// A path is among those removed after archiving exactly when some file was
/// registered at it to be removed: files registered to be kept are left alone
/// unless the same path was also registered for removal.
pub proof fn deletion_policy(files: Seq<(String, ShouldDelete)>)
    ensures
        forall|p: Seq<char>|
            #[trigger] deletions(files).contains(p) <==> exists|i: int|
                0 <= i < files.len() && files[i].1 == ShouldDelete::Yes && (#[trigger] files[i]).0@ == p,
    decreases files.len(),
{
    if files.len() > 0 {
        let init = files.drop_last();
        deletion_policy(init);
        assert forall|p: Seq<char>|
            #[trigger] deletions(files).contains(p) <==> exists|i: int|
                0 <= i < files.len() && files[i].1 == ShouldDelete::Yes && (#[trigger] files[i]).0@ == p by {
            if deletions(files).contains(p) {
                if files.last().1 == ShouldDelete::Yes && p == files.last().0@ {
                    assert(files[files.len() - 1].0@ == p);
                } else {
                    if files.last().1 == ShouldDelete::Yes {
                        let k = choose|k: int| 0 <= k < deletions(files).len() && deletions(files)[k] == p;
                        assert(deletions(init)[k] == p);
                    }
                    assert(deletions(init).contains(p));
                    let i = choose|i: int| 0 <= i < init.len() && init[i].1 == ShouldDelete::Yes && (#[trigger] init[i]).0@ == p;
                    assert(files[i] == init[i]);
                }
            }
            if exists|i: int| 0 <= i < files.len() && files[i].1 == ShouldDelete::Yes && (#[trigger] files[i]).0@ == p {
                let i = choose|i: int| 0 <= i < files.len() && files[i].1 == ShouldDelete::Yes && (#[trigger] files[i]).0@ == p;
                if i == files.len() - 1 {
                    assert(deletions(files)[deletions(files).len() - 1] == p);
                } else {
                    assert(init[i] == files[i]);
                    assert(deletions(init).contains(p));
                    let k = choose|k: int| 0 <= k < deletions(init).len() && deletions(init)[k] == p;
                    if files.last().1 == ShouldDelete::Yes {
                        assert(deletions(files)[k] == p);
                    }
                }
            }
        }
    }
}

} // verus!
