//! The ZIP container as this library sees it: a sequence of entries, each a
//! name, the bytes stored for it and its compression method. Everything here
//! goes through the `zip` crate, which does all encoding, compression and
//! parsing. The writer works on a buffer in memory, which never refuses a
//! write.

use std::io::Cursor;
use std::io::Read;
use std::io::Write;
use vstd::prelude::*;

verus! {

/// The zip crate's error, carried through opaque and mapped to the library's
/// own errors by the callers.
#[verifier::external_type_specification]
#[verifier::external_body]
pub struct ExZipError(zip::result::ZipError);

/// The zip crate's report that an entry could not be decrypted.
#[verifier::external_type_specification]
#[verifier::external_body]
pub struct ExInvalidPassword(zip::result::InvalidPassword);

/// One entry of a container being read, handed out by
/// [`EntryReader::by_index`] and [`EntryReader::by_index_raw`].
#[verifier::external_type_specification]
#[verifier::external_body]
pub struct ExZipFile<'a>(zip::read::ZipFile<'a>);

/// The stored (compressed) form of `data` under BZIP2 at `level`.
pub uninterp spec fn packed(data: Seq<u8>, level: u32) -> Seq<u8>;

/// The ZIP compression method number of BZIP2.
pub const BZIP2_METHOD: u16 = 12;

/// The largest size the writer handles without the ZIP64 large-file option.
pub const SMALL_FILE_MAX: u64 = 0xFFFF_FFFF;

/// Whether the ZIP reader accepts `bytes`: it finds and parses their central
/// directory.
pub uninterp spec fn opens(bytes: Seq<u8>) -> bool;

/// The entries, in central-directory order, that the ZIP reader finds in
/// `bytes`: each entry's name, stored bytes and compression method number.
pub uninterp spec fn listing(bytes: Seq<u8>) -> Seq<(Seq<char>, Seq<u8>, u16)>;

/// Whether the local header of the entry at `index` of `bytes` can be read,
/// so that the entry can be handed out as it is stored.
pub uninterp spec fn raw_ok(bytes: Seq<u8>, index: int) -> bool;

/// Where the stored bytes of the entry at `index` of `bytes` start, as its
/// local header says.
pub uninterp spec fn entry_data_start(bytes: Seq<u8>, index: int) -> u64;

/// The compressed size of the entry at `index` of `bytes`, as the central
/// directory says.
pub uninterp spec fn entry_size(bytes: Seq<u8>, index: int) -> u64;

/// The stored bytes of the entry at `index` lie within `bytes`.
pub open spec fn window_fits(bytes: Seq<u8>, index: int) -> bool {
    entry_data_start(bytes, index) + entry_size(bytes, index) <= bytes.len()
}

/// The container `bytes` opens, and every entry of it can be handed out as
/// stored, with its stored bytes within the container.
pub open spec fn readable(bytes: Seq<u8>) -> bool {
    &&& opens(bytes)
    &&& forall|i: int| 0 <= i < listing(bytes).len() ==> #[trigger] raw_ok(bytes, i) && window_fits(bytes, i)
}

/// The longest name, in characters, that the library writes: at most four
/// UTF-8 bytes each, it stays within the 65535 bytes that a ZIP header can
/// give a name.
pub const NAME_MAX_CHARS: u64 = 16383;

/// A control character (below a space, or DEL).
pub open spec fn is_control(c: char) -> bool {
    (c as u32) < 0x20 || (c as u32) == 0x7f
}

/// A name the writer stores and the reader finds again: short enough for its
/// header field, and free of control characters, so that no part of its
/// UTF-8 bytes reads as a ZIP record signature.
pub open spec fn name_fits(name: Seq<char>) -> bool {
    &&& name.len() <= NAME_MAX_CHARS
    &&& forall|i: int| 0 <= i < name.len() ==> !is_control(#[trigger] name[i])
}

/// The four bytes 42 from the end of `bytes` are the signature of a ZIP64
/// end-of-directory locator, which the reader then goes by.
pub open spec fn locator_at_end(bytes: Seq<u8>) -> bool {
    &&& bytes.len() >= 42
    &&& bytes[bytes.len() - 42] == 0x50u8
    &&& bytes[bytes.len() - 41] == 0x4bu8
    &&& bytes[bytes.len() - 40] == 0x06u8
    &&& bytes[bytes.len() - 39] == 0x07u8
}

/// The name, stored bytes and compression method number of an entry being
/// read.
pub uninterp spec fn entry_of(f: zip::read::ZipFile<'_>) -> (Seq<char>, Seq<u8>, u16);

/// The container bytes and the index an entry being read comes from.
pub uninterp spec fn origin(f: zip::read::ZipFile<'_>) -> (Seq<u8>, int);

/// Whether the entry at `index` of `bytes` can be handed out to be
/// decompressed (it needs no password) and then read to its end without an
/// error: its data decompresses and matches its checksum.
pub uninterp spec fn reads_back(bytes: Seq<u8>, index: int) -> bool;

/// Whether reading the entry decompresses it, rather than handing out its
/// stored bytes.
pub uninterp spec fn decompresses(f: zip::read::ZipFile<'_>) -> bool;

/// A container being written in memory.
///
/// The writer is held in a hidden field: Verus refuses a declaration of
/// `zip::ZipWriter`, whose type parameter is bound by `io::Write + io::Seek`.
#[verifier::external_body]
pub struct EntryWriter {
    inner: zip::ZipWriter<Cursor<Vec<u8>>>,
}

/// The entries written in full so far, in order: name, stored bytes and
/// compression method number.
pub uninterp spec fn written(w: EntryWriter) -> Seq<(Seq<char>, Seq<u8>, u16)>;

/// The entry being written, if any: its name, the data given for it so far,
/// not yet compressed, and its compression level.
pub uninterp spec fn pending(w: EntryWriter) -> Option<(Seq<char>, Seq<u8>, u32)>;

/// The entry that a pending one becomes once it is finished.
pub open spec fn closed_entries(p: Option<(Seq<char>, Seq<u8>, u32)>) -> Seq<(Seq<char>, Seq<u8>, u16)> {
    match p {
        Some((name, data, level)) => seq![(name, packed(data, level), BZIP2_METHOD)],
        None => Seq::empty(),
    }
}

/// Data of `len` bytes stays within the large-file threshold once compressed
/// with BZIP2, which never grows data by more than 1% plus 600 bytes.
pub open spec fn fits_compressed(len: nat) -> bool {
    len + (len + 99) / 100 + 600 <= SMALL_FILE_MAX
}

/// A pending entry, if any, fits without the large-file option once
/// compressed, so that finishing it succeeds.
pub open spec fn closes_ok(p: Option<(Seq<char>, Seq<u8>, u32)>) -> bool {
    match p {
        Some((name, data, level)) => fits_compressed(data.len()),
        None => true,
    }
}

/// All entries of a writer, the pending one finished.
pub open spec fn all_written(w: EntryWriter) -> Seq<(Seq<char>, Seq<u8>, u16)> {
    written(w) + closed_entries(pending(w))
}

/// A container opened for reading from memory, held in a hidden field for the
/// same reason as [`EntryWriter`].
#[verifier::external_body]
pub struct EntryReader {
    inner: zip::ZipArchive<Cursor<Vec<u8>>>,
}

/// The entries of the opened container, in central-directory order.
pub uninterp spec fn held(r: EntryReader) -> Seq<(Seq<char>, Seq<u8>, u16)>;

/// The bytes the container was opened on.
pub uninterp spec fn source(r: EntryReader) -> Seq<u8>;

impl EntryWriter {
    /// Relies on `ZipWriter::new`: a writer over an empty buffer holds no
    /// entry yet.
    #[verifier::external_body]
    pub(crate) fn new() -> (w: EntryWriter)
        ensures
            written(w) == Seq::<(Seq<char>, Seq<u8>, u16)>::empty(),
            pending(w) is None,
    {
        EntryWriter { inner: zip::ZipWriter::new(Cursor::new(Vec::new())) }
    }

    /// Relies on `ZipWriter::start_file` with BZIP2 at `level`: it finishes
    /// the entry being written, if any, and starts one named `name`. Finishing
    /// fails only on a compressed size past the large-file threshold, which
    /// the bound of the bzip2 manual (at most 1% larger plus 600 bytes) rules
    /// out for small enough data; a level from 1 to 9 is accepted (0 would
    /// make the encoder panic).
    #[verifier::external_body]
    pub(crate) fn start_file(&mut self, name: &str, level: u32) -> (r: Result<(), zip::result::ZipError>)
        requires
            1 <= level <= 9,
        ensures
            closes_ok(pending(*old(self))) ==> r is Ok,
            r is Ok ==> written(*final(self)) == all_written(*old(self)),
            r is Ok ==> pending(*final(self)) == Some((name@, Seq::<u8>::empty(), level)),
    {
        let options = zip::write::FileOptions::default()
            .compression_method(zip::CompressionMethod::Bzip2)
            .compression_level(Some(level as i32));
        self.inner.start_file(name, options)
    }

    /// Relies on the writer's `io::Write::write_all`: `data` is added to the
    /// entry being written, which is compressed as one stream. It fails only
    /// once the entry's data passes the large-file threshold.
    #[verifier::external_body]
    pub(crate) fn write_all(&mut self, data: &[u8]) -> (r: Result<(), zip::result::ZipError>)
        requires
            pending(*old(self)) is Some,
        ensures
            pending(*old(self))->Some_0.1.len() + data@.len() <= SMALL_FILE_MAX ==> r is Ok,
            r is Ok ==> written(*final(self)) == written(*old(self)),
            r is Ok ==> pending(*final(self)) == Some(
                (
                    pending(*old(self))->Some_0.0,
                    pending(*old(self))->Some_0.1 + data@,
                    pending(*old(self))->Some_0.2,
                ),
            ),
    {
        self.inner.write_all(data).map_err(zip::result::ZipError::from)
    }

    /// Relies on `ZipWriter::raw_copy_file`: the entry `file` is appended as
    /// it is stored, with its name, compressed bytes and compression method,
    /// and is never decompressed. Its stored bytes are copied in full when
    /// they lie within the container they come from; the large-file option is
    /// set for the copy when its sizes need it.
    #[verifier::external_body]
    pub(crate) fn raw_copy_file(&mut self, file: zip::read::ZipFile<'_>) -> (r: Result<(), zip::result::ZipError>)
        requires
            !decompresses(file),
            window_fits(origin(file).0, origin(file).1),
        ensures
            closes_ok(pending(*old(self))) ==> r is Ok,
            r is Ok ==> written(*final(self)) == all_written(*old(self)).push(entry_of(file)),
            r is Ok ==> pending(*final(self)) is None,
    {
        self.inner.raw_copy_file(file)
    }

    /// Relies on `ZipWriter::finish`, which finishes the entry being written
    /// (failing, as `start_file` does, only past the large-file threshold)
    /// and writes the central directory of every entry, in order, and hands
    /// back the buffer. The reader finds those entries again when each name
    /// fits its 16-bit length field and holds no control character, and
    /// when the bytes 42 from the end do not read as a ZIP64 locator: the
    /// reader then takes the plain end record, which the writer made. (The
    /// writer puts a real locator there when it needs ZIP64 records, for
    /// more than 65535 entries or past 4 GiB, and the last header can also
    /// hold those bytes by chance; such output is not described here.)
    #[verifier::external_body]
    pub(crate) fn finish(self) -> (r: Result<Vec<u8>, zip::result::ZipError>)
        ensures
            closes_ok(pending(self)) ==> r is Ok,
            r is Ok && (forall|i: int|
                0 <= i < all_written(self).len() ==> name_fits(#[trigger] all_written(self)[i].0))
                && !locator_at_end(r->Ok_0@) ==> listing(r->Ok_0@) == all_written(self) && readable(
                r->Ok_0@,
            ),
    {
        let mut inner = self.inner;
        inner.finish().map(|c| c.into_inner())
    }
}

impl EntryReader {
    /// Relies on `ZipArchive::new`, which reads the central directory of
    /// `bytes`.
    #[verifier::external_body]
    pub(crate) fn open(bytes: Vec<u8>) -> (r: Result<EntryReader, zip::result::ZipError>)
        ensures
            r is Ok <==> opens(bytes@),
            r is Ok ==> held(r->Ok_0) == listing(bytes@),
            r is Ok ==> source(r->Ok_0) == bytes@,
    {
        zip::ZipArchive::new(Cursor::new(bytes)).map(|inner| EntryReader { inner })
    }

    /// Relies on `ZipArchive::len`: the number of entries.
    #[verifier::external_body]
    pub(crate) fn len(&self) -> (n: usize)
        ensures
            n == held(*self).len(),
    {
        self.inner.len()
    }

    /// Relies on `ZipArchive::by_index_decrypt` with an empty password: the
    /// entry at `index`, set up to be decompressed, or the report that it
    /// cannot be decrypted. (`by_index` would panic on that report.)
    #[verifier::external_body]
    pub(crate) fn by_index<'a>(&'a mut self, index: usize) -> (r: Result<
        Result<zip::read::ZipFile<'a>, zip::result::InvalidPassword>,
        zip::result::ZipError,
    >)
        requires
            index < held(*old(self)).len(),
        ensures
            held(*final(self)) == held(*old(self)),
            source(*final(self)) == source(*old(self)),
            reads_back(source(*old(self)), index as int) ==> r matches Ok(Ok(_)),
            r matches Ok(Ok(f)) ==> entry_of(f) == held(*old(self))[index as int] && decompresses(f)
                && origin(f) == (source(*old(self)), index as int),
    {
        self.inner.by_index_decrypt(index, &[])
    }

    /// Relies on `ZipArchive::by_index_raw`: the entry at `index`, set up to
    /// be read as it is stored, whatever its compression method. It fails
    /// exactly when the entry's local header cannot be read.
    #[verifier::external_body]
    pub(crate) fn by_index_raw<'a>(&'a mut self, index: usize) -> (r: Result<
        zip::read::ZipFile<'a>,
        zip::result::ZipError,
    >)
        requires
            index < held(*old(self)).len(),
        ensures
            held(*final(self)) == held(*old(self)),
            source(*final(self)) == source(*old(self)),
            r is Ok <==> raw_ok(source(*old(self)), index as int),
            r is Ok ==> entry_of(r->Ok_0) == held(*old(self))[index as int],
            r is Ok ==> !decompresses(r->Ok_0),
            r is Ok ==> origin(r->Ok_0) == (source(*old(self)), index as int),
    {
        self.inner.by_index_raw(index)
    }
}

/// Relies on `ZipFile::name`: the entry's name.
#[verifier::external_body]
pub(crate) fn entry_name(file: &zip::read::ZipFile<'_>) -> (r: String)
    ensures
        r@ == entry_of(*file).0,
{
    file.name().to_owned()
}

/// Relies on `ZipFile::data_start`: where the entry's stored bytes start, as
/// read from its local header when it was handed out.
#[verifier::external_body]
pub(crate) fn data_start(file: &zip::read::ZipFile<'_>) -> (r: u64)
    ensures
        r == entry_data_start(origin(*file).0, origin(*file).1),
{
    file.data_start()
}

/// Relies on `ZipFile::compressed_size`: the entry's compressed size.
#[verifier::external_body]
pub(crate) fn compressed_size(file: &zip::read::ZipFile<'_>) -> (r: u64)
    ensures
        r == entry_size(origin(*file).0, origin(*file).1),
{
    file.compressed_size()
}

/// Relies on `io::Read::read_to_end` on the entry, which decompresses it:
/// bytes stored with BZIP2 as the compressed form of some data read back as
/// that data.
#[verifier::external_body]
pub(crate) fn read_entry(file: &mut zip::read::ZipFile<'_>) -> (r: Result<Vec<u8>, zip::result::ZipError>)
    requires
        decompresses(*old(file)),
    ensures
        reads_back(origin(*old(file)).0, origin(*old(file)).1) ==> r is Ok,
        r is Ok ==> forall|d: Seq<u8>, level: u32|
            entry_of(*old(file)).2 == BZIP2_METHOD && entry_of(*old(file)).1 == packed(d, level) ==> r->Ok_0@
                == d,
{
    let mut data = Vec::new();
    file.read_to_end(&mut data)?;
    Ok(data)
}

} // verus!
