//! Compression of bytes into a 7z archive with one LZMA2 entry, and what is
//! kept and handed back when such an archive is unpacked. The reading of an
//! archive is left to the caller: the 7z library does not take every input
//! without panicking.

use vstd::prelude::*;

verus! {

/// A writer of the 7z library over a buffer in memory.
#[verifier::external_body]
pub struct ArchiveWriter {
    inner: sevenz_rust::SevenZWriter<std::io::Cursor<Vec<u8>>>,
}

/// The error of the 7z library.
#[verifier::external_type_specification]
#[verifier::external_body]
pub struct ExSevenZError(sevenz_rust::Error);

/// The greatest compression level.
pub const MAX_LEVEL: u8 = 9;

/// The level that [`zip`] compresses with.
pub const DEFAULT_LEVEL: u8 = 6;

/// Why bytes were not compressed or an archive not unpacked.
#[derive(Clone, Copy, Debug, PartialEq, Eq, Structural)]
pub enum ArchiveError {
    /// The compression level is above nine.
    InvalidLevel,
    /// The writer could not be set up.
    Create,
    /// The entry could not be compressed.
    Compress,
    /// The archive could not be completed.
    Finalize,
    /// The bytes are not a 7z archive that can be opened.
    Open,
    /// The entries of the archive could not be read.
    Read,
    /// The archive holds no entry.
    NoFiles,
}

impl ArchiveError {
    /// The message of this error.
    pub open spec fn message(self) -> Seq<char> {
        match self {
            ArchiveError::InvalidLevel => "Compression level must be between 0 and 9"@,
            ArchiveError::Create => "Failed to create 7z writer"@,
            ArchiveError::Compress => "Failed to compress data"@,
            ArchiveError::Finalize => "Failed to finalize 7z archive"@,
            ArchiveError::Open => "Failed to open 7z archive"@,
            ArchiveError::Read => "Failed to read archive entries"@,
            ArchiveError::NoFiles => "7z archive contains no files"@,
        }
    }

    /// The message of this error, as text.
    pub fn to_string(&self) -> (text: String)
        ensures
            text@ == self.message(),
    {
        match self {
            ArchiveError::InvalidLevel => String::from_str(
                "Compression level must be between 0 and 9",
            ),
            ArchiveError::Create => String::from_str("Failed to create 7z writer"),
            ArchiveError::Compress => String::from_str("Failed to compress data"),
            ArchiveError::Finalize => String::from_str("Failed to finalize 7z archive"),
            ArchiveError::Open => String::from_str("Failed to open 7z archive"),
            ArchiveError::Read => String::from_str("Failed to read archive entries"),
            ArchiveError::NoFiles => String::from_str("7z archive contains no files"),
        }
    }
}

/// The name of the one entry of an archive that [`compress_with_lzma2`]
/// writes.
pub open spec fn entry_name() -> Seq<char> {
    "compressed_data.bin"@
}

/// The file entries that have been pushed to a writer, each by its name and
/// its content, in order.
pub uninterp spec fn written(writer: ArchiveWriter) -> Seq<(Seq<char>, Seq<u8>)>;

/// The bytes of the archive that a writer with these file entries, all
/// compressed with LZMA2, completes to.
pub uninterp spec fn archive_of(entries: Seq<(Seq<char>, Seq<u8>)>) -> Seq<u8>;

/// Sets a writer up on an empty buffer in memory with
/// `SevenZWriter::new`. No entry has been pushed to it.
#[verifier::external_body]
fn new_writer() -> (r: Result<ArchiveWriter, sevenz_rust::Error>)
    ensures
        r matches Ok(writer) ==> written(writer) == Seq::<(Seq<char>, Seq<u8>)>::empty(),
{
    sevenz_rust::SevenZWriter::new(std::io::Cursor::new(Vec::new())).map(
        |inner| ArchiveWriter { inner },
    )
}

/// Selects LZMA2 for the content of the entries with
/// `SevenZWriter::set_content_methods`. The entries stay as they are.
#[verifier::external_body]
fn use_lzma2(writer: &mut ArchiveWriter)
    ensures
        written(*final(writer)) == written(*old(writer)),
{
    writer.inner.set_content_methods(
        vec![sevenz_rust::SevenZMethodConfiguration::new(sevenz_rust::SevenZMethod::LZMA2)],
    );
}

/// Pushes one file entry with `SevenZWriter::push_archive_entry`: an entry
/// made by `SevenZArchiveEntry::new` with the given name, marked as a file
/// with a stream of the length of `data`, and `data` as its content. When
/// the call succeeds the entry stands behind those pushed before.
#[verifier::external_body]
fn push_file(
    writer: &mut ArchiveWriter,
    name: &str,
    data: &[u8],
) -> (r: Result<(), sevenz_rust::Error>)
    ensures
        r is Ok ==> written(*final(writer)) == written(*old(writer)).push((name@, data@)),
{
    let mut entry = sevenz_rust::SevenZArchiveEntry::new();
    entry.name = name.to_string();
    entry.has_stream = true;
    entry.is_directory = false;
    entry.size = data.len() as u64;
    writer.inner.push_archive_entry(entry, Some(std::io::Cursor::new(data.to_vec()))).map(|_| ())
}

/// Completes the archive with `SevenZWriter::finish` and takes the bytes out
/// of the buffer. They depend on the entries alone.
#[verifier::external_body]
fn finish_writer(writer: ArchiveWriter) -> (r: Result<Vec<u8>, sevenz_rust::Error>)
    ensures
        r matches Ok(bytes) ==> bytes@ == archive_of(written(writer)),
{
    writer.inner.finish().map(|buffer| buffer.into_inner()).map_err(sevenz_rust::Error::io)
}

/// Compresses the bytes into a 7z archive with the one entry
/// `compressed_data.bin`, compressed with LZMA2.
///
/// A level above nine is refused with `InvalidLevel`, and no other level
/// is; the level does not change the archive. An archive that is returned
/// is the one the library writes for this entry; a failure of the library
/// is reported by the step that failed.
pub fn compress_with_lzma2(data: &[u8], compression_level: u8) -> (r: Result<
    Vec<u8>,
    ArchiveError,
>)
    ensures
        (r matches Err(ArchiveError::InvalidLevel)) <==> compression_level > MAX_LEVEL,
        r matches Ok(bytes) ==> bytes@ == archive_of(seq![(entry_name(), data@)]),
        r matches Err(e) ==> e == ArchiveError::InvalidLevel || e == ArchiveError::Create || e
            == ArchiveError::Compress || e == ArchiveError::Finalize,
{
    if compression_level > MAX_LEVEL {
        return Err(ArchiveError::InvalidLevel);
    }
    let mut writer = match new_writer() {
        Ok(writer) => writer,
        Err(_) => {
            return Err(ArchiveError::Create);
        },
    };
    use_lzma2(&mut writer);
    match push_file(&mut writer, "compressed_data.bin", data) {
        Ok(()) => {},
        Err(_) => {
            return Err(ArchiveError::Compress);
        },
    }
    proof {
        assert(written(writer) =~= seq![(entry_name(), data@)]);
    }
    match finish_writer(writer) {
        Ok(bytes) => Ok(bytes),
        Err(_) => Err(ArchiveError::Finalize),
    }
}

/// Compresses the bytes at the default level.
pub fn zip(data: &[u8]) -> (r: Result<Vec<u8>, ArchiveError>)
    ensures
        r matches Ok(bytes) ==> bytes@ == archive_of(seq![(entry_name(), data@)]),
        r matches Err(e) ==> e == ArchiveError::Create || e == ArchiveError::Compress || e
            == ArchiveError::Finalize,
{
    compress_with_lzma2(data, DEFAULT_LEVEL)
}

/// What is kept of an archive while its entries are walked: the content of
/// the first entry.
#[derive(Debug, PartialEq)]
pub struct FirstEntry {
    pub content: Option<Vec<u8>>,
}

impl FirstEntry {
    /// Nothing has been kept yet.
    pub fn new() -> (kept: FirstEntry)
        ensures
            kept.content is None,
    {
        FirstEntry { content: None }
    }

    /// Whether the content of the entry at hand is to be read: only while
    /// none has been kept.
    pub fn wants_content(&self) -> (r: bool)
        ensures
            r == (self.content is None),
    {
        self.content.is_none()
    }

    /// Takes the content of an entry. The first one is kept, any later one
    /// is let go.
    pub fn take(&mut self, content: Vec<u8>)
        ensures
            final(self).content == if old(self).content is None {
                Some(content)
            } else {
                old(self).content
            },
    {
        if self.content.is_none() {
            self.content = Some(content);
        }
    }

    /// Whether the walk goes on to the next entry: once a content has been
    /// kept.
    pub fn goes_on(&self) -> (r: bool)
        ensures
            r == (self.content is Some),
    {
        self.content.is_some()
    }
}

/// How the reading of an archive ended.
#[derive(Debug, PartialEq)]
pub enum ReadOutcome {
    /// The bytes could not be opened as an archive.
    NotOpened,
    /// The archive was opened and the walk over its entries failed.
    NotRead,
    /// The entries were walked, and this was kept.
    Walked { kept: FirstEntry },
}

/// What unpacking gives once the archive has been read: the content of its
/// first entry, or the error of the step that failed.
pub open spec fn unpacked(outcome: ReadOutcome) -> Result<Vec<u8>, ArchiveError> {
    match outcome {
        ReadOutcome::NotOpened => Err(ArchiveError::Open),
        ReadOutcome::NotRead => Err(ArchiveError::Read),
        ReadOutcome::Walked { kept } => match kept.content {
            Some(content) => Ok(content),
            None => Err(ArchiveError::NoFiles),
        },
    }
}

/// Unpacks the content of the first entry of a 7z archive, given how the
/// reading of the archive ended.
pub fn unzip(outcome: ReadOutcome) -> (r: Result<Vec<u8>, ArchiveError>)
    ensures
        r == unpacked(outcome),
{
    match outcome {
        ReadOutcome::NotOpened => Err(ArchiveError::Open),
        ReadOutcome::NotRead => Err(ArchiveError::Read),
        ReadOutcome::Walked { kept } => match kept.content {
            Some(content) => Ok(content),
            None => Err(ArchiveError::NoFiles),
        },
    }
}

} // verus!
