//! Unpacking a downloaded archive into the install directory.
//!
//! The archive is read from memory with the `zip` crate. For each entry it is decided here
//! what is to be written and where; the writing is the caller's.
use crate::paths::{containing_dir, join, joined, parent_dir};
use crate::resolve::text_of;
use crate::text::{ends_with, ends_with_text};
use std::io::Cursor;
use std::io::Read;
use vstd::prelude::*;
use vstd::string::*;
use zip::result::ZipError;
use zip::ZipArchive;

verus! {

/// `zip::ZipArchive`, an archive that was opened; what it holds is named by
/// `archive_entries`.
#[verifier::external_type_specification]
#[verifier::external_body]
#[verifier::reject_recursive_types(R)]
pub struct ExZipArchive<R>(ZipArchive<R>);

/// `std::io::Cursor`, a reader over a buffer in memory.
#[verifier::external_type_specification]
#[verifier::external_body]
#[verifier::reject_recursive_types(T)]
pub struct ExCursor<T>(Cursor<T>);

/// `zip::result::ZipError`, why an archive or one of its entries could not be read.
#[verifier::external_type_specification]
#[verifier::external_body]
pub struct ExZipError(ZipError);

/// The entries of an archive in the order of its directory. Each is the entry's name as
/// the archive gives it, the same name as a relative path that stays inside the directory
/// it is unpacked into (where the name is one), and the entry's bytes as reading it to its
/// end gives them (where it can be read).
pub uninterp spec fn archive_entries(archive: ZipArchive<Cursor<Vec<u8>>>) -> Seq<
    (Seq<char>, Option<Seq<char>>, Seq<u8>),
>;

/// An entry as it was read from an archive.
#[derive(Debug, PartialEq, Eq)]
pub struct RawEntry {
    /// The name as the archive gives it.
    pub name: String,
    /// The name as a relative path that stays inside the directory it is joined to;
    /// `None` where the name is absolute or leads out of that directory.
    pub enclosed: Option<String>,
    /// The bytes of the entry, decompressed.
    pub data: Vec<u8>,
}

impl RawEntry {
    /// What the entry holds, as plain values.
    pub open spec fn parts(self) -> (Seq<char>, Option<Seq<char>>, Seq<u8>) {
        (
            self.name@,
            match self.enclosed {
                Some(path) => Some(path@),
                None => None,
            },
            self.data@,
        )
    }
}

/// What the `zip` crate makes of `bytes` as an archive: the entries of the archive that it
/// opens on them, and nothing where it opens none.
pub uninterp spec fn opened_entries(bytes: Seq<u8>) -> Option<
    Seq<(Seq<char>, Option<Seq<char>>, Seq<u8>)>,
>;

/// The places of the entries that the `zip` crate cannot open.
pub uninterp spec fn unopenable_entries(archive: ZipArchive<Cursor<Vec<u8>>>) -> Set<nat>;

/// The places of the entries whose bytes the `zip` crate cannot give: those that it cannot
/// open, and those that it cannot read to their end.
pub uninterp spec fn unreadable_entries(archive: ZipArchive<Cursor<Vec<u8>>>) -> Set<nat>;

/// Calls `zip::ZipArchive::new` on a reader over `bytes`. Whether the bytes are an archive
/// is for the crate to say, and it says so by the bytes alone: it opens one exactly where
/// `opened_entries` names one, and the archive then holds the entries named there.
#[verifier::external_body]
fn open_archive(bytes: Vec<u8>) -> (out: Result<ZipArchive<Cursor<Vec<u8>>>, ZipError>)
    ensures
        out is Ok == opened_entries(bytes@) is Some,
        out matches Ok(archive) ==> Some(archive_entries(archive)) == opened_entries(bytes@),
{
    ZipArchive::new(Cursor::new(bytes))
}

/// Calls `zip::ZipArchive::len`: the number of entries of the archive.
#[verifier::external_body]
fn entry_count(archive: &ZipArchive<Cursor<Vec<u8>>>) -> (count: usize)
    ensures
        count == archive_entries(*archive).len(),
{
    archive.len()
}

/// Calls `zip::ZipArchive::by_index` and hands out the entry's `name` and its
/// `enclosed_name` as text, without reading the entry. The call leaves the archive as it
/// is. It succeeds exactly for an entry that the archive holds and the crate can open, and
/// what it hands out is what the archive holds at `index`.
#[verifier::external_body]
fn entry_names_at(archive: &mut ZipArchive<Cursor<Vec<u8>>>, index: usize) -> (out: Result<
    (String, Option<String>),
    ZipError,
>)
    ensures
        archive_entries(*final(archive)) == archive_entries(*old(archive)),
        unopenable_entries(*final(archive)) == unopenable_entries(*old(archive)),
        unreadable_entries(*final(archive)) == unreadable_entries(*old(archive)),
        out is Ok == (index < archive_entries(*old(archive)).len() && !unopenable_entries(
            *old(archive),
        ).contains(index as nat)),
        out matches Ok(names) ==> names.0@ == archive_entries(*old(archive))[index as int].0
            && text_of(names.1) == archive_entries(*old(archive))[index as int].1,
{
    let file = archive.by_index(index)?;
    let name = file.name().to_string();
    let enclosed = file.enclosed_name().and_then(|path| path.to_str().map(String::from));
    Ok((name, enclosed))
}

/// Calls `zip::ZipArchive::by_index` and reads the entry to its end. The call leaves the
/// archive as it is. It succeeds exactly for an entry that the archive holds and the crate
/// can open and read, and the bytes are those that the archive holds at `index`.
#[verifier::external_body]
fn entry_bytes_at(archive: &mut ZipArchive<Cursor<Vec<u8>>>, index: usize) -> (out: Result<
    Vec<u8>,
    ZipError,
>)
    ensures
        archive_entries(*final(archive)) == archive_entries(*old(archive)),
        unopenable_entries(*final(archive)) == unopenable_entries(*old(archive)),
        unreadable_entries(*final(archive)) == unreadable_entries(*old(archive)),
        out is Ok == (index < archive_entries(*old(archive)).len() && !unreadable_entries(
            *old(archive),
        ).contains(index as nat)),
        out matches Ok(data) ==> data@ == archive_entries(*old(archive))[index as int].2,
{
    let mut data = Vec::new();
    archive.by_index(index)?.read_to_end(&mut data)?;
    Ok(data)
}

/// What is to be written for one entry of an archive.
#[derive(Debug, PartialEq, Eq)]
pub enum Extraction {
    /// Create the directory `path`, and those above it.
    MakeDir { path: String },
    /// Write `data` to the file `path`, after creating the directory `parent` where it is
    /// missing.
    WriteFile { path: String, parent: Option<String>, data: Vec<u8> },
}

/// What an `Extraction` holds, as plain values.
pub enum ExtractionView {
    MakeDir { path: Seq<char> },
    WriteFile { path: Seq<char>, parent: Option<Seq<char>>, data: Seq<u8> },
}

impl View for Extraction {
    type V = ExtractionView;

    open spec fn view(&self) -> ExtractionView {
        match self {
            Extraction::MakeDir { path } => ExtractionView::MakeDir { path: path@ },
            Extraction::WriteFile { path, parent, data } => ExtractionView::WriteFile {
                path: path@,
                parent: match parent {
                    Some(dir) => Some(dir@),
                    None => None,
                },
                data: data@,
            },
        }
    }
}

/// The view of an extraction that may be missing.
pub open spec fn extraction_view(extraction: Option<Extraction>) -> Option<ExtractionView> {
    match extraction {
        Some(x) => Some(x@),
        None => None,
    }
}

/// What is written for `entry` below `dest`. An entry whose name is no enclosed relative
/// path is left out. Every other entry goes to its enclosed path below `dest`: as a
/// directory where the entry's name ends with `/`, as a file in its containing directory
/// otherwise.
pub open spec fn extraction_of(dest: Seq<char>, entry: (Seq<char>, Option<Seq<char>>, Seq<u8>))
    -> Option<ExtractionView> {
    match entry.1 {
        None => None,
        Some(relative) => {
            let path = joined(dest, relative);
            if ends_with_text(entry.0, "/"@) {
                Some(ExtractionView::MakeDir { path })
            } else {
                Some(
                    ExtractionView::WriteFile { path, parent: containing_dir(path), data: entry.2 },
                )
            }
        },
    }
}

/// Whatever is written for an entry is written to a path that begins with `dest`.
pub proof fn lemma_extraction_begins_with_dest(
    dest: Seq<char>,
    entry: (Seq<char>, Option<Seq<char>>, Seq<u8>),
)
    requires
        extraction_of(dest, entry) is Some,
    ensures
        match extraction_of(dest, entry)->0 {
            ExtractionView::MakeDir { path } => path.len() >= dest.len() && path.subrange(
                0,
                dest.len() as int,
            ) == dest,
            ExtractionView::WriteFile { path, .. } => path.len() >= dest.len() && path.subrange(
                0,
                dest.len() as int,
            ) == dest,
        },
{
    let path = joined(dest, entry.1->0);
    assert(path.subrange(0, dest.len() as int) =~= dest);
}

/// What is written for `entry` below `dest`.
pub fn plan_entry(dest: &str, entry: RawEntry) -> (out: Option<Extraction>)
    ensures
        extraction_view(out) == extraction_of(dest@, entry.parts()),
{
    let RawEntry { name, enclosed, data } = entry;
    match enclosed {
        None => None,
        Some(relative) => {
            let path = join(dest, relative.as_str());
            if ends_with(name.as_str(), "/") {
                Some(Extraction::MakeDir { path })
            } else {
                let parent = parent_dir(path.as_str());
                Some(Extraction::WriteFile { path, parent, data })
            }
        },
    }
}

/// The entry is written as a file, so that its bytes are needed.
pub open spec fn is_file_entry(entry: (Seq<char>, Option<Seq<char>>, Seq<u8>)) -> bool {
    entry.1 is Some && !ends_with_text(entry.0, "/"@)
}

/// Why unpacking stopped.
#[derive(Clone, Copy, Debug, PartialEq, Eq, Structural)]
pub enum UnpackError {
    /// The bytes are no archive that can be read.
    NotAnArchive,
    /// The entry at `index` could not be read.
    BadEntry { index: usize },
}

/// What one step of the unpacking yields, as plain values.
pub enum StepView {
    /// This is to be written.
    Write(ExtractionView),
    /// Nothing is left to write.
    Finished,
    /// The unpacking cannot go on.
    Stopped(UnpackError),
}

/// The view of what one step of the unpacking yields.
pub open spec fn step_view(step: Result<Option<Extraction>, UnpackError>) -> StepView {
    match step {
        Ok(Some(extraction)) => StepView::Write(extraction@),
        Ok(None) => StepView::Finished,
        Err(error) => StepView::Stopped(error),
    }
}

/// An archive that is being unpacked, entry by entry.
pub struct Unpacker {
    archive: ZipArchive<Cursor<Vec<u8>>>,
    dest: String,
    next: usize,
}

/// An `Unpacker` as plain values.
pub struct UnpackerView {
    /// The entries of the archive.
    pub entries: Seq<(Seq<char>, Option<Seq<char>>, Seq<u8>)>,
    /// The places of the entries that cannot be opened.
    pub unopenable: Set<nat>,
    /// The places of the entries whose bytes cannot be had.
    pub unreadable: Set<nat>,
    /// The directory that is unpacked into.
    pub dest: Seq<char>,
    /// The place of the first entry that was not looked at yet.
    pub next: nat,
}

impl UnpackerView {
    /// The unpacking cannot get past the entry at `at`: the entry cannot be opened, or it
    /// is written as a file and its bytes cannot be had. An entry that is passed over, and
    /// a directory, is never read.
    pub open spec fn stops_at(self, at: nat) -> bool {
        at < self.entries.len() && (self.unopenable.contains(at) || (is_file_entry(
            self.entries[at as int],
        ) && self.unreadable.contains(at)))
    }

    /// What the step that begins at the entry `from` yields, and the entry that is due
    /// after it. The entries are taken in order: the first at which the unpacking stops
    /// ends the step with an error and stays due; the first that is written ends it with
    /// its extraction; those that are neither are passed over.
    pub open spec fn step_from(self, from: nat) -> (StepView, nat)
        decreases self.entries.len() - from,
    {
        if from >= self.entries.len() {
            (StepView::Finished, from)
        } else if self.stops_at(from) {
            (StepView::Stopped(UnpackError::BadEntry { index: from as usize }), from)
        } else {
            match extraction_of(self.dest, self.entries[from as int]) {
                Some(extraction) => (StepView::Write(extraction), from + 1),
                None => self.step_from(from + 1),
            }
        }
    }
}

impl View for Unpacker {
    type V = UnpackerView;

    closed spec fn view(&self) -> UnpackerView {
        UnpackerView {
            entries: archive_entries(self.archive),
            unopenable: unopenable_entries(self.archive),
            unreadable: unreadable_entries(self.archive),
            dest: self.dest@,
            next: self.next as nat,
        }
    }
}

impl Unpacker {
    /// Opens the archive that `bytes` hold, to be unpacked into `dest`. Whether the bytes
    /// are an archive is decided by the `zip` crate, by the bytes alone: the unpacker is
    /// there exactly where the crate makes an archive of them, and holds its entries.
    pub fn open(bytes: Vec<u8>, dest: &str) -> (out: Result<Unpacker, UnpackError>)
        ensures
            out is Ok == opened_entries(bytes@) is Some,
            out matches Ok(unpacker) ==> unpacker@.dest == dest@ && unpacker@.next == 0 && Some(
                unpacker@.entries,
            ) == opened_entries(bytes@),
            out matches Err(error) ==> error == UnpackError::NotAnArchive,
    {
        match open_archive(bytes) {
            Ok(archive) => Ok(Unpacker { archive, dest: String::from_str(dest), next: 0 }),
            Err(_) => Err(UnpackError::NotAnArchive),
        }
    }

    /// What is to be written next: the extraction of the first entry, from the one that is
    /// due on, that is written at all; `None` where no such entry is left. The entries
    /// before it are passed over without being read. An entry that cannot be opened, or
    /// that is to be written and cannot be read, stops the unpacking; it stays the one that
    /// is due.
    pub fn next_extraction(&mut self) -> (out: Result<Option<Extraction>, UnpackError>)
        ensures
            final(self)@.entries == old(self)@.entries,
            final(self)@.unopenable == old(self)@.unopenable,
            final(self)@.unreadable == old(self)@.unreadable,
            final(self)@.dest == old(self)@.dest,
            step_view(out) == old(self)@.step_from(old(self)@.next).0,
            final(self)@.next == old(self)@.step_from(old(self)@.next).1,
    {
        let count: usize = entry_count(&self.archive);
        let ghost before = self@;
        while self.next < count
            invariant
                count == before.entries.len(),
                before == old(self)@,
                self@.entries == before.entries,
                self@.unopenable == before.unopenable,
                self@.unreadable == before.unreadable,
                self@.dest == before.dest,
                before.step_from(before.next) == before.step_from(self@.next),
            decreases count - self.next,
        {
            let index: usize = self.next;
            let ghost entry = before.entries[index as int];
            let (name, enclosed) = match entry_names_at(&mut self.archive, index) {
                Ok(names) => names,
                Err(_) => {
                    return Err(UnpackError::BadEntry { index });
                },
            };
            let is_file: bool = enclosed.is_some() && !ends_with(name.as_str(), "/");
            assert(is_file == is_file_entry(entry));
            let data: Vec<u8> = if is_file {
                match entry_bytes_at(&mut self.archive, index) {
                    Ok(data) => data,
                    Err(_) => {
                        return Err(UnpackError::BadEntry { index });
                    },
                }
            } else {
                Vec::new()
            };
            assert(!before.stops_at(index as nat));
            let raw = RawEntry { name, enclosed, data };
            assert(extraction_of(before.dest, raw.parts()) == extraction_of(before.dest, entry));
            self.next = index + 1;
            match plan_entry(self.dest.as_str(), raw) {
                Some(extraction) => {
                    return Ok(Some(extraction));
                },
                None => {},
            }
        }
        Ok(None)
    }
}

} // verus!
