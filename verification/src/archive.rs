//! Screening of chart archives: format detection by signature, size limits,
//! and the per-entry rules that every extracted file must pass.

use vstd::prelude::*;
use crate::paths::{self, ChartPath, PartView};
use crate::text;

verus! {

/// The largest chart archive accepted, in bytes (250 MB).
pub const MAX_ARCHIVE_BYTES: u64 = 262_144_000;

/// The most bytes an archive may expand to (2 GB).
pub const MAX_EXTRACTED_BYTES: u64 = 2_147_483_648;

/// The most entries an archive may hold.
pub const MAX_ARCHIVE_FILES: usize = 10_000;

/// The archive formats that charts are installed from.
#[derive(Clone, Copy, PartialEq, Eq, Debug, Structural)]
pub enum ArchiveFormat {
    Zip,
    SevenZip,
    Rar,
}

pub open spec fn format_label(f: ArchiveFormat) -> Seq<char> {
    match f {
        ArchiveFormat::Zip => "zip"@,
        ArchiveFormat::SevenZip => "7z"@,
        ArchiveFormat::Rar => "rar"@,
    }
}

impl ArchiveFormat {
    /// The short name of the format: "zip", "7z" or "rar".
    pub fn label(self) -> (r: &'static str)
        ensures
            r@ == format_label(self),
    {
        match self {
            ArchiveFormat::Zip => "zip",
            ArchiveFormat::SevenZip => "7z",
            ArchiveFormat::Rar => "rar",
        }
    }
}

/// Whether `s` begins with `prefix`.
pub open spec fn starts_with(s: Seq<u8>, prefix: Seq<u8>) -> bool {
    prefix.len() <= s.len() && s.take(prefix.len() as int) == prefix
}

/// The format whose signature opens `head`, if any: ZIP local, empty or
/// spanned headers; the 7z signature; RAR 4 or RAR 5.
pub open spec fn format_of_signature(head: Seq<u8>) -> Option<ArchiveFormat> {
    if starts_with(head, seq![0x50u8, 0x4b, 0x03, 0x04]) || starts_with(
        head,
        seq![0x50u8, 0x4b, 0x05, 0x06],
    ) || starts_with(head, seq![0x50u8, 0x4b, 0x07, 0x08]) {
        Some(ArchiveFormat::Zip)
    } else if starts_with(head, seq![0x37u8, 0x7a, 0xbc, 0xaf, 0x27, 0x1c]) {
        Some(ArchiveFormat::SevenZip)
    } else if starts_with(head, seq![0x52u8, 0x61, 0x72, 0x21, 0x1a, 0x07, 0x00]) || starts_with(
        head,
        seq![0x52u8, 0x61, 0x72, 0x21, 0x1a, 0x07, 0x01, 0x00],
    ) {
        Some(ArchiveFormat::Rar)
    } else {
        None
    }
}

fn has_prefix(head: &[u8], prefix: &[u8]) -> (r: bool)
    ensures
        r == starts_with(head@, prefix@),
{
    if prefix.len() > head.len() {
        return false;
    }
    let mut i: usize = 0;
    while i < prefix.len()
        invariant
            prefix@.len() <= head@.len(),
            i <= prefix@.len(),
            forall|k: int| 0 <= k < i ==> head@[k] == prefix@[k],
        decreases prefix@.len() - i,
    {
        if head[i] != prefix[i] {
            assert(head@.take(prefix@.len() as int)[i as int] != prefix@[i as int]);
            return false;
        }
        i = i + 1;
    }
    assert(head@.take(prefix@.len() as int) =~= prefix@);
    true
}

pub open spec fn unsupported_archive_message() -> Seq<char> {
    "unsupported archive. Use a ZIP, 7Z, or RAR chart archive."@
}

/// The format of an archive, from the first bytes of the file (the app
/// reads at most eight).
pub fn detect_archive_format(head: &[u8]) -> (r: Result<ArchiveFormat, String>)
    ensures
        match r {
            Ok(f) => format_of_signature(head@) == Some(f),
            Err(e) => format_of_signature(head@) is None && e@ == unsupported_archive_message(),
        },
{
    let zip_local: [u8; 4] = [0x50, 0x4b, 0x03, 0x04];
    let zip_empty: [u8; 4] = [0x50, 0x4b, 0x05, 0x06];
    let zip_spanned: [u8; 4] = [0x50, 0x4b, 0x07, 0x08];
    let seven: [u8; 6] = [0x37, 0x7a, 0xbc, 0xaf, 0x27, 0x1c];
    let rar4: [u8; 7] = [0x52, 0x61, 0x72, 0x21, 0x1a, 0x07, 0x00];
    let rar5: [u8; 8] = [0x52, 0x61, 0x72, 0x21, 0x1a, 0x07, 0x01, 0x00];
    assert(zip_local@ == seq![0x50u8, 0x4b, 0x03, 0x04]);
    assert(zip_empty@ == seq![0x50u8, 0x4b, 0x05, 0x06]);
    assert(zip_spanned@ == seq![0x50u8, 0x4b, 0x07, 0x08]);
    assert(seven@ == seq![0x37u8, 0x7a, 0xbc, 0xaf, 0x27, 0x1c]);
    assert(rar4@ == seq![0x52u8, 0x61, 0x72, 0x21, 0x1a, 0x07, 0x00]);
    assert(rar5@ == seq![0x52u8, 0x61, 0x72, 0x21, 0x1a, 0x07, 0x01, 0x00]);
    if has_prefix(head, zip_local.as_slice()) || has_prefix(head, zip_empty.as_slice()) || has_prefix(
        head,
        zip_spanned.as_slice(),
    ) {
        return Ok(ArchiveFormat::Zip);
    }
    if has_prefix(head, seven.as_slice()) {
        return Ok(ArchiveFormat::SevenZip);
    }
    if has_prefix(head, rar4.as_slice()) || has_prefix(head, rar5.as_slice()) {
        return Ok(ArchiveFormat::Rar);
    }
    Err(text::string_from(&text::chars_of("unsupported archive. Use a ZIP, 7Z, or RAR chart archive.")))
}

pub open spec fn not_a_file_message() -> Seq<char> {
    "choose an existing chart archive."@
}

pub open spec fn too_large_message() -> Seq<char> {
    "the chart archive exceeds the 250 MB limit."@
}

/// The checks on an archive chosen for import, from what the app found on
/// disk: it must be a file, at most 250 MB, with a known signature.
pub fn screen_local_archive(is_file: bool, size: u64, head: &[u8]) -> (r: Result<
    (u64, ArchiveFormat),
    String,
>)
    ensures
        match r {
            Ok((n, f)) => is_file && size <= MAX_ARCHIVE_BYTES && n == size && format_of_signature(
                head@,
            ) == Some(f),
            Err(e) => if !is_file {
                e@ == not_a_file_message()
            } else if size > MAX_ARCHIVE_BYTES {
                e@ == too_large_message()
            } else {
                format_of_signature(head@) is None && e@ == unsupported_archive_message()
            },
        },
{
    if !is_file {
        return Err(text::string_from(&text::chars_of("choose an existing chart archive.")));
    }
    if size > MAX_ARCHIVE_BYTES {
        return Err(
            text::string_from(&text::chars_of("the chart archive exceeds the 250 MB limit.")),
        );
    }
    match detect_archive_format(head) {
        Ok(f) => Ok((size, f)),
        Err(e) => Err(e),
    }
}

/// Why an archive entry is refused.
#[derive(Clone, Copy, PartialEq, Eq, Debug, Structural)]
pub enum EntryRejection {
    /// The ZIP reader found no safe name for the entry.
    ZipUnsafePath,
    /// The path is empty or leaves the extraction folder.
    UnsafePath,
    /// The 7z reader would write somewhere other than the checked path.
    SevenZipUnsafePath,
    SymbolicLink,
    Encrypted,
    MultiPart,
    BlockedFile,
    NestedArchive,
    CountInvalid,
    TooManyFiles,
    SizeInvalid,
    TooLarge,
}

/// What the app learned about one archive entry.
pub struct EntryFacts {
    /// The entry's relative path; `None` when the ZIP reader refused its name.
    pub path: Option<ChartPath>,
    /// The uncompressed size.
    pub size: u64,
    /// The ZIP mode marks a symbolic link, or the RAR entry came out as one.
    pub is_symlink: bool,
    /// RAR: password protected.
    pub encrypted: bool,
    /// RAR: part of a multi-volume set.
    pub split: bool,
    /// 7z: where the reader means to write the entry.
    pub destination: Option<ChartPath>,
}

/// Files and bytes admitted so far from one archive.
#[derive(Clone, Copy, PartialEq, Eq, Debug, Structural)]
pub struct ExtractionBudget {
    pub files: usize,
    pub bytes: u64,
}

impl ExtractionBudget {
    pub fn new() -> (r: ExtractionBudget)
        ensures
            r.files == 0 && r.bytes == 0,
    {
        ExtractionBudget { files: 0, bytes: 0 }
    }
}

/// `base.join(rel)` for a relative path without `..`: a `.` that leads
/// `rel` disappears when `base` is not empty.
pub open spec fn join_relative(base: Seq<PartView>, rel: Seq<PartView>) -> Seq<PartView> {
    if base.len() > 0 && rel.len() > 0 && rel[0] == PartView::CurDir {
        base + rel.drop_first()
    } else {
        base + rel
    }
}

/// The path-content checks shared by all formats, in the order the
/// extractors apply them after the path check.
pub open spec fn content_rejection(p: Seq<PartView>) -> Option<EntryRejection> {
    if paths::is_blocked_extension(paths::lower_extension(p)) {
        Some(EntryRejection::BlockedFile)
    } else if paths::is_archive_extension(paths::lower_extension(p)) {
        Some(EntryRejection::NestedArchive)
    } else {
        None
    }
}

/// The byte check: the running total must fit and stay within the limit.
pub open spec fn bytes_after(b: ExtractionBudget, size: u64) -> Result<u64, EntryRejection> {
    if b.bytes + size > u64::MAX {
        Err(EntryRejection::SizeInvalid)
    } else if b.bytes + size > MAX_EXTRACTED_BYTES {
        Err(EntryRejection::TooLarge)
    } else {
        Ok((b.bytes + size) as u64)
    }
}

/// The file-count check of 7z and RAR.
pub open spec fn files_after(b: ExtractionBudget) -> Result<usize, EntryRejection> {
    if b.files + 1 > usize::MAX {
        Err(EntryRejection::CountInvalid)
    } else if b.files + 1 > MAX_ARCHIVE_FILES {
        Err(EntryRejection::TooManyFiles)
    } else {
        Ok((b.files + 1) as usize)
    }
}

/// The verdict on one entry: the budget after it, or why it is refused.
/// ZIP: name, path, link, content, bytes.  7z: count, path, content, bytes,
/// destination.  RAR: path, encryption, volumes, content, count, bytes.
pub open spec fn entry_verdict(
    format: ArchiveFormat,
    staging: Seq<PartView>,
    b: ExtractionBudget,
    path: Option<Seq<PartView>>,
    size: u64,
    is_symlink: bool,
    encrypted: bool,
    split: bool,
    destination: Option<Seq<PartView>>,
) -> Result<ExtractionBudget, EntryRejection> {
    match format {
        ArchiveFormat::Zip => {
            if path is None {
                Err(EntryRejection::ZipUnsafePath)
            } else if !paths::is_safe_relative(path->0) {
                Err(EntryRejection::UnsafePath)
            } else if is_symlink {
                Err(EntryRejection::SymbolicLink)
            } else if content_rejection(path->0) is Some {
                Err(content_rejection(path->0)->0)
            } else {
                match bytes_after(b, size) {
                    Ok(n) => Ok(ExtractionBudget { files: b.files, bytes: n }),
                    Err(e) => Err(e),
                }
            }
        },
        ArchiveFormat::SevenZip => {
            match files_after(b) {
                Err(e) => Err(e),
                Ok(f) => if path is None || !paths::is_safe_relative(path->0) {
                    Err(EntryRejection::UnsafePath)
                } else if content_rejection(path->0) is Some {
                    Err(content_rejection(path->0)->0)
                } else {
                    match bytes_after(b, size) {
                        Err(e) => Err(e),
                        Ok(n) => if destination != Some(join_relative(staging, path->0)) {
                            Err(EntryRejection::SevenZipUnsafePath)
                        } else {
                            Ok(ExtractionBudget { files: f, bytes: n })
                        },
                    }
                },
            }
        },
        ArchiveFormat::Rar => {
            if path is None || !paths::is_safe_relative(path->0) {
                Err(EntryRejection::UnsafePath)
            } else if encrypted {
                Err(EntryRejection::Encrypted)
            } else if split {
                Err(EntryRejection::MultiPart)
            } else if content_rejection(path->0) is Some {
                Err(content_rejection(path->0)->0)
            } else {
                match files_after(b) {
                    Err(e) => Err(e),
                    Ok(f) => match bytes_after(b, size) {
                        Err(e) => Err(e),
                        Ok(n) => Ok(ExtractionBudget { files: f, bytes: n }),
                    },
                }
            }
        },
    }
}

pub open spec fn opt_view(p: Option<ChartPath>) -> Option<Seq<PartView>> {
    match p {
        Some(x) => Some(x@),
        None => None,
    }
}

fn content_check(p: &ChartPath) -> (r: Option<EntryRejection>)
    ensures
        r == content_rejection(p@),
{
    if paths::contains_blocked_file(p) {
        Some(EntryRejection::BlockedFile)
    } else if paths::is_nested_archive(p) {
        Some(EntryRejection::NestedArchive)
    } else {
        None
    }
}

fn check_bytes(b: ExtractionBudget, size: u64) -> (r: Result<u64, EntryRejection>)
    ensures
        r == bytes_after(b, size),
{
    match b.bytes.checked_add(size) {
        None => Err(EntryRejection::SizeInvalid),
        Some(n) => if n > MAX_EXTRACTED_BYTES {
            Err(EntryRejection::TooLarge)
        } else {
            Ok(n)
        },
    }
}

fn check_files(b: ExtractionBudget) -> (r: Result<usize, EntryRejection>)
    ensures
        r == files_after(b),
{
    match b.files.checked_add(1) {
        None => Err(EntryRejection::CountInvalid),
        Some(n) => if n > MAX_ARCHIVE_FILES {
            Err(EntryRejection::TooManyFiles)
        } else {
            Ok(n)
        },
    }
}

fn is_safe(p: &Option<ChartPath>) -> (r: bool)
    ensures
        r == (p is Some && paths::is_safe_relative(p->0@)),
{
    match p {
        None => false,
        Some(q) => paths::safe_archive_path(q).is_ok(),
    }
}

/// `base.join(rel)` for a relative path.
pub fn join_relative_path(base: &ChartPath, rel: &ChartPath) -> (r: ChartPath)
    ensures
        r@ == join_relative(base@, rel@),
{
    let mut out = base.clone_path();
    let start: usize = if base.parts.len() > 0 && rel.parts.len() > 0 && match &rel.parts[0] {
        paths::PathPart::CurDir => true,
        _ => false,
    } {
        1
    } else {
        0
    };
    proof {
        if rel@.len() > 0 {
            assert(rel@[0] == rel.parts@[0]@);
        }
    }
    let ghost skipped = if start == 1 { rel@.drop_first() } else { rel@ };
    assert(skipped == rel@.skip(start as int));
    let mut i: usize = start;
    while i < rel.parts.len()
        invariant
            start <= i <= rel.parts@.len() == rel@.len(),
            out@ == base@ + rel@.subrange(start as int, i as int),
        decreases rel.parts@.len() - i,
    {
        let ghost before = out@;
        out.parts.push(rel.parts[i].clone_part());
        assert(out@ =~= before.push(rel.parts@[i as int]@));
        i = i + 1;
        assert(out@ =~= base@ + rel@.subrange(start as int, i as int));
    }
    assert(rel@.subrange(start as int, rel@.len() as int) =~= rel@.skip(start as int));
    out
}

/// The verdict on one entry of an archive being extracted under `staging`,
/// given the files and bytes admitted before it.
pub fn admit_entry(
    format: ArchiveFormat,
    staging: &ChartPath,
    budget: ExtractionBudget,
    facts: &EntryFacts,
) -> (r: Result<ExtractionBudget, EntryRejection>)
    ensures
        r == entry_verdict(
            format,
            staging@,
            budget,
            opt_view(facts.path),
            facts.size,
            facts.is_symlink,
            facts.encrypted,
            facts.split,
            opt_view(facts.destination),
        ),
{
    match format {
        ArchiveFormat::Zip => {
            match &facts.path {
                None => Err(EntryRejection::ZipUnsafePath),
                Some(p) => {
                    if paths::safe_archive_path(p).is_err() {
                        return Err(EntryRejection::UnsafePath);
                    }
                    if facts.is_symlink {
                        return Err(EntryRejection::SymbolicLink);
                    }
                    if let Some(e) = content_check(p) {
                        return Err(e);
                    }
                    let n = check_bytes(budget, facts.size)?;
                    Ok(ExtractionBudget { files: budget.files, bytes: n })
                },
            }
        },
        ArchiveFormat::SevenZip => {
            let f = check_files(budget)?;
            if !is_safe(&facts.path) {
                return Err(EntryRejection::UnsafePath);
            }
            let p = facts.path.as_ref().unwrap();
            if let Some(e) = content_check(p) {
                return Err(e);
            }
            let n = check_bytes(budget, facts.size)?;
            let expected = join_relative_path(staging, p);
            let lands = match &facts.destination {
                None => false,
                Some(d) => d.same_path(&expected),
            };
            if !lands {
                return Err(EntryRejection::SevenZipUnsafePath);
            }
            Ok(ExtractionBudget { files: f, bytes: n })
        },
        ArchiveFormat::Rar => {
            if !is_safe(&facts.path) {
                return Err(EntryRejection::UnsafePath);
            }
            if facts.encrypted {
                return Err(EntryRejection::Encrypted);
            }
            if facts.split {
                return Err(EntryRejection::MultiPart);
            }
            let p = facts.path.as_ref().unwrap();
            if let Some(e) = content_check(p) {
                return Err(e);
            }
            let f = check_files(budget)?;
            let n = check_bytes(budget, facts.size)?;
            Ok(ExtractionBudget { files: f, bytes: n })
        },
    }
}

/// The ZIP check made before any entry: at most 10,000 entries.
pub fn check_zip_entry_count(entries: usize) -> (r: Result<(), EntryRejection>)
    ensures
        r is Ok <==> entries <= MAX_ARCHIVE_FILES,
        r is Err ==> r == Err::<(), EntryRejection>(EntryRejection::TooManyFiles),
{
    if entries > MAX_ARCHIVE_FILES {
        Err(EntryRejection::TooManyFiles)
    } else {
        Ok(())
    }
}

/// The message shown for a refused entry; `path` is the entry's path as the
/// app displays it.
pub open spec fn rejection_message(r: EntryRejection, path: Seq<char>) -> Seq<char> {
    match r {
        EntryRejection::ZipUnsafePath => "the ZIP contains an unsafe file path."@,
        EntryRejection::UnsafePath => "the archive contains an unsafe file path."@,
        EntryRejection::SevenZipUnsafePath => "the 7Z contains an unsafe file path."@,
        EntryRejection::SymbolicLink => "symbolic links are not allowed in chart archives."@,
        EntryRejection::Encrypted => "password-protected RAR archives are not supported."@,
        EntryRejection::MultiPart => "multi-part RAR archives are not supported."@,
        EntryRejection::BlockedFile => "blocked executable file in archive: "@ + path,
        EntryRejection::NestedArchive => "nested archives are not installed into CustomSongs: "@
            + path,
        EntryRejection::CountInvalid => "the archive file count is invalid."@,
        EntryRejection::TooManyFiles => "the chart archive contains too many files."@,
        EntryRejection::SizeInvalid => "the extracted chart size is invalid."@,
        EntryRejection::TooLarge => "the chart expands beyond the safe extraction limit."@,
    }
}

fn text_then(prefix: &str, path: &str) -> (r: String)
    ensures
        r@ == prefix@ + path@,
{
    let mut v = text::chars_of(prefix);
    let p = text::chars_of(path);
    let ghost base = v@;
    let mut i: usize = 0;
    while i < p.len()
        invariant
            i <= p@.len(),
            v@ == base + p@.take(i as int),
        decreases p@.len() - i,
    {
        v.push(p[i]);
        i = i + 1;
        assert(v@ == base + p@.take(i as int));
    }
    assert(p@.take(p@.len() as int) == p@);
    text::string_from(&v)
}

impl EntryRejection {
    /// The message shown for this refusal of the entry at `path`.
    pub fn message(self, path: &str) -> (r: String)
        ensures
            r@ == rejection_message(self, path@),
    {
        let fixed = match self {
            EntryRejection::ZipUnsafePath => "the ZIP contains an unsafe file path.",
            EntryRejection::UnsafePath => "the archive contains an unsafe file path.",
            EntryRejection::SevenZipUnsafePath => "the 7Z contains an unsafe file path.",
            EntryRejection::SymbolicLink => "symbolic links are not allowed in chart archives.",
            EntryRejection::Encrypted => "password-protected RAR archives are not supported.",
            EntryRejection::MultiPart => "multi-part RAR archives are not supported.",
            EntryRejection::BlockedFile => {
                return text_then("blocked executable file in archive: ", path);
            },
            EntryRejection::NestedArchive => {
                return text_then("nested archives are not installed into CustomSongs: ", path);
            },
            EntryRejection::CountInvalid => "the archive file count is invalid.",
            EntryRejection::TooManyFiles => "the chart archive contains too many files.",
            EntryRejection::SizeInvalid => "the extracted chart size is invalid.",
            EntryRejection::TooLarge => "the chart expands beyond the safe extraction limit.",
        };
        text::string_from(&text::chars_of(fixed))
    }
}

/// An admitted entry stays inside the extraction folder, is neither a
/// program nor an archive, and keeps the running total within 2 GB; 7z and
/// RAR also keep the entry count within 10,000.
pub proof fn lemma_admitted_entries_are_safe(
    format: ArchiveFormat,
    staging: Seq<PartView>,
    b: ExtractionBudget,
    path: Option<Seq<PartView>>,
    size: u64,
    is_symlink: bool,
    encrypted: bool,
    split: bool,
    destination: Option<Seq<PartView>>,
)
    requires
        entry_verdict(format, staging, b, path, size, is_symlink, encrypted, split, destination) is Ok,
    ensures
        ({
            let nb = entry_verdict(
                format,
                staging,
                b,
                path,
                size,
                is_symlink,
                encrypted,
                split,
                destination,
            )->Ok_0;
            &&& path is Some
            &&& paths::is_safe_relative(path->0)
            &&& !paths::is_blocked_extension(paths::lower_extension(path->0))
            &&& !paths::is_archive_extension(paths::lower_extension(path->0))
            &&& nb.bytes == b.bytes + size
            &&& nb.bytes <= MAX_EXTRACTED_BYTES
            &&& format == ArchiveFormat::Zip ==> nb.files == b.files && !is_symlink
            &&& format != ArchiveFormat::Zip ==> nb.files == b.files + 1 && nb.files
                <= MAX_ARCHIVE_FILES
            &&& format == ArchiveFormat::Rar ==> !encrypted && !split
            &&& format == ArchiveFormat::SevenZip ==> destination == Some(
                join_relative(staging, path->0),
            )
        }),
{
}

/// One entry of the extraction folder after extraction.
pub struct ListedEntry {
    pub path: ChartPath,
    pub is_dir: bool,
}

/// The folder holding the extracted chart: the archive's single root
/// folder when everything sits inside one, else the extraction folder.
pub fn extracted_source(staging: &ChartPath, entries: &Vec<ListedEntry>) -> (r: ChartPath)
    ensures
        r@ == (if entries@.len() == 1 && entries@[0].is_dir {
            entries@[0].path@
        } else {
            staging@
        }),
{
    if entries.len() == 1 && entries[0].is_dir {
        entries[0].path.clone_path()
    } else {
        staging.clone_path()
    }
}

/// What the app reports about an archive chosen for import.
pub struct ImportArchiveInspection {
    pub archive_format: String,
    pub archive_path: String,
    pub archive_size_bytes: u64,
    pub artist: String,
    pub charter: String,
    pub conflict_folder_name: Option<String>,
    pub conflict_path: Option<String>,
    pub title: String,
}

pub open spec fn ov(o: Option<String>) -> Option<Seq<char>> {
    match o {
        Some(s) => Some(s@),
        None => None,
    }
}

/// The checks on an extracted import before it may be installed: chart
/// data and audio must both be there, and the chart texts must name a title
/// and an artist.
pub fn check_import_contents(inspection: &crate::chart::LocalChartInspection) -> (r: Result<(), String>)
    ensures
        match r {
            Ok(()) => inspection.has_chart && inspection.has_audio && inspection.identity@.title.len()
                > 0 && inspection.identity@.artist.len() > 0,
            Err(e) => if crate::chart::structure_problem(inspection.has_chart, inspection.has_audio, true) is Some {
                Some(e@) == crate::chart::structure_problem(inspection.has_chart, inspection.has_audio, true)
            } else {
                (inspection.identity@.title.len() == 0 || inspection.identity@.artist.len() == 0)
                    && e@ == "the chart TXT is missing a title or artist."@
            },
        },
{
    if let Some(e) = crate::chart::structure_error(inspection.has_chart, inspection.has_audio, true) {
        return Err(e);
    }
    if !inspection.identity.is_complete() {
        return Err(text::owned("the chart TXT is missing a title or artist."));
    }
    Ok(())
}

/// The report on an import: the archive, what its chart texts name (the
/// charter defaults to "unknown charter"), and the installed chart it
/// matches, if any.
pub fn import_inspection(
    format: ArchiveFormat,
    archive_path: String,
    archive_size_bytes: u64,
    identity: &crate::chart::ChartIdentity,
    conflict_folder_name: Option<String>,
    conflict_path: Option<String>,
) -> (r: ImportArchiveInspection)
    ensures
        r.archive_format@ == format_label(format),
        r.archive_path@ == archive_path@,
        r.archive_size_bytes == archive_size_bytes,
        r.artist@ == identity@.artist,
        r.charter@ == (match identity@.creator_label {
            Some(c) => c,
            None => "unknown charter"@,
        }),
        ov(r.conflict_folder_name) == ov(conflict_folder_name),
        ov(r.conflict_path) == ov(conflict_path),
        r.title@ == identity@.title,
{
    ImportArchiveInspection {
        archive_format: text::owned(format.label()),
        archive_path,
        archive_size_bytes,
        artist: identity.artist.clone(),
        charter: match &identity.creator_label {
            Some(c) => c.clone(),
            None => text::owned("unknown charter"),
        },
        conflict_folder_name,
        conflict_path,
        title: identity.title.clone(),
    }
}

/// An import goes ahead unless it matches an installed chart and the
/// player has not asked to keep both.
pub fn check_duplicate_import(has_conflict: bool, allow_duplicate: bool) -> (r: Result<(), String>)
    ensures
        r is Ok <==> (!has_conflict || allow_duplicate),
        r matches Err(e) ==> e@ == "a matching chart is already installed."@,
{
    if has_conflict && !allow_duplicate {
        Err(text::owned("a matching chart is already installed."))
    } else {
        Ok(())
    }
}

/// An entry path that passes the path check, placed under the extraction
/// folder, keeps the extraction folder as its prefix and adds only names
/// (no `..`, root or prefix), so it cannot leave that folder.
pub proof fn lemma_safe_entries_stay_inside(staging: Seq<PartView>, p: Seq<PartView>)
    requires
        staging.len() > 0,
        paths::is_safe_relative(p),
    ensures
        join_relative(staging, p).take(staging.len() as int) == staging,
        forall|i: int|
            staging.len() <= i < join_relative(staging, p).len() ==> match #[trigger] join_relative(staging, p)[i] {
                PartView::Normal(_) | PartView::CurDir => true,
                _ => false,
            },
{
    let j = join_relative(staging, p);
    assert(j.take(staging.len() as int) == staging);
    assert forall|i: int| staging.len() <= i < j.len() implies match #[trigger] j[i] {
        PartView::Normal(_) | PartView::CurDir => true,
        _ => false,
    } by {
        if p.len() > 0 && p[0] == PartView::CurDir {
            assert(j[i] == p[i - staging.len() + 1]);
        } else {
            assert(j[i] == p[i - staging.len()]);
        }
    }
}

/// The archive signatures, byte by byte: `PK` followed by 03 04, 05 06 or
/// 07 08 is a ZIP; 37 7A BC AF 27 1C is a 7z; `Rar!` 1A 07 00 or `Rar!` 1A 07
/// 01 00 is a RAR; fewer than four bytes are no archive.
pub proof fn lemma_archive_signatures(head: Seq<u8>)
    ensures
        (head.len() >= 4 && head[0] == 0x50 && head[1] == 0x4b && ((head[2] == 0x03 && head[3] == 0x04)
            || (head[2] == 0x05 && head[3] == 0x06) || (head[2] == 0x07 && head[3] == 0x08)))
            ==> format_of_signature(head) == Some(ArchiveFormat::Zip),
        (head.len() >= 6 && head[0] == 0x37 && head[1] == 0x7a && head[2] == 0xbc && head[3] == 0xaf
            && head[4] == 0x27 && head[5] == 0x1c) ==> format_of_signature(head) == Some(
            ArchiveFormat::SevenZip,
        ),
        (head.len() >= 7 && head[0] == 0x52 && head[1] == 0x61 && head[2] == 0x72 && head[3] == 0x21
            && head[4] == 0x1a && head[5] == 0x07 && head[6] == 0x00) ==> format_of_signature(head)
            == Some(ArchiveFormat::Rar),
        (head.len() >= 8 && head[0] == 0x52 && head[1] == 0x61 && head[2] == 0x72 && head[3] == 0x21
            && head[4] == 0x1a && head[5] == 0x07 && head[6] == 0x01 && head[7] == 0x00)
            ==> format_of_signature(head) == Some(ArchiveFormat::Rar),
        head.len() < 4 ==> format_of_signature(head) is None,
{
    if head.len() >= 4 && head[0] == 0x50 && head[1] == 0x4b {
        let t = head.take(4);
        if head[2] == 0x03 && head[3] == 0x04 {
            assert(t =~= seq![0x50u8, 0x4b, 0x03, 0x04]);
        }
        if head[2] == 0x05 && head[3] == 0x06 {
            assert(t =~= seq![0x50u8, 0x4b, 0x05, 0x06]);
        }
        if head[2] == 0x07 && head[3] == 0x08 {
            assert(t =~= seq![0x50u8, 0x4b, 0x07, 0x08]);
        }
    }
    if head.len() >= 6 && head[0] == 0x37 && head[1] == 0x7a && head[2] == 0xbc && head[3] == 0xaf
        && head[4] == 0x27 && head[5] == 0x1c {
        assert(head.take(6) =~= seq![0x37u8, 0x7a, 0xbc, 0xaf, 0x27, 0x1c]);
        assert(!starts_with(head, seq![0x50u8, 0x4b, 0x03, 0x04]) && !starts_with(head, seq![0x50u8, 0x4b, 0x05, 0x06]) && !starts_with(head, seq![0x50u8, 0x4b, 0x07, 0x08])) by {
            assert(head.take(4)[0] == 0x37);
            assert(seq![0x50u8, 0x4b, 0x03, 0x04][0] == 0x50);
            assert(seq![0x50u8, 0x4b, 0x05, 0x06][0] == 0x50);
            assert(seq![0x50u8, 0x4b, 0x07, 0x08][0] == 0x50);
        }
    }
    if head.len() >= 7 && head[0] == 0x52 && head[1] == 0x61 && head[2] == 0x72 && head[3] == 0x21
        && head[4] == 0x1a && head[5] == 0x07 {
        assert(!starts_with(head, seq![0x50u8, 0x4b, 0x03, 0x04]) && !starts_with(head, seq![0x50u8, 0x4b, 0x05, 0x06]) && !starts_with(head, seq![0x50u8, 0x4b, 0x07, 0x08])) by {
            assert(head.take(4)[0] == 0x52);
            assert(seq![0x50u8, 0x4b, 0x03, 0x04][0] == 0x50);
            assert(seq![0x50u8, 0x4b, 0x05, 0x06][0] == 0x50);
            assert(seq![0x50u8, 0x4b, 0x07, 0x08][0] == 0x50);
        }
        assert(!starts_with(head, seq![0x37u8, 0x7a, 0xbc, 0xaf, 0x27, 0x1c])) by {
            assert(head.take(6)[0] == 0x52);
            assert(seq![0x37u8, 0x7a, 0xbc, 0xaf, 0x27, 0x1c][0] == 0x37);
        }
        if head[6] == 0x00 {
            assert(head.take(7) =~= seq![0x52u8, 0x61, 0x72, 0x21, 0x1a, 0x07, 0x00]);
        }
        if head.len() >= 8 && head[6] == 0x01 && head[7] == 0x00 {
            assert(head.take(8) =~= seq![0x52u8, 0x61, 0x72, 0x21, 0x1a, 0x07, 0x01, 0x00]);
        }
    }
}

} // verus!
