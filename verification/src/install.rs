//! Installing a chart from unchartable.site, one step at a time: the order
//! of the checks made before the game folder changes, and the removal of
//! the temporary download and extraction folder on every failure.  The app
//! performs each action (network, disk) and reports what came of it.

use vstd::prelude::*;
use crate::archive::{self, ArchiveFormat, MAX_ARCHIVE_BYTES};
use crate::chart;
use crate::digest::{self, DownloadProgress};
use crate::ids;
use crate::catalog;
use crate::links::{self, UrlParts, UrlPartsView};
use crate::paths::{self, ChartPath, PartView};
use crate::placement;
use crate::text;

verus! {

/// Where an install stands.
#[derive(Clone, Copy, PartialEq, Eq, Debug, Structural)]
pub enum InstallPhase {
    /// The download ticket has been asked for.
    AwaitTicket,
    /// The download has been asked for.
    AwaitResponse,
    /// The temporary archive file is being created.
    AwaitFile,
    /// The next chunk of the download is awaited.
    AwaitChunk,
    /// The accepted chunk is being written.
    AwaitWrite,
    /// The archive file is being flushed.
    AwaitFlush,
    /// The app looks for an installed copy of the chart.
    AwaitExisting,
    /// The first bytes of the archive are being read.
    AwaitHead,
    /// The archive is being extracted into the extraction folder.
    AwaitExtraction,
    /// The chart is being moved into the game folder.
    AwaitFinalize,
    /// The temporary archive and extraction folder are being removed.
    CleaningUp,
    /// Nothing is left to do.
    Done,
}

/// The order of the phases of an install that is going well.
pub open spec fn rank(p: InstallPhase) -> int {
    match p {
        InstallPhase::AwaitTicket => 1,
        InstallPhase::AwaitResponse => 2,
        InstallPhase::AwaitFile => 3,
        InstallPhase::AwaitChunk => 4,
        InstallPhase::AwaitWrite => 5,
        InstallPhase::AwaitFlush => 6,
        InstallPhase::AwaitExisting => 7,
        InstallPhase::AwaitHead => 8,
        InstallPhase::AwaitExtraction => 9,
        InstallPhase::AwaitFinalize => 10,
        InstallPhase::CleaningUp => 0,
        InstallPhase::Done => 0,
    }
}

/// The phases of an install that is going well.
pub open spec fn live(p: InstallPhase) -> bool {
    rank(p) > 0
}

/// The phases in which the temporary archive file may exist.
pub open spec fn has_workspace(p: InstallPhase) -> bool {
    rank(p) >= 3
}

/// The state of an install.
pub struct InstallState {
    pub phase: InstallPhase,
    /// The game folder.
    pub target: ChartPath,
    pub chart_id: String,
    /// The chart's title and charter, as the catalog gives them.
    pub title: String,
    pub charter: String,
    /// The name of the temporary archive file in the game folder.
    pub archive_name: String,
    /// The name of the temporary extraction folder in the game folder.
    pub staging_name: String,
    /// The checked download location.
    pub link: Option<UrlParts>,
    /// The size the download announced.
    pub announced: Option<u64>,
    pub progress: DownloadProgress,
    /// The number of bytes received so far.
    pub downloaded: u64,
    /// The bytes received so far, in order.
    pub received: Ghost<Seq<u8>>,
    /// The SHA-256 of the whole download, once it ended.
    pub digest: Option<String>,
    /// The installed copy of the chart, if any, found before extraction.
    pub existing: Option<ChartPath>,
    /// The format found from the archive's first bytes.
    pub format: Option<ArchiveFormat>,
    /// The folder holding the extracted chart.
    pub source: Option<ChartPath>,
    /// Where the chart is installed.
    pub destination: Option<ChartPath>,
    /// The extracted files hold chart data and audio.
    pub structure_ok: bool,
    /// The temporary archive file was asked for.
    pub workspace_made: bool,
    /// The temporary archive and extraction folder were removed.
    pub cleaned: bool,
    /// The chart was moved into the game folder.
    pub finalized: bool,
    /// The error to report.
    pub error: Option<String>,
}

/// What the app reports after an action.
pub enum InstallEvent {
    /// The download location the ticket gave.
    Ticket(String),
    /// The download answered, announcing this size (if any).
    Response(Option<u64>),
    FileCreated,
    /// The next chunk of the download.
    Chunk(Vec<u8>),
    /// The user cancelled the install.
    Cancelled,
    /// The download has no more chunks.
    StreamEnded,
    /// The chunk was written and the progress reported.
    Written,
    Flushed,
    /// The installed copy of the chart, if any.
    Existing(Option<ChartPath>),
    /// The first bytes of the archive file (at most eight).
    Head(Vec<u8>),
    /// The archive was extracted (each entry admitted on the way): whether the
    /// extracted files hold chart data and audio, the folder holding the
    /// chart (`archive::extracted_source`), and, for each name tried for a
    /// new install (`placement::new_install_candidates` of the
    /// `paths::install_folder_name`), whether it is taken in the game folder.
    Extracted(bool, bool, ChartPath, Vec<bool>),
    /// The chart was moved into the game folder.
    Finalized,
    /// The temporary archive and extraction folder were removed.
    CleanedUp,
    /// The action failed with this message.
    Failed(String),
}

/// What the app is asked to do next.
pub enum InstallAction {
    /// Ask the site for a download ticket at this address.
    RequestTicket(String),
    /// Start the download from this location.
    Download(UrlParts),
    /// Create the temporary archive file of this name.
    CreateFile(String),
    /// Read the next chunk, first checking whether the user cancelled.
    ReadChunk,
    /// Write the chunk, then report this many bytes received.
    WriteChunk(u64),
    Flush,
    /// Look in the game folder for an installed copy of this chart.
    FindExisting(String),
    /// Read the first bytes of the archive file of this name.
    ReadHead(String),
    /// Extract the archive file (first name) of this format into the
    /// extraction folder (second name), then remove the archive file.
    Extract(ArchiveFormat, String, String),
    /// Move the chart into the game folder: the download's SHA-256 and size,
    /// the destination, and whether it replaces an installed copy.
    Finalize(String, u64, ChartPath, bool),
    /// Remove the temporary archive file and the extraction folder.
    Cleanup(String, String),
    Done(Result<(), String>),
}

pub enum InstallActionView {
    RequestTicket(Seq<char>),
    Download(UrlPartsView),
    CreateFile(Seq<char>),
    ReadChunk,
    WriteChunk(u64),
    Flush,
    FindExisting(Seq<char>),
    ReadHead(Seq<char>),
    Extract(ArchiveFormat, Seq<char>, Seq<char>),
    Finalize(Seq<char>, u64, Seq<PartView>, bool),
    Cleanup(Seq<char>, Seq<char>),
    Done(Result<(), Seq<char>>),
}

impl View for InstallAction {
    type V = InstallActionView;

    open spec fn view(&self) -> InstallActionView {
        match self {
            InstallAction::RequestTicket(u) => InstallActionView::RequestTicket(u@),
            InstallAction::Download(u) => InstallActionView::Download(u@),
            InstallAction::CreateFile(a) => InstallActionView::CreateFile(a@),
            InstallAction::ReadChunk => InstallActionView::ReadChunk,
            InstallAction::WriteChunk(n) => InstallActionView::WriteChunk(*n),
            InstallAction::Flush => InstallActionView::Flush,
            InstallAction::FindExisting(c) => InstallActionView::FindExisting(c@),
            InstallAction::ReadHead(a) => InstallActionView::ReadHead(a@),
            InstallAction::Extract(f, a, s) => InstallActionView::Extract(*f, a@, s@),
            InstallAction::Finalize(d, n, p, u) => InstallActionView::Finalize(d@, *n, p@, *u),
            InstallAction::Cleanup(a, s) => InstallActionView::Cleanup(a@, s@),
            InstallAction::Done(Ok(())) => InstallActionView::Done(Ok(())),
            InstallAction::Done(Err(e)) => InstallActionView::Done(Err(e@)),
        }
    }
}

pub open spec fn opt_parts(p: Option<UrlParts>) -> Option<UrlPartsView> {
    match p {
        Some(u) => Some(u@),
        None => None,
    }
}

/// The action a state asks for.
pub open spec fn install_action_of(s: InstallState) -> InstallActionView {
    match s.phase {
        InstallPhase::AwaitTicket => InstallActionView::RequestTicket(ticket_url_of(s.chart_id@)),
        InstallPhase::AwaitResponse => InstallActionView::Download(s.link->0@),
        InstallPhase::AwaitFile => InstallActionView::CreateFile(s.archive_name@),
        InstallPhase::AwaitChunk => InstallActionView::ReadChunk,
        InstallPhase::AwaitWrite => InstallActionView::WriteChunk(s.downloaded),
        InstallPhase::AwaitFlush => InstallActionView::Flush,
        InstallPhase::AwaitExisting => InstallActionView::FindExisting(s.chart_id@),
        InstallPhase::AwaitHead => InstallActionView::ReadHead(s.archive_name@),
        InstallPhase::AwaitExtraction => InstallActionView::Extract(
            s.format->0,
            s.archive_name@,
            s.staging_name@,
        ),
        InstallPhase::AwaitFinalize => InstallActionView::Finalize(
            s.digest->0@,
            s.downloaded,
            s.destination->0@,
            s.existing is Some,
        ),
        InstallPhase::CleaningUp => InstallActionView::Cleanup(s.archive_name@, s.staging_name@),
        InstallPhase::Done => InstallActionView::Done(
            match s.error {
                Some(e) => Err(e@),
                None => Ok(()),
            },
        ),
    }
}

/// The address of a chart's download ticket.
pub open spec fn ticket_url_of(chart_id: Seq<char>) -> Seq<char> {
    catalog::site_origin() + "/api/charts/"@ + chart_id + "/download?format=json&source=app"@
}

/// The number of names tried for a new install.
pub const NEW_INSTALL_CANDIDATES: usize = 1000;

/// The extraction folder of an install in the game folder.
pub open spec fn staging_of(s: InstallState) -> Seq<PartView> {
    s.target@.push(PartView::Normal(s.staging_name@))
}

/// Where a chart is installed: over its installed copy when there is one,
/// else under the first free name for the folder the extracted chart takes
/// (`paths::install_folder_name_of`).
pub open spec fn install_destination(
    s: InstallState,
    existing: Option<ChartPath>,
    source: Seq<PartView>,
    present: Seq<bool>,
    d: Seq<PartView>,
) -> bool {
    match existing {
        Some(x) => d == x@,
        None => placement::new_install_placement(
            s.target@,
            paths::install_folder_name_of(source, staging_of(s), s.title@),
            s.title@,
            s.charter@,
            placement::reported_flags(present, NEW_INSTALL_CANDIDATES as nat),
            d,
        ),
    }
}

/// Every check made before the game folder changes has passed: a UUID
/// chart id, an HTTPS download location that is no Google host, an
/// announced size and a received size within 250 MB, a known archive
/// signature, and extracted files that hold chart data and audio.
pub open spec fn checks_passed(s: InstallState) -> bool {
    &&& ids::is_uuid_text(s.chart_id@)
    &&& s.link is Some
    &&& links::download_link_verdict(Some(s.link->0@)) is Ok
    &&& !(s.announced matches Some(n) && n > MAX_ARCHIVE_BYTES)
    &&& s.downloaded <= MAX_ARCHIVE_BYTES
    &&& s.digest is Some
    &&& s.digest->0@ == digest::hex_lower(digest::sha256_of(s.received@))
    &&& s.downloaded == s.received@.len()
    &&& s.format is Some
    &&& s.structure_ok
    &&& s.source is Some
    &&& s.destination is Some
    &&& (s.existing is Some ==> s.destination->0@ == s.existing->0@)
}

/// What holds of every state an install reaches.
pub open spec fn install_wf(s: InstallState) -> bool {
    &&& s.progress.wf()
    &&& live(s.phase) ==> ids::is_uuid_text(s.chart_id@) && s.error is None && !s.cleaned
        && !s.finalized
    &&& (live(s.phase) && rank(s.phase) >= 2) ==> s.link is Some && links::download_link_verdict(
        Some(s.link->0@),
    ) is Ok
    &&& (live(s.phase) && rank(s.phase) >= 3) ==> !(s.announced matches Some(n) && n
        > MAX_ARCHIVE_BYTES)
    &&& has_workspace(s.phase) <==> (live(s.phase) && s.workspace_made)
    &&& (live(s.phase) && rank(s.phase) <= 5) ==> s.downloaded == s.progress.count()
        && s.progress.received() == s.received@
    &&& (live(s.phase) && rank(s.phase) >= 6) ==> s.digest is Some && s.digest->0@
        == digest::hex_lower(digest::sha256_of(s.received@)) && s.downloaded == s.received@.len()
    &&& (live(s.phase) && rank(s.phase) >= 6) ==> s.digest is Some && s.downloaded
        <= MAX_ARCHIVE_BYTES
    &&& (live(s.phase) && rank(s.phase) >= 9) ==> s.format is Some
    &&& s.phase == InstallPhase::AwaitFinalize ==> checks_passed(s)
    &&& s.phase == InstallPhase::CleaningUp ==> s.error is Some && s.workspace_made && !s.cleaned
    &&& (s.phase == InstallPhase::Done && s.error is None) ==> s.finalized && checks_passed(s)
    &&& (s.phase == InstallPhase::Done && s.error is Some && s.workspace_made) ==> s.cleaned
    &&& s.finalized ==> s.error is None
}

/// Whether the event answers the action the phase asked for.
pub open spec fn answers(p: InstallPhase, e: InstallEvent) -> bool {
    match e {
        InstallEvent::Ticket(_) => p == InstallPhase::AwaitTicket,
        InstallEvent::Response(_) => p == InstallPhase::AwaitResponse,
        InstallEvent::FileCreated => p == InstallPhase::AwaitFile,
        InstallEvent::Chunk(_) => p == InstallPhase::AwaitChunk,
        InstallEvent::Cancelled => p == InstallPhase::AwaitChunk,
        InstallEvent::StreamEnded => p == InstallPhase::AwaitChunk,
        InstallEvent::Written => p == InstallPhase::AwaitWrite,
        InstallEvent::Flushed => p == InstallPhase::AwaitFlush,
        InstallEvent::Existing(_) => p == InstallPhase::AwaitExisting,
        InstallEvent::Head(_) => p == InstallPhase::AwaitHead,
        InstallEvent::Extracted(_, _, _, _) => p == InstallPhase::AwaitExtraction,
        InstallEvent::Finalized => p == InstallPhase::AwaitFinalize,
        InstallEvent::CleanedUp => p == InstallPhase::CleaningUp,
        InstallEvent::Failed(_) => live(p),
    }
}

/// What `url::Url::parse` makes of a download location, as parts.
pub open spec fn parsed_link(t: Seq<char>) -> Option<UrlPartsView> {
    match links::url_parse_result(t) {
        Some((s, h, x)) => Some(UrlPartsView { scheme: s, host: h, text: x }),
        None => None,
    }
}

pub open spec fn cancelled_message() -> Seq<char> {
    "installation cancelled."@
}

/// The error a failed step leaves: the state moves to cleaning up once the
/// temporary archive may exist, else it is done.
pub open spec fn fails_with(s: InstallState, r: InstallState, m: Seq<char>) -> bool {
    &&& r.error matches Some(x) && x@ == m
    &&& r.phase == (if has_workspace(s.phase) {
        InstallPhase::CleaningUp
    } else {
        InstallPhase::Done
    })
}

impl InstallState {
    /// The state of an install of `chart_id` into the game folder `target`
    /// about to begin, with fresh names for its temporary archive and
    /// extraction folder.  An id that is no UUID ends the install at once.
    pub fn new(target: ChartPath, chart_id: String, title: String, charter: String) -> (r: InstallState)
        ensures
            install_wf(r),
            r.target == target && r.title == title && r.charter == charter,
            r.chart_id@ == chart_id@,
            r.existing is None && r.source is None && r.destination is None,
            exists|id: Seq<char>|
                ids::is_hyphenated_uuid(id) && r.archive_name@ == ".unchartable-"@ + id
                    + ".archive"@ && r.staging_name@ == ".unchartable-"@ + id,
            r.link is None && r.announced is None && r.digest is None && r.format is None,
            r.downloaded == 0 && r.progress.count() == 0,
            r.received@ == Seq::<u8>::empty(),
            !r.structure_ok && !r.workspace_made && !r.cleaned && !r.finalized,
            ids::is_uuid_text(chart_id@) ==> r.phase == InstallPhase::AwaitTicket && r.error is None,
            !ids::is_uuid_text(chart_id@) ==> r.phase == InstallPhase::Done && r.error is Some && r.error->0@ == ids::invalid_chart_id_message(),
            install_action_of(r) == (if ids::is_uuid_text(chart_id@) {
                InstallActionView::RequestTicket(ticket_url_of(chart_id@))
            } else {
                InstallActionView::Done(Err(ids::invalid_chart_id_message()))
            }),
    {
        let (archive_name, staging_name) = ids::download_workspace_names();
        let checked = ids::validate_chart_id(chart_id.as_str());
        let (phase, error) = match checked {
            Ok(()) => (InstallPhase::AwaitTicket, None),
            Err(e) => (InstallPhase::Done, Some(e)),
        };
        InstallState {
            phase,
            target,
            chart_id,
            title,
            charter,
            archive_name,
            staging_name,
            link: None,
            announced: None,
            progress: DownloadProgress::new(),
            downloaded: 0,
            received: Ghost(Seq::empty()),
            digest: None,
            existing: None,
            format: None,
            source: None,
            destination: None,
            structure_ok: false,
            workspace_made: false,
            cleaned: false,
            finalized: false,
            error,
        }
    }

    /// The action this state asks for.
    pub fn action(&self) -> (r: InstallAction)
        requires
            install_wf(*self),
        ensures
            r@ == install_action_of(*self),
    {
        match self.phase {
            InstallPhase::AwaitTicket => InstallAction::RequestTicket(
                catalog::download_ticket_url(self.chart_id.as_str()),
            ),
            InstallPhase::AwaitResponse => InstallAction::Download(
                self.link.as_ref().unwrap().clone_parts(),
            ),
            InstallPhase::AwaitFile => InstallAction::CreateFile(self.archive_name.clone()),
            InstallPhase::AwaitChunk => InstallAction::ReadChunk,
            InstallPhase::AwaitWrite => InstallAction::WriteChunk(self.downloaded),
            InstallPhase::AwaitFlush => InstallAction::Flush,
            InstallPhase::AwaitExisting => InstallAction::FindExisting(self.chart_id.clone()),
            InstallPhase::AwaitHead => InstallAction::ReadHead(self.archive_name.clone()),
            InstallPhase::AwaitExtraction => InstallAction::Extract(
                self.format.unwrap(),
                self.archive_name.clone(),
                self.staging_name.clone(),
            ),
            InstallPhase::AwaitFinalize => InstallAction::Finalize(
                self.digest.as_ref().unwrap().clone(),
                self.downloaded,
                self.destination.as_ref().unwrap().clone_path(),
                self.existing.is_some(),
            ),
            InstallPhase::CleaningUp => InstallAction::Cleanup(
                self.archive_name.clone(),
                self.staging_name.clone(),
            ),
            InstallPhase::Done => InstallAction::Done(
                match &self.error {
                    Some(e) => Err(e.clone()),
                    None => Ok(()),
                },
            ),
        }
    }
}

fn fail(s: InstallState, m: String) -> (r: InstallState)
    requires
        install_wf(s),
        live(s.phase),
    ensures
        fails_with(s, r, m@),
        install_wf(r),
        r.chart_id == s.chart_id && r.archive_name == s.archive_name && r.staging_name
            == s.staging_name,
        r.link == s.link && r.announced == s.announced && r.progress == s.progress,
        r.downloaded == s.downloaded && r.digest == s.digest && r.format == s.format,
        r.received == s.received,
        r.target == s.target && r.title == s.title && r.charter == s.charter,
        r.existing == s.existing && r.source == s.source && r.destination == s.destination,
        r.structure_ok == s.structure_ok && r.workspace_made == s.workspace_made,
        !r.cleaned && !r.finalized,
{
    let phase = if s.workspace_made {
        InstallPhase::CleaningUp
    } else {
        InstallPhase::Done
    };
    InstallState { phase, error: Some(m), ..s }
}

/// One step of an install: the state after the event, and the action the
/// app performs next.
#[verifier::rlimit(60)]
pub fn install_step(s: InstallState, e: InstallEvent) -> (r: (InstallState, InstallAction))
    requires
        install_wf(s),
    ensures
        install_wf(r.0),
        r.1@ == install_action_of(r.0),
        r.0.chart_id == s.chart_id && r.0.archive_name == s.archive_name && r.0.staging_name
            == s.staging_name,
        r.0.target == s.target && r.0.title == s.title && r.0.charter == s.charter,
        !(s.phase == InstallPhase::AwaitExisting && (e is Existing)) ==> r.0.existing == s.existing,
        !(s.phase == InstallPhase::AwaitExtraction && (e is Extracted)) ==> r.0.source == s.source
            && r.0.destination == s.destination,
        !answers(s.phase, e) ==> r.0 == s,
        // The bytes received, their number and their SHA-256 change only as
        // the download goes on and when it ends.
        !(s.phase == InstallPhase::AwaitChunk && (e is Chunk)) ==> r.0.received == s.received,
        !(s.phase == InstallPhase::AwaitChunk && ((e is Chunk) || (e is StreamEnded)))
            ==> r.0.digest == s.digest && r.0.downloaded == s.downloaded,
        // A failure once the temporary archive may exist removes it and the
        // extraction folder; earlier failures end the install at once.
        e matches InstallEvent::Failed(m) ==> (live(s.phase) ==> fails_with(s, r.0, m@)),
        (has_workspace(s.phase) && (e is Failed)) ==> r.1@ == InstallActionView::Cleanup(
            s.archive_name@,
            s.staging_name@,
        ),
        (s.phase == InstallPhase::CleaningUp && (e is CleanedUp)) ==> r.0.cleaned && r.1@
            == InstallActionView::Done(Err(s.error->0@)),
        ((r.1@ matches InstallActionView::Done(Err(_))) && r.0.workspace_made) ==> r.0.cleaned,
        // The checks, in order.
        e matches InstallEvent::Ticket(t) ==> (s.phase == InstallPhase::AwaitTicket ==> match links::download_link_verdict(
            parsed_link(t@),
        ) {
            Ok(v) => r.0.phase == InstallPhase::AwaitResponse && opt_parts(r.0.link) == Some(v),
            Err(m) => fails_with(s, r.0, m),
        }),
        e matches InstallEvent::Response(n) ==> (s.phase == InstallPhase::AwaitResponse ==> if n matches Some(
            k,
        ) && k > MAX_ARCHIVE_BYTES {
            fails_with(s, r.0, digest::download_limit_message())
        } else {
            r.0.phase == InstallPhase::AwaitFile && r.0.announced == n && r.0.workspace_made
        }),
        (s.phase == InstallPhase::AwaitFile && (e is FileCreated)) ==> r.0.phase
            == InstallPhase::AwaitChunk,
        e matches InstallEvent::Chunk(c) ==> (s.phase == InstallPhase::AwaitChunk ==> if s.progress.count()
            + c@.len() <= MAX_ARCHIVE_BYTES {
            r.0.phase == InstallPhase::AwaitWrite && r.0.received@ == s.received@ + c@
                && r.0.downloaded == s.downloaded + c@.len()
        } else {
            &&& r.0.phase == InstallPhase::CleaningUp
            &&& r.0.error is Some
            &&& r.0.error->0@ == (if s.progress.count() + c@.len() > u64::MAX {
                "download size overflow."@
            } else {
                digest::download_limit_message()
            })
        }),
        (s.phase == InstallPhase::AwaitChunk && (e is Cancelled)) ==> fails_with(
            s,
            r.0,
            cancelled_message(),
        ),
        (s.phase == InstallPhase::AwaitChunk && (e is StreamEnded)) ==> r.0.phase
            == InstallPhase::AwaitFlush && r.0.downloaded == s.downloaded && r.0.digest is Some
            && r.0.digest->0@ == digest::hex_lower(digest::sha256_of(s.received@)),
        (s.phase == InstallPhase::AwaitWrite && (e is Written)) ==> r.0.phase
            == InstallPhase::AwaitChunk,
        (s.phase == InstallPhase::AwaitFlush && (e is Flushed)) ==> r.0.phase
            == InstallPhase::AwaitExisting,
        e matches InstallEvent::Existing(x) ==> (s.phase == InstallPhase::AwaitExisting ==> r.0.phase
            == InstallPhase::AwaitHead && r.0.existing == x),
        e matches InstallEvent::Head(h) ==> (s.phase == InstallPhase::AwaitHead ==> match archive::format_of_signature(
            h@,
        ) {
            Some(f) => r.0.phase == InstallPhase::AwaitExtraction && r.0.format == Some(f),
            None => fails_with(s, r.0, archive::unsupported_archive_message()),
        }),
        e matches InstallEvent::Extracted(c, a, src, present) ==> (s.phase == InstallPhase::AwaitExtraction ==> match chart::structure_problem(
            c,
            a,
            false,
        ) {
            None => r.0.phase == InstallPhase::AwaitFinalize && r.0.structure_ok && r.0.source
                == Some(src) && install_destination(
                s,
                s.existing,
                src@,
                present@,
                r.0.destination->0@,
            ),
            Some(m) => fails_with(s, r.0, m),
        }),
        (s.phase == InstallPhase::AwaitFinalize && (e is Finalized)) ==> r.0.finalized && r.1@
            == InstallActionView::Done(Ok(())),
        // The game folder changes only once every check has passed, and
        // success is reported only after that.
        (r.1@ is Finalize) ==> checks_passed(r.0),
        r.1@ matches InstallActionView::Finalize(g, n, d, update) ==> (g == r.0.digest->0@ && g
            == digest::hex_lower(digest::sha256_of(r.0.received@)) && n == r.0.received@.len()
            && n == r.0.downloaded && d
            == r.0.destination->0@ && update == (r.0.existing is Some)),
        (r.1@ matches InstallActionView::Done(Ok(()))) ==> r.0.finalized && checks_passed(r.0),
{
    let phase = s.phase;
    let next = match e {
        InstallEvent::Failed(m) => if phase != InstallPhase::CleaningUp && phase != InstallPhase::Done {
            fail(s, m)
        } else {
            s
        },
        InstallEvent::Ticket(t) => if phase == InstallPhase::AwaitTicket {
            match links::parse_download_url(t.as_str()) {
                Ok(u) => InstallState { phase: InstallPhase::AwaitResponse, link: Some(u), ..s },
                Err(m) => fail(s, m),
            }
        } else {
            s
        },
        InstallEvent::Response(n) => if phase == InstallPhase::AwaitResponse {
            match digest::check_announced_size(n) {
                Ok(()) => InstallState {
                    phase: InstallPhase::AwaitFile,
                    announced: n,
                    workspace_made: true,
                    ..s
                },
                Err(m) => fail(s, m),
            }
        } else {
            s
        },
        InstallEvent::FileCreated => if phase == InstallPhase::AwaitFile {
            proof {
                s.progress.lemma_count_within_limit();
            }
            InstallState { phase: InstallPhase::AwaitChunk, ..s }
        } else {
            s
        },
        InstallEvent::Chunk(c) => if phase == InstallPhase::AwaitChunk {
            let mut s = s;
            match s.progress.accept_chunk(c.as_slice()) {
                Ok(()) => {
                    proof {
                        s.progress.lemma_count_within_limit();
                    }
                    let n = s.progress.downloaded_bytes();
                    let ghost got = s.received@ + c@;
                    InstallState {
                        phase: InstallPhase::AwaitWrite,
                        downloaded: n,
                        received: Ghost(got),
                        ..s
                    }
                },
                Err(m) => fail(s, m),
            }
        } else {
            s
        },
        InstallEvent::Cancelled => if phase == InstallPhase::AwaitChunk {
            fail(s, text::string_from(&text::chars_of("installation cancelled.")))
        } else {
            s
        },
        InstallEvent::StreamEnded => if phase == InstallPhase::AwaitChunk {
            proof {
                s.progress.lemma_count_within_limit();
            }
            let InstallState {
                phase: _,
                target,
                chart_id,
                title,
                charter,
                archive_name,
                staging_name,
                link,
                announced,
                progress,
                downloaded,
                received,
                digest: _,
                existing,
                format,
                source,
                destination,
                structure_ok,
                workspace_made,
                cleaned,
                finalized,
                error,
            } = s;
            let sha = progress.archive_sha256();
            InstallState {
                phase: InstallPhase::AwaitFlush,
                target,
                chart_id,
                title,
                charter,
                archive_name,
                staging_name,
                link,
                announced,
                progress: DownloadProgress::new(),
                downloaded,
                received,
                digest: Some(sha),
                existing,
                format,
                source,
                destination,
                structure_ok,
                workspace_made,
                cleaned,
                finalized,
                error,
            }
        } else {
            s
        },
        InstallEvent::Written => if phase == InstallPhase::AwaitWrite {
            InstallState { phase: InstallPhase::AwaitChunk, ..s }
        } else {
            s
        },
        InstallEvent::Flushed => if phase == InstallPhase::AwaitFlush {
            InstallState { phase: InstallPhase::AwaitExisting, ..s }
        } else {
            s
        },
        InstallEvent::Existing(x) => if phase == InstallPhase::AwaitExisting {
            InstallState { phase: InstallPhase::AwaitHead, existing: x, ..s }
        } else {
            s
        },
        InstallEvent::Head(h) => if phase == InstallPhase::AwaitHead {
            match archive::detect_archive_format(h.as_slice()) {
                Ok(f) => InstallState { phase: InstallPhase::AwaitExtraction, format: Some(f), ..s },
                Err(m) => fail(s, m),
            }
        } else {
            s
        },
        InstallEvent::Extracted(c, a, src, present) => if phase == InstallPhase::AwaitExtraction {
            match chart::structure_error(c, a, false) {
                None => {
                    let destination = match &s.existing {
                        Some(x) => x.clone_path(),
                        None => {
                            let staging = s.target.join_name(s.staging_name.as_str());
                            let folder = paths::install_folder_name(
                                &src,
                                &staging,
                                s.title.as_str(),
                                s.charter.as_str(),
                            );
                            let flags = placement::fit_flags(&present, NEW_INSTALL_CANDIDATES);
                            placement::new_install_path(
                                &s.target,
                                folder.as_str(),
                                s.title.as_str(),
                                s.charter.as_str(),
                                &flags,
                            )
                        },
                    };
                    InstallState {
                        phase: InstallPhase::AwaitFinalize,
                        structure_ok: true,
                        source: Some(src),
                        destination: Some(destination),
                        ..s
                    }
                },
                Some(m) => fail(s, m),
            }
        } else {
            s
        },
        InstallEvent::Finalized => if phase == InstallPhase::AwaitFinalize {
            InstallState { phase: InstallPhase::Done, finalized: true, ..s }
        } else {
            s
        },
        InstallEvent::CleanedUp => if phase == InstallPhase::CleaningUp {
            InstallState { phase: InstallPhase::Done, cleaned: true, ..s }
        } else {
            s
        },
    };
    let action = next.action();
    (next, action)
}

} // verus!
