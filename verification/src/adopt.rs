//! Adopting a chart that was installed by hand, one step at a time: the
//! folder, the chart's own texts and the catalog entry are checked in order,
//! and metadata is written only when the entry is that chart.

use vstd::prelude::*;
use crate::catalog;
use crate::chart::ChartIdentity;
use crate::ids;
use crate::library::{self, InstallMetadata};
use crate::matching::{self, SiteChart};
use crate::paths::{self, ChartPath};
use crate::records;

verus! {

/// Where an adoption stands.
#[derive(Clone, Copy, PartialEq, Eq, Debug, Structural)]
pub enum AdoptPhase {
    /// The app checks the game folder and whether the chart folder already
    /// has metadata.
    CheckingFolder,
    /// The chart's own texts are being read.
    ReadingIdentity,
    /// The catalog entry is being fetched.
    Fetching,
    /// The metadata is being written into the chart folder.
    Writing,
    /// Nothing is left to do.
    Done,
}

/// A catalog entry, as adoption reads it.
pub struct CatalogChart {
    /// What matching reads of the entry.
    pub site: SiteChart,
    /// The entry's `charterName`.
    pub charter_name: Option<String>,
    /// The entry's version (`contentUpdatedAt`, else `updatedAt`).
    pub version: Option<String>,
}

/// The state of an adoption.
pub struct AdoptState {
    pub phase: AdoptPhase,
    /// The game folder.
    pub target: ChartPath,
    /// The chart folder to adopt.
    pub installed: ChartPath,
    pub chart_id: String,
    /// What the chart's texts say, once read.
    pub identity: Option<ChartIdentity>,
    /// The catalog entry is the chart.
    pub matched: bool,
    /// The metadata to write.
    pub metadata: Option<InstallMetadata>,
    pub written: bool,
    pub error: Option<String>,
}

/// What the app reports after an action.
pub enum AdoptEvent {
    /// The game folder is there; whether the chart folder has metadata.
    FolderChecked(bool),
    /// What the chart's texts say, when they could be read.
    IdentityRead(Option<ChartIdentity>),
    /// The catalog's entry for the chart, if it returned one; whether the
    /// song lengths agree (judged by the app); the time of the adoption.
    Fetched(Option<CatalogChart>, bool, String),
    Written,
    /// The action failed with this message.
    Failed(String),
}

/// What the app is asked to do next.
pub enum AdoptAction {
    CheckFolder,
    ReadIdentity,
    /// Fetch the catalog entry at this address.
    Fetch(String),
    /// Write the state's metadata into the chart folder.
    WriteMetadata,
    Done(Result<(), String>),
}

pub enum AdoptActionView {
    CheckFolder,
    ReadIdentity,
    Fetch(Seq<char>),
    WriteMetadata,
    Done(Result<(), Seq<char>>),
}

impl View for AdoptAction {
    type V = AdoptActionView;

    open spec fn view(&self) -> AdoptActionView {
        match self {
            AdoptAction::CheckFolder => AdoptActionView::CheckFolder,
            AdoptAction::ReadIdentity => AdoptActionView::ReadIdentity,
            AdoptAction::Fetch(u) => AdoptActionView::Fetch(u@),
            AdoptAction::WriteMetadata => AdoptActionView::WriteMetadata,
            AdoptAction::Done(Ok(())) => AdoptActionView::Done(Ok(())),
            AdoptAction::Done(Err(e)) => AdoptActionView::Done(Err(e@)),
        }
    }
}

pub open spec fn adopt_action_of(s: AdoptState) -> AdoptActionView {
    match s.phase {
        AdoptPhase::CheckingFolder => AdoptActionView::CheckFolder,
        AdoptPhase::ReadingIdentity => AdoptActionView::ReadIdentity,
        AdoptPhase::Fetching => AdoptActionView::Fetch(
            catalog::site_origin() + "/api/charts/"@ + s.chart_id@,
        ),
        AdoptPhase::Writing => AdoptActionView::WriteMetadata,
        AdoptPhase::Done => AdoptActionView::Done(
            match s.error {
                Some(e) => Err(e@),
                None => Ok(()),
            },
        ),
    }
}

pub open spec fn not_adoptable_message() -> Seq<char> {
    "this folder cannot be adopted as a manual chart."@
}

pub open spec fn unreadable_message() -> Seq<char> {
    "could not read this manual chart metadata."@
}

pub open spec fn no_chart_message() -> Seq<char> {
    "UNCHARTABLE did not return this chart."@
}

pub open spec fn mismatch_message() -> Seq<char> {
    "the installed files no longer match this UNCHARTABLE chart."@
}

/// What holds of every state an adoption reaches: a chart folder is read
/// only when it sits directly in the game folder; the entry is fetched only
/// for a chart whose texts name a title and an artist; metadata is written
/// only when the entry is that chart; success only after it was written.
pub open spec fn adopt_wf(s: AdoptState) -> bool {
    &&& s.phase != AdoptPhase::Done ==> s.error is None && ids::is_uuid_text(s.chart_id@)
        && !s.written
    &&& (s.phase == AdoptPhase::ReadingIdentity || s.phase == AdoptPhase::Fetching || s.phase
        == AdoptPhase::Writing) ==> paths::parent_of(s.installed@) == Some(s.target@)
    &&& (s.phase == AdoptPhase::Fetching || s.phase == AdoptPhase::Writing) ==> s.identity is Some
        && s.identity->0@.title.len() > 0 && s.identity->0@.artist.len() > 0
    &&& s.phase == AdoptPhase::Writing ==> s.matched && s.metadata is Some
        && s.metadata->0.chart_id@ == s.chart_id@
    &&& s.written ==> s.matched && s.metadata is Some
    &&& (s.phase == AdoptPhase::Done && s.error is None) ==> s.written
}

impl AdoptState {
    /// An adoption of the folder `installed` in the game folder `target` as
    /// the catalog chart `chart_id`; an id that is no UUID ends it at once.
    pub fn new(target: ChartPath, installed: ChartPath, chart_id: String) -> (r: AdoptState)
        ensures
            adopt_wf(r),
            r.target == target && r.installed == installed && r.chart_id@ == chart_id@,
            r.identity is None && r.metadata is None && !r.matched && !r.written,
            ids::is_uuid_text(chart_id@) ==> r.phase == AdoptPhase::CheckingFolder && r.error is None,
            !ids::is_uuid_text(chart_id@) ==> r.phase == AdoptPhase::Done && r.error is Some
                && r.error->0@ == ids::invalid_chart_id_message(),
    {
        let (phase, error) = match ids::validate_chart_id(chart_id.as_str()) {
            Ok(()) => (AdoptPhase::CheckingFolder, None),
            Err(e) => (AdoptPhase::Done, Some(e)),
        };
        AdoptState {
            phase,
            target,
            installed,
            chart_id,
            identity: None,
            matched: false,
            metadata: None,
            written: false,
            error,
        }
    }

    /// The action this state asks for.
    pub fn action(&self) -> (r: AdoptAction)
        ensures
            r@ == adopt_action_of(*self),
    {
        match self.phase {
            AdoptPhase::CheckingFolder => AdoptAction::CheckFolder,
            AdoptPhase::ReadingIdentity => AdoptAction::ReadIdentity,
            AdoptPhase::Fetching => AdoptAction::Fetch(catalog::chart_api_url(self.chart_id.as_str())),
            AdoptPhase::Writing => AdoptAction::WriteMetadata,
            AdoptPhase::Done => AdoptAction::Done(
                match &self.error {
                    Some(e) => Err(e.clone()),
                    None => Ok(()),
                },
            ),
        }
    }
}

fn fail(s: AdoptState, m: String) -> (r: AdoptState)
    requires
        adopt_wf(s),
        s.phase != AdoptPhase::Done,
    ensures
        adopt_wf(r),
        r.phase == AdoptPhase::Done && r.error is Some && r.error->0@ == m@,
        r.target == s.target && r.installed == s.installed && r.chart_id == s.chart_id,
        r.identity == s.identity && r.matched == s.matched && r.metadata == s.metadata,
        !r.written,
{
    AdoptState { phase: AdoptPhase::Done, error: Some(m), ..s }
}

/// Whether the event answers the action the phase asked for.
pub open spec fn adopt_answers(p: AdoptPhase, e: AdoptEvent) -> bool {
    match e {
        AdoptEvent::FolderChecked(_) => p == AdoptPhase::CheckingFolder,
        AdoptEvent::IdentityRead(_) => p == AdoptPhase::ReadingIdentity,
        AdoptEvent::Fetched(_, _, _) => p == AdoptPhase::Fetching,
        AdoptEvent::Written => p == AdoptPhase::Writing,
        AdoptEvent::Failed(_) => p != AdoptPhase::Done,
    }
}

/// One step of an adoption: the state after the event, and the action the
/// app performs next.  An event that does not answer the pending action
/// changes nothing.
pub fn adopt_step(s: AdoptState, e: AdoptEvent) -> (r: (AdoptState, AdoptAction))
    requires
        adopt_wf(s),
    ensures
        adopt_wf(r.0),
        r.1@ == adopt_action_of(r.0),
        r.0.target == s.target && r.0.installed == s.installed && r.0.chart_id == s.chart_id,
        !adopt_answers(s.phase, e) ==> r.0 == s,
        e matches AdoptEvent::FolderChecked(has_metadata) ==> (s.phase == AdoptPhase::CheckingFolder
            ==> if paths::parent_of(s.installed@) == Some(s.target@) && !has_metadata {
            r.0.phase == AdoptPhase::ReadingIdentity
        } else {
            r.0.phase == AdoptPhase::Done && r.0.error is Some && r.0.error->0@
                == not_adoptable_message()
        }),
        e matches AdoptEvent::IdentityRead(id) ==> (s.phase == AdoptPhase::ReadingIdentity ==> if id is Some
            && id->0@.title.len() > 0 && id->0@.artist.len() > 0 {
            r.0.phase == AdoptPhase::Fetching && r.0.identity == id
        } else {
            r.0.phase == AdoptPhase::Done && r.0.error is Some && r.0.error->0@ == unreadable_message()
        }),
        e matches AdoptEvent::Fetched(entry, agree, at) ==> (s.phase == AdoptPhase::Fetching ==> match entry {
            None => r.0.phase == AdoptPhase::Done && r.0.error is Some && r.0.error->0@
                == no_chart_message(),
            Some(c) => if matching::site_chart_matches(c.site, s.identity->0@, agree) {
                &&& r.0.phase == AdoptPhase::Writing
                &&& r.0.matched
                &&& r.0.metadata is Some
                &&& records::is_adopted_metadata(
                    r.0.metadata->0,
                    s.chart_id@,
                    library::ov(c.site.title),
                    library::ov(c.site.artist),
                    library::ov(c.charter_name),
                    library::ov(c.version),
                    s.identity->0@,
                    at@,
                )
            } else {
                r.0.phase == AdoptPhase::Done && r.0.error is Some && r.0.error->0@
                    == mismatch_message()
            },
        }),
        !(s.phase == AdoptPhase::Fetching && (e is Fetched)) ==> r.0.metadata == s.metadata,
        (s.phase == AdoptPhase::Writing && (e is Written)) ==> r.0.written && r.1@
            == AdoptActionView::Done(Ok(())),
        e matches AdoptEvent::Failed(m) ==> (s.phase != AdoptPhase::Done ==> r.0.phase
            == AdoptPhase::Done && r.0.error is Some && r.0.error->0@ == m@),
        // Metadata is written only for a folder directly in the game folder,
        // without metadata of its own, whose texts the catalog entry matches.
        r.1@ == AdoptActionView::WriteMetadata ==> r.0.matched && r.0.metadata is Some && paths::parent_of(
            r.0.installed@,
        ) == Some(r.0.target@) && ids::is_uuid_text(r.0.chart_id@),
        (r.1@ matches AdoptActionView::Done(Ok(()))) ==> r.0.written,
{
    let phase = s.phase;
    let next = match e {
        AdoptEvent::FolderChecked(has_metadata) => if phase == AdoptPhase::CheckingFolder {
            if paths::is_direct_child(&s.target, &s.installed) && !has_metadata {
                AdoptState { phase: AdoptPhase::ReadingIdentity, ..s }
            } else {
                fail(s, String::from_str("this folder cannot be adopted as a manual chart."))
            }
        } else {
            s
        },
        AdoptEvent::IdentityRead(id) => if phase == AdoptPhase::ReadingIdentity {
            let complete = match &id {
                Some(i) => i.is_complete(),
                None => false,
            };
            if complete {
                AdoptState { phase: AdoptPhase::Fetching, identity: id, ..s }
            } else {
                fail(s, String::from_str("could not read this manual chart metadata."))
            }
        } else {
            s
        },
        AdoptEvent::Fetched(entry, agree, at) => if phase == AdoptPhase::Fetching {
            match entry {
                None => fail(s, String::from_str("UNCHARTABLE did not return this chart.")),
                Some(c) => {
                    let same = matching::chart_matches_manual_identity(
                        &c.site,
                        s.identity.as_ref().unwrap(),
                        agree,
                    );
                    if same {
                        let metadata = records::adopted_metadata(
                            s.chart_id.clone(),
                            c.site.title,
                            c.site.artist,
                            c.charter_name,
                            c.version,
                            s.identity.as_ref().unwrap(),
                            at,
                        );
                        AdoptState {
                            phase: AdoptPhase::Writing,
                            matched: true,
                            metadata: Some(metadata),
                            ..s
                        }
                    } else {
                        fail(
                            s,
                            String::from_str(
                                "the installed files no longer match this UNCHARTABLE chart.",
                            ),
                        )
                    }
                },
            }
        } else {
            s
        },
        AdoptEvent::Written => if phase == AdoptPhase::Writing {
            AdoptState { phase: AdoptPhase::Done, written: true, ..s }
        } else {
            s
        },
        AdoptEvent::Failed(m) => if phase != AdoptPhase::Done {
            fail(s, m)
        } else {
            s
        },
    };
    let action = next.action();
    (next, action)
}

} // verus!
