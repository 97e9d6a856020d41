//! Moving a freshly extracted chart into the game folder without losing the
//! installation it replaces: the decisions of that move, one step at a time.
//! The app performs each action and reports what came of it.

use vstd::prelude::*;

verus! {

/// Where a replacement stands.
#[derive(Clone, Copy, PartialEq, Eq, Debug, Structural)]
pub enum ReplacePhase {
    /// The install metadata is being written into the new chart.
    WritingMetadata,
    /// The app looks whether a chart already sits at the destination.
    CheckingDestination,
    /// The chart at the destination is being renamed aside.
    SettingAside,
    /// The new chart is being moved to the destination.
    Moving,
    /// The move failed; the chart set aside is being put back.
    Restoring,
    /// The extraction folder is being removed.
    RemovingStaging,
    /// The chart set aside is being kept among the app's backups.
    Archiving,
    /// Nothing is left to do.
    Done,
}

/// The state of a replacement: its phase, what has happened so far, and the
/// error to report, if any.
pub struct ReplaceState {
    pub phase: ReplacePhase,
    pub metadata_written: bool,
    pub old_set_aside: bool,
    pub moved: bool,
    pub restore_asked: bool,
    pub error: Option<String>,
}

/// The abstract value of a replacement state.
pub struct ReplaceView {
    pub phase: ReplacePhase,
    pub metadata_written: bool,
    pub old_set_aside: bool,
    pub moved: bool,
    pub restore_asked: bool,
    pub error: Option<Seq<char>>,
}

impl View for ReplaceState {
    type V = ReplaceView;

    open spec fn view(&self) -> ReplaceView {
        ReplaceView {
            phase: self.phase,
            metadata_written: self.metadata_written,
            old_set_aside: self.old_set_aside,
            moved: self.moved,
            restore_asked: self.restore_asked,
            error: match self.error {
                Some(e) => Some(e@),
                None => None,
            },
        }
    }
}

/// What the app reports after an action.  A failure carries the message to
/// show.
pub enum ReplaceEvent {
    MetadataWritten(Result<(), String>),
    DestinationExists(bool),
    SetAside(Result<(), String>),
    Moved(Result<(), String>),
    /// The old chart was renamed back (whether or not that worked, the
    /// failed move is what is reported).
    Restored,
    StagingRemoved,
    Archived(Result<(), String>),
}

/// What the app is asked to do next.
pub enum ReplaceAction {
    WriteMetadata,
    CheckDestination,
    SetAsideOld,
    MoveNew,
    RestoreOld,
    RemoveStaging,
    ArchiveBackup,
    Finish(Result<(), String>),
}

pub enum ReplaceActionView {
    WriteMetadata,
    CheckDestination,
    SetAsideOld,
    MoveNew,
    RestoreOld,
    RemoveStaging,
    ArchiveBackup,
    Finish(Result<(), Seq<char>>),
}

impl View for ReplaceAction {
    type V = ReplaceActionView;

    open spec fn view(&self) -> ReplaceActionView {
        match self {
            ReplaceAction::WriteMetadata => ReplaceActionView::WriteMetadata,
            ReplaceAction::CheckDestination => ReplaceActionView::CheckDestination,
            ReplaceAction::SetAsideOld => ReplaceActionView::SetAsideOld,
            ReplaceAction::MoveNew => ReplaceActionView::MoveNew,
            ReplaceAction::RestoreOld => ReplaceActionView::RestoreOld,
            ReplaceAction::RemoveStaging => ReplaceActionView::RemoveStaging,
            ReplaceAction::ArchiveBackup => ReplaceActionView::ArchiveBackup,
            ReplaceAction::Finish(Ok(())) => ReplaceActionView::Finish(Ok(())),
            ReplaceAction::Finish(Err(e)) => ReplaceActionView::Finish(Err(e@)),
        }
    }
}

/// The action a state asks for.
pub open spec fn replace_action_of(s: ReplaceView) -> ReplaceActionView {
    match s.phase {
        ReplacePhase::WritingMetadata => ReplaceActionView::WriteMetadata,
        ReplacePhase::CheckingDestination => ReplaceActionView::CheckDestination,
        ReplacePhase::SettingAside => ReplaceActionView::SetAsideOld,
        ReplacePhase::Moving => ReplaceActionView::MoveNew,
        ReplacePhase::Restoring => ReplaceActionView::RestoreOld,
        ReplacePhase::RemovingStaging => ReplaceActionView::RemoveStaging,
        ReplacePhase::Archiving => ReplaceActionView::ArchiveBackup,
        ReplacePhase::Done => ReplaceActionView::Finish(
            match s.error {
                Some(e) => Err(e),
                None => Ok(()),
            },
        ),
    }
}

/// The next state.  Metadata comes first; a chart already at the
/// destination is set aside before the new one moves in; when that move
/// fails, the chart set aside is put back and the failure reported; after a
/// move the extraction folder goes and a chart set aside is kept as a
/// backup.  An event that does not answer the pending action changes nothing.
pub open spec fn replace_next(s: ReplaceView, e: ReplaceEvent) -> ReplaceView {
    match e {
        ReplaceEvent::MetadataWritten(r) => if s.phase == ReplacePhase::WritingMetadata {
            match r {
                Ok(()) => ReplaceView {
                    phase: ReplacePhase::CheckingDestination,
                    metadata_written: true,
                    ..s
                },
                Err(m) => ReplaceView { phase: ReplacePhase::Done, error: Some(m@), ..s },
            }
        } else {
            s
        },
        ReplaceEvent::DestinationExists(b) => if s.phase == ReplacePhase::CheckingDestination {
            if b {
                ReplaceView { phase: ReplacePhase::SettingAside, ..s }
            } else {
                ReplaceView { phase: ReplacePhase::Moving, ..s }
            }
        } else {
            s
        },
        ReplaceEvent::SetAside(r) => if s.phase == ReplacePhase::SettingAside {
            match r {
                Ok(()) => ReplaceView { phase: ReplacePhase::Moving, old_set_aside: true, ..s },
                Err(m) => ReplaceView { phase: ReplacePhase::Done, error: Some(m@), ..s },
            }
        } else {
            s
        },
        ReplaceEvent::Moved(r) => if s.phase == ReplacePhase::Moving {
            match r {
                Ok(()) => ReplaceView { phase: ReplacePhase::RemovingStaging, moved: true, ..s },
                Err(m) => if s.old_set_aside {
                    ReplaceView {
                        phase: ReplacePhase::Restoring,
                        restore_asked: true,
                        error: Some(m@),
                        ..s
                    }
                } else {
                    ReplaceView { phase: ReplacePhase::Done, error: Some(m@), ..s }
                },
            }
        } else {
            s
        },
        ReplaceEvent::Restored => if s.phase == ReplacePhase::Restoring {
            ReplaceView { phase: ReplacePhase::Done, ..s }
        } else {
            s
        },
        ReplaceEvent::StagingRemoved => if s.phase == ReplacePhase::RemovingStaging {
            if s.old_set_aside {
                ReplaceView { phase: ReplacePhase::Archiving, ..s }
            } else {
                ReplaceView { phase: ReplacePhase::Done, ..s }
            }
        } else {
            s
        },
        ReplaceEvent::Archived(r) => if s.phase == ReplacePhase::Archiving {
            match r {
                Ok(()) => ReplaceView { phase: ReplacePhase::Done, ..s },
                Err(m) => ReplaceView { phase: ReplacePhase::Done, error: Some(m@), ..s },
            }
        } else {
            s
        },
    }
}

/// What holds of every state a replacement reaches: nothing is set aside
/// before the metadata is written; success is reported only after the new
/// chart moved in; and a failed move after the old chart was set aside
/// always asks for the old chart back.
pub open spec fn replace_wf(s: ReplaceView) -> bool {
    &&& s.old_set_aside ==> s.metadata_written
    &&& s.moved ==> s.metadata_written
    &&& s.restore_asked ==> s.old_set_aside && !s.moved && s.error is Some
    &&& s.phase == ReplacePhase::WritingMetadata ==> !s.metadata_written && !s.old_set_aside
        && !s.moved && !s.restore_asked && s.error is None
    &&& (s.phase == ReplacePhase::CheckingDestination || s.phase == ReplacePhase::SettingAside)
        ==> s.metadata_written && !s.old_set_aside && !s.moved && !s.restore_asked
        && s.error is None
    &&& s.phase == ReplacePhase::Moving ==> s.metadata_written && !s.moved && !s.restore_asked
        && s.error is None
    &&& s.phase == ReplacePhase::Restoring ==> s.restore_asked
    &&& (s.phase == ReplacePhase::RemovingStaging || s.phase == ReplacePhase::Archiving) ==> s.moved
        && s.error is None
    &&& s.phase == ReplacePhase::Archiving ==> s.old_set_aside
    &&& s.phase == ReplacePhase::Done && s.error is None ==> s.moved
    &&& s.phase == ReplacePhase::Done && s.old_set_aside && !s.moved ==> s.restore_asked
}

impl ReplaceState {
    /// A replacement about to begin; it first asks for the metadata.
    pub fn new() -> (r: ReplaceState)
        ensures
            r@.phase == ReplacePhase::WritingMetadata,
            !r@.metadata_written && !r@.old_set_aside && !r@.moved && !r@.restore_asked,
            r@.error is None,
            replace_wf(r@),
            replace_action_of(r@) == ReplaceActionView::WriteMetadata,
    {
        ReplaceState {
            phase: ReplacePhase::WritingMetadata,
            metadata_written: false,
            old_set_aside: false,
            moved: false,
            restore_asked: false,
            error: None,
        }
    }

    /// The action this state asks for.
    pub fn action(&self) -> (r: ReplaceAction)
        ensures
            r@ == replace_action_of(self@),
    {
        match self.phase {
            ReplacePhase::WritingMetadata => ReplaceAction::WriteMetadata,
            ReplacePhase::CheckingDestination => ReplaceAction::CheckDestination,
            ReplacePhase::SettingAside => ReplaceAction::SetAsideOld,
            ReplacePhase::Moving => ReplaceAction::MoveNew,
            ReplacePhase::Restoring => ReplaceAction::RestoreOld,
            ReplacePhase::RemovingStaging => ReplaceAction::RemoveStaging,
            ReplacePhase::Archiving => ReplaceAction::ArchiveBackup,
            ReplacePhase::Done => ReplaceAction::Finish(
                match &self.error {
                    Some(e) => Err(e.clone()),
                    None => Ok(()),
                },
            ),
        }
    }
}

fn failed(s: ReplaceState, m: String) -> (r: ReplaceState)
    ensures
        r@ == (ReplaceView { phase: ReplacePhase::Done, error: Some(m@), ..s@ }),
{
    ReplaceState { phase: ReplacePhase::Done, error: Some(m), ..s }
}

fn at(s: ReplaceState, phase: ReplacePhase) -> (r: ReplaceState)
    ensures
        r@ == (ReplaceView { phase: phase, ..s@ }),
{
    ReplaceState { phase, ..s }
}

/// One step of a replacement: the state after the event, and the action the
/// app performs next.
pub fn replace_step(s: ReplaceState, e: ReplaceEvent) -> (r: (ReplaceState, ReplaceAction))
    requires
        replace_wf(s@),
    ensures
        r.0@ == replace_next(s@, e),
        r.1@ == replace_action_of(r.0@),
        replace_wf(r.0@),
        (s@.phase == ReplacePhase::Moving && s@.old_set_aside && (e matches ReplaceEvent::Moved(
            Err(_),
        ))) ==> r.1@ == ReplaceActionView::RestoreOld,
        r.1@ == ReplaceActionView::SetAsideOld ==> r.0@.metadata_written,
        (r.1@ matches ReplaceActionView::Finish(Ok(()))) ==> r.0@.moved,
        ((r.1@ matches ReplaceActionView::Finish(Err(_))) && r.0@.old_set_aside && !r.0@.moved)
            ==> r.0@.restore_asked,
{
    let phase = s.phase;
    let next = match e {
        ReplaceEvent::MetadataWritten(res) => if phase == ReplacePhase::WritingMetadata {
            match res {
                Ok(()) => ReplaceState {
                    phase: ReplacePhase::CheckingDestination,
                    metadata_written: true,
                    ..s
                },
                Err(m) => failed(s, m),
            }
        } else {
            s
        },
        ReplaceEvent::DestinationExists(b) => if phase == ReplacePhase::CheckingDestination {
            if b {
                at(s, ReplacePhase::SettingAside)
            } else {
                at(s, ReplacePhase::Moving)
            }
        } else {
            s
        },
        ReplaceEvent::SetAside(res) => if phase == ReplacePhase::SettingAside {
            match res {
                Ok(()) => ReplaceState { phase: ReplacePhase::Moving, old_set_aside: true, ..s },
                Err(m) => failed(s, m),
            }
        } else {
            s
        },
        ReplaceEvent::Moved(res) => if phase == ReplacePhase::Moving {
            match res {
                Ok(()) => ReplaceState { phase: ReplacePhase::RemovingStaging, moved: true, ..s },
                Err(m) => if s.old_set_aside {
                    ReplaceState {
                        phase: ReplacePhase::Restoring,
                        restore_asked: true,
                        error: Some(m),
                        ..s
                    }
                } else {
                    failed(s, m)
                },
            }
        } else {
            s
        },
        ReplaceEvent::Restored => if phase == ReplacePhase::Restoring {
            at(s, ReplacePhase::Done)
        } else {
            s
        },
        ReplaceEvent::StagingRemoved => if phase == ReplacePhase::RemovingStaging {
            if s.old_set_aside {
                at(s, ReplacePhase::Archiving)
            } else {
                at(s, ReplacePhase::Done)
            }
        } else {
            s
        },
        ReplaceEvent::Archived(res) => if phase == ReplacePhase::Archiving {
            match res {
                Ok(()) => at(s, ReplacePhase::Done),
                Err(m) => failed(s, m),
            }
        } else {
            s
        },
    };
    let action = next.action();
    (next, action)
}

} // verus!
