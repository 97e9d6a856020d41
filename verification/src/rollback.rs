//! Restoring a kept version of a chart, one step at a time: a version is
//! moved back only once it was found, and only after the installed version
//! of the same chart, if any, was kept among the backups; it goes back
//! into that installed version's folder, else under a free name.

use vstd::prelude::*;
use crate::ids;
use crate::paths::{self, ChartPath, PartView};
use crate::placement;
use crate::records::{BackupMetadata, KEPT_VERSIONS};

verus! {

/// Where a restore stands.
#[derive(Clone, Copy, PartialEq, Eq, Debug, Structural)]
pub enum RollbackPhase {
    /// The kept versions are searched for the requested one.
    Locating,
    /// The installed version of the chart is being kept among the backups.
    SettingAsideCurrent,
    /// The requested version is being moved back into the game folder.
    MovingBack,
    /// Old versions beyond the newest `KEPT_VERSIONS` are being removed.
    Pruning,
    /// Nothing is left to do.
    Done,
}

/// The state of a restore.
pub struct RollbackState {
    pub phase: RollbackPhase,
    /// The game folder.
    pub target: ChartPath,
    /// The id of the requested version.
    pub backup_id: String,
    /// The requested version, once found.
    pub backup: Option<BackupMetadata>,
    /// The folder of the installed version of the same chart, if any.
    pub current: Option<ChartPath>,
    /// That installed version was kept among the backups.
    pub current_set_aside: bool,
    /// Where the requested version goes back.
    pub destination: Option<ChartPath>,
    /// The requested version is back in the game folder.
    pub restored: bool,
    pub error: Option<String>,
}

/// The number of names tried for a restored folder.
pub const RESTORE_CANDIDATES: usize = 999;

/// What the app reports after an action.
pub enum RollbackEvent {
    /// The kept version with the requested id, if any; the folder of the
    /// installed version of its chart, if any; and, for each name tried for
    /// the restored folder (`placement::unique_candidates` of its folder
    /// name), whether it is taken in the game folder.
    Located(Option<BackupMetadata>, Option<ChartPath>, Vec<bool>),
    CurrentSetAside,
    MovedBack,
    Pruned,
    /// The action failed with this message.
    Failed(String),
}

/// What the app is asked to do next.
pub enum RollbackAction {
    /// Search the kept versions for this id.
    Locate(String),
    /// Keep the installed version in this folder among the backups.
    SetAsideCurrent(ChartPath),
    /// Move the requested version back to this folder.
    MoveBack(ChartPath),
    /// Remove the versions of this chart beyond the newest this many.
    Prune(String, usize),
    Done(Result<(), String>),
}

pub enum RollbackActionView {
    Locate(Seq<char>),
    SetAsideCurrent(Seq<PartView>),
    MoveBack(Seq<PartView>),
    Prune(Seq<char>, usize),
    Done(Result<(), Seq<char>>),
}

impl View for RollbackAction {
    type V = RollbackActionView;

    open spec fn view(&self) -> RollbackActionView {
        match self {
            RollbackAction::Locate(i) => RollbackActionView::Locate(i@),
            RollbackAction::SetAsideCurrent(c) => RollbackActionView::SetAsideCurrent(c@),
            RollbackAction::MoveBack(d) => RollbackActionView::MoveBack(d@),
            RollbackAction::Prune(c, k) => RollbackActionView::Prune(c@, *k),
            RollbackAction::Done(Ok(())) => RollbackActionView::Done(Ok(())),
            RollbackAction::Done(Err(e)) => RollbackActionView::Done(Err(e@)),
        }
    }
}

/// The action a state asks for.
pub open spec fn rollback_action_of(s: RollbackState) -> RollbackActionView {
    match s.phase {
        RollbackPhase::Locating => RollbackActionView::Locate(s.backup_id@),
        RollbackPhase::SettingAsideCurrent => RollbackActionView::SetAsideCurrent(
            s.current->0@,
        ),
        RollbackPhase::MovingBack => RollbackActionView::MoveBack(s.destination->0@),
        RollbackPhase::Pruning => RollbackActionView::Prune(s.backup->0.chart_id@, KEPT_VERSIONS),
        RollbackPhase::Done => RollbackActionView::Done(
            match s.error {
                Some(e) => Err(e@),
                None => Ok(()),
            },
        ),
    }
}

pub open spec fn not_found_message() -> Seq<char> {
    "this backup could not be found."@
}

/// Where the found version goes back: the installed version's folder when
/// there is one, else the first free name for its folder name.
pub open spec fn restore_destination(
    target: Seq<PartView>,
    backup: BackupMetadata,
    current: Option<ChartPath>,
    present: Seq<bool>,
    d: Seq<PartView>,
) -> bool {
    match current {
        Some(c) => d == c@,
        None => placement::unique_placement(
            target,
            backup.folder_name@,
            placement::reported_flags(present, RESTORE_CANDIDATES as nat),
            d,
        ),
    }
}

/// What holds of every state a restore reaches: a version moves back only
/// once found under the requested id, after any installed version of its
/// chart was kept, and into that version's folder; success is reported only
/// after it moved back.
pub open spec fn rollback_wf(s: RollbackState) -> bool {
    &&& s.phase != RollbackPhase::Done ==> s.error is None && ids::is_uuid_text(s.backup_id@)
    &&& s.phase != RollbackPhase::Locating && s.phase != RollbackPhase::Done ==> s.backup is Some
        && s.backup->0.backup_id@ == s.backup_id@ && s.destination is Some
    &&& (s.destination is Some && s.current is Some) ==> s.destination->0@ == s.current->0@
    &&& s.current_set_aside ==> s.current is Some && s.backup is Some
    &&& s.restored ==> s.backup is Some && s.destination is Some && (s.current is Some
        ==> s.current_set_aside)
    &&& s.phase == RollbackPhase::Locating ==> s.backup is None && s.current is None
        && s.destination is None && !s.current_set_aside && !s.restored
    &&& s.phase == RollbackPhase::SettingAsideCurrent ==> s.current is Some && !s.current_set_aside
        && !s.restored
    &&& s.phase == RollbackPhase::MovingBack ==> (s.current is Some ==> s.current_set_aside)
        && !s.restored
    &&& s.phase == RollbackPhase::Pruning ==> s.restored
    &&& (s.phase == RollbackPhase::Done && s.error is None) ==> s.restored
}

impl RollbackState {
    /// A restore of the kept version `backup_id` into the game folder
    /// `target`; an id that is no UUID ends it at once.
    pub fn new(target: ChartPath, backup_id: String) -> (r: RollbackState)
        ensures
            rollback_wf(r),
            r.target == target,
            r.backup_id@ == backup_id@,
            r.backup is None && r.current is None && r.destination is None,
            !r.current_set_aside && !r.restored,
            ids::is_uuid_text(backup_id@) ==> r.phase == RollbackPhase::Locating && r.error is None,
            !ids::is_uuid_text(backup_id@) ==> r.phase == RollbackPhase::Done && r.error is Some
                && r.error->0@ == ids::invalid_chart_id_message(),
    {
        let (phase, error) = match ids::validate_chart_id(backup_id.as_str()) {
            Ok(()) => (RollbackPhase::Locating, None),
            Err(e) => (RollbackPhase::Done, Some(e)),
        };
        RollbackState {
            phase,
            target,
            backup_id,
            backup: None,
            current: None,
            current_set_aside: false,
            destination: None,
            restored: false,
            error,
        }
    }

    /// The action this state asks for.
    pub fn action(&self) -> (r: RollbackAction)
        requires
            rollback_wf(*self),
        ensures
            r@ == rollback_action_of(*self),
    {
        match self.phase {
            RollbackPhase::Locating => RollbackAction::Locate(self.backup_id.clone()),
            RollbackPhase::SettingAsideCurrent => RollbackAction::SetAsideCurrent(
                self.current.as_ref().unwrap().clone_path(),
            ),
            RollbackPhase::MovingBack => RollbackAction::MoveBack(
                self.destination.as_ref().unwrap().clone_path(),
            ),
            RollbackPhase::Pruning => RollbackAction::Prune(
                self.backup.as_ref().unwrap().chart_id.clone(),
                KEPT_VERSIONS,
            ),
            RollbackPhase::Done => RollbackAction::Done(
                match &self.error {
                    Some(e) => Err(e.clone()),
                    None => Ok(()),
                },
            ),
        }
    }
}

/// One step of a restore: the state after the event, and the action the app
/// performs next.  An event that does not answer the pending action changes
/// nothing.
pub fn rollback_step(s: RollbackState, e: RollbackEvent) -> (r: (RollbackState, RollbackAction))
    requires
        rollback_wf(s),
    ensures
        rollback_wf(r.0),
        r.1@ == rollback_action_of(r.0),
        r.0.backup_id == s.backup_id && r.0.target == s.target,
        !(s.phase == RollbackPhase::Locating && (e is Located)) ==> r.0.current == s.current
            && r.0.destination == s.destination && r.0.backup == s.backup,
        e matches RollbackEvent::Located(found, current, present) ==> (s.phase
            == RollbackPhase::Locating ==> if found is Some && found->0.backup_id@ == s.backup_id@ {
            &&& r.0.backup == found
            &&& r.0.current == current
            &&& r.0.destination is Some
            &&& restore_destination(
                s.target@,
                found->0,
                current,
                present@,
                r.0.destination->0@,
            )
            &&& r.0.phase == (if current is Some {
                RollbackPhase::SettingAsideCurrent
            } else {
                RollbackPhase::MovingBack
            })
        } else {
            r.0.phase == RollbackPhase::Done && r.0.error is Some && r.0.error->0@
                == not_found_message()
        }),
        (s.phase == RollbackPhase::SettingAsideCurrent && (e is CurrentSetAside)) ==> r.0.phase
            == RollbackPhase::MovingBack && r.0.current_set_aside,
        (s.phase == RollbackPhase::MovingBack && (e is MovedBack)) ==> r.0.phase
            == RollbackPhase::Pruning && r.0.restored,
        (s.phase == RollbackPhase::Pruning && (e is Pruned)) ==> r.1@ == RollbackActionView::Done(
            Ok(()),
        ),
        e matches RollbackEvent::Failed(m) ==> (s.phase != RollbackPhase::Done ==> r.0.phase
            == RollbackPhase::Done && r.0.error is Some && r.0.error->0@ == m@),
        // A version never moves over an installed chart: the installed
        // version was kept first, and the version takes its folder.
        r.1@ matches RollbackActionView::MoveBack(d) ==> (r.0.backup is Some && r.0.backup->0.backup_id@
            == r.0.backup_id@ && d == r.0.destination->0@ && (r.0.current is Some
            ==> r.0.current_set_aside && d == r.0.current->0@)),
        (r.1@ matches RollbackActionView::Done(Ok(()))) ==> r.0.restored,
{
    let phase = s.phase;
    let next = match e {
        RollbackEvent::Located(found, current, present) => if phase == RollbackPhase::Locating {
            let matches_id = match &found {
                Some(b) => b.backup_id.eq(&s.backup_id),
                None => false,
            };
            if matches_id {
                let (phase, destination) = match &current {
                    Some(c) => (RollbackPhase::SettingAsideCurrent, c.clone_path()),
                    None => {
                        let flags = placement::fit_flags(&present, RESTORE_CANDIDATES);
                        let name = found.as_ref().unwrap().folder_name.as_str();
                        (
                            RollbackPhase::MovingBack,
                            placement::unique_install_path(&s.target, name, &flags),
                        )
                    },
                };
                RollbackState { phase, backup: found, current, destination: Some(destination), ..s }
            } else {
                RollbackState {
                    phase: RollbackPhase::Done,
                    error: Some(String::from_str("this backup could not be found.")),
                    ..s
                }
            }
        } else {
            s
        },
        RollbackEvent::CurrentSetAside => if phase == RollbackPhase::SettingAsideCurrent {
            RollbackState { phase: RollbackPhase::MovingBack, current_set_aside: true, ..s }
        } else {
            s
        },
        RollbackEvent::MovedBack => if phase == RollbackPhase::MovingBack {
            RollbackState { phase: RollbackPhase::Pruning, restored: true, ..s }
        } else {
            s
        },
        RollbackEvent::Pruned => if phase == RollbackPhase::Pruning {
            RollbackState { phase: RollbackPhase::Done, ..s }
        } else {
            s
        },
        RollbackEvent::Failed(m) => if phase != RollbackPhase::Done {
            RollbackState { phase: RollbackPhase::Done, error: Some(m), ..s }
        } else {
            s
        },
    };
    let action = next.action();
    (next, action)
}

/// A chart restored from the trash goes back under the folder name it had
/// (the name its trash record keeps) whenever that name is free in the game
/// folder.
pub proof fn lemma_trash_restore_keeps_the_name(
    target: Seq<PartView>,
    name: Seq<char>,
    present: Seq<bool>,
    d: Seq<PartView>,
)
    requires
        present.len() > 0,
        !present[0],
        placement::unique_placement(target, name, present, d),
    ensures
        d == target.push(PartView::Normal(name)),
{
    assert(placement::first_free_index(present) == Some(0int));
}

/// Restoring the version a replacement kept brings it back where it was.
/// The replacement recorded the version under the name of the folder it
/// replaced, `home`; the version goes back into the folder of the copy of
/// the chart installed since (the replacing copy sits in `home`), and, when
/// no copy is installed and the name is free, into `home` again.
pub proof fn lemma_backup_restore_returns_home(
    target: Seq<PartView>,
    name: Seq<char>,
    kept: BackupMetadata,
    current: Option<ChartPath>,
    present: Seq<bool>,
    d: Seq<PartView>,
)
    requires
        kept.folder_name@ == name,
        current is None ==> present.len() > 0 && !present[0],
        restore_destination(target, kept, current, present, d),
    ensures
        paths::file_name_of(target.push(PartView::Normal(name))) == Some(name),
        current matches Some(c) ==> d == c@,
        (current matches Some(c) && c@ == target.push(PartView::Normal(name))) ==> d == target.push(
            PartView::Normal(name),
        ),
        current is None ==> d == target.push(PartView::Normal(name)),
{
    if current is None {
        let flags = placement::reported_flags(present, RESTORE_CANDIDATES as nat);
        assert(flags[0] == present[0]);
        lemma_trash_restore_keeps_the_name(target, name, flags, d);
        assert(placement::name_candidates(name)[0] == name);
    }
}

} // verus!
