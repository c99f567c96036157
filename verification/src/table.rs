//! Finding and saving the login-history table after its button was clicked.
//! Three ways are tried in turn: the table in the current frame (waiting a
//! little); the table in the fourth iframe (waiting longer); then every
//! iframe in order. A failure of the first two only moves on to the next
//! way; the table saved by the first way that finds it is the result.
use vstd::prelude::*;
use crate::scan::{
    is_terminal, report_ok, scan_start, scan_step, scan_wf, FrameScan, ScanAction, ScanPrelude,
    ScanStage, StepReport,
};

verus! {

/// The `id` of the login-history table.
pub const TABLE_ID: &'static str = "login_history_grid_table";

/// How long the table is awaited in the current frame, in seconds.
pub const HERE_WAIT_SECS: u64 = 5;

/// How long the table is awaited in the fourth iframe, in seconds.
pub const FRAME_WAIT_SECS: u64 = 10;

/// The number of the fourth iframe.
pub const HISTORY_FRAME: u16 = 3;

/// The error's text when no way found the table.
pub fn table_not_found_message() -> (r: &'static str)
    ensures
        r@ == "Таблица не найдена ни в одном iframe"@,
{
    "Таблица не найдена ни в одном iframe"
}

#[derive(Clone, Copy)]
pub enum TableStage {
    WaitHere,
    SaveHere,
    FourthEnterDefault,
    FourthCount,
    FourthEnter,
    FourthWait,
    FourthSave,
    FourthLeave,
    Fallback,
    Saved,
    Missing,
    Aborted,
}

/// A table search in progress; `scan` is the frame-by-frame search of the
/// last way, once it has started.
#[derive(Clone, Copy)]
pub struct TableSearch {
    pub stage: TableStage,
    pub scan: FrameScan,
}

/// The next thing to do.
#[derive(Clone, Copy)]
pub enum TableAction {
    /// Wait up to this many seconds for the table in the current frame.
    WaitForTable(u64),
    /// Save the table just found.
    SaveTable,
    /// Switch to the top frame.
    EnterDefaultFrame,
    /// Count the page's iframes.
    CountFrames,
    /// Switch into the iframe with this number.
    EnterFrame(u16),
    /// A step of the frame-by-frame search: there, looking for the target
    /// means finding the table without waiting, and acting on it means
    /// saving it.
    Scan(ScanAction),
    /// Done: the table was saved.
    Saved,
    /// Done: no way found the table.
    NotFound,
    /// Done: a step that must not fail failed; its error is the result.
    Abort,
}

pub open spec fn table_terminal(stage: TableStage) -> bool {
    stage is Saved || stage is Missing || stage is Aborted
}

pub open spec fn idle_scan() -> FrameScan {
    FrameScan { frame_count: 0, index: 0, stage: ScanStage::Prelude }
}

pub open spec fn table_start() -> (TableSearch, TableAction) {
    (TableSearch { stage: TableStage::WaitHere, scan: idle_scan() }, TableAction::WaitForTable(HERE_WAIT_SECS))
}

/// Starting the last way: the frame-by-frame search, from the top frame.
pub open spec fn table_fallback() -> (TableSearch, TableAction) {
    let (sc, a) = scan_start(ScanPrelude::EnterDefaultFrame);
    (TableSearch { stage: TableStage::Fallback, scan: sc }, TableAction::Scan(a))
}

pub open spec fn with_stage(t: TableSearch, stage: TableStage) -> TableSearch {
    TableSearch { stage, ..t }
}

/// The search's decision table.
pub open spec fn table_step(t: TableSearch, r: StepReport) -> (TableSearch, TableAction) {
    let ok = report_ok(r);
    match t.stage {
        TableStage::WaitHere => if ok {
            (with_stage(t, TableStage::SaveHere), TableAction::SaveTable)
        } else {
            (with_stage(t, TableStage::FourthEnterDefault), TableAction::EnterDefaultFrame)
        },
        TableStage::SaveHere => if ok {
            (with_stage(t, TableStage::Saved), TableAction::Saved)
        } else {
            (with_stage(t, TableStage::Aborted), TableAction::Abort)
        },
        TableStage::FourthEnterDefault => if ok {
            (with_stage(t, TableStage::FourthCount), TableAction::CountFrames)
        } else {
            table_fallback()
        },
        TableStage::FourthCount => match r {
            StepReport::Counted(n) => if n > HISTORY_FRAME {
                (with_stage(t, TableStage::FourthEnter), TableAction::EnterFrame(HISTORY_FRAME))
            } else {
                table_fallback()
            },
            StepReport::Done(_) => table_fallback(),
        },
        TableStage::FourthEnter => if ok {
            (with_stage(t, TableStage::FourthWait), TableAction::WaitForTable(FRAME_WAIT_SECS))
        } else {
            table_fallback()
        },
        TableStage::FourthWait => if ok {
            (with_stage(t, TableStage::FourthSave), TableAction::SaveTable)
        } else {
            table_fallback()
        },
        TableStage::FourthSave => if ok {
            (with_stage(t, TableStage::FourthLeave), TableAction::EnterDefaultFrame)
        } else {
            table_fallback()
        },
        TableStage::FourthLeave => if ok {
            (with_stage(t, TableStage::Saved), TableAction::Saved)
        } else {
            table_fallback()
        },
        TableStage::Fallback => {
            let (sc, a) = scan_step(t.scan, r);
            match a {
                ScanAction::Succeed => (TableSearch { stage: TableStage::Saved, scan: sc }, TableAction::Saved),
                ScanAction::GiveUp => (TableSearch { stage: TableStage::Missing, scan: sc }, TableAction::NotFound),
                ScanAction::Abort => (TableSearch { stage: TableStage::Aborted, scan: sc }, TableAction::Abort),
                _ => (TableSearch { stage: TableStage::Fallback, scan: sc }, TableAction::Scan(a)),
            }
        },
        TableStage::Saved => (t, TableAction::Saved),
        TableStage::Missing => (t, TableAction::NotFound),
        TableStage::Aborted => (t, TableAction::Abort),
    }
}

/// The search is well formed when its frame-by-frame search is, and that
/// search is still running while the search is in its last way.
pub open spec fn table_wf(t: TableSearch) -> bool {
    &&& scan_wf(t.scan)
    &&& t.stage is Fallback ==> !is_terminal(t.scan.stage)
}

impl TableSearch {
    /// A new search and its first action: wait for the table where we are.
    pub fn start() -> (r: (TableSearch, TableAction))
        ensures
            r == table_start(),
            table_wf(r.0),
    {
        (
            TableSearch {
                stage: TableStage::WaitHere,
                scan: FrameScan { frame_count: 0, index: 0, stage: ScanStage::Prelude },
            },
            TableAction::WaitForTable(HERE_WAIT_SECS),
        )
    }

    fn fallback() -> (r: (TableSearch, TableAction))
        ensures
            r == table_fallback(),
    {
        let (sc, a) = FrameScan::start(ScanPrelude::EnterDefaultFrame);
        (TableSearch { stage: TableStage::Fallback, scan: sc }, TableAction::Scan(a))
    }

    fn moved(&self, stage: TableStage, action: TableAction) -> (r: (TableSearch, TableAction))
        ensures
            r == (with_stage(*self, stage), action),
    {
        (TableSearch { stage, scan: self.scan }, action)
    }

    /// The next state and action, given how the last action went.
    pub fn step(&self, report: StepReport) -> (r: (TableSearch, TableAction))
        ensures
            r == table_step(*self, report),
    {
        let ok = match report {
            StepReport::Done(b) => b,
            StepReport::Counted(_) => false,
        };
        match self.stage {
            TableStage::WaitHere => if ok {
                self.moved(TableStage::SaveHere, TableAction::SaveTable)
            } else {
                self.moved(TableStage::FourthEnterDefault, TableAction::EnterDefaultFrame)
            },
            TableStage::SaveHere => if ok {
                self.moved(TableStage::Saved, TableAction::Saved)
            } else {
                self.moved(TableStage::Aborted, TableAction::Abort)
            },
            TableStage::FourthEnterDefault => if ok {
                self.moved(TableStage::FourthCount, TableAction::CountFrames)
            } else {
                Self::fallback()
            },
            TableStage::FourthCount => match report {
                StepReport::Counted(n) => if n > HISTORY_FRAME as usize {
                    self.moved(TableStage::FourthEnter, TableAction::EnterFrame(HISTORY_FRAME))
                } else {
                    Self::fallback()
                },
                StepReport::Done(_) => Self::fallback(),
            },
            TableStage::FourthEnter => if ok {
                self.moved(TableStage::FourthWait, TableAction::WaitForTable(FRAME_WAIT_SECS))
            } else {
                Self::fallback()
            },
            TableStage::FourthWait => if ok {
                self.moved(TableStage::FourthSave, TableAction::SaveTable)
            } else {
                Self::fallback()
            },
            TableStage::FourthSave => if ok {
                self.moved(TableStage::FourthLeave, TableAction::EnterDefaultFrame)
            } else {
                Self::fallback()
            },
            TableStage::FourthLeave => if ok {
                self.moved(TableStage::Saved, TableAction::Saved)
            } else {
                Self::fallback()
            },
            TableStage::Fallback => {
                let (sc, a) = self.scan.step(report);
                match a {
                    ScanAction::Succeed => (TableSearch { stage: TableStage::Saved, scan: sc }, TableAction::Saved),
                    ScanAction::GiveUp => (
                        TableSearch { stage: TableStage::Missing, scan: sc },
                        TableAction::NotFound,
                    ),
                    ScanAction::Abort => (
                        TableSearch { stage: TableStage::Aborted, scan: sc },
                        TableAction::Abort,
                    ),
                    _ => (TableSearch { stage: TableStage::Fallback, scan: sc }, TableAction::Scan(a)),
                }
            },
            TableStage::Saved => (*self, TableAction::Saved),
            TableStage::Missing => (*self, TableAction::NotFound),
            TableStage::Aborted => (*self, TableAction::Abort),
        }
    }

    /// Whether the search has finished.
    pub fn is_finished(&self) -> (r: bool)
        ensures
            r == table_terminal(self.stage),
    {
        match self.stage {
            TableStage::Saved | TableStage::Missing | TableStage::Aborted => true,
            _ => false,
        }
    }
}

/// Law: every step keeps the search well formed, so the frame-by-frame
/// search only enters frames the page has.
pub proof fn lemma_table_keeps_wf(t: TableSearch, r: StepReport)
    requires
        table_wf(t),
    ensures
        table_wf(table_step(t, r).0),
{
    crate::scan::lemma_scan_keeps_wf(t.scan, r);
}

/// Law: the search reports the table saved only right after a save (or the
/// return to the top frame that follows a save in the fourth iframe, or the
/// frame-by-frame search's success) went well.
pub proof fn lemma_table_saved_only_after_save(t: TableSearch, r: StepReport)
    requires
        table_wf(t),
        !table_terminal(t.stage),
        table_step(t, r).1 is Saved,
    ensures
        report_ok(r),
        t.stage is SaveHere || t.stage is FourthLeave || (t.stage is Fallback && t.scan.stage is LeavingAfterHit),
{
    if t.stage is Fallback {
        crate::scan::lemma_scan_outcomes(t.scan, r);
    }
}

/// Law: the ways are tried in order: the frame-by-frame search starts only
/// when a step of the way through the fourth iframe fails (or the page has
/// no fourth iframe), and that way starts only when the table is not found
/// in the current frame.
pub proof fn lemma_table_ways_in_order(t: TableSearch, r: StepReport)
    requires
        !(t.stage is Fallback),
        table_step(t, r).0.stage is Fallback,
    ensures
        t.stage is FourthEnterDefault || t.stage is FourthCount || t.stage is FourthEnter || t.stage is FourthWait
            || t.stage is FourthSave || t.stage is FourthLeave,
        t.stage is FourthCount ==> !(r matches StepReport::Counted(n) && n > HISTORY_FRAME),
        !(t.stage is FourthCount) ==> !report_ok(r),
{
}

/// The position of a stage in the search: the three ways in order, then the end.
pub open spec fn table_progress(stage: TableStage) -> nat {
    match stage {
        TableStage::WaitHere => 0,
        TableStage::SaveHere => 1,
        TableStage::FourthEnterDefault => 2,
        TableStage::FourthCount => 3,
        TableStage::FourthEnter => 4,
        TableStage::FourthWait => 5,
        TableStage::FourthSave => 6,
        TableStage::FourthLeave => 7,
        TableStage::Fallback => 8,
        _ => 9,
    }
}

/// Law: a search ends: every step moves it to a later stage or ends it,
/// except within the last way, where the frame-by-frame search moves on
/// (and that search ends by `lemma_scan_progress`).
pub proof fn lemma_table_progress(t: TableSearch, r: StepReport)
    requires
        table_wf(t),
        !table_terminal(t.stage),
    ensures
        t.stage is Fallback ==> (table_terminal(table_step(t, r).0.stage) || (table_step(t, r).0.stage is Fallback
            && crate::scan::rank_below(
            crate::scan::scan_rank(table_step(t, r).0.scan),
            crate::scan::scan_rank(t.scan),
        ))),
        !(t.stage is Fallback) ==> table_progress(table_step(t, r).0.stage) > table_progress(t.stage),
{
    if t.stage is Fallback {
        crate::scan::lemma_scan_progress(t.scan, r);
    }
}

/// Law: the way through the fourth iframe starts only when waiting for the
/// table in the current frame failed.
pub proof fn lemma_table_fourth_after_here(t: TableSearch, r: StepReport)
    requires
        !(t.stage is FourthEnterDefault),
        table_step(t, r).0.stage is FourthEnterDefault,
    ensures
        t.stage is WaitHere,
        !report_ok(r),
{
}

/// Law: on the way through the fourth iframe, any step that does not go well
/// (or finding fewer than four iframes) starts the frame-by-frame search from
/// the top frame; it never ends the search.
pub proof fn lemma_table_fourth_failure_falls_back(t: TableSearch, r: StepReport)
    requires
        t.stage is FourthEnterDefault || t.stage is FourthCount || t.stage is FourthEnter || t.stage is FourthWait
            || t.stage is FourthSave || t.stage is FourthLeave,
        !report_ok(r),
        !(t.stage is FourthCount && (r matches StepReport::Counted(n) && n > HISTORY_FRAME)),
    ensures
        table_step(t, r) == (
            TableSearch {
                stage: TableStage::Fallback,
                scan: FrameScan { frame_count: 0, index: 0, stage: ScanStage::Prelude },
            },
            TableAction::Scan(ScanAction::EnterDefaultFrame),
        ),
{
}

/// Law: the search answers "not found" only when the frame-by-frame search
/// gives up, and aborts only on a failed save in the current frame or when
/// the frame-by-frame search aborts.
pub proof fn lemma_table_not_found_only_from_fallback(t: TableSearch, r: StepReport)
    requires
        !table_terminal(t.stage),
    ensures
        table_step(t, r).1 is NotFound ==> t.stage is Fallback && scan_step(t.scan, r).1 is GiveUp,
        table_step(t, r).1 is Abort ==> (t.stage is SaveHere && !report_ok(r)) || (t.stage is Fallback
            && scan_step(t.scan, r).1 is Abort),
{
}

} // verus!
