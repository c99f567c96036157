//! Looking through the page's iframes one by one for a target (a button to
//! click, a table to save): enter frame 0, 1, 2, ...; in each, look for the
//! target; on a hit act on it, go back to the top frame and stop; on a miss
//! go back to the top frame and try the next one; give up after the last.
//!
//! The browser work happens outside: the caller performs each action and
//! reports how it went, and `FrameScan::step` decides what comes next.
use vstd::prelude::*;

verus! {

/// What the browser reports about the last action.
#[derive(Clone, Copy)]
pub enum StepReport {
    /// The action finished; `true` when it succeeded (for a look-up: when
    /// the target was found).
    Done(bool),
    /// The frames were counted.
    Counted(usize),
}

/// Whether a report says the last action succeeded.
pub open spec fn report_ok(r: StepReport) -> bool {
    r == StepReport::Done(true)
}

/// What happens before the frames are counted.
#[derive(Clone, Copy)]
pub enum ScanPrelude {
    /// Wait this many seconds for the page to settle.
    Pause(u64),
    /// Go back to the top frame.
    EnterDefaultFrame,
}

#[derive(Clone, Copy)]
pub enum ScanStage {
    Prelude,
    Counting,
    Entering,
    Looking,
    Acting,
    LeavingAfterMiss,
    LeavingAfterHit,
    Succeeded,
    Exhausted,
    Aborted,
}

/// A scan in progress: the frame count (once known), the frame at hand and
/// the stage within it.
#[derive(Clone, Copy)]
pub struct FrameScan {
    pub frame_count: usize,
    pub index: usize,
    pub stage: ScanStage,
}

/// The next thing to do.
#[derive(Clone, Copy)]
pub enum ScanAction {
    /// Wait this many seconds.
    Pause(u64),
    /// Switch to the top frame.
    EnterDefaultFrame,
    /// Count the page's iframes.
    CountFrames,
    /// Switch into the iframe with this number.
    EnterFrame(u16),
    /// Look for the target in the current frame.
    LookForTarget,
    /// Act on the target just found.
    ActOnTarget,
    /// Switch back to the top frame.
    LeaveFrame,
    /// Done: the target was found and acted on.
    Succeed,
    /// Done: no frame held the target.
    GiveUp,
    /// Done: a step that must not fail failed; its error is the result.
    Abort,
}

/// The frame number that a frame index is entered by (an index taken as `u16`).
pub open spec fn frame_number(index: int) -> u16 {
    (index % 65536) as u16
}

pub open spec fn is_terminal(stage: ScanStage) -> bool {
    stage is Succeeded || stage is Exhausted || stage is Aborted
}

/// The action a finished scan keeps answering with.
pub open spec fn terminal_action(stage: ScanStage) -> ScanAction {
    match stage {
        ScanStage::Succeeded => ScanAction::Succeed,
        ScanStage::Exhausted => ScanAction::GiveUp,
        _ => ScanAction::Abort,
    }
}

/// A scan is well formed when the frame at hand is one of the counted frames.
pub open spec fn scan_wf(s: FrameScan) -> bool {
    match s.stage {
        ScanStage::Entering | ScanStage::Looking | ScanStage::Acting | ScanStage::LeavingAfterMiss
        | ScanStage::LeavingAfterHit => s.index < s.frame_count,
        _ => true,
    }
}

/// The first step of a scan.
pub open spec fn scan_start(prelude: ScanPrelude) -> (FrameScan, ScanAction) {
    (
        FrameScan { frame_count: 0, index: 0, stage: ScanStage::Prelude },
        match prelude {
            ScanPrelude::Pause(secs) => ScanAction::Pause(secs),
            ScanPrelude::EnterDefaultFrame => ScanAction::EnterDefaultFrame,
        },
    )
}

/// Moving on from frame `s.index`: the next frame, or giving up after the last.
pub open spec fn scan_advance(s: FrameScan) -> (FrameScan, ScanAction) {
    if s.index + 1 < s.frame_count {
        (
            FrameScan { index: (s.index + 1) as usize, stage: ScanStage::Entering, ..s },
            ScanAction::EnterFrame(frame_number(s.index + 1)),
        )
    } else {
        (FrameScan { stage: ScanStage::Exhausted, ..s }, ScanAction::GiveUp)
    }
}

/// The scan's decision table: the next state and action after a report.
pub open spec fn scan_step(s: FrameScan, r: StepReport) -> (FrameScan, ScanAction) {
    let ok = report_ok(r);
    match s.stage {
        ScanStage::Prelude => if ok {
            (FrameScan { stage: ScanStage::Counting, ..s }, ScanAction::CountFrames)
        } else {
            (FrameScan { stage: ScanStage::Aborted, ..s }, ScanAction::Abort)
        },
        ScanStage::Counting => match r {
            StepReport::Counted(n) => if n == 0 {
                (FrameScan { frame_count: 0, index: 0, stage: ScanStage::Exhausted }, ScanAction::GiveUp)
            } else {
                (
                    FrameScan { frame_count: n, index: 0, stage: ScanStage::Entering },
                    ScanAction::EnterFrame(frame_number(0)),
                )
            },
            StepReport::Done(_) => (FrameScan { stage: ScanStage::Aborted, ..s }, ScanAction::Abort),
        },
        ScanStage::Entering => if ok {
            (FrameScan { stage: ScanStage::Looking, ..s }, ScanAction::LookForTarget)
        } else {
            scan_advance(s)
        },
        ScanStage::Looking => if ok {
            (FrameScan { stage: ScanStage::Acting, ..s }, ScanAction::ActOnTarget)
        } else {
            (FrameScan { stage: ScanStage::LeavingAfterMiss, ..s }, ScanAction::LeaveFrame)
        },
        ScanStage::Acting => if ok {
            (FrameScan { stage: ScanStage::LeavingAfterHit, ..s }, ScanAction::LeaveFrame)
        } else {
            (FrameScan { stage: ScanStage::Aborted, ..s }, ScanAction::Abort)
        },
        ScanStage::LeavingAfterHit => if ok {
            (FrameScan { stage: ScanStage::Succeeded, ..s }, ScanAction::Succeed)
        } else {
            (FrameScan { stage: ScanStage::Aborted, ..s }, ScanAction::Abort)
        },
        ScanStage::LeavingAfterMiss => if ok {
            scan_advance(s)
        } else {
            (FrameScan { stage: ScanStage::Aborted, ..s }, ScanAction::Abort)
        },
        _ => (s, terminal_action(s.stage)),
    }
}

/// How far a scan is from its end: before counting, then frames left, then
/// the stage within a frame.
pub open spec fn scan_rank(s: FrameScan) -> (nat, nat) {
    match s.stage {
        ScanStage::Prelude => (2, 0),
        ScanStage::Counting => (1, 0),
        ScanStage::Entering => (0, (4 * (s.frame_count - s.index)) as nat),
        ScanStage::Looking => (0, (4 * (s.frame_count - s.index) - 1) as nat),
        ScanStage::Acting => (0, (4 * (s.frame_count - s.index) - 2) as nat),
        ScanStage::LeavingAfterMiss => (0, (4 * (s.frame_count - s.index) - 2) as nat),
        ScanStage::LeavingAfterHit => (0, (4 * (s.frame_count - s.index) - 3) as nat),
        _ => (0, 0),
    }
}

pub open spec fn rank_below(a: (nat, nat), b: (nat, nat)) -> bool {
    a.0 < b.0 || (a.0 == b.0 && a.1 < b.1)
}

impl FrameScan {
    /// A new scan and its first action (the prelude).
    pub fn start(prelude: ScanPrelude) -> (r: (FrameScan, ScanAction))
        ensures
            r == scan_start(prelude),
    {
        let action = match prelude {
            ScanPrelude::Pause(secs) => ScanAction::Pause(secs),
            ScanPrelude::EnterDefaultFrame => ScanAction::EnterDefaultFrame,
        };
        (FrameScan { frame_count: 0, index: 0, stage: ScanStage::Prelude }, action)
    }

    fn advance(&self) -> (r: (FrameScan, ScanAction))
        ensures
            r == scan_advance(*self),
    {
        if self.frame_count > 0 && self.index < self.frame_count - 1 {
            let next = self.index + 1;
            (
                FrameScan { frame_count: self.frame_count, index: next, stage: ScanStage::Entering },
                ScanAction::EnterFrame((next % 65536) as u16),
            )
        } else {
            (
                FrameScan { frame_count: self.frame_count, index: self.index, stage: ScanStage::Exhausted },
                ScanAction::GiveUp,
            )
        }
    }

    /// The next state and action, given how the last action went.
    pub fn step(&self, report: StepReport) -> (r: (FrameScan, ScanAction))
        ensures
            r == scan_step(*self, report),
    {
        let ok = match report {
            StepReport::Done(b) => b,
            StepReport::Counted(_) => false,
        };
        let n = self.frame_count;
        let i = self.index;
        match self.stage {
            ScanStage::Prelude => if ok {
                (FrameScan { frame_count: n, index: i, stage: ScanStage::Counting }, ScanAction::CountFrames)
            } else {
                (FrameScan { frame_count: n, index: i, stage: ScanStage::Aborted }, ScanAction::Abort)
            },
            ScanStage::Counting => match report {
                StepReport::Counted(count) => if count == 0 {
                    (FrameScan { frame_count: 0, index: 0, stage: ScanStage::Exhausted }, ScanAction::GiveUp)
                } else {
                    (
                        FrameScan { frame_count: count, index: 0, stage: ScanStage::Entering },
                        ScanAction::EnterFrame(0),
                    )
                },
                StepReport::Done(_) => (
                    FrameScan { frame_count: n, index: i, stage: ScanStage::Aborted },
                    ScanAction::Abort,
                ),
            },
            ScanStage::Entering => if ok {
                (FrameScan { frame_count: n, index: i, stage: ScanStage::Looking }, ScanAction::LookForTarget)
            } else {
                self.advance()
            },
            ScanStage::Looking => if ok {
                (FrameScan { frame_count: n, index: i, stage: ScanStage::Acting }, ScanAction::ActOnTarget)
            } else {
                (
                    FrameScan { frame_count: n, index: i, stage: ScanStage::LeavingAfterMiss },
                    ScanAction::LeaveFrame,
                )
            },
            ScanStage::Acting => if ok {
                (
                    FrameScan { frame_count: n, index: i, stage: ScanStage::LeavingAfterHit },
                    ScanAction::LeaveFrame,
                )
            } else {
                (FrameScan { frame_count: n, index: i, stage: ScanStage::Aborted }, ScanAction::Abort)
            },
            ScanStage::LeavingAfterHit => if ok {
                (FrameScan { frame_count: n, index: i, stage: ScanStage::Succeeded }, ScanAction::Succeed)
            } else {
                (FrameScan { frame_count: n, index: i, stage: ScanStage::Aborted }, ScanAction::Abort)
            },
            ScanStage::LeavingAfterMiss => if ok {
                self.advance()
            } else {
                (FrameScan { frame_count: n, index: i, stage: ScanStage::Aborted }, ScanAction::Abort)
            },
            ScanStage::Succeeded => (*self, ScanAction::Succeed),
            ScanStage::Exhausted => (*self, ScanAction::GiveUp),
            ScanStage::Aborted => (*self, ScanAction::Abort),
        }
    }

    /// Whether the scan has finished (its action is `Succeed`, `GiveUp` or `Abort`).
    pub fn is_finished(&self) -> (r: bool)
        ensures
            r == is_terminal(self.stage),
    {
        match self.stage {
            ScanStage::Succeeded | ScanStage::Exhausted | ScanStage::Aborted => true,
            _ => false,
        }
    }
}

/// Law: every step keeps the frame at hand among the counted frames, so a
/// scan only ever enters a frame that the page has.
pub proof fn lemma_scan_keeps_wf(s: FrameScan, r: StepReport)
    requires
        scan_wf(s),
    ensures
        scan_wf(scan_step(s, r).0),
        scan_step(s, r).1 matches ScanAction::EnterFrame(k) ==> scan_step(s, r).0.index
            < scan_step(s, r).0.frame_count && k == frame_number(scan_step(s, r).0.index as int),
{
}

/// Law: the frames are entered in order, each at most once: a frame is
/// entered either first (frame 0, right after counting) or right after the
/// one before it.
pub proof fn lemma_scan_enters_in_order(s: FrameScan, r: StepReport)
    requires
        scan_wf(s),
        scan_step(s, r).1 is EnterFrame,
    ensures
        (s.stage is Counting && scan_step(s, r).0.index == 0) || (scan_step(s, r).0.index == s.index
            + 1 && (s.stage is Entering || s.stage is LeavingAfterMiss)),
{
}

/// Law: a scan ends: every step from an unfinished state either finishes it
/// or lowers its rank.
pub proof fn lemma_scan_progress(s: FrameScan, r: StepReport)
    requires
        scan_wf(s),
        !is_terminal(s.stage),
    ensures
        is_terminal(scan_step(s, r).0.stage) || rank_below(scan_rank(scan_step(s, r).0), scan_rank(s)),
{
}

/// Law: a finished scan stays finished and keeps giving its result.
pub proof fn lemma_scan_terminal_stable(s: FrameScan, r: StepReport)
    requires
        is_terminal(s.stage),
    ensures
        scan_step(s, r) == (s, terminal_action(s.stage)),
{
}

/// Law: a scan succeeds only by leaving the frame in which the target was
/// found and acted on; it gives up only after its last frame (or when the
/// page has none).
pub proof fn lemma_scan_outcomes(s: FrameScan, r: StepReport)
    requires
        scan_wf(s),
        !is_terminal(s.stage),
    ensures
        scan_step(s, r).1 is Succeed ==> s.stage is LeavingAfterHit && report_ok(r),
        scan_step(s, r).1 is ActOnTarget ==> s.stage is Looking && report_ok(r),
        scan_step(s, r).1 is GiveUp ==> (s.stage is Counting && r == StepReport::Counted(0)) || (
        s.index + 1 == s.frame_count && (s.stage is Entering || s.stage is LeavingAfterMiss)),
{
}

/// A page as a scan meets it: for each iframe, whether it can be entered and
/// whether it holds the target.
pub open spec fn good_frame(frames: Seq<(bool, bool)>, i: int) -> bool {
    frames[i].0 && frames[i].1
}

/// What a browser reports on such a page for the action the scan waits on:
/// the number of frames, whether the frame could be entered, whether it
/// holds the target; every other action goes well.
pub open spec fn page_report(s: FrameScan, frames: Seq<(bool, bool)>) -> StepReport {
    match s.stage {
        ScanStage::Counting => StepReport::Counted(frames.len() as usize),
        ScanStage::Entering => StepReport::Done(frames[s.index as int].0),
        ScanStage::Looking => StepReport::Done(frames[s.index as int].1),
        _ => StepReport::Done(true),
    }
}

/// One step of a scan on such a page.
pub open spec fn page_next(s: FrameScan, frames: Seq<(bool, bool)>) -> FrameScan {
    scan_step(s, page_report(s, frames)).0
}

/// The scan after `k` steps on such a page.
pub open spec fn page_run(s: FrameScan, frames: Seq<(bool, bool)>, k: nat) -> FrameScan
    decreases k,
{
    if k == 0 {
        s
    } else {
        page_next(page_run(s, frames, (k - 1) as nat), frames)
    }
}

/// What holds at every state of a scan on such a page.
pub open spec fn page_inv(s: FrameScan, frames: Seq<(bool, bool)>) -> bool {
    let before = s.stage is Prelude || s.stage is Counting;
    &&& scan_wf(s)
    &&& !(s.stage is Aborted)
    &&& before ==> s.index == 0
    &&& !before ==> s.frame_count == frames.len()
    &&& !before && !(s.stage is Exhausted) ==> forall|j: int|
        0 <= j < s.index ==> !#[trigger] good_frame(frames, j)
    &&& s.stage is Looking ==> frames[s.index as int].0
    &&& (s.stage is Acting || s.stage is LeavingAfterHit || s.stage is Succeeded) ==> good_frame(
        frames,
        s.index as int,
    )
    &&& s.stage is Succeeded ==> s.index < frames.len()
    &&& s.stage is LeavingAfterMiss ==> !good_frame(frames, s.index as int)
    &&& s.stage is Exhausted ==> forall|j: int| 0 <= j < frames.len() ==> !#[trigger] good_frame(frames, j)
}

/// Steps left, at most, before a scan on such a page ends.
pub open spec fn page_measure(s: FrameScan, frames: Seq<(bool, bool)>) -> int {
    let n = frames.len() as int;
    let i = s.index as int;
    match s.stage {
        ScanStage::Prelude => 4 * n + 2,
        ScanStage::Counting => 4 * n + 1,
        ScanStage::Entering => 4 * (n - i),
        ScanStage::Looking => 4 * (n - i) - 1,
        ScanStage::Acting => 4 * (n - i) - 2,
        ScanStage::LeavingAfterMiss => 4 * (n - i) - 2,
        ScanStage::LeavingAfterHit => 4 * (n - i) - 3,
        _ => 0,
    }
}

proof fn lemma_page_step(s: FrameScan, frames: Seq<(bool, bool)>)
    requires
        frames.len() <= usize::MAX,
        page_inv(s, frames),
    ensures
        page_inv(page_next(s, frames), frames),
        page_next(s, frames).index >= s.index,
        is_terminal(s.stage) ==> page_next(s, frames) == s,
        !is_terminal(s.stage) ==> page_measure(page_next(s, frames), frames) < page_measure(s, frames),
        !is_terminal(s.stage) ==> page_measure(s, frames) >= 1,
{
    let next = page_next(s, frames);
    if s.stage is Entering || s.stage is LeavingAfterMiss {
        if next.stage is Entering && next.index == s.index + 1 {
            assert forall|j: int| 0 <= j < next.index implies !#[trigger] good_frame(frames, j) by {
                if j < s.index {
                }
            }
        }
        if next.stage is Exhausted {
            assert forall|j: int| 0 <= j < frames.len() implies !#[trigger] good_frame(frames, j) by {
                if j < s.index {
                }
            }
        }
    }
}

proof fn lemma_page_run_inv(s: FrameScan, frames: Seq<(bool, bool)>, k: nat)
    requires
        frames.len() <= usize::MAX,
        page_inv(s, frames),
    ensures
        page_inv(page_run(s, frames, k), frames),
        is_terminal(page_run(s, frames, k).stage) || page_measure(page_run(s, frames, k), frames) + k
            <= page_measure(s, frames),
        is_terminal(page_run(s, frames, k).stage) ==> page_run(s, frames, k + 1) == page_run(s, frames, k),
        page_run(s, frames, k).index <= page_run(s, frames, k + 1).index,
    decreases k,
{
    if k > 0 {
        lemma_page_run_inv(s, frames, (k - 1) as nat);
        lemma_page_step(page_run(s, frames, (k - 1) as nat), frames);
    }
    lemma_page_step(page_run(s, frames, k), frames);
}

proof fn lemma_page_run_monotone(s: FrameScan, frames: Seq<(bool, bool)>, k1: nat, k2: nat)
    requires
        frames.len() <= usize::MAX,
        page_inv(s, frames),
        k1 <= k2,
    ensures
        page_run(s, frames, k1).index <= page_run(s, frames, k2).index,
    decreases k2 - k1,
{
    if k1 < k2 {
        lemma_page_run_inv(s, frames, k1);
        lemma_page_run_monotone(s, frames, k1 + 1, k2);
    }
}

/// Law: on any page, a scan acts on the target in the first frame that can
/// be entered and holds it, enters no frame after that one, and succeeds; it
/// gives up exactly when no frame can be entered and holds the target. It
/// ends within `4 * frames + 2` steps.
pub proof fn lemma_scan_finds_first_frame(prelude: ScanPrelude, frames: Seq<(bool, bool)>)
    requires
        frames.len() <= usize::MAX,
    ensures
        ({
            let s0 = scan_start(prelude).0;
            let fuel = (4 * frames.len() + 2) as nat;
            let end = page_run(s0, frames, fuel);
            &&& end.stage is Succeeded || end.stage is Exhausted
            &&& end.stage is Succeeded <==> exists|i: int| 0 <= i < frames.len() && good_frame(frames, i)
            &&& end.stage is Succeeded ==> good_frame(frames, end.index as int) && forall|j: int|
                0 <= j < end.index ==> !#[trigger] good_frame(frames, j)
            &&& forall|k: nat| k <= fuel ==> (#[trigger] page_run(s0, frames, k)).index <= end.index
            &&& forall|k: nat|
                k <= fuel && (#[trigger] page_run(s0, frames, k)).stage is Acting ==> page_run(
                    s0,
                    frames,
                    k,
                ).index == end.index
        }),
{
    let s0 = scan_start(prelude).0;
    let fuel = (4 * frames.len() + 2) as nat;
    let end = page_run(s0, frames, fuel);
    assert(page_inv(s0, frames));
    lemma_page_run_inv(s0, frames, fuel);
    if !is_terminal(end.stage) {
        lemma_page_step(end, frames);
    }
    if exists|i: int| 0 <= i < frames.len() && good_frame(frames, i) {
        let i = choose|i: int| 0 <= i < frames.len() && good_frame(frames, i);
        assert(!(end.stage is Exhausted));
    }
    assert forall|k: nat| k <= fuel implies (#[trigger] page_run(s0, frames, k)).index <= end.index by {
        lemma_page_run_monotone(s0, frames, k, fuel);
    }
    assert forall|k: nat|
        k <= fuel && (#[trigger] page_run(s0, frames, k)).stage is Acting implies page_run(
            s0,
            frames,
            k,
        ).index == end.index by {
        let sk = page_run(s0, frames, k);
        lemma_page_run_inv(s0, frames, k);
        lemma_page_run_monotone(s0, frames, k, fuel);
        assert(good_frame(frames, sk.index as int));
        assert(end.stage is Succeeded);
        if sk.index < end.index {
            assert(!good_frame(frames, sk.index as int));
        }
    }
}

/// Law: acting on the target decides the frame: when it goes well the scan
/// leaves the frame as a hit, and when it fails the scan aborts with that
/// failure; a frame is left as a hit in no other way.
pub proof fn lemma_scan_act_outcome(s: FrameScan, r: StepReport)
    ensures
        s.stage is Acting && report_ok(r) ==> scan_step(s, r) == (
            FrameScan { stage: ScanStage::LeavingAfterHit, ..s },
            ScanAction::LeaveFrame,
        ),
        s.stage is Acting && !report_ok(r) ==> scan_step(s, r) == (
            FrameScan { stage: ScanStage::Aborted, ..s },
            ScanAction::Abort,
        ),
        scan_step(s, r).0.stage is LeavingAfterHit ==> (s.stage is Acting && report_ok(r)) || s
            == scan_step(s, r).0,
{
}

/// Law: a step that must not fail (the prelude, counting the frames, acting
/// on the target, leaving a frame) aborts the scan when it fails; only a
/// frame that cannot be entered, or holds no target, is passed over.
pub proof fn lemma_scan_required_steps(s: FrameScan, r: StepReport)
    ensures
        (s.stage is Prelude || s.stage is Acting || s.stage is LeavingAfterHit || s.stage is LeavingAfterMiss)
            && !report_ok(r) ==> scan_step(s, r).1 is Abort && scan_step(s, r).0.stage is Aborted,
        s.stage is Counting && r is Done ==> scan_step(s, r).1 is Abort,
        !is_terminal(s.stage) && scan_step(s, r).1 is Abort ==> !report_ok(r) || (s.stage is Counting && r is Done),
        s.stage is Looking && !report_ok(r) ==> scan_step(s, r).1 is LeaveFrame,
{
}

} // verus!
