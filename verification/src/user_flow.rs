//! Checking one user: open a profile page (pausing longer on the very first
//! load), open the thirteenth item of the side menu (the user directory),
//! search the directory for the user's full name, open the first profile
//! found, click "Security" and then "Login history" in the side panel, and
//! save the login-history table. A user the search does not list is
//! reported as not found.
use vstd::prelude::*;
use crate::buttons::ButtonTarget;
use crate::scan::{report_ok, StepReport};

verus! {

/// The menu item that opens the user directory (the thirteenth).
pub const DIRECTORY_MENU_ITEM: usize = 12;

/// The pause after the first page load of the run, in seconds.
pub const FIRST_LOAD_PAUSE_SECS: u64 = 30;

/// The pause after opening the directory, in seconds.
pub const MENU_PAUSE_SECS: u64 = 4;

/// The pause after each of the later page changes, in seconds.
pub const SHORT_PAUSE_SECS: u64 = 2;

/// How long the directory search results are awaited, in seconds.
pub const PROFILE_WAIT_SECS: u64 = 10;

/// How a user's check ended when it ran to the end.
#[derive(Clone, Copy)]
pub enum UserOutcome {
    /// The directory search listed no profile for the name.
    NotFound,
    /// The login-history table was saved to the user's history file.
    HistorySaved,
}

/// Why a user's check stopped.
#[derive(Clone, Copy)]
pub enum UserFailure {
    /// The side menu has no directory item (thirteen items or fewer).
    MenuTooShort,
    /// A browser step failed; its error is the result.
    StepFailed,
}

impl UserFailure {
    /// The error's own text; `None` when the error is the failed step's.
    pub fn message(&self) -> (r: Option<&'static str>)
        ensures
            match *self {
                UserFailure::MenuTooShort => r matches Some(m) && m@ == "Меню слишком короткое"@,
                UserFailure::StepFailed => r is None,
            },
    {
        match self {
            UserFailure::MenuTooShort => Some("Меню слишком короткое"),
            UserFailure::StepFailed => None,
        }
    }
}

#[derive(Clone, Copy)]
pub enum UserStage {
    OpenProfile,
    FirstLoadPause,
    FindMenu,
    OpenMenuItem,
    PauseAfterMenu,
    FindSearch,
    ClearSearch,
    TypeName,
    PressReturn,
    PauseAfterSearch,
    FindProfiles,
    OpenProfileLink,
    PauseAfterProfile,
    ClickSafety,
    PauseAfterSafety,
    ClickHistory,
    SaveHistory,
    Finished(UserOutcome),
    Failed(UserFailure),
}

/// The next thing to do.
#[derive(Clone, Copy)]
pub enum UserAction {
    /// Open the user's profile page (`profile_url`).
    GoToProfile,
    /// Wait this many seconds: the first page load of the run.
    FirstLoadPause(u64),
    /// Count the side menu's items.
    FindMenuItems,
    /// Scroll to the menu item with this index and click it by script.
    OpenMenuItem(usize),
    /// Wait this many seconds.
    Pause(u64),
    /// Find the directory's search field.
    FindSearchInput,
    /// Clear the search field.
    ClearSearch,
    /// Type the user's full name into the search field.
    TypeName,
    /// Press Return in the search field.
    PressReturn,
    /// Wait up to this many seconds for the found profiles and count them.
    FindProfileLinks(u64),
    /// Click the first profile found.
    ClickFirstProfile,
    /// Click this side-panel button (a frame scan).
    ClickButton(ButtonTarget),
    /// Find and save the login-history table (a table search).
    FindAndSaveTable,
    /// Done.
    Finish(UserOutcome),
    /// Stopped.
    Fail(UserFailure),
}

/// A user's check in progress; `first_load` says whether the run's first
/// page load is still to come.
#[derive(Clone, Copy)]
pub struct UserFlow {
    pub stage: UserStage,
    pub first_load: bool,
}

pub open spec fn user_start(first_load: bool) -> (UserFlow, UserAction) {
    (UserFlow { stage: UserStage::OpenProfile, first_load }, UserAction::GoToProfile)
}

pub open spec fn go(f: UserFlow, stage: UserStage, a: UserAction) -> (UserFlow, UserAction) {
    (UserFlow { stage, ..f }, a)
}

pub open spec fn step_failed(f: UserFlow) -> (UserFlow, UserAction) {
    go(f, UserStage::Failed(UserFailure::StepFailed), UserAction::Fail(UserFailure::StepFailed))
}

/// Moves to `stage` with action `a` when the last action succeeded.
pub open spec fn on_ok(f: UserFlow, r: StepReport, stage: UserStage, a: UserAction) -> (UserFlow, UserAction) {
    if report_ok(r) {
        go(f, stage, a)
    } else {
        step_failed(f)
    }
}

/// The check's decision table.
pub open spec fn user_step(f: UserFlow, r: StepReport) -> (UserFlow, UserAction) {
    match f.stage {
        UserStage::OpenProfile => if f.first_load {
            on_ok(f, r, UserStage::FirstLoadPause, UserAction::FirstLoadPause(FIRST_LOAD_PAUSE_SECS))
        } else {
            on_ok(f, r, UserStage::FindMenu, UserAction::FindMenuItems)
        },
        UserStage::FirstLoadPause => if report_ok(r) {
            (UserFlow { stage: UserStage::FindMenu, first_load: false }, UserAction::FindMenuItems)
        } else {
            step_failed(f)
        },
        UserStage::FindMenu => match r {
            StepReport::Counted(n) => if n > DIRECTORY_MENU_ITEM {
                go(f, UserStage::OpenMenuItem, UserAction::OpenMenuItem(DIRECTORY_MENU_ITEM))
            } else {
                go(
                    f,
                    UserStage::Failed(UserFailure::MenuTooShort),
                    UserAction::Fail(UserFailure::MenuTooShort),
                )
            },
            StepReport::Done(_) => step_failed(f),
        },
        UserStage::OpenMenuItem => on_ok(f, r, UserStage::PauseAfterMenu, UserAction::Pause(MENU_PAUSE_SECS)),
        UserStage::PauseAfterMenu => on_ok(f, r, UserStage::FindSearch, UserAction::FindSearchInput),
        UserStage::FindSearch => on_ok(f, r, UserStage::ClearSearch, UserAction::ClearSearch),
        UserStage::ClearSearch => on_ok(f, r, UserStage::TypeName, UserAction::TypeName),
        UserStage::TypeName => on_ok(f, r, UserStage::PressReturn, UserAction::PressReturn),
        UserStage::PressReturn => on_ok(f, r, UserStage::PauseAfterSearch, UserAction::Pause(SHORT_PAUSE_SECS)),
        UserStage::PauseAfterSearch => on_ok(
            f,
            r,
            UserStage::FindProfiles,
            UserAction::FindProfileLinks(PROFILE_WAIT_SECS),
        ),
        UserStage::FindProfiles => match r {
            StepReport::Counted(n) => if n == 0 {
                go(f, UserStage::Finished(UserOutcome::NotFound), UserAction::Finish(UserOutcome::NotFound))
            } else {
                go(f, UserStage::OpenProfileLink, UserAction::ClickFirstProfile)
            },
            StepReport::Done(_) => step_failed(f),
        },
        UserStage::OpenProfileLink => on_ok(f, r, UserStage::PauseAfterProfile, UserAction::Pause(SHORT_PAUSE_SECS)),
        UserStage::PauseAfterProfile => on_ok(
            f,
            r,
            UserStage::ClickSafety,
            UserAction::ClickButton(ButtonTarget::Safety),
        ),
        UserStage::ClickSafety => on_ok(f, r, UserStage::PauseAfterSafety, UserAction::Pause(SHORT_PAUSE_SECS)),
        UserStage::PauseAfterSafety => on_ok(
            f,
            r,
            UserStage::ClickHistory,
            UserAction::ClickButton(ButtonTarget::LoginHistory),
        ),
        UserStage::ClickHistory => on_ok(f, r, UserStage::SaveHistory, UserAction::FindAndSaveTable),
        UserStage::SaveHistory => on_ok(
            f,
            r,
            UserStage::Finished(UserOutcome::HistorySaved),
            UserAction::Finish(UserOutcome::HistorySaved),
        ),
        UserStage::Finished(o) => (f, UserAction::Finish(o)),
        UserStage::Failed(e) => (f, UserAction::Fail(e)),
    }
}

/// The position of a stage in the check, from 0 (start) to 17 (done).
pub open spec fn user_progress(s: UserStage) -> nat {
    match s {
        UserStage::OpenProfile => 0,
        UserStage::FirstLoadPause => 1,
        UserStage::FindMenu => 2,
        UserStage::OpenMenuItem => 3,
        UserStage::PauseAfterMenu => 4,
        UserStage::FindSearch => 5,
        UserStage::ClearSearch => 6,
        UserStage::TypeName => 7,
        UserStage::PressReturn => 8,
        UserStage::PauseAfterSearch => 9,
        UserStage::FindProfiles => 10,
        UserStage::OpenProfileLink => 11,
        UserStage::PauseAfterProfile => 12,
        UserStage::ClickSafety => 13,
        UserStage::PauseAfterSafety => 14,
        UserStage::ClickHistory => 15,
        UserStage::SaveHistory => 16,
        UserStage::Finished(_) => 17,
        UserStage::Failed(_) => 18,
    }
}

pub open spec fn user_terminal(s: UserStage) -> bool {
    s is Finished || s is Failed
}

impl UserFlow {
    /// A new check and its first action; `first_load` when no page of the
    /// run has been loaded yet.
    pub fn start(first_load: bool) -> (r: (UserFlow, UserAction))
        ensures
            r == user_start(first_load),
    {
        (UserFlow { stage: UserStage::OpenProfile, first_load }, UserAction::GoToProfile)
    }

    fn go(&self, stage: UserStage, a: UserAction) -> (r: (UserFlow, UserAction))
        ensures
            r == go(*self, stage, a),
    {
        (UserFlow { stage, first_load: self.first_load }, a)
    }

    fn on_ok(&self, ok: bool, stage: UserStage, a: UserAction) -> (r: (UserFlow, UserAction))
        ensures
            ok ==> r == go(*self, stage, a),
            !ok ==> r == step_failed(*self),
    {
        if ok {
            self.go(stage, a)
        } else {
            self.go(UserStage::Failed(UserFailure::StepFailed), UserAction::Fail(UserFailure::StepFailed))
        }
    }

    /// The next state and action, given how the last action went.
    pub fn step(&self, report: StepReport) -> (r: (UserFlow, UserAction))
        ensures
            r == user_step(*self, report),
    {
        let ok = match report {
            StepReport::Done(b) => b,
            StepReport::Counted(_) => false,
        };
        match self.stage {
            UserStage::OpenProfile => if self.first_load {
                self.on_ok(ok, UserStage::FirstLoadPause, UserAction::FirstLoadPause(FIRST_LOAD_PAUSE_SECS))
            } else {
                self.on_ok(ok, UserStage::FindMenu, UserAction::FindMenuItems)
            },
            UserStage::FirstLoadPause => if ok {
                (UserFlow { stage: UserStage::FindMenu, first_load: false }, UserAction::FindMenuItems)
            } else {
                self.on_ok(false, UserStage::FindMenu, UserAction::FindMenuItems)
            },
            UserStage::FindMenu => match report {
                StepReport::Counted(n) => if n > DIRECTORY_MENU_ITEM {
                    self.go(UserStage::OpenMenuItem, UserAction::OpenMenuItem(DIRECTORY_MENU_ITEM))
                } else {
                    self.go(
                        UserStage::Failed(UserFailure::MenuTooShort),
                        UserAction::Fail(UserFailure::MenuTooShort),
                    )
                },
                StepReport::Done(_) => self.on_ok(false, UserStage::FindMenu, UserAction::FindMenuItems),
            },
            UserStage::OpenMenuItem => self.on_ok(ok, UserStage::PauseAfterMenu, UserAction::Pause(MENU_PAUSE_SECS)),
            UserStage::PauseAfterMenu => self.on_ok(ok, UserStage::FindSearch, UserAction::FindSearchInput),
            UserStage::FindSearch => self.on_ok(ok, UserStage::ClearSearch, UserAction::ClearSearch),
            UserStage::ClearSearch => self.on_ok(ok, UserStage::TypeName, UserAction::TypeName),
            UserStage::TypeName => self.on_ok(ok, UserStage::PressReturn, UserAction::PressReturn),
            UserStage::PressReturn => self.on_ok(
                ok,
                UserStage::PauseAfterSearch,
                UserAction::Pause(SHORT_PAUSE_SECS),
            ),
            UserStage::PauseAfterSearch => self.on_ok(
                ok,
                UserStage::FindProfiles,
                UserAction::FindProfileLinks(PROFILE_WAIT_SECS),
            ),
            UserStage::FindProfiles => match report {
                StepReport::Counted(n) => if n == 0 {
                    self.go(UserStage::Finished(UserOutcome::NotFound), UserAction::Finish(UserOutcome::NotFound))
                } else {
                    self.go(UserStage::OpenProfileLink, UserAction::ClickFirstProfile)
                },
                StepReport::Done(_) => self.on_ok(false, UserStage::FindProfiles, UserAction::ClickFirstProfile),
            },
            UserStage::OpenProfileLink => self.on_ok(
                ok,
                UserStage::PauseAfterProfile,
                UserAction::Pause(SHORT_PAUSE_SECS),
            ),
            UserStage::PauseAfterProfile => self.on_ok(
                ok,
                UserStage::ClickSafety,
                UserAction::ClickButton(ButtonTarget::Safety),
            ),
            UserStage::ClickSafety => self.on_ok(
                ok,
                UserStage::PauseAfterSafety,
                UserAction::Pause(SHORT_PAUSE_SECS),
            ),
            UserStage::PauseAfterSafety => self.on_ok(
                ok,
                UserStage::ClickHistory,
                UserAction::ClickButton(ButtonTarget::LoginHistory),
            ),
            UserStage::ClickHistory => self.on_ok(ok, UserStage::SaveHistory, UserAction::FindAndSaveTable),
            UserStage::SaveHistory => self.on_ok(
                ok,
                UserStage::Finished(UserOutcome::HistorySaved),
                UserAction::Finish(UserOutcome::HistorySaved),
            ),
            UserStage::Finished(o) => (*self, UserAction::Finish(o)),
            UserStage::Failed(e) => (*self, UserAction::Fail(e)),
        }
    }
}

/// Law: a check only moves forward: each step from an unfinished stage
/// either stops it or goes to a later stage (skipping at most the first-load
/// pause, or jumping to the end when the search finds nobody).
pub proof fn lemma_user_moves_forward(f: UserFlow, r: StepReport)
    requires
        !user_terminal(f.stage),
    ensures
        user_terminal(user_step(f, r).0.stage) || user_progress(user_step(f, r).0.stage) > user_progress(f.stage),
{
}

/// Law: the long first-load pause happens only while the run's first load
/// is still to come, and afterwards it is over.
pub proof fn lemma_first_load_pause_once(f: UserFlow, r: StepReport)
    ensures
        user_step(f, r).1 is FirstLoadPause ==> f.first_load && f.stage is OpenProfile,
        f.stage is FirstLoadPause && report_ok(r) ==> !user_step(f, r).0.first_load,
        !f.first_load ==> !user_step(f, r).0.first_load,
{
}

/// Law: a user is reported not found exactly when the directory search
/// listed no profile, and the history is reported saved only after the
/// table search succeeded.
pub proof fn lemma_user_outcomes(f: UserFlow, r: StepReport)
    requires
        !user_terminal(f.stage),
    ensures
        user_step(f, r).1 == UserAction::Finish(UserOutcome::NotFound) <==> (f.stage is FindProfiles && r
            == StepReport::Counted(0)),
        user_step(f, r).1 == UserAction::Finish(UserOutcome::HistorySaved) <==> (f.stage is SaveHistory
            && report_ok(r)),
        user_step(f, r).1 == UserAction::Fail(UserFailure::MenuTooShort) <==> (f.stage is FindMenu && (r
            matches StepReport::Counted(n) && n <= DIRECTORY_MENU_ITEM)),
{
}

/// Law: "Login history" is clicked only from the pause after "Security",
/// that pause is entered only when "Security" was clicked without error, and
/// the table is searched for only after "Login history" was clicked.
pub proof fn lemma_history_after_security(f: UserFlow, r: StepReport)
    ensures
        user_step(f, r).1 == UserAction::ClickButton(ButtonTarget::LoginHistory) ==> f.stage is PauseAfterSafety
            && report_ok(r),
        !(f.stage is PauseAfterSafety) && user_step(f, r).0.stage is PauseAfterSafety ==> f.stage is ClickSafety
            && report_ok(r),
        user_step(f, r).1 is FindAndSaveTable ==> f.stage is ClickHistory && report_ok(r),
{
}

/// Law: whatever the number of profiles the directory search lists, none
/// means the user is not found and any other number opens the first one.
pub proof fn lemma_search_result_decides(f: UserFlow, n: usize)
    requires
        f.stage is FindProfiles,
    ensures
        n == 0 ==> user_step(f, StepReport::Counted(n)) == (
            UserFlow { stage: UserStage::Finished(UserOutcome::NotFound), first_load: f.first_load },
            UserAction::Finish(UserOutcome::NotFound),
        ),
        n > 0 ==> user_step(f, StepReport::Counted(n)) == (
            UserFlow { stage: UserStage::OpenProfileLink, first_load: f.first_load },
            UserAction::ClickFirstProfile,
        ),
{
}

/// Law: a check stops with a step failure only when the step just reported
/// did not go well (for the two counting steps: when no count came back);
/// it stops as too short a menu only when the menu has at most thirteen
/// items; it never fails on a search result.
pub proof fn lemma_user_fails_only_on_failure(f: UserFlow, r: StepReport)
    requires
        !user_terminal(f.stage),
    ensures
        user_step(f, r).1 == UserAction::Fail(UserFailure::StepFailed) ==> (if f.stage is FindMenu || f.stage
            is FindProfiles {
            r is Done
        } else {
            !report_ok(r)
        }),
        f.stage is FindProfiles && r is Counted ==> !(user_step(f, r).1 is Fail),
        f.stage is FindMenu && (r matches StepReport::Counted(n) && n > DIRECTORY_MENU_ITEM) ==> user_step(
            f,
            r,
        ).1 == UserAction::OpenMenuItem(DIRECTORY_MENU_ITEM),
{
}

} // verus!
