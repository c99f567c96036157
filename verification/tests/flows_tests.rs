use login_audit::buttons::ButtonTarget;
use login_audit::login::{LoginAction, LoginFailure, LoginField, LoginFlow};
use login_audit::report::{join_lines, UserLists};
use login_audit::history::HistoryVerdict;
use login_audit::scan::{FrameScan, ScanAction, ScanPrelude, StepReport};
use login_audit::table::{TableAction, TableSearch, FRAME_WAIT_SECS, HERE_WAIT_SECS, TABLE_ID};
use login_audit::user_flow::{UserAction, UserFailure, UserFlow, UserOutcome};
use login_audit::waiting::{still_waiting, timeout_message};
use login_audit::table::table_not_found_message;

const OK: StepReport = StepReport::Done(true);
const NO: StepReport = StepReport::Done(false);

#[test]
fn scan_clicks_in_second_frame() {
    let (s, a) = FrameScan::start(ScanPrelude::Pause(3));
    assert!(matches!(a, ScanAction::Pause(3)));
    let (s, a) = s.step(OK);
    assert!(matches!(a, ScanAction::CountFrames));
    let (s, a) = s.step(StepReport::Counted(3));
    assert!(matches!(a, ScanAction::EnterFrame(0)));
    let (s, a) = s.step(OK);
    assert!(matches!(a, ScanAction::LookForTarget));
    let (s, a) = s.step(NO);
    assert!(matches!(a, ScanAction::LeaveFrame));
    let (s, a) = s.step(OK);
    assert!(matches!(a, ScanAction::EnterFrame(1)));
    let (s, a) = s.step(OK);
    assert!(matches!(a, ScanAction::LookForTarget));
    let (s, a) = s.step(OK);
    assert!(matches!(a, ScanAction::ActOnTarget));
    let (s, a) = s.step(OK);
    assert!(matches!(a, ScanAction::LeaveFrame));
    let (s, a) = s.step(OK);
    assert!(matches!(a, ScanAction::Succeed));
    assert!(s.is_finished());
    let (_, a) = s.step(NO);
    assert!(matches!(a, ScanAction::Succeed));
}

#[test]
fn scan_skips_frames_it_cannot_enter_and_gives_up() {
    let (s, _) = FrameScan::start(ScanPrelude::EnterDefaultFrame);
    let (s, _) = s.step(OK);
    let (s, a) = s.step(StepReport::Counted(2));
    assert!(matches!(a, ScanAction::EnterFrame(0)));
    let (s, a) = s.step(NO);
    assert!(matches!(a, ScanAction::EnterFrame(1)));
    let (s, a) = s.step(NO);
    assert!(matches!(a, ScanAction::GiveUp));
    assert!(s.is_finished());
}

#[test]
fn scan_with_no_frames_gives_up() {
    let (s, _) = FrameScan::start(ScanPrelude::Pause(2));
    let (s, _) = s.step(OK);
    let (_, a) = s.step(StepReport::Counted(0));
    assert!(matches!(a, ScanAction::GiveUp));
}

#[test]
fn scan_aborts_when_leaving_a_frame_fails() {
    let (s, _) = FrameScan::start(ScanPrelude::Pause(2));
    let (s, _) = s.step(OK);
    let (s, _) = s.step(StepReport::Counted(5));
    let (s, _) = s.step(OK);
    let (s, a) = s.step(NO);
    assert!(matches!(a, ScanAction::LeaveFrame));
    let (_, a) = s.step(NO);
    assert!(matches!(a, ScanAction::Abort));
}

#[test]
fn scan_frame_numbers_wrap_like_u16() {
    let (s, _) = FrameScan::start(ScanPrelude::Pause(0));
    let (s, _) = s.step(OK);
    let (mut s, _) = s.step(StepReport::Counted(70000));
    let mut last = ScanAction::Abort;
    for _ in 0..65536 {
        let (next, a) = s.step(NO);
        s = next;
        last = a;
    }
    assert!(matches!(last, ScanAction::EnterFrame(0)));
    assert_eq!(s.index, 65536);
}

#[test]
fn buttons_are_found_by_text() {
    assert_eq!(ButtonTarget::Safety.xpath(), "//*[contains(text(), 'Безопасность')]");
    assert_eq!(ButtonTarget::LoginHistory.xpath(), "//*[contains(text(), 'История входов')]");
    let (_, a) = ButtonTarget::Safety.start_click();
    assert!(matches!(a, ScanAction::Pause(3)));
    let (_, a) = ButtonTarget::LoginHistory.start_click();
    assert!(matches!(a, ScanAction::Pause(2)));
}

#[test]
fn table_found_here_is_saved() {
    assert_eq!(TABLE_ID, "login_history_grid_table");
    let (t, a) = TableSearch::start();
    assert!(matches!(a, TableAction::WaitForTable(s) if s == HERE_WAIT_SECS));
    let (t, a) = t.step(OK);
    assert!(matches!(a, TableAction::SaveTable));
    let (t, a) = t.step(OK);
    assert!(matches!(a, TableAction::Saved));
    assert!(t.is_finished());
}

#[test]
fn failed_save_here_is_an_error() {
    let (t, _) = TableSearch::start();
    let (t, _) = t.step(OK);
    let (_, a) = t.step(NO);
    assert!(matches!(a, TableAction::Abort));
}

#[test]
fn table_in_fourth_frame() {
    let (t, _) = TableSearch::start();
    let (t, a) = t.step(NO);
    assert!(matches!(a, TableAction::EnterDefaultFrame));
    let (t, a) = t.step(OK);
    assert!(matches!(a, TableAction::CountFrames));
    let (t, a) = t.step(StepReport::Counted(4));
    assert!(matches!(a, TableAction::EnterFrame(3)));
    let (t, a) = t.step(OK);
    assert!(matches!(a, TableAction::WaitForTable(s) if s == FRAME_WAIT_SECS));
    let (t, a) = t.step(OK);
    assert!(matches!(a, TableAction::SaveTable));
    let (t, a) = t.step(OK);
    assert!(matches!(a, TableAction::EnterDefaultFrame));
    let (_, a) = t.step(OK);
    assert!(matches!(a, TableAction::Saved));
}

#[test]
fn too_few_frames_falls_back_to_every_frame() {
    let (t, _) = TableSearch::start();
    let (t, _) = t.step(NO);
    let (t, _) = t.step(OK);
    let (t, a) = t.step(StepReport::Counted(3));
    assert!(matches!(a, TableAction::Scan(ScanAction::EnterDefaultFrame)));
    let (t, a) = t.step(OK);
    assert!(matches!(a, TableAction::Scan(ScanAction::CountFrames)));
    let (t, a) = t.step(StepReport::Counted(1));
    assert!(matches!(a, TableAction::Scan(ScanAction::EnterFrame(0))));
    let (t, a) = t.step(OK);
    assert!(matches!(a, TableAction::Scan(ScanAction::LookForTarget)));
    let (t, a) = t.step(NO);
    assert!(matches!(a, TableAction::Scan(ScanAction::LeaveFrame)));
    let (t, a) = t.step(OK);
    assert!(matches!(a, TableAction::NotFound));
    assert!(t.is_finished());
}

#[test]
fn fallback_saves_the_table_it_finds() {
    let (t, _) = TableSearch::start();
    let (t, _) = t.step(NO);
    let (t, _) = t.step(NO);
    let (t, _) = t.step(OK);
    let (t, _) = t.step(StepReport::Counted(1));
    let (t, _) = t.step(OK);
    let (t, a) = t.step(OK);
    assert!(matches!(a, TableAction::Scan(ScanAction::ActOnTarget)));
    let (t, _) = t.step(OK);
    let (_, a) = t.step(OK);
    assert!(matches!(a, TableAction::Saved));
}

#[test]
fn login_runs_the_four_steps() {
    let (mut f, a) = LoginFlow::start();
    assert!(matches!(a, LoginAction::WaitClickable(LoginField::LoginInput)));
    assert!(matches!(f.step(OK), LoginAction::TypeUsername));
    assert!(matches!(f.step(OK), LoginAction::WaitClickable(LoginField::ContinueButton)));
    assert!(matches!(f.step(OK), LoginAction::Click));
    assert!(matches!(f.step(OK), LoginAction::WaitClickable(LoginField::PasswordInput)));
    assert!(matches!(f.step(OK), LoginAction::TypePassword));
    assert!(matches!(f.step(OK), LoginAction::WaitClickable(LoginField::SubmitButton)));
    assert!(matches!(f.step(OK), LoginAction::Click));
    assert!(matches!(f.step(OK), LoginAction::Done));
    assert_eq!(LoginField::PasswordInput.wait_secs(), 30);
    assert_eq!(LoginField::LoginInput.wait_secs(), 10);
    assert_eq!(LoginField::LoginInput.css(), "input.b24net-text-input__field[type='text']");
}

#[test]
fn login_stops_at_missing_field() {
    let (mut f, _) = LoginFlow::start();
    f.step(OK);
    f.step(OK);
    let a = f.step(NO);
    assert!(matches!(a, LoginAction::Fail(LoginFailure::FieldMissing(LoginField::ContinueButton))));
    assert!(matches!(f.step(OK), LoginAction::Fail(LoginFailure::FieldMissing(LoginField::ContinueButton))));
    let (mut g, _) = LoginFlow::start();
    g.step(OK);
    assert!(matches!(g.step(NO), LoginAction::Fail(LoginFailure::StepFailed)));
}

fn run_user(first_load: bool, menu: usize, profiles: usize) -> Vec<UserAction> {
    let (mut f, a) = UserFlow::start(first_load);
    let mut actions = vec![a];
    loop {
        let last = *actions.last().unwrap();
        let report = match last {
            UserAction::FindMenuItems => StepReport::Counted(menu),
            UserAction::FindProfileLinks(_) => StepReport::Counted(profiles),
            UserAction::Finish(_) | UserAction::Fail(_) => break,
            _ => OK,
        };
        let (next, a) = f.step(report);
        f = next;
        actions.push(a);
    }
    actions
}

#[test]
fn user_check_runs_to_the_saved_history() {
    let actions = run_user(true, 20, 1);
    assert!(matches!(actions[0], UserAction::GoToProfile));
    assert!(matches!(actions[1], UserAction::FirstLoadPause(30)));
    assert!(matches!(actions[2], UserAction::FindMenuItems));
    assert!(matches!(actions[3], UserAction::OpenMenuItem(12)));
    assert!(matches!(actions[4], UserAction::Pause(4)));
    assert!(matches!(actions[5], UserAction::FindSearchInput));
    assert!(matches!(actions[6], UserAction::ClearSearch));
    assert!(matches!(actions[7], UserAction::TypeName));
    assert!(matches!(actions[8], UserAction::PressReturn));
    assert!(matches!(actions[9], UserAction::Pause(2)));
    assert!(matches!(actions[10], UserAction::FindProfileLinks(10)));
    assert!(matches!(actions[11], UserAction::ClickFirstProfile));
    assert!(matches!(actions[12], UserAction::Pause(2)));
    assert!(matches!(actions[13], UserAction::ClickButton(ButtonTarget::Safety)));
    assert!(matches!(actions[14], UserAction::Pause(2)));
    assert!(matches!(actions[15], UserAction::ClickButton(ButtonTarget::LoginHistory)));
    assert!(matches!(actions[16], UserAction::FindAndSaveTable));
    assert!(matches!(actions[17], UserAction::Finish(UserOutcome::HistorySaved)));
    assert_eq!(actions.len(), 18);
}

#[test]
fn later_users_skip_the_first_load_pause() {
    let actions = run_user(false, 13, 2);
    assert!(matches!(actions[1], UserAction::FindMenuItems));
    assert!(!actions.iter().any(|a| matches!(a, UserAction::FirstLoadPause(_))));
}

#[test]
fn short_menu_stops_the_check() {
    let actions = run_user(false, 12, 1);
    assert!(matches!(actions.last().unwrap(), UserAction::Fail(UserFailure::MenuTooShort)));
}

#[test]
fn user_not_listed_is_not_found() {
    let actions = run_user(false, 13, 0);
    assert!(matches!(actions.last().unwrap(), UserAction::Finish(UserOutcome::NotFound)));
}

#[test]
fn failed_step_stops_the_check() {
    let (f, _) = UserFlow::start(false);
    let (f, a) = f.step(NO);
    assert!(matches!(a, UserAction::Fail(UserFailure::StepFailed)));
    let (_, a) = f.step(OK);
    assert!(matches!(a, UserAction::Fail(UserFailure::StepFailed)));
}

#[test]
fn lists_record_outcomes() {
    let mut lists = UserLists::new();
    lists.record_not_found("A");
    lists.record_history("B", &HistoryVerdict { good_mobile: true, no_desktop: true });
    lists.record_history("C", &HistoryVerdict { good_mobile: false, no_desktop: false });
    assert_eq!(lists.not_found, vec!["A"]);
    assert_eq!(lists.mobile_nice, vec!["B"]);
    assert_eq!(lists.mobile_no, vec!["C"]);
    assert_eq!(lists.desktop_no, vec!["B"]);
    let mut other = UserLists::new();
    other.record_not_found("D");
    lists.merge(other);
    assert_eq!(lists.not_found, vec!["A", "D"]);
}

#[test]
fn result_files_join_names_by_newline() {
    assert_eq!(join_lines(&vec!["a".to_string(), "b".to_string(), "c".to_string()]), "a\nb\nc");
    assert_eq!(join_lines(&vec!["only".to_string()]), "only");
    assert_eq!(join_lines(&Vec::new()), "");
    assert_eq!(join_lines(&vec![String::new(), String::new()]), "\n");
}

#[test]
fn waits_end_at_the_limit() {
    assert!(still_waiting(4_999_999_999, 5));
    assert!(!still_waiting(5_000_000_000, 5));
    assert!(!still_waiting(0, 0));
    assert!(still_waiting(u64::MAX as u128, u64::MAX));
}

fn run_scan_on_page(frames: &[(bool, bool)]) -> (Vec<ScanAction>, FrameScan) {
    let (mut s, a) = FrameScan::start(ScanPrelude::EnterDefaultFrame);
    let mut actions = vec![a];
    loop {
        let report = match actions.last().unwrap() {
            ScanAction::CountFrames => StepReport::Counted(frames.len()),
            ScanAction::EnterFrame(_) => StepReport::Done(frames[s.index].0),
            ScanAction::LookForTarget => StepReport::Done(frames[s.index].1),
            ScanAction::Succeed | ScanAction::GiveUp | ScanAction::Abort => break,
            _ => OK,
        };
        let (next, a) = s.step(report);
        s = next;
        actions.push(a);
    }
    (actions, s)
}

#[test]
fn scan_acts_in_first_good_frame_and_enters_no_later_one() {
    let frames = [(false, true), (true, false), (true, true), (true, true)];
    let (actions, end) = run_scan_on_page(&frames);
    assert!(matches!(actions.last().unwrap(), ScanAction::Succeed));
    assert_eq!(end.index, 2);
    let entered: Vec<u16> = actions
        .iter()
        .filter_map(|a| if let ScanAction::EnterFrame(n) = a { Some(*n) } else { None })
        .collect();
    assert_eq!(entered, vec![0, 1, 2]);
    assert!(actions.len() <= 4 * frames.len() + 3);
}

#[test]
fn scan_gives_up_when_no_frame_holds_the_target() {
    let frames = [(false, true), (true, false)];
    let (actions, _) = run_scan_on_page(&frames);
    assert!(matches!(actions.last().unwrap(), ScanAction::GiveUp));
}

#[test]
fn error_texts() {
    assert_eq!(LoginField::PasswordInput.missing_message(), "Поле пароля не появилось");
    assert_eq!(ButtonTarget::Safety.not_found_message(), "Кнопка 'Безопасность' не найдена ни в одном iframe");
    assert_eq!(ButtonTarget::LoginHistory.not_found_message(), "Кнопка 'История входов' не найдена");
    assert_eq!(UserFailure::MenuTooShort.message(), Some("Меню слишком короткое"));
    assert_eq!(UserFailure::StepFailed.message(), None);
    assert_eq!(table_not_found_message(), "Таблица не найдена ни в одном iframe");
    assert_eq!(timeout_message(10), "Элемент не найден за 10 секунд");
    assert_eq!(login_audit::users::UsersError::WrongFormatId.message(), "Wrong format ID");
}
