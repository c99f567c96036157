//! Signing in to the portal: wait for the login field and type the login,
//! wait for "Continue" and press it, wait for the password field and type
//! the password, wait for the second "Continue" and press it. Each wait has
//! its own time limit; the first step that fails ends the sign-in.
use vstd::prelude::*;
use crate::scan::{report_ok, StepReport};

verus! {

/// An element of the sign-in form.
#[derive(Clone, Copy)]
pub enum LoginField {
    LoginInput,
    ContinueButton,
    PasswordInput,
    SubmitButton,
}

pub open spec fn field_css(f: LoginField) -> Seq<char> {
    match f {
        LoginField::LoginInput => "input.b24net-text-input__field[type='text']"@,
        LoginField::ContinueButton => ".b24net-login-enter-form__continue-btn"@,
        LoginField::PasswordInput => "input.b24net-text-input__field[type='password']"@,
        LoginField::SubmitButton => ".b24net-password-enter-form__continue-btn"@,
    }
}

pub open spec fn field_wait_secs(f: LoginField) -> u64 {
    match f {
        LoginField::PasswordInput => 30,
        _ => 10,
    }
}

pub open spec fn field_missing_message(f: LoginField) -> Seq<char> {
    match f {
        LoginField::LoginInput => "Поле логина не появилось"@,
        LoginField::ContinueButton => "Кнопка 'Продолжить' не появилась"@,
        LoginField::PasswordInput => "Поле пароля не появилось"@,
        LoginField::SubmitButton => "Кнопка 'Продолжить' после пароля не появилась"@,
    }
}

impl LoginField {
    /// The CSS selector of the element.
    pub fn css(&self) -> (r: &'static str)
        ensures
            r@ == field_css(*self),
    {
        match self {
            LoginField::LoginInput => "input.b24net-text-input__field[type='text']",
            LoginField::ContinueButton => ".b24net-login-enter-form__continue-btn",
            LoginField::PasswordInput => "input.b24net-text-input__field[type='password']",
            LoginField::SubmitButton => ".b24net-password-enter-form__continue-btn",
        }
    }

    /// The error's text when the element does not become clickable in time.
    pub fn missing_message(&self) -> (r: &'static str)
        ensures
            r@ == field_missing_message(*self),
    {
        match self {
            LoginField::LoginInput => "Поле логина не появилось",
            LoginField::ContinueButton => "Кнопка 'Продолжить' не появилась",
            LoginField::PasswordInput => "Поле пароля не появилось",
            LoginField::SubmitButton => "Кнопка 'Продолжить' после пароля не появилась",
        }
    }

    /// How long to wait for the element to become clickable, in seconds.
    pub fn wait_secs(&self) -> (r: u64)
        ensures
            r == field_wait_secs(*self),
    {
        match self {
            LoginField::PasswordInput => 30,
            _ => 10,
        }
    }
}

/// Why the sign-in stopped.
#[derive(Clone, Copy)]
pub enum LoginFailure {
    /// The element did not become clickable in time.
    FieldMissing(LoginField),
    /// Typing or clicking failed.
    StepFailed,
}

#[derive(Clone, Copy)]
pub enum LoginStage {
    AwaitLogin,
    TypeLogin,
    AwaitContinue,
    PressContinue,
    AwaitPassword,
    TypePassword,
    AwaitSubmit,
    PressSubmit,
    LoggedIn,
    Failed(LoginFailure),
}

/// The next thing to do.
#[derive(Clone, Copy)]
pub enum LoginAction {
    /// Wait until the element is clickable and keep it.
    WaitClickable(LoginField),
    /// Type the login into the element kept.
    TypeUsername,
    /// Type the password into the element kept.
    TypePassword,
    /// Click the element kept.
    Click,
    /// Done: signed in.
    Done,
    /// Done: the sign-in failed.
    Fail(LoginFailure),
}

pub open spec fn login_start() -> (LoginStage, LoginAction) {
    (LoginStage::AwaitLogin, LoginAction::WaitClickable(LoginField::LoginInput))
}

/// The sign-in's decision table.
pub open spec fn login_step(s: LoginStage, r: StepReport) -> (LoginStage, LoginAction) {
    let ok = report_ok(r);
    match s {
        LoginStage::AwaitLogin => if ok {
            (LoginStage::TypeLogin, LoginAction::TypeUsername)
        } else {
            (
                LoginStage::Failed(LoginFailure::FieldMissing(LoginField::LoginInput)),
                LoginAction::Fail(LoginFailure::FieldMissing(LoginField::LoginInput)),
            )
        },
        LoginStage::TypeLogin => if ok {
            (LoginStage::AwaitContinue, LoginAction::WaitClickable(LoginField::ContinueButton))
        } else {
            (LoginStage::Failed(LoginFailure::StepFailed), LoginAction::Fail(LoginFailure::StepFailed))
        },
        LoginStage::AwaitContinue => if ok {
            (LoginStage::PressContinue, LoginAction::Click)
        } else {
            (
                LoginStage::Failed(LoginFailure::FieldMissing(LoginField::ContinueButton)),
                LoginAction::Fail(LoginFailure::FieldMissing(LoginField::ContinueButton)),
            )
        },
        LoginStage::PressContinue => if ok {
            (LoginStage::AwaitPassword, LoginAction::WaitClickable(LoginField::PasswordInput))
        } else {
            (LoginStage::Failed(LoginFailure::StepFailed), LoginAction::Fail(LoginFailure::StepFailed))
        },
        LoginStage::AwaitPassword => if ok {
            (LoginStage::TypePassword, LoginAction::TypePassword)
        } else {
            (
                LoginStage::Failed(LoginFailure::FieldMissing(LoginField::PasswordInput)),
                LoginAction::Fail(LoginFailure::FieldMissing(LoginField::PasswordInput)),
            )
        },
        LoginStage::TypePassword => if ok {
            (LoginStage::AwaitSubmit, LoginAction::WaitClickable(LoginField::SubmitButton))
        } else {
            (LoginStage::Failed(LoginFailure::StepFailed), LoginAction::Fail(LoginFailure::StepFailed))
        },
        LoginStage::AwaitSubmit => if ok {
            (LoginStage::PressSubmit, LoginAction::Click)
        } else {
            (
                LoginStage::Failed(LoginFailure::FieldMissing(LoginField::SubmitButton)),
                LoginAction::Fail(LoginFailure::FieldMissing(LoginField::SubmitButton)),
            )
        },
        LoginStage::PressSubmit => if ok {
            (LoginStage::LoggedIn, LoginAction::Done)
        } else {
            (LoginStage::Failed(LoginFailure::StepFailed), LoginAction::Fail(LoginFailure::StepFailed))
        },
        LoginStage::LoggedIn => (s, LoginAction::Done),
        LoginStage::Failed(f) => (s, LoginAction::Fail(f)),
    }
}

/// The position of a stage in the sign-in, from 0 (start) to 8 (signed in).
pub open spec fn login_progress(s: LoginStage) -> nat {
    match s {
        LoginStage::AwaitLogin => 0,
        LoginStage::TypeLogin => 1,
        LoginStage::AwaitContinue => 2,
        LoginStage::PressContinue => 3,
        LoginStage::AwaitPassword => 4,
        LoginStage::TypePassword => 5,
        LoginStage::AwaitSubmit => 6,
        LoginStage::PressSubmit => 7,
        LoginStage::LoggedIn => 8,
        LoginStage::Failed(_) => 9,
    }
}

pub open spec fn login_terminal(s: LoginStage) -> bool {
    s is LoggedIn || s is Failed
}

/// The sign-in: the current stage.
pub struct LoginFlow {
    pub stage: LoginStage,
}

impl LoginFlow {
    /// A new sign-in and its first action.
    pub fn start() -> (r: (LoginFlow, LoginAction))
        ensures
            (r.0.stage, r.1) == login_start(),
    {
        (LoginFlow { stage: LoginStage::AwaitLogin }, LoginAction::WaitClickable(LoginField::LoginInput))
    }

    /// Moves on after a report of the last action and returns the next action.
    pub fn step(&mut self, report: StepReport) -> (a: LoginAction)
        ensures
            (final(self).stage, a) == login_step(old(self).stage, report),
    {
        let ok = match report {
            StepReport::Done(b) => b,
            StepReport::Counted(_) => false,
        };
        let (stage, action) = match self.stage {
            LoginStage::AwaitLogin => if ok {
                (LoginStage::TypeLogin, LoginAction::TypeUsername)
            } else {
                (
                    LoginStage::Failed(LoginFailure::FieldMissing(LoginField::LoginInput)),
                    LoginAction::Fail(LoginFailure::FieldMissing(LoginField::LoginInput)),
                )
            },
            LoginStage::TypeLogin => if ok {
                (LoginStage::AwaitContinue, LoginAction::WaitClickable(LoginField::ContinueButton))
            } else {
                (LoginStage::Failed(LoginFailure::StepFailed), LoginAction::Fail(LoginFailure::StepFailed))
            },
            LoginStage::AwaitContinue => if ok {
                (LoginStage::PressContinue, LoginAction::Click)
            } else {
                (
                    LoginStage::Failed(LoginFailure::FieldMissing(LoginField::ContinueButton)),
                    LoginAction::Fail(LoginFailure::FieldMissing(LoginField::ContinueButton)),
                )
            },
            LoginStage::PressContinue => if ok {
                (LoginStage::AwaitPassword, LoginAction::WaitClickable(LoginField::PasswordInput))
            } else {
                (LoginStage::Failed(LoginFailure::StepFailed), LoginAction::Fail(LoginFailure::StepFailed))
            },
            LoginStage::AwaitPassword => if ok {
                (LoginStage::TypePassword, LoginAction::TypePassword)
            } else {
                (
                    LoginStage::Failed(LoginFailure::FieldMissing(LoginField::PasswordInput)),
                    LoginAction::Fail(LoginFailure::FieldMissing(LoginField::PasswordInput)),
                )
            },
            LoginStage::TypePassword => if ok {
                (LoginStage::AwaitSubmit, LoginAction::WaitClickable(LoginField::SubmitButton))
            } else {
                (LoginStage::Failed(LoginFailure::StepFailed), LoginAction::Fail(LoginFailure::StepFailed))
            },
            LoginStage::AwaitSubmit => if ok {
                (LoginStage::PressSubmit, LoginAction::Click)
            } else {
                (
                    LoginStage::Failed(LoginFailure::FieldMissing(LoginField::SubmitButton)),
                    LoginAction::Fail(LoginFailure::FieldMissing(LoginField::SubmitButton)),
                )
            },
            LoginStage::PressSubmit => if ok {
                (LoginStage::LoggedIn, LoginAction::Done)
            } else {
                (LoginStage::Failed(LoginFailure::StepFailed), LoginAction::Fail(LoginFailure::StepFailed))
            },
            LoginStage::LoggedIn => (LoginStage::LoggedIn, LoginAction::Done),
            LoginStage::Failed(f) => (LoginStage::Failed(f), LoginAction::Fail(f)),
        };
        self.stage = stage;
        action
    }
}

/// Law: the sign-in only moves forward: each step from an unfinished stage
/// either advances to the next stage or ends it.
pub proof fn lemma_login_moves_forward(s: LoginStage, r: StepReport)
    requires
        !login_terminal(s),
    ensures
        login_step(s, r).0 is Failed || login_progress(login_step(s, r).0) == login_progress(s) + 1,
{
}

/// Law: the password is typed only once the login was typed and the first
/// "Continue" pressed, and only into the password field just found.
pub proof fn lemma_password_after_login(s: LoginStage, r: StepReport)
    requires
        login_step(s, r).1 is TypePassword,
    ensures
        s is AwaitPassword,
        report_ok(r),
        login_progress(s) == 4,
{
}

/// Law: the sign-in is reported done only when the second "Continue" was
/// pressed without error.
pub proof fn lemma_login_done_after_submit(s: LoginStage, r: StepReport)
    requires
        !login_terminal(s),
        login_step(s, r).1 is Done,
    ensures
        s is PressSubmit,
        report_ok(r),
{
}

} // verus!
