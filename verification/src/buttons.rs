//! The two buttons of a user's profile side panel that lead to the login
//! history, how they are found, and how long the page is given before the
//! search for them starts.
use vstd::prelude::*;
use vstd::string::*;
use crate::scan::{scan_start, FrameScan, ScanAction, ScanPrelude};

verus! {

/// How long a button query keeps retrying, in seconds.
pub const BUTTON_WAIT_SECS: u64 = 5;

/// A button of the profile's side panel, inside one of the page's iframes.
#[derive(Clone, Copy)]
pub enum ButtonTarget {
    /// "Безопасность" (security).
    Safety,
    /// "История входов" (login history).
    LoginHistory,
}

pub open spec fn label_of(b: ButtonTarget) -> Seq<char> {
    match b {
        ButtonTarget::Safety => "Безопасность"@,
        ButtonTarget::LoginHistory => "История входов"@,
    }
}

pub open spec fn settle_secs_of(b: ButtonTarget) -> u64 {
    match b {
        ButtonTarget::Safety => 3,
        ButtonTarget::LoginHistory => 2,
    }
}

pub open spec fn not_found_message_of(b: ButtonTarget) -> Seq<char> {
    match b {
        ButtonTarget::Safety => "Кнопка 'Безопасность' не найдена ни в одном iframe"@,
        ButtonTarget::LoginHistory => "Кнопка 'История входов' не найдена"@,
    }
}

impl ButtonTarget {
    /// The error's text when no iframe holds the button.
    pub fn not_found_message(&self) -> (r: &'static str)
        ensures
            r@ == not_found_message_of(*self),
    {
        match self {
            ButtonTarget::Safety => "Кнопка 'Безопасность' не найдена ни в одном iframe",
            ButtonTarget::LoginHistory => "Кнопка 'История входов' не найдена",
        }
    }

    /// The text the button shows.
    pub fn label(&self) -> (r: &'static str)
        ensures
            r@ == label_of(*self),
    {
        match self {
            ButtonTarget::Safety => "Безопасность",
            ButtonTarget::LoginHistory => "История входов",
        }
    }

    /// The XPath that finds the button: any element whose text contains the label.
    pub fn xpath(&self) -> (r: String)
        ensures
            r@ == "//*[contains(text(), '"@ + label_of(*self) + "')]"@,
    {
        String::from_str("//*[contains(text(), '").concat(self.label()).concat("')]")
    }

    /// Seconds the page is given before the frames are searched.
    pub fn settle_secs(&self) -> (r: u64)
        ensures
            r == settle_secs_of(*self),
    {
        match self {
            ButtonTarget::Safety => 3,
            ButtonTarget::LoginHistory => 2,
        }
    }

    /// The scan that clicks the button: wait for the page to settle, then
    /// search the iframes; acting on the button means scrolling to it and
    /// clicking it by script.
    pub fn start_click(&self) -> (r: (FrameScan, ScanAction))
        ensures
            r == scan_start(ScanPrelude::Pause(settle_secs_of(*self))),
    {
        FrameScan::start(ScanPrelude::Pause(self.settle_secs()))
    }
}

} // verus!
