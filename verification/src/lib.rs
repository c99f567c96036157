//! The decisions of a login-history audit of a Bitrix24 portal: reading the
//! user list, dealing users out to browser sessions, the step-by-step
//! browser procedures (sign-in, per-user check, frame scans, table search)
//! as state machines, the classification of saved histories, and the
//! result lists and files.
use vstd::prelude::*;

pub mod text;
pub mod users;
pub mod groups;
pub mod history;
pub mod report;
pub mod scan;
pub mod buttons;
pub mod table;
pub mod login;
pub mod user_flow;
pub mod waiting;

verus! {
}
