//! The upstream account session that favorite synchronization is bound to.
use crate::text;
use vstd::prelude::*;

verus! {

#[derive(Clone, Copy, Debug, PartialEq, Eq, Structural)]
pub enum LoginStatus {
    LoggedOut,
    LoggingIn,
    LoggedIn,
}

/// Who is logged in to the upstream service, and how far the login is.
#[derive(Debug, Clone)]
pub struct AccountSession {
    pub user_id: Option<u32>,
    pub username: Option<String>,
    pub login_status: LoginStatus,
}

pub struct AccountSessionView {
    pub user_id: Option<u32>,
    pub username: Option<Seq<char>>,
    pub login_status: LoginStatus,
}

impl View for AccountSession {
    type V = AccountSessionView;

    open spec fn view(&self) -> AccountSessionView {
        AccountSessionView {
            user_id: self.user_id,
            username: text::opt_text(self.username),
            login_status: self.login_status,
        }
    }
}

impl AccountSession {
    /// True when both sessions are the same user in the same login state.
    pub fn same_as(&self, other: &AccountSession) -> (b: bool)
        ensures
            b == (self@ == other@),
    {
        self.user_id == other.user_id && text::opt_strings_equal(&self.username, &other.username)
            && self.login_status == other.login_status
    }

    /// A copy of the session.
    pub fn duplicate(&self) -> (s: AccountSession)
        ensures
            s@ == self@,
    {
        AccountSession {
            user_id: self.user_id,
            username: text::clone_opt_string(&self.username),
            login_status: self.login_status,
        }
    }
}

} // verus!
