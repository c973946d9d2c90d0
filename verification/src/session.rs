//! The identity under which a command is launched, and what launching a
//! command can result in.

use crate::command_spec::{CommandSpec, CommandSpecView};
use vstd::prelude::*;
use vstd::string::StringExecFns;

verus! {

/// A named user that is logged in on the machine.
#[derive(Debug, PartialEq, Eq)]
pub struct UserSession {
    pub user_name: String,
}

/// The session a command runs in: the one of the scheduler itself or the
/// one of a named user.
#[derive(Debug, PartialEq, Eq)]
pub enum Session {
    Current,
    User(UserSession),
}

/// Mathematical content of a [`Session`].
pub ghost enum SessionView {
    Current,
    User(Seq<char>),
}

impl View for Session {
    type V = SessionView;

    open spec fn view(&self) -> SessionView {
        match self {
            Session::Current => SessionView::Current,
            Session::User(user_session) => SessionView::User(user_session.user_name@),
        }
    }
}

/// Name of the directory that is reserved for a session.
pub open spec fn session_id(session: SessionView) -> Seq<char> {
    match session {
        SessionView::Current => "current_user"@,
        SessionView::User(user_name) => "user_"@ + user_name,
    }
}

impl Clone for UserSession {
    fn clone(&self) -> (copy: Self)
        ensures
            copy == *self,
    {
        UserSession { user_name: self.user_name.clone() }
    }
}

impl Clone for Session {
    fn clone(&self) -> (copy: Self)
        ensures
            copy == *self,
    {
        match self {
            Session::Current => Session::Current,
            Session::User(user_session) => Session::User(user_session.clone()),
        }
    }
}

impl Session {
    /// Name of the directory that is reserved for this session.
    pub fn id(&self) -> (id: String)
        ensures
            id@ == session_id(self@),
    {
        match self {
            Session::Current => String::from_str("current_user"),
            Session::User(user_session) => String::from_str("user_").concat(
                user_session.user_name.as_str(),
            ),
        }
    }

    /// Whether both are the session of the same identity.
    pub fn is_same(&self, other: &Session) -> (same: bool)
        ensures
            same == (self@ == other@),
    {
        match (self, other) {
            (Session::Current, Session::Current) => true,
            (Session::User(left), Session::User(right)) => left.user_name == right.user_name,
            _ => false,
        }
    }

    /// Name of the user, if this is the session of a named user.
    pub fn user_name(&self) -> (name: Option<&String>)
        ensures
            match self@ {
                SessionView::Current => name is None,
                SessionView::User(user_name) => name is Some && name->0@ == user_name,
            },
    {
        match self {
            Session::Current => None,
            Session::User(user_session) => Some(&user_session.user_name),
        }
    }
}

/// How a launched command ended.
#[derive(Debug, Clone, Copy, PartialEq, Eq)]
pub enum RunOutcome {
    /// The process exited; the exit code may be unknown.
    Exited(Option<i32>),
    /// The process was stopped because it exceeded its timeout.
    TimedOut,
    /// The process was stopped because the scheduler is shutting down.
    Terminated,
}

/// Everything needed to launch one command in a session.
#[derive(Debug, Clone, PartialEq, Eq)]
pub struct RunSpec {
    pub id: String,
    pub command_spec: CommandSpec,
    pub base_path: String,
    pub timeout: u64,
}

/// Mathematical content of a [`RunSpec`].
pub ghost struct RunSpecView {
    pub id: Seq<char>,
    pub command_spec: CommandSpecView,
    pub base_path: Seq<char>,
    pub timeout: u64,
}

impl View for RunSpec {
    type V = RunSpecView;

    open spec fn view(&self) -> RunSpecView {
        RunSpecView {
            id: self.id@,
            command_spec: self.command_spec@,
            base_path: self.base_path@,
            timeout: self.timeout,
        }
    }
}

} // verus!
