//! What is kept between runs so that the bot need not log in again.

use std::path::PathBuf;
use vstd::prelude::*;

verus! {

#[verifier::external_type_specification]
#[verifier::external_body]
pub struct ExPathBuf(PathBuf);

/// The data needed to re-build a client.
#[derive(Clone, Debug, PartialEq, Eq)]
pub struct ClientSession {
    /// The URL of the homeserver of the user.
    pub homeserver: String,
    /// The path of the database.
    pub db_path: PathBuf,
    /// The passphrase of the database.
    pub passphrase: String,
}

/// What a [`ClientSession`] holds, as plain mathematics.
pub struct ClientSessionView {
    pub homeserver: Seq<char>,
    pub db_path: PathBuf,
    pub passphrase: Seq<char>,
}

impl View for ClientSession {
    type V = ClientSessionView;

    open spec fn view(&self) -> ClientSessionView {
        ClientSessionView {
            homeserver: self.homeserver@,
            db_path: self.db_path,
            passphrase: self.passphrase@,
        }
    }
}

/// `PathBuf::clone`: the copy is the same path.
pub assume_specification[ <PathBuf as Clone>::clone ](path: &PathBuf) -> (copy: PathBuf)
    ensures
        copy == *path,
;

impl ClientSession {
    /// A copy with the same three values.
    pub fn duplicate(&self) -> (copy: ClientSession)
        ensures
            copy@ == self@,
    {
        ClientSession {
            homeserver: self.homeserver.clone(),
            db_path: self.db_path.clone(),
            passphrase: self.passphrase.clone(),
        }
    }
}

/// The full session to persist: the client's data, the user session that
/// the transport issued at login, and the latest sync token. The user
/// session is the transport's own value; it is stored and handed back,
/// never looked into.
#[derive(Clone, Debug, PartialEq, Eq)]
pub struct FullSession<S> {
    /// The data to re-build the client.
    pub client_session: ClientSession,
    /// The Matrix user session.
    pub user_session: S,
    /// The sync token to resume from, where one was stored. The start-up
    /// writes the session once, at the first login, without a token, and
    /// nothing in this crate updates the file afterwards: a resumed bot
    /// syncs from the stored token if someone put one there, and from the
    /// beginning otherwise. Keeping the token up to date while syncing
    /// would be a change of behaviour and is left undone on purpose.
    pub sync_token: Option<String>,
}

/// What a [`FullSession`] holds, as plain mathematics.
pub struct FullSessionView<S> {
    pub client_session: ClientSessionView,
    pub user_session: S,
    pub sync_token: Option<Seq<char>>,
}

impl<S> View for FullSession<S> {
    type V = FullSessionView<S>;

    open spec fn view(&self) -> FullSessionView<S> {
        FullSessionView {
            client_session: self.client_session@,
            user_session: self.user_session,
            sync_token: self.sync_token.deep_view(),
        }
    }
}

/// What reading the session file gave.
#[derive(Clone, Debug, PartialEq, Eq)]
pub enum LoadOutcome<S> {
    /// There is no file: the bot never logged in.
    NotFound,
    /// There is a file and it could not be read.
    Unreadable,
    /// The file was read and holds no session.
    Corrupt,
    /// The session that the file holds.
    Loaded(FullSession<S>),
}

/// What a [`LoadOutcome`] holds, as plain mathematics.
pub enum LoadOutcomeView<S> {
    NotFound,
    Unreadable,
    Corrupt,
    Loaded(FullSessionView<S>),
}

impl<S> View for LoadOutcome<S> {
    type V = LoadOutcomeView<S>;

    open spec fn view(&self) -> LoadOutcomeView<S> {
        match self {
            LoadOutcome::NotFound => LoadOutcomeView::NotFound,
            LoadOutcome::Unreadable => LoadOutcomeView::Unreadable,
            LoadOutcome::Corrupt => LoadOutcomeView::Corrupt,
            LoadOutcome::Loaded(session) => LoadOutcomeView::Loaded(session@),
        }
    }
}

} // verus!
