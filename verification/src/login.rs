//! Start-up: resume the stored session, or log in once and store it.
//!
//! Two paths lead to one live connection. Where a session file exists, the
//! client is rebuilt from it and the stored user session is restored; where
//! none exists, a fresh store is made up, the bot logs in and the session is
//! written out. Any failure on either path is final: a session that cannot
//! be read or restored is never replaced by a new login.
//!
//! The start-up is a state machine. The caller reports what happened and
//! performs the action that comes back.

use crate::config::{MatrixConfig, MatrixConfigView};
use crate::session::{
    ClientSession, ClientSessionView, FullSession, FullSessionView, LoadOutcome, LoadOutcomeView,
};
use rand::Rng;
use std::path::PathBuf;
use vstd::prelude::*;

verus! {

/// The name under which the bot's device appears after a login.
pub const DEVICE_DISPLAY_NAME: &'static str = "matrix-firefly-iii-bot";

/// Why the start-up ended without a connection.
#[derive(Clone, Copy, Debug, PartialEq, Eq, Structural)]
pub enum BootstrapError {
    /// The session file is there and could not be read.
    SessionUnreadable,
    /// The session file holds no session.
    SessionCorrupt,
    /// The client could not be built on its store.
    ClientBuildFailed,
    /// The transport did not take the stored user session back.
    RestoreFailed,
    /// The homeserver refused the login or was not reached.
    LoginFailure,
    /// The new session could not be written out.
    PersistFailed,
}

/// Where the start-up stands.
#[derive(Clone, Debug, PartialEq, Eq)]
pub enum BootstrapState<S> {
    Start,
    /// The session file is being read.
    Loading,
    /// Restore path: the client is being rebuilt from the stored data.
    BuildingRestored { user_session: S, sync_token: Option<String> },
    /// Restore path: the stored user session is being handed to the client.
    Restoring { sync_token: Option<String> },
    /// Login path: the client is being built on a fresh store.
    BuildingFresh { client_session: ClientSession },
    /// Login path: the login is under way.
    LoggingIn { client_session: ClientSession },
    /// Login path: the new session is being written out.
    Persisting,
    /// The connection is live.
    Ready,
    /// The start-up failed for good.
    Failed,
}

/// What a [`BootstrapState`] holds, as plain mathematics.
pub enum BootstrapStateView<S> {
    Start,
    Loading,
    BuildingRestored { user_session: S, sync_token: Option<Seq<char>> },
    Restoring { sync_token: Option<Seq<char>> },
    BuildingFresh { client_session: ClientSessionView },
    LoggingIn { client_session: ClientSessionView },
    Persisting,
    Ready,
    Failed,
}

impl<S> View for BootstrapState<S> {
    type V = BootstrapStateView<S>;

    open spec fn view(&self) -> BootstrapStateView<S> {
        match self {
            BootstrapState::Start => BootstrapStateView::Start,
            BootstrapState::Loading => BootstrapStateView::Loading,
            BootstrapState::BuildingRestored { user_session, sync_token } => {
                BootstrapStateView::BuildingRestored {
                    user_session: *user_session,
                    sync_token: sync_token.deep_view(),
                }
            },
            BootstrapState::Restoring { sync_token } => BootstrapStateView::Restoring {
                sync_token: sync_token.deep_view(),
            },
            BootstrapState::BuildingFresh { client_session } => BootstrapStateView::BuildingFresh {
                client_session: client_session@,
            },
            BootstrapState::LoggingIn { client_session } => BootstrapStateView::LoggingIn {
                client_session: client_session@,
            },
            BootstrapState::Persisting => BootstrapStateView::Persisting,
            BootstrapState::Ready => BootstrapStateView::Ready,
            BootstrapState::Failed => BootstrapStateView::Failed,
        }
    }
}

/// What the caller reports to the start-up.
#[derive(Clone, Debug, PartialEq, Eq)]
pub enum BootstrapEvent<S> {
    /// The process started.
    Started,
    /// The session file was looked for and, where it is there, read.
    SessionLoaded(LoadOutcome<S>),
    /// The client was built, or could not be.
    ClientBuilt { built: bool },
    /// The client took the stored user session, or did not.
    SessionRestored { restored: bool },
    /// The login ended: with the user session that it issued, or without.
    LoggedIn(Option<S>),
    /// The session file was written, or could not be.
    SessionPersisted { persisted: bool },
}

/// What a [`BootstrapEvent`] holds, as plain mathematics.
pub enum BootstrapEventView<S> {
    Started,
    SessionLoaded(LoadOutcomeView<S>),
    ClientBuilt { built: bool },
    SessionRestored { restored: bool },
    LoggedIn(Option<S>),
    SessionPersisted { persisted: bool },
}

impl<S> View for BootstrapEvent<S> {
    type V = BootstrapEventView<S>;

    open spec fn view(&self) -> BootstrapEventView<S> {
        match self {
            BootstrapEvent::Started => BootstrapEventView::Started,
            BootstrapEvent::SessionLoaded(outcome) => BootstrapEventView::SessionLoaded(outcome@),
            BootstrapEvent::ClientBuilt { built } => BootstrapEventView::ClientBuilt { built: *built },
            BootstrapEvent::SessionRestored { restored } => BootstrapEventView::SessionRestored {
                restored: *restored,
            },
            BootstrapEvent::LoggedIn(user_session) => BootstrapEventView::LoggedIn(*user_session),
            BootstrapEvent::SessionPersisted { persisted } => BootstrapEventView::SessionPersisted {
                persisted: *persisted,
            },
        }
    }
}

/// What the caller is to do next.
#[derive(Clone, Debug, PartialEq, Eq)]
pub enum BootstrapAction<S> {
    Nothing,
    /// Look for the session file and read it.
    LoadSession,
    /// Build the client for this homeserver on this store.
    BuildClient(ClientSession),
    /// Hand the stored user session to the client.
    RestoreSession(S),
    /// Log in with these credentials under [`DEVICE_DISPLAY_NAME`].
    Login { username: String, password: String },
    /// Write the session file. This is asked for once, after the first
    /// login, and the session carries no sync token; the file is not
    /// written again later, so the stored resume position never moves.
    PersistSession(FullSession<S>),
    /// The connection is live; sync from `resume` on, from the beginning
    /// where it is `None`.
    Finish { resume: Option<String> },
    /// Stop: there will be no connection.
    Abort(BootstrapError),
}

/// What a [`BootstrapAction`] holds, as plain mathematics.
pub enum BootstrapActionView<S> {
    Nothing,
    LoadSession,
    BuildClient(ClientSessionView),
    RestoreSession(S),
    Login { username: Seq<char>, password: Seq<char> },
    PersistSession(FullSessionView<S>),
    Finish { resume: Option<Seq<char>> },
    Abort(BootstrapError),
}

impl<S> View for BootstrapAction<S> {
    type V = BootstrapActionView<S>;

    open spec fn view(&self) -> BootstrapActionView<S> {
        match self {
            BootstrapAction::Nothing => BootstrapActionView::Nothing,
            BootstrapAction::LoadSession => BootstrapActionView::LoadSession,
            BootstrapAction::BuildClient(client_session) => BootstrapActionView::BuildClient(
                client_session@,
            ),
            BootstrapAction::RestoreSession(user_session) => BootstrapActionView::RestoreSession(
                *user_session,
            ),
            BootstrapAction::Login { username, password } => BootstrapActionView::Login {
                username: username@,
                password: password@,
            },
            BootstrapAction::PersistSession(session) => BootstrapActionView::PersistSession(session@),
            BootstrapAction::Finish { resume } => BootstrapActionView::Finish {
                resume: resume.deep_view(),
            },
            BootstrapAction::Abort(error) => BootstrapActionView::Abort(*error),
        }
    }
}

/// Whether `c` is an ASCII letter or digit.
pub open spec fn is_ascii_alphanumeric(c: char) -> bool {
    ('0' <= c <= '9') || ('a' <= c <= 'z') || ('A' <= c <= 'Z')
}

/// Whether `token` is `len` ASCII letters and digits.
pub open spec fn is_token(token: Seq<char>, len: nat) -> bool {
    &&& token.len() == len
    &&& forall|i: int| 0 <= i < token.len() ==> is_ascii_alphanumeric(#[trigger] token[i])
}

/// The path that `Path::join` makes of `dir` and `name`.
pub uninterp spec fn joined_path(dir: PathBuf, name: Seq<char>) -> PathBuf;

/// Whether `session` can be the one that a first login makes up: it names
/// the configured homeserver, its store lies in `data_dir` under a name of
/// seven letters and digits, and its passphrase is 32 letters and digits.
pub open spec fn is_fresh_session(
    session: ClientSessionView,
    homeserver: Seq<char>,
    data_dir: PathBuf,
) -> bool {
    &&& session.homeserver == homeserver
    &&& exists|name: Seq<char>|
        is_token(name, 7) && session.db_path == #[trigger] joined_path(data_dir, name)
    &&& is_token(session.passphrase, 32)
}

/// The first step of the restore path: the client is rebuilt from the
/// stored data while the user session and the sync token wait.
pub open spec fn restore_step<S>(session: FullSessionView<S>) -> (
    BootstrapStateView<S>,
    BootstrapActionView<S>,
) {
    (
        BootstrapStateView::BuildingRestored {
            user_session: session.user_session,
            sync_token: session.sync_token,
        },
        BootstrapActionView::BuildClient(session.client_session),
    )
}

/// The first step of the login path: the client is built on the fresh
/// store, whose data is kept for the session file.
pub open spec fn login_step<S>(fresh: ClientSessionView) -> (
    BootstrapStateView<S>,
    BootstrapActionView<S>,
) {
    (
        BootstrapStateView::BuildingFresh { client_session: fresh },
        BootstrapActionView::BuildClient(fresh),
    )
}

/// The step that ends the start-up without a connection.
pub open spec fn abort_step<S>(error: BootstrapError) -> (
    BootstrapStateView<S>,
    BootstrapActionView<S>,
) {
    (BootstrapStateView::Failed, BootstrapActionView::Abort(error))
}

/// One step of the start-up: the state after `event` and the action that
/// the caller performs. `fresh` is the store that is made up where there is
/// no session file. An event that the state does not wait for changes
/// nothing.
pub open spec fn bootstrap_step<S>(
    state: BootstrapStateView<S>,
    event: BootstrapEventView<S>,
    matrix: MatrixConfigView,
    fresh: ClientSessionView,
) -> (BootstrapStateView<S>, BootstrapActionView<S>) {
    match (state, event) {
        (BootstrapStateView::Start, BootstrapEventView::Started) => (
            BootstrapStateView::Loading,
            BootstrapActionView::LoadSession,
        ),
        (BootstrapStateView::Loading, BootstrapEventView::SessionLoaded(outcome)) => match outcome {
            LoadOutcomeView::NotFound => login_step(fresh),
            LoadOutcomeView::Unreadable => abort_step(BootstrapError::SessionUnreadable),
            LoadOutcomeView::Corrupt => abort_step(BootstrapError::SessionCorrupt),
            LoadOutcomeView::Loaded(session) => restore_step(session),
        },
        (
            BootstrapStateView::BuildingRestored { user_session, sync_token },
            BootstrapEventView::ClientBuilt { built },
        ) => if built {
            (
                BootstrapStateView::Restoring { sync_token },
                BootstrapActionView::RestoreSession(user_session),
            )
        } else {
            abort_step(BootstrapError::ClientBuildFailed)
        },
        (
            BootstrapStateView::Restoring { sync_token },
            BootstrapEventView::SessionRestored { restored },
        ) => if restored {
            (BootstrapStateView::Ready, BootstrapActionView::Finish { resume: sync_token })
        } else {
            abort_step(BootstrapError::RestoreFailed)
        },
        (
            BootstrapStateView::BuildingFresh { client_session },
            BootstrapEventView::ClientBuilt { built },
        ) => if built {
            (
                BootstrapStateView::LoggingIn { client_session },
                BootstrapActionView::Login { username: matrix.username, password: matrix.password },
            )
        } else {
            abort_step(BootstrapError::ClientBuildFailed)
        },
        (
            BootstrapStateView::LoggingIn { client_session },
            BootstrapEventView::LoggedIn(issued),
        ) => match issued {
            Some(user_session) => (
                BootstrapStateView::Persisting,
                BootstrapActionView::PersistSession(
                    FullSessionView { client_session, user_session, sync_token: None },
                ),
            ),
            None => abort_step(BootstrapError::LoginFailure),
        },
        (BootstrapStateView::Persisting, BootstrapEventView::SessionPersisted { persisted }) => {
            if persisted {
                (BootstrapStateView::Ready, BootstrapActionView::Finish { resume: None })
            } else {
                abort_step(BootstrapError::PersistFailed)
            }
        },
        _ => (state, BootstrapActionView::Nothing),
    }
}

/// `rand::thread_rng()`, then `Rng::sample` with
/// `rand::distributions::Alphanumeric`: one byte out of `a-z`, `A-Z` and
/// `0-9`. Which one is chance. `rand` panics where the system gives the
/// generator no seed; no argument decides that, so no precondition can rule
/// it out.
#[verifier::external_body]
fn sample_alphanumeric() -> (byte: u8)
    ensures
        is_ascii_alphanumeric(byte as char),
{
    rand::thread_rng().sample(rand::distributions::Alphanumeric)
}

/// `String::push`: the character is appended.
#[verifier::external_body]
fn push_char(text: &mut String, c: char)
    ensures
        final(text)@ == old(text)@.push(c),
{
    text.push(c)
}

/// `Path::join`: the path that adjoins `name` to `dir`. The call reads its
/// two arguments alone, so the result is a function of them; how the two
/// are put together is the platform's matter, and nothing more is claimed.
#[verifier::external_body]
fn join_path(dir: &PathBuf, name: &str) -> (joined: PathBuf)
    ensures
        joined == joined_path(*dir, name@),
{
    dir.join(name)
}

/// `len` letters and digits drawn at random.
pub fn random_token(len: usize) -> (token: String)
    ensures
        is_token(token@, len as nat),
{
    let mut token = String::new();
    let mut drawn: usize = 0;
    while drawn < len
        invariant
            drawn <= len,
            is_token(token@, drawn as nat),
        decreases len - drawn,
    {
        let byte = sample_alphanumeric();
        push_char(&mut token, byte as char);
        drawn += 1;
    }
    token
}

/// Makes up the store of a first login: a directory under `data_dir` named
/// by seven random letters and digits, and a passphrase of 32.
pub fn build_client(data_dir: &PathBuf, homeserver: &String) -> (client_session: ClientSession)
    ensures
        is_fresh_session(client_session@, homeserver@, *data_dir),
{
    let db_subfolder = random_token(7);
    let db_path = join_path(data_dir, db_subfolder.as_str());
    let passphrase = random_token(32);
    assert(is_token(db_subfolder@, 7) && db_path == joined_path(*data_dir, db_subfolder@));
    ClientSession { homeserver: homeserver.clone(), db_path, passphrase }
}

/// Enters the restore path with the session that the file held.
pub fn restore_session<S>(session: FullSession<S>) -> (next: (
    BootstrapState<S>,
    BootstrapAction<S>,
))
    ensures
        (next.0@, next.1@) == restore_step(session@),
{
    let FullSession { client_session, user_session, sync_token } = session;
    (
        BootstrapState::BuildingRestored { user_session, sync_token },
        BootstrapAction::BuildClient(client_session),
    )
}

/// Enters the login path with the store that was made up for it.
pub fn login<S>(fresh: ClientSession) -> (next: (BootstrapState<S>, BootstrapAction<S>))
    ensures
        (next.0@, next.1@) == login_step::<S>(fresh@),
{
    let copy = fresh.duplicate();
    (BootstrapState::BuildingFresh { client_session: fresh }, BootstrapAction::BuildClient(copy))
}

fn abort<S>(error: BootstrapError) -> (next: (BootstrapState<S>, BootstrapAction<S>))
    ensures
        (next.0@, next.1@) == abort_step::<S>(error),
{
    (BootstrapState::Failed, BootstrapAction::Abort(error))
}

/// One step of the start-up. Where there is no session file, the store of
/// the login path is made up at random; whatever is drawn, the step is the
/// one that [`bootstrap_step`] describes for it.
pub fn login_or_restore<S>(
    state: BootstrapState<S>,
    event: BootstrapEvent<S>,
    matrix: &MatrixConfig,
    data_dir: &PathBuf,
) -> (next: (BootstrapState<S>, BootstrapAction<S>))
    ensures
        exists|fresh: ClientSessionView|
            is_fresh_session(fresh, matrix@.homeserver, *data_dir) && (next.0@, next.1@)
                == bootstrap_step(
                state@,
                event@,
                matrix@,
                fresh,
            ),
{
    let ghost undrawn = ClientSessionView {
        homeserver: matrix@.homeserver,
        db_path: joined_path(*data_dir, Seq::new(7, |i: int| 'a')),
        passphrase: Seq::new(32, |i: int| 'a'),
    };
    let ghost before = state@;
    let ghost reported = event@;
    let next = match state {
        BootstrapState::Start => match event {
            BootstrapEvent::Started => (BootstrapState::Loading, BootstrapAction::LoadSession),
            _ => (BootstrapState::Start, BootstrapAction::Nothing),
        },
        BootstrapState::Loading => match event {
            BootstrapEvent::SessionLoaded(outcome) => match outcome {
                LoadOutcome::NotFound => {
                    let fresh = build_client(data_dir, &matrix.homeserver);
                    let ghost drawn = fresh@;
                    let next = login(fresh);
                    assert((next.0@, next.1@) == bootstrap_step(
                        before,
                        reported,
                        matrix@,
                        drawn,
                    ));
                    return next;
                },
                LoadOutcome::Unreadable => abort(BootstrapError::SessionUnreadable),
                LoadOutcome::Corrupt => abort(BootstrapError::SessionCorrupt),
                LoadOutcome::Loaded(session) => restore_session(session),
            },
            _ => (BootstrapState::Loading, BootstrapAction::Nothing),
        },
        BootstrapState::BuildingRestored { user_session, sync_token } => match event {
            BootstrapEvent::ClientBuilt { built } => if built {
                (
                    BootstrapState::Restoring { sync_token },
                    BootstrapAction::RestoreSession(user_session),
                )
            } else {
                abort(BootstrapError::ClientBuildFailed)
            },
            _ => (
                BootstrapState::BuildingRestored { user_session, sync_token },
                BootstrapAction::Nothing,
            ),
        },
        BootstrapState::Restoring { sync_token } => match event {
            BootstrapEvent::SessionRestored { restored } => if restored {
                (BootstrapState::Ready, BootstrapAction::Finish { resume: sync_token })
            } else {
                abort(BootstrapError::RestoreFailed)
            },
            _ => (BootstrapState::Restoring { sync_token }, BootstrapAction::Nothing),
        },
        BootstrapState::BuildingFresh { client_session } => match event {
            BootstrapEvent::ClientBuilt { built } => if built {
                (
                    BootstrapState::LoggingIn { client_session },
                    BootstrapAction::Login {
                        username: matrix.username.clone(),
                        password: matrix.password.clone(),
                    },
                )
            } else {
                abort(BootstrapError::ClientBuildFailed)
            },
            _ => (BootstrapState::BuildingFresh { client_session }, BootstrapAction::Nothing),
        },
        BootstrapState::LoggingIn { client_session } => match event {
            BootstrapEvent::LoggedIn(issued) => match issued {
                Some(user_session) => (
                    BootstrapState::Persisting,
                    BootstrapAction::PersistSession(
                        FullSession { client_session, user_session, sync_token: None },
                    ),
                ),
                None => abort(BootstrapError::LoginFailure),
            },
            _ => (BootstrapState::LoggingIn { client_session }, BootstrapAction::Nothing),
        },
        BootstrapState::Persisting => match event {
            BootstrapEvent::SessionPersisted { persisted } => if persisted {
                (BootstrapState::Ready, BootstrapAction::Finish { resume: None })
            } else {
                abort(BootstrapError::PersistFailed)
            },
            _ => (BootstrapState::Persisting, BootstrapAction::Nothing),
        },
        BootstrapState::Ready => (BootstrapState::Ready, BootstrapAction::Nothing),
        BootstrapState::Failed => (BootstrapState::Failed, BootstrapAction::Nothing),
    };
    assert(is_token(Seq::new(7, |i: int| 'a'), 7));
    assert(is_fresh_session(undrawn, matrix@.homeserver, *data_dir));
    assert((next.0@, next.1@) == bootstrap_step(before, reported, matrix@, undrawn));
    next
}

/// One report to the start-up together with the store that would be made up
/// at that moment.
pub struct BootstrapInput<S> {
    pub event: BootstrapEventView<S>,
    pub fresh: ClientSessionView,
}

/// How many logins the start-up asks for when it starts in `state` and is
/// fed `inputs` in order.
pub open spec fn logins_in_run<S>(
    state: BootstrapStateView<S>,
    inputs: Seq<BootstrapInput<S>>,
    matrix: MatrixConfigView,
) -> nat
    decreases inputs.len(),
{
    if inputs.len() == 0 {
        0
    } else {
        let (next, action) = bootstrap_step(state, inputs[0].event, matrix, inputs[0].fresh);
        let here: nat = if action is Login {
            1
        } else {
            0
        };
        here + logins_in_run(next, inputs.drop_first(), matrix)
    }
}

/// Whether a login can still be asked for from `state`: only before the
/// session file was read, and on the login path before the client is built.
pub open spec fn may_log_in<S>(state: BootstrapStateView<S>) -> bool {
    state is Start || state is Loading || state is BuildingFresh
}

/// The start-up asks for at most one login, and for none once it is on the
/// restore path, has logged in, has finished or has failed.
pub proof fn lemma_login_bounds<S>(
    state: BootstrapStateView<S>,
    inputs: Seq<BootstrapInput<S>>,
    matrix: MatrixConfigView,
)
    ensures
        logins_in_run(state, inputs, matrix) <= 1,
        !may_log_in(state) ==> logins_in_run(state, inputs, matrix) == 0,
    decreases inputs.len(),
{
    if inputs.len() > 0 {
        let (next, action) = bootstrap_step(state, inputs[0].event, matrix, inputs[0].fresh);
        lemma_login_bounds(next, inputs.drop_first(), matrix);
    }
}

/// Whether the start-up asks for nothing at all when it starts in `state`
/// and is fed `inputs` in order, and ends in the state it started in.
pub open spec fn run_is_idle<S>(
    state: BootstrapStateView<S>,
    inputs: Seq<BootstrapInput<S>>,
    matrix: MatrixConfigView,
) -> bool
    decreases inputs.len(),
{
    inputs.len() == 0 || {
        &&& bootstrap_step(state, inputs[0].event, matrix, inputs[0].fresh) == (
            state,
            BootstrapActionView::<S>::Nothing,
        )
        &&& run_is_idle(state, inputs.drop_first(), matrix)
    }
}

/// The end is the end: once the connection is live or the start-up has
/// failed, whatever is reported, nothing more is asked for.
pub proof fn lemma_end_is_final<S>(
    state: BootstrapStateView<S>,
    inputs: Seq<BootstrapInput<S>>,
    matrix: MatrixConfigView,
)
    requires
        state is Ready || state is Failed,
    ensures
        run_is_idle(state, inputs, matrix),
    decreases inputs.len(),
{
    if inputs.len() > 0 {
        lemma_end_is_final(state, inputs.drop_first(), matrix);
    }
}

/// The session that is written out carries no sync token: the one write
/// happens right after the login, before anything was synced.
pub proof fn lemma_session_is_written_without_sync_token<S>(
    state: BootstrapStateView<S>,
    event: BootstrapEventView<S>,
    matrix: MatrixConfigView,
    fresh: ClientSessionView,
)
    ensures
        bootstrap_step(state, event, matrix, fresh).1 matches BootstrapActionView::PersistSession(
            session,
        ) ==> session.sync_token is None && state is LoggingIn,
{
}

/// The connection is declared live only on success: after the client took
/// the stored session back, or after the new session was written out.
pub proof fn lemma_finish_needs_success<S>(
    state: BootstrapStateView<S>,
    event: BootstrapEventView<S>,
    matrix: MatrixConfigView,
    fresh: ClientSessionView,
)
    requires
        bootstrap_step(state, event, matrix, fresh).1 is Finish,
    ensures
        bootstrap_step(state, event, matrix, fresh).0 is Ready,
        (state is Restoring && event == BootstrapEventView::<S>::SessionRestored { restored: true })
            || (state is Persisting && event == BootstrapEventView::<S>::SessionPersisted {
            persisted: true,
        }),
{
}

/// Where there is no session file, the start-up takes the login path: it
/// has the client built on the fresh store and, once that is done, asks for
/// the login with the configured credentials.
pub proof fn lemma_missing_file_leads_to_login<S>(matrix: MatrixConfigView, fresh: ClientSessionView)
    ensures
        bootstrap_step::<S>(
            BootstrapStateView::Loading,
            BootstrapEventView::SessionLoaded(LoadOutcomeView::NotFound),
            matrix,
            fresh,
        ) == (
            BootstrapStateView::<S>::BuildingFresh { client_session: fresh },
            BootstrapActionView::<S>::BuildClient(fresh),
        ),
        bootstrap_step::<S>(
            BootstrapStateView::BuildingFresh { client_session: fresh },
            BootstrapEventView::ClientBuilt { built: true },
            matrix,
            fresh,
        ) == (
            BootstrapStateView::<S>::LoggingIn { client_session: fresh },
            BootstrapActionView::<S>::Login { username: matrix.username, password: matrix.password },
        ),
{
}

/// A session file that holds no session ends the start-up: the answer is
/// the abort, and whatever is reported afterwards, no login is asked for.
pub proof fn lemma_corrupt_session_never_logs_in<S>(
    matrix: MatrixConfigView,
    fresh: ClientSessionView,
    later: Seq<BootstrapInput<S>>,
)
    ensures
        bootstrap_step::<S>(
            BootstrapStateView::Loading,
            BootstrapEventView::SessionLoaded(LoadOutcomeView::Corrupt),
            matrix,
            fresh,
        ) == (
            BootstrapStateView::<S>::Failed,
            BootstrapActionView::<S>::Abort(BootstrapError::SessionCorrupt),
        ),
        logins_in_run(
            BootstrapStateView::Loading,
            seq![
                BootstrapInput {
                    event: BootstrapEventView::SessionLoaded(LoadOutcomeView::Corrupt),
                    fresh,
                },
            ] + later,
            matrix,
        ) == 0,
{
    let first = BootstrapInput::<S> {
        event: BootstrapEventView::SessionLoaded(LoadOutcomeView::Corrupt),
        fresh,
    };
    let inputs = seq![first] + later;
    assert(inputs[0] == first);
    assert(inputs.drop_first() =~= later);
    lemma_login_bounds(BootstrapStateView::<S>::Failed, later, matrix);
}

/// A stored session is resumed, never replaced: from the moment the file
/// gave a session, whatever is reported, no login is asked for.
pub proof fn lemma_restore_never_logs_in<S>(
    session: FullSessionView<S>,
    matrix: MatrixConfigView,
    fresh: ClientSessionView,
    later: Seq<BootstrapInput<S>>,
)
    ensures
        logins_in_run(
            BootstrapStateView::Loading,
            seq![
                BootstrapInput {
                    event: BootstrapEventView::SessionLoaded(LoadOutcomeView::Loaded(session)),
                    fresh,
                },
            ] + later,
            matrix,
        ) == 0,
{
    let first = BootstrapInput::<S> {
        event: BootstrapEventView::SessionLoaded(LoadOutcomeView::Loaded(session)),
        fresh,
    };
    let inputs = seq![first] + later;
    assert(inputs[0] == first);
    assert(inputs.drop_first() =~= later);
    lemma_login_bounds(restore_step(session).0, later, matrix);
}

} // verus!
