use matrix_firefly_bot::config::MatrixConfig;
use matrix_firefly_bot::login::{
    build_client, login, login_or_restore, random_token, restore_session, BootstrapAction,
    BootstrapError, BootstrapEvent, BootstrapState, DEVICE_DISPLAY_NAME,
};
use matrix_firefly_bot::session::{ClientSession, FullSession, LoadOutcome};
use std::path::{Path, PathBuf};

type State = BootstrapState<String>;
type Event = BootstrapEvent<String>;
type Action = BootstrapAction<String>;

fn matrix() -> MatrixConfig {
    MatrixConfig {
        homeserver: "https://matrix.example".to_string(),
        username: "bot".to_string(),
        password: "hunter2".to_string(),
    }
}

fn data_dir() -> PathBuf {
    PathBuf::from("data").join("persist_session")
}

fn stored() -> FullSession<String> {
    FullSession {
        client_session: ClientSession {
            homeserver: "https://old.example".to_string(),
            db_path: PathBuf::from("data").join("persist_session").join("abc1234"),
            passphrase: "p".repeat(32),
        },
        user_session: "opaque user session".to_string(),
        sync_token: Some("s72594_4483_1934".to_string()),
    }
}

fn step(state: State, event: Event) -> (State, Action) {
    login_or_restore(state, event, &matrix(), &data_dir())
}

fn is_token(text: &str, len: usize) -> bool {
    text.len() == len && text.chars().all(|c| c.is_ascii_alphanumeric())
}

#[test]
fn start_up_begins_by_reading_the_session_file() {
    assert_eq!(step(State::Start, Event::Started), (State::Loading, Action::LoadSession));
}

#[test]
fn stored_session_is_restored() {
    let (state, action) = step(State::Loading, Event::SessionLoaded(LoadOutcome::Loaded(stored())));
    assert_eq!(action, Action::BuildClient(stored().client_session));
    assert_eq!(
        state,
        State::BuildingRestored {
            user_session: "opaque user session".to_string(),
            sync_token: Some("s72594_4483_1934".to_string()),
        }
    );
    let (state, action) = step(state, Event::ClientBuilt { built: true });
    assert_eq!(action, Action::RestoreSession("opaque user session".to_string()));
    assert_eq!(state, State::Restoring { sync_token: Some("s72594_4483_1934".to_string()) });
    let (state, action) = step(state, Event::SessionRestored { restored: true });
    assert_eq!(action, Action::Finish { resume: Some("s72594_4483_1934".to_string()) });
    assert_eq!(state, State::Ready);
}

#[test]
fn stored_session_without_a_sync_token_resumes_from_the_beginning() {
    let session = FullSession { sync_token: None, ..stored() };
    let (state, _) = step(State::Loading, Event::SessionLoaded(LoadOutcome::Loaded(session)));
    let (state, _) = step(state, Event::ClientBuilt { built: true });
    let (state, action) = step(state, Event::SessionRestored { restored: true });
    assert_eq!((state, action), (State::Ready, Action::Finish { resume: None }));
}

#[test]
fn missing_file_leads_to_a_login() {
    let (state, action) = step(State::Loading, Event::SessionLoaded(LoadOutcome::NotFound));
    let fresh = match action {
        Action::BuildClient(fresh) => fresh,
        other => panic!("{:?}", other),
    };
    assert_eq!(state, State::BuildingFresh { client_session: fresh.clone() });
    assert_eq!(fresh.homeserver, "https://matrix.example");
    assert!(is_token(&fresh.passphrase, 32));
    assert_eq!(fresh.db_path.parent(), Some(data_dir().as_path()));
    assert!(is_token(fresh.db_path.file_name().unwrap().to_str().unwrap(), 7));

    let (state, action) = step(state, Event::ClientBuilt { built: true });
    assert_eq!(
        action,
        Action::Login { username: "bot".to_string(), password: "hunter2".to_string() }
    );
    assert_eq!(state, State::LoggingIn { client_session: fresh.clone() });

    let (state, action) = step(state, Event::LoggedIn(Some("issued".to_string())));
    assert_eq!(
        action,
        Action::PersistSession(FullSession {
            client_session: fresh,
            user_session: "issued".to_string(),
            sync_token: None,
        })
    );
    assert_eq!(state, State::Persisting);

    let (state, action) = step(state, Event::SessionPersisted { persisted: true });
    assert_eq!((state, action), (State::Ready, Action::Finish { resume: None }));
}

#[test]
fn corrupt_file_is_fatal_and_never_leads_to_a_login() {
    let (mut state, action) = step(State::Loading, Event::SessionLoaded(LoadOutcome::Corrupt));
    assert_eq!(action, Action::Abort(BootstrapError::SessionCorrupt));
    assert_eq!(state, State::Failed);
    let later = vec![
        Event::Started,
        Event::SessionLoaded(LoadOutcome::NotFound),
        Event::ClientBuilt { built: true },
        Event::LoggedIn(Some("issued".to_string())),
        Event::SessionPersisted { persisted: true },
        Event::SessionRestored { restored: true },
    ];
    for event in later {
        let (next, action) = step(state, event);
        assert_eq!(action, Action::Nothing);
        assert_eq!(next, State::Failed);
        state = next;
    }
}

#[test]
fn unreadable_file_is_fatal() {
    let (state, action) = step(State::Loading, Event::SessionLoaded(LoadOutcome::Unreadable));
    assert_eq!((state, action), (State::Failed, Action::Abort(BootstrapError::SessionUnreadable)));
}

#[test]
fn failure_on_the_restore_path_is_fatal() {
    let waiting = State::BuildingRestored { user_session: "u".to_string(), sync_token: None };
    assert_eq!(
        step(waiting, Event::ClientBuilt { built: false }),
        (State::Failed, Action::Abort(BootstrapError::ClientBuildFailed))
    );
    assert_eq!(
        step(State::Restoring { sync_token: None }, Event::SessionRestored { restored: false }),
        (State::Failed, Action::Abort(BootstrapError::RestoreFailed))
    );
}

#[test]
fn failure_on_the_login_path_is_fatal() {
    let fresh = stored().client_session;
    assert_eq!(
        step(State::BuildingFresh { client_session: fresh.clone() }, Event::ClientBuilt { built: false }),
        (State::Failed, Action::Abort(BootstrapError::ClientBuildFailed))
    );
    assert_eq!(
        step(State::LoggingIn { client_session: fresh }, Event::LoggedIn(None)),
        (State::Failed, Action::Abort(BootstrapError::LoginFailure))
    );
    assert_eq!(
        step(State::Persisting, Event::SessionPersisted { persisted: false }),
        (State::Failed, Action::Abort(BootstrapError::PersistFailed))
    );
}

#[test]
fn report_out_of_turn_changes_nothing() {
    assert_eq!(step(State::Start, Event::ClientBuilt { built: true }), (State::Start, Action::Nothing));
    assert_eq!(step(State::Loading, Event::Started), (State::Loading, Action::Nothing));
    assert_eq!(
        step(State::Restoring { sync_token: None }, Event::LoggedIn(Some("x".to_string()))),
        (State::Restoring { sync_token: None }, Action::Nothing)
    );
    assert_eq!(step(State::Ready, Event::Started), (State::Ready, Action::Nothing));
    assert_eq!(
        step(State::Persisting, Event::SessionLoaded(LoadOutcome::NotFound)),
        (State::Persisting, Action::Nothing)
    );
}

#[test]
fn restore_path_takes_the_stored_session_apart() {
    let (state, action): (State, Action) = restore_session(stored());
    assert_eq!(action, Action::BuildClient(stored().client_session));
    assert_eq!(
        state,
        State::BuildingRestored {
            user_session: stored().user_session,
            sync_token: stored().sync_token,
        }
    );
}

#[test]
fn login_path_keeps_the_fresh_store() {
    let fresh = stored().client_session;
    let (state, action): (State, Action) = login(fresh.clone());
    assert_eq!(action, Action::BuildClient(fresh.clone()));
    assert_eq!(state, State::BuildingFresh { client_session: fresh });
}

#[test]
fn fresh_store_is_random() {
    let first = build_client(&data_dir(), &"https://matrix.example".to_string());
    let second = build_client(&data_dir(), &"https://matrix.example".to_string());
    assert_eq!(first.homeserver, "https://matrix.example");
    assert!(is_token(&first.passphrase, 32));
    assert!(is_token(&second.passphrase, 32));
    assert_ne!(first.passphrase, second.passphrase);
    assert!(first.db_path.starts_with(Path::new("data")));
    assert_ne!(first.db_path, data_dir());
}

#[test]
fn tokens_have_the_length_asked_for() {
    assert_eq!(random_token(0), "");
    for len in [1usize, 7, 32, 100] {
        assert!(is_token(&random_token(len), len));
    }
}

#[test]
fn copy_of_a_client_session_is_equal() {
    let session = stored().client_session;
    assert_eq!(session.duplicate(), session);
}

#[test]
fn device_name_is_the_bots() {
    assert_eq!(DEVICE_DISPLAY_NAME, "matrix-firefly-iii-bot");
}
