use miru_client::error::AppError;
use miru_client::launch::{
    ConnectAction, ConnectEvent, ConnectStage, StartAction, StartEvent, StartStage, WatcherStart,
    WorkerConnect,
};
use miru_client::server::ReadyOutcome;
use miru_client::types::{AppConfig, WatcherStatus, WorkerStatus};

fn problem() -> AppError {
    AppError::Process("broken".to_string())
}

fn plus() -> AppConfig {
    let mut c = AppConfig::default();
    c.user_plan = " plus ".to_string();
    c
}

fn worker() -> AppConfig {
    let mut c = AppConfig::default();
    c.user_id = "u".to_string();
    c.registered_user_id = "u".to_string();
    c.is_server = true;
    c.server_name = "Old name".to_string();
    c
}

fn started(action: StartAction) -> String {
    match action {
        StartAction::SyncProfile => "sync".to_string(),
        StartAction::LoadSettings => "settings".to_string(),
        StartAction::FindFolders => "folders".to_string(),
        StartAction::ListReplays => "replays".to_string(),
        StartAction::LoadCache => "cache".to_string(),
        StartAction::LoadIndex => "index".to_string(),
        StartAction::Watch(log) => format!("watch: {log}"),
        StartAction::Run(log) => format!("run: {log}"),
        StartAction::Fail(e, None) => format!("fail: {}", e.message()),
        StartAction::Fail(e, Some(WatcherStatus::Error)) => format!("error: {}", e.message()),
        StartAction::Fail(_, Some(_)) => panic!("no other status is shown"),
    }
}

fn connected(action: ConnectAction) -> String {
    match action {
        ConnectAction::ReadName => "name".to_string(),
        ConnectAction::RefreshStatus => "status".to_string(),
        ConnectAction::LoadSettings => "settings".to_string(),
        ConnectAction::ReadToken => "token".to_string(),
        ConnectAction::Tell(name) => format!("tell: {name}"),
        ConnectAction::ReadShown => "shown".to_string(),
        ConnectAction::Renew(None) => "renew".to_string(),
        ConnectAction::Renew(Some(log)) => format!("renew: {log}"),
        ConnectAction::Open => "open".to_string(),
        ConnectAction::Remember => "remember".to_string(),
        ConnectAction::Finish => "finish".to_string(),
        ConnectAction::Clear(e) => format!("clear: {}", e.message()),
        ConnectAction::Cancel(e) => format!("cancel: {}", e.message()),
        ConnectAction::Fail(e) => format!("fail: {}", e.message()),
    }
}

/// A start that has come so far.
fn start_at(stage: StartStage) -> WatcherStart {
    let mut start = WatcherStart::new();
    start.stage = stage;
    start
}

/// A worker that is being connected and has come so far.
fn connect_at(stage: ConnectStage) -> WorkerConnect {
    let mut connect = WorkerConnect::new();
    connect.stage = stage;
    connect.registered = true;
    connect
}

#[test]
fn watchers_start_step_by_step() {
    let mut start = WatcherStart::new();
    assert_eq!(started(start.advance(StartEvent::Session(Ok(true)))), "sync");
    assert_eq!(started(start.advance(StartEvent::Profile(Ok(())))), "settings");
    assert_eq!(started(start.advance(StartEvent::Settings(Ok(plus())))), "folders");
    assert_eq!(started(start.advance(StartEvent::Folders(Ok("C:/osu!".to_string())))), "replays");
    assert_eq!(started(start.advance(StartEvent::Replays(Ok(12)))), "cache");
    assert_eq!(started(start.advance(StartEvent::Cache(Ok(())))), "index");
    assert_eq!(
        started(start.advance(StartEvent::Index(Ok(Some(340))))),
        "watch: Loaded osu!.db beatmap index with 340 entries"
    );
    assert!(start.stage == StartStage::Watching);
    assert_eq!(
        started(start.advance(StartEvent::Watching(Ok(())))),
        "run: Auto renderer watcher started for osu!stable at C:/osu! (ignoring 12 existing replays)"
    );
    assert!(start.stage == StartStage::Over);
}

#[test]
fn watchers_do_without_an_index() {
    assert_eq!(
        started(start_at(StartStage::Index).advance(StartEvent::Index(Ok(None)))),
        "watch: osu!.db beatmap index unavailable; Data/r fallback may scan Songs"
    );
    assert_eq!(
        started(start_at(StartStage::Index).advance(StartEvent::Index(Err(problem())))),
        "watch: Failed to load osu!.db beatmap index: process error: broken"
    );
}

#[test]
fn refused_watchers_show_an_error() {
    let refused = "error: authentication error: Auto Renderer requires a Miru Plus account.";
    assert_eq!(started(start_at(StartStage::Session).advance(StartEvent::Session(Ok(false)))), refused);
    let mut start = start_at(StartStage::Settings);
    assert_eq!(started(start.advance(StartEvent::Settings(Ok(AppConfig::default())))), refused);
    assert!(start.stage == StartStage::Over);
    assert_eq!(
        started(start_at(StartStage::Folders).advance(StartEvent::Folders(Err(problem())))),
        "error: process error: broken"
    );
}

#[test]
fn failed_starts_tell_their_problem() {
    for (stage, event) in [
        (StartStage::Session, StartEvent::Session(Err(problem()))),
        (StartStage::Profile, StartEvent::Profile(Err(problem()))),
        (StartStage::Settings, StartEvent::Settings(Err(problem()))),
        (StartStage::Replays, StartEvent::Replays(Err(problem()))),
        (StartStage::Cache, StartEvent::Cache(Err(problem()))),
        (StartStage::Watching, StartEvent::Watching(Err(problem()))),
    ] {
        let mut start = start_at(stage);
        assert_eq!(started(start.advance(event)), "fail: process error: broken");
        assert!(start.stage == StartStage::Over);
    }
}

#[test]
fn workers_connect_step_by_step() {
    let mut connect = WorkerConnect::new();
    assert_eq!(connected(connect.advance(ConnectEvent::Session(Ok(true)))), "name");
    assert_eq!(connected(connect.advance(ConnectEvent::Name(Ok(" New name ".to_string())))), "status");
    assert_eq!(connected(connect.advance(ConnectEvent::Status(Ok((true, false))))), "settings");
    assert_eq!(connected(connect.advance(ConnectEvent::Settings(Ok(worker())))), "tell: New name");
    assert_eq!(connected(connect.advance(ConnectEvent::Told(Ok(())))), "shown");
    assert_eq!(
        connected(connect.advance(ConnectEvent::Shown(WorkerStatus::Connected))),
        "renew: Worker looked connected locally but server marked it offline; reconnecting"
    );
    assert_eq!(connected(connect.advance(ConnectEvent::Renewed(Ok(())))), "open");
    assert_eq!(connected(connect.advance(ConnectEvent::Waited(ReadyOutcome::Ready))), "remember");
    assert_eq!(connected(connect.advance(ConnectEvent::Remembered(Ok(())))), "finish");
    assert!(connect.stage == ConnectStage::Over);
}

#[test]
fn new_workers_need_a_token() {
    let mut machine = worker();
    machine.is_server = false;
    let mut connect = connect_at(ConnectStage::Settings);
    assert_eq!(connected(connect.advance(ConnectEvent::Settings(Ok(machine)))), "token");
    assert_eq!(connected(connect.advance(ConnectEvent::Token(Ok(true)))), "shown");
    assert_eq!(connected(connect.advance(ConnectEvent::Shown(WorkerStatus::Error))), "renew");
    assert_eq!(
        connected(connect_at(ConnectStage::Token).advance(ConnectEvent::Token(Ok(false)))),
        "fail: authentication error: worker token missing; register this PC first"
    );
}

#[test]
fn workers_of_others_lose_their_token() {
    let refused =
        "clear: authentication error: this account does not own an active renderer registration";
    let mut other = worker();
    other.registered_user_id = "other".to_string();
    let mut connect = connect_at(ConnectStage::Settings);
    assert_eq!(connected(connect.advance(ConnectEvent::Settings(Ok(other)))), refused);
    let mut unknown = connect_at(ConnectStage::Settings);
    unknown.registered = false;
    assert_eq!(connected(unknown.advance(ConnectEvent::Settings(Ok(worker())))), refused);
    assert!(unknown.stage == ConnectStage::Over);
}

#[test]
fn connections_that_are_there_are_kept() {
    let mut connect = connect_at(ConnectStage::Shown);
    connect.online = true;
    assert_eq!(connected(connect.advance(ConnectEvent::Shown(WorkerStatus::Connected))), "finish");
    assert_eq!(
        connected(connect_at(ConnectStage::Shown).advance(ConnectEvent::Shown(WorkerStatus::Connecting))),
        "finish"
    );
}

#[test]
fn failed_connections_tell_their_problem() {
    assert_eq!(
        connected(WorkerConnect::new().advance(ConnectEvent::Session(Ok(false)))),
        "fail: authentication error: login required to connect worker"
    );
    for (stage, event, told) in [
        (ConnectStage::Session, ConnectEvent::Session(Err(problem())), "fail: process error: broken"),
        (ConnectStage::Name, ConnectEvent::Name(Err(problem())), "fail: process error: broken"),
        (ConnectStage::Status, ConnectEvent::Status(Err(problem())), "fail: process error: broken"),
        (ConnectStage::Settings, ConnectEvent::Settings(Err(problem())), "fail: process error: broken"),
        (ConnectStage::Token, ConnectEvent::Token(Err(problem())), "fail: process error: broken"),
        (ConnectStage::Told, ConnectEvent::Told(Err(problem())), "fail: process error: broken"),
        (ConnectStage::Renewed, ConnectEvent::Renewed(Err(problem())), "fail: process error: broken"),
        (
            ConnectStage::Remembered,
            ConnectEvent::Remembered(Err(problem())),
            "fail: process error: broken",
        ),
        (
            ConnectStage::Waited,
            ConnectEvent::Waited(ReadyOutcome::Rejected("no".to_string())),
            "fail: process error: no",
        ),
        (
            ConnectStage::Waited,
            ConnectEvent::Waited(ReadyOutcome::Dropped),
            "fail: process error: worker socket startup failed",
        ),
        (
            ConnectStage::Waited,
            ConnectEvent::Waited(ReadyOutcome::TimedOut),
            "cancel: process error: worker socket connection timeout",
        ),
    ] {
        let mut connect = connect_at(stage);
        assert_eq!(connected(connect.advance(event)), told);
        assert!(connect.stage == ConnectStage::Over);
    }
}
