//! Starting the watcher and connecting the worker, step by step.
use crate::error;
use crate::error::{AppError, AppResult, ErrorView};
use crate::scan;
use crate::scan::show;
use crate::server;
use crate::server::{
    connect_choice, connect_gate, connect_worker, preferred_name, ConnectChoice, ReadyOutcome,
};
use crate::text;
use crate::text::{cat, cat3};
use crate::types::{AppConfig, WatcherStatus, WorkerStatus};
use crate::watch;
use crate::watch::{start_watcher, watcher_started_message};
use vstd::prelude::*;

verus! {

// ---------------------------------------------------------------------------------------------
// Starting the watcher
// ---------------------------------------------------------------------------------------------

/// What came back from a step of starting the watcher.
pub enum StartEvent {
    /// Whether somebody is logged in.
    Session(AppResult<bool>),
    /// What is known of the account is up to date.
    Profile(AppResult<()>),
    Settings(AppResult<AppConfig>),
    /// The folder of osu!stable.
    Folders(AppResult<String>),
    /// How many replays there are already.
    Replays(AppResult<u64>),
    /// The beatmaps of earlier runs are loaded.
    Cache(AppResult<()>),
    /// How many beatmaps osu!.db lists, where there is one.
    Index(AppResult<Option<u64>>),
    /// The folders of the replays are watched.
    Watching(AppResult<()>),
}

/// What is to be done to start the watcher.
pub enum StartAction {
    SyncProfile,
    LoadSettings,
    FindFolders,
    ListReplays,
    LoadCache,
    /// Refresh the cache in the background, and read osu!.db.
    LoadIndex,
    /// Log this, and watch the folders of the replays.
    Watch(String),
    /// The watcher runs; log this.
    Run(String),
    /// Give up. Where there is a status, the watcher shows it.
    Fail(AppError, Option<WatcherStatus>),
}

/// What [`StartAction`] holds.
pub enum StartActionView {
    SyncProfile,
    LoadSettings,
    FindFolders,
    ListReplays,
    LoadCache,
    LoadIndex,
    Watch(Seq<char>),
    Run(Seq<char>),
    Fail(ErrorView, Option<WatcherStatus>),
}

impl View for StartAction {
    type V = StartActionView;

    open spec fn view(&self) -> StartActionView {
        match self {
            StartAction::SyncProfile => StartActionView::SyncProfile,
            StartAction::LoadSettings => StartActionView::LoadSettings,
            StartAction::FindFolders => StartActionView::FindFolders,
            StartAction::ListReplays => StartActionView::ListReplays,
            StartAction::LoadCache => StartActionView::LoadCache,
            StartAction::LoadIndex => StartActionView::LoadIndex,
            StartAction::Watch(log) => StartActionView::Watch(log@),
            StartAction::Run(log) => StartActionView::Run(log@),
            StartAction::Fail(e, shown) => StartActionView::Fail(e@, *shown),
        }
    }
}

/// How far the start has come: what is awaited.
#[derive(Clone, Copy, PartialEq, Eq, Structural)]
pub enum StartStage {
    Session,
    Profile,
    Settings,
    Folders,
    Replays,
    Cache,
    Index,
    Watching,
    Over,
}

/// A watcher that is being started: the folder of osu!stable and the number of replays in it, once they
/// are known.
pub struct WatcherStart {
    pub stage: StartStage,
    pub root: String,
    pub existing: u64,
}

/// What [`WatcherStart`] holds.
pub struct StartView {
    pub stage: StartStage,
    pub root: Seq<char>,
    pub existing: u64,
}

impl View for WatcherStart {
    type V = StartView;

    open spec fn view(&self) -> StartView {
        StartView { stage: self.stage, root: self.root@, existing: self.existing }
    }
}

/// An event is the one that a stage awaits.
pub open spec fn start_awaits(stage: StartStage, e: StartEvent) -> bool {
    match stage {
        StartStage::Session => e is Session,
        StartStage::Profile => e is Profile,
        StartStage::Settings => e is Settings,
        StartStage::Folders => e is Folders,
        StartStage::Replays => e is Replays,
        StartStage::Cache => e is Cache,
        StartStage::Index => e is Index,
        StartStage::Watching => e is Watching,
        StartStage::Over => false,
    }
}

/// What the log says of the list of beatmaps in osu!.db.
pub open spec fn index_log(index: Result<Option<u64>, ErrorView>) -> Seq<char> {
    match index {
        Ok(Some(n)) => "Loaded osu!.db beatmap index with "@ + scan::decimal(n as nat)
            + " entries"@,
        Ok(None) => "osu!.db beatmap index unavailable; Data/r fallback may scan Songs"@,
        Err(e) => "Failed to load osu!.db beatmap index: "@ + e.shown(),
    }
}

/// What the log says once the watcher runs.
pub open spec fn started_log(root: Seq<char>, existing: u64) -> Seq<char> {
    "Auto renderer watcher started for osu!stable at "@ + root + " (ignoring "@ + scan::decimal(
        existing as nat,
    ) + " existing replays)"@
}

/// The account may not use the watcher.
pub open spec fn plus_required() -> StartActionView {
    StartActionView::Fail(
        ErrorView::Auth("Auto Renderer requires a Miru Plus account."@),
        Some(WatcherStatus::Error),
    )
}

/// What is to be done after an event. The watcher shows an error where the account may not use it and
/// where osu!stable is not found; it does without the list of beatmaps in osu!.db.
pub open spec fn start_action(s: StartView, e: StartEvent) -> StartActionView {
    match e {
        StartEvent::Session(Ok(true)) => StartActionView::SyncProfile,
        StartEvent::Session(Ok(false)) => plus_required(),
        StartEvent::Session(Err(e)) => StartActionView::Fail(e@, None),
        StartEvent::Profile(Ok(_)) => StartActionView::LoadSettings,
        StartEvent::Profile(Err(e)) => StartActionView::Fail(e@, None),
        StartEvent::Settings(Ok(c)) => if watch::may_auto_render(c.user_role@, c.user_plan@) {
            StartActionView::FindFolders
        } else {
            plus_required()
        },
        StartEvent::Settings(Err(e)) => StartActionView::Fail(e@, None),
        StartEvent::Folders(Ok(_)) => StartActionView::ListReplays,
        StartEvent::Folders(Err(e)) => StartActionView::Fail(e@, Some(WatcherStatus::Error)),
        StartEvent::Replays(Ok(_)) => StartActionView::LoadCache,
        StartEvent::Replays(Err(e)) => StartActionView::Fail(e@, None),
        StartEvent::Cache(Ok(_)) => StartActionView::LoadIndex,
        StartEvent::Cache(Err(e)) => StartActionView::Fail(e@, None),
        StartEvent::Index(index) => StartActionView::Watch(index_log(error::plain(index))),
        StartEvent::Watching(Ok(_)) => StartActionView::Run(started_log(s.root, s.existing)),
        StartEvent::Watching(Err(e)) => StartActionView::Fail(e@, None),
    }
}

/// What is awaited once an action was taken.
pub open spec fn start_stage_after(a: StartActionView) -> StartStage {
    match a {
        StartActionView::SyncProfile => StartStage::Profile,
        StartActionView::LoadSettings => StartStage::Settings,
        StartActionView::FindFolders => StartStage::Folders,
        StartActionView::ListReplays => StartStage::Replays,
        StartActionView::LoadCache => StartStage::Cache,
        StartActionView::LoadIndex => StartStage::Index,
        StartActionView::Watch(_) => StartStage::Watching,
        StartActionView::Run(_) => StartStage::Over,
        StartActionView::Fail(_, _) => StartStage::Over,
    }
}

/// A start after an event.
pub open spec fn start_after(s: StartView, e: StartEvent) -> StartView {
    let stage = start_stage_after(start_action(s, e));
    match e {
        StartEvent::Folders(Ok(root)) => StartView { stage, root: root@, ..s },
        StartEvent::Replays(Ok(existing)) => StartView { stage, existing, ..s },
        _ => StartView { stage, ..s },
    }
}

fn index_message(index: AppResult<Option<u64>>) -> (r: String)
    ensures
        r@ == index_log(error::plain(index)),
{
    match index {
        Ok(Some(n)) => cat3(
            "Loaded osu!.db beatmap index with ",
            show(n).as_str(),
            " entries",
        ),
        Ok(None) => "osu!.db beatmap index unavailable; Data/r fallback may scan Songs".to_owned(),
        Err(e) => cat("Failed to load osu!.db beatmap index: ", e.message().as_str()),
    }
}

impl WatcherStart {
    /// A watcher that is about to start: no folder is found, and no replay is counted.
    pub fn new() -> (r: Self)
        ensures
            r@ == (StartView { stage: StartStage::Session, root: Seq::empty(), existing: 0 }),
    {
        WatcherStart { stage: StartStage::Session, root: String::new(), existing: 0 }
    }

    /// Gives up.
    fn fail(&mut self, problem: AppError, shown: Option<WatcherStatus>) -> (r: StartAction)
        ensures
            r@ == StartActionView::Fail(problem@, shown),
            final(self)@ == (StartView { stage: StartStage::Over, ..old(self)@ }),
    {
        self.stage = StartStage::Over;
        StartAction::Fail(problem, shown)
    }

    /// Takes what came back from the last step and says what is to be done next.
    pub fn advance(&mut self, event: StartEvent) -> (r: StartAction)
        requires
            start_awaits(old(self).stage, event),
        ensures
            r@ == start_action(old(self)@, event),
            final(self)@ == start_after(old(self)@, event),
    {
        match event {
            StartEvent::Session(Ok(true)) => {
                self.stage = StartStage::Profile;
                StartAction::SyncProfile
            },
            StartEvent::Session(Ok(false)) => self.fail(
                AppError::Auth("Auto Renderer requires a Miru Plus account.".to_owned()),
                Some(WatcherStatus::Error),
            ),
            StartEvent::Profile(Ok(_)) => {
                self.stage = StartStage::Settings;
                StartAction::LoadSettings
            },
            StartEvent::Settings(Ok(config)) => match start_watcher(true, &config) {
                Ok(_) => {
                    self.stage = StartStage::Folders;
                    StartAction::FindFolders
                },
                Err(e) => self.fail(e, Some(WatcherStatus::Error)),
            },
            StartEvent::Folders(Ok(root)) => {
                self.stage = StartStage::Replays;
                self.root = root;
                StartAction::ListReplays
            },
            StartEvent::Folders(Err(e)) => self.fail(e, Some(WatcherStatus::Error)),
            StartEvent::Replays(Ok(existing)) => {
                self.stage = StartStage::Cache;
                self.existing = existing;
                StartAction::LoadCache
            },
            StartEvent::Cache(Ok(_)) => {
                self.stage = StartStage::Index;
                StartAction::LoadIndex
            },
            StartEvent::Index(index) => {
                self.stage = StartStage::Watching;
                StartAction::Watch(index_message(index))
            },
            StartEvent::Watching(Ok(_)) => {
                self.stage = StartStage::Over;
                StartAction::Run(watcher_started_message(self.root.as_str(), self.existing))
            },
            StartEvent::Session(Err(e)) => self.fail(e, None),
            StartEvent::Profile(Err(e)) => self.fail(e, None),
            StartEvent::Settings(Err(e)) => self.fail(e, None),
            StartEvent::Replays(Err(e)) => self.fail(e, None),
            StartEvent::Cache(Err(e)) => self.fail(e, None),
            StartEvent::Watching(Err(e)) => self.fail(e, None),
        }
    }
}

/// A start after some events, each of them awaited.
pub open spec fn start_path(s: StartView, events: Seq<StartEvent>) -> Option<StartView>
    decreases events.len(),
{
    if events.len() == 0 {
        Some(s)
    } else {
        match start_path(s, events.drop_last()) {
            Some(t) => if start_awaits(t.stage, events.last()) {
                Some(start_after(t, events.last()))
            } else {
                None
            },
            None => None,
        }
    }
}

/// How many events lead to a stage.
spec fn start_depth(stage: StartStage) -> int {
    match stage {
        StartStage::Session => 0,
        StartStage::Profile => 1,
        StartStage::Settings => 2,
        StartStage::Folders => 3,
        StartStage::Replays => 4,
        StartStage::Cache => 5,
        StartStage::Index => 6,
        StartStage::Watching => 7,
        StartStage::Over => 8,
    }
}

/// The first events are those of a start that goes on.
spec fn start_goes_on(events: Seq<StartEvent>, n: int) -> bool {
    &&& n > 0 ==> events[0] == StartEvent::Session(Ok(true))
    &&& n > 1 ==> (events[1] matches StartEvent::Profile(Ok(_)))
    &&& n > 2 ==> (events[2] matches StartEvent::Settings(Ok(c)) && watch::may_auto_render(
        c.user_role@,
        c.user_plan@,
    ))
    &&& n > 3 ==> (events[3] matches StartEvent::Folders(Ok(_)))
    &&& n > 4 ==> (events[4] matches StartEvent::Replays(Ok(_)))
    &&& n > 5 ==> (events[5] matches StartEvent::Cache(Ok(_)))
    &&& n > 6 ==> events[6] is Index
}

/// What has happened at each stage but the last.
proof fn start_so_far(s: StartView, events: Seq<StartEvent>)
    requires
        s.stage == StartStage::Session,
        start_path(s, events) matches Some(t) && t.stage != StartStage::Over,
    ensures
        ({
            let t = start_path(s, events)->Some_0;
            events.len() == start_depth(t.stage) && start_goes_on(events, start_depth(t.stage))
        }),
    decreases events.len(),
{
    if events.len() > 0 {
        start_so_far(s, events.drop_last());
    }
}

/// The folders are watched only for an account that may use the watcher, once osu!stable was found, its
/// replays were listed and the cache was loaded, in that order.
pub proof fn watchers_start_in_order(s: StartView, events: Seq<StartEvent>)
    requires
        s.stage == StartStage::Session,
        start_path(s, events) matches Some(t) && t.stage == StartStage::Watching,
    ensures
        events.len() == 7,
        events[0] == StartEvent::Session(Ok(true)),
        events[1] matches StartEvent::Profile(Ok(_)),
        events[2] matches StartEvent::Settings(Ok(c)) && watch::may_auto_render(
            c.user_role@,
            c.user_plan@,
        ),
        events[3] matches StartEvent::Folders(Ok(_)),
        events[4] matches StartEvent::Replays(Ok(_)),
        events[5] matches StartEvent::Cache(Ok(_)),
        events[6] is Index,
{
    start_so_far(s, events);
}

/// The watcher shows an error after a refused account and after a search for osu!stable that failed, and
/// after nothing else.
pub proof fn shown_errors_have_a_cause(s: StartView, e: StartEvent)
    ensures
        (start_action(s, e) matches StartActionView::Fail(_, Some(_))) <==> (match e {
            StartEvent::Session(Ok(logged_in)) => !logged_in,
            StartEvent::Settings(Ok(c)) => !watch::may_auto_render(c.user_role@, c.user_plan@),
            StartEvent::Folders(Err(_)) => true,
            _ => false,
        }),
{
}

// ---------------------------------------------------------------------------------------------
// Connecting the worker
// ---------------------------------------------------------------------------------------------

/// What came back from a step of connecting the worker.
pub enum ConnectEvent {
    /// Whether somebody is logged in.
    Session(AppResult<bool>),
    /// The name that the user prefers for the worker.
    Name(AppResult<String>),
    /// Whether the server knows the worker, and whether it believes the worker to be online.
    Status(AppResult<(bool, bool)>),
    /// The settings, after the server has told the state of the worker.
    Settings(AppResult<AppConfig>),
    /// Whether there is a token.
    Token(AppResult<bool>),
    /// The server was told the name, and the name was saved.
    Told(AppResult<()>),
    /// What the client believes of the connection.
    Shown(WorkerStatus),
    /// A new token was fetched and saved.
    Renewed(AppResult<()>),
    /// What came of waiting for the connection.
    Waited(ReadyOutcome),
    /// The settings say that the worker connects on its own.
    Remembered(AppResult<()>),
}

/// What is to be done to connect the worker.
pub enum ConnectAction {
    ReadName,
    RefreshStatus,
    LoadSettings,
    ReadToken,
    /// Tell the server this name, and save it.
    Tell(String),
    ReadShown,
    /// Log this, where there is something to log, and fetch a new token.
    Renew(Option<String>),
    /// Cancel the connection that there is, open a new one, and wait for it.
    Open,
    /// Have the worker connect on its own in the future.
    Remember,
    /// The worker is connected, or about to be.
    Finish,
    /// Clear the token, and give up.
    Clear(AppError),
    /// Cancel the connection, show an error, and give up.
    Cancel(AppError),
    Fail(AppError),
}

/// What [`ConnectAction`] holds.
pub enum ConnectActionView {
    ReadName,
    RefreshStatus,
    LoadSettings,
    ReadToken,
    Tell(Seq<char>),
    ReadShown,
    Renew(Option<Seq<char>>),
    Open,
    Remember,
    Finish,
    Clear(ErrorView),
    Cancel(ErrorView),
    Fail(ErrorView),
}

impl View for ConnectAction {
    type V = ConnectActionView;

    open spec fn view(&self) -> ConnectActionView {
        match self {
            ConnectAction::ReadName => ConnectActionView::ReadName,
            ConnectAction::RefreshStatus => ConnectActionView::RefreshStatus,
            ConnectAction::LoadSettings => ConnectActionView::LoadSettings,
            ConnectAction::ReadToken => ConnectActionView::ReadToken,
            ConnectAction::Tell(name) => ConnectActionView::Tell(name@),
            ConnectAction::ReadShown => ConnectActionView::ReadShown,
            ConnectAction::Renew(log) => ConnectActionView::Renew(text::opt_text(*log)),
            ConnectAction::Open => ConnectActionView::Open,
            ConnectAction::Remember => ConnectActionView::Remember,
            ConnectAction::Finish => ConnectActionView::Finish,
            ConnectAction::Clear(e) => ConnectActionView::Clear(e@),
            ConnectAction::Cancel(e) => ConnectActionView::Cancel(e@),
            ConnectAction::Fail(e) => ConnectActionView::Fail(e@),
        }
    }
}

/// How far connecting has come: what is awaited.
#[derive(Clone, Copy, PartialEq, Eq, Structural)]
pub enum ConnectStage {
    Session,
    Name,
    Status,
    Settings,
    Token,
    Told,
    Shown,
    Renewed,
    Waited,
    Remembered,
    Over,
}

/// A worker that is being connected: the name that the user prefers for it and the one that it has, and
/// what the server says of it, once they are known.
pub struct WorkerConnect {
    pub stage: ConnectStage,
    pub preferred: String,
    pub current: String,
    pub registered: bool,
    pub online: bool,
}

/// What [`WorkerConnect`] holds.
pub struct ConnectView {
    pub stage: ConnectStage,
    pub preferred: Seq<char>,
    pub current: Seq<char>,
    pub registered: bool,
    pub online: bool,
}

impl View for WorkerConnect {
    type V = ConnectView;

    open spec fn view(&self) -> ConnectView {
        ConnectView {
            stage: self.stage,
            preferred: self.preferred@,
            current: self.current@,
            registered: self.registered,
            online: self.online,
        }
    }
}

/// An event is the one that a stage awaits.
pub open spec fn connect_awaits(stage: ConnectStage, e: ConnectEvent) -> bool {
    match stage {
        ConnectStage::Session => e is Session,
        ConnectStage::Name => e is Name,
        ConnectStage::Status => e is Status,
        ConnectStage::Settings => e is Settings,
        ConnectStage::Token => e is Token,
        ConnectStage::Told => e is Told,
        ConnectStage::Shown => e is Shown,
        ConnectStage::Renewed => e is Renewed,
        ConnectStage::Waited => e is Waited,
        ConnectStage::Remembered => e is Remembered,
        ConnectStage::Over => false,
    }
}

/// What is done for a worker that may be connected: the server is told the name that the user prefers,
/// where it is another one.
pub open spec fn naming(preferred: Seq<char>, current: Seq<char>) -> ConnectActionView {
    match server::rename_outcome(preferred, current) {
        Ok(Some(name)) => ConnectActionView::Tell(name),
        Ok(None) => ConnectActionView::ReadShown,
        Err(e) => ConnectActionView::Fail(e),
    }
}

/// What is to be done after an event. A worker of somebody else loses its token; a machine without a
/// registration of its own needs one; a connection that is there already is kept.
pub open spec fn connect_action(s: ConnectView, e: ConnectEvent) -> ConnectActionView {
    match e {
        ConnectEvent::Session(Ok(true)) => ConnectActionView::ReadName,
        ConnectEvent::Session(Ok(false)) => ConnectActionView::Fail(
            ErrorView::Auth("login required to connect worker"@),
        ),
        ConnectEvent::Session(Err(e)) => ConnectActionView::Fail(e@),
        ConnectEvent::Name(Ok(_)) => ConnectActionView::RefreshStatus,
        ConnectEvent::Name(Err(e)) => ConnectActionView::Fail(e@),
        ConnectEvent::Status(Ok(_)) => ConnectActionView::LoadSettings,
        ConnectEvent::Status(Err(e)) => ConnectActionView::Fail(e@),
        ConnectEvent::Settings(Ok(c)) => if !s.registered || !server::owned(c@) {
            ConnectActionView::Clear(
                ErrorView::Auth("this account does not own an active renderer registration"@),
            )
        } else if c.is_server {
            naming(s.preferred, c.server_name@)
        } else {
            ConnectActionView::ReadToken
        },
        ConnectEvent::Settings(Err(e)) => ConnectActionView::Fail(e@),
        ConnectEvent::Token(Ok(true)) => naming(s.preferred, s.current),
        ConnectEvent::Token(Ok(false)) => ConnectActionView::Fail(
            ErrorView::Auth("worker token missing; register this PC first"@),
        ),
        ConnectEvent::Token(Err(e)) => ConnectActionView::Fail(e@),
        ConnectEvent::Told(Ok(_)) => ConnectActionView::ReadShown,
        ConnectEvent::Told(Err(e)) => ConnectActionView::Fail(e@),
        ConnectEvent::Shown(WorkerStatus::Connecting) => ConnectActionView::Finish,
        ConnectEvent::Shown(WorkerStatus::Connected) => if s.online {
            ConnectActionView::Finish
        } else {
            ConnectActionView::Renew(
                Some(
                    "Worker looked connected locally but server marked it offline; reconnecting"@,
                ),
            )
        },
        ConnectEvent::Shown(_) => ConnectActionView::Renew(None),
        ConnectEvent::Renewed(Ok(_)) => ConnectActionView::Open,
        ConnectEvent::Renewed(Err(e)) => ConnectActionView::Fail(e@),
        ConnectEvent::Waited(ReadyOutcome::Ready) => ConnectActionView::Remember,
        ConnectEvent::Waited(ReadyOutcome::Rejected(m)) => ConnectActionView::Fail(
            ErrorView::Process(m@),
        ),
        ConnectEvent::Waited(ReadyOutcome::Dropped) => ConnectActionView::Fail(
            ErrorView::Process("worker socket startup failed"@),
        ),
        ConnectEvent::Waited(ReadyOutcome::TimedOut) => ConnectActionView::Cancel(
            ErrorView::Process("worker socket connection timeout"@),
        ),
        ConnectEvent::Remembered(Ok(_)) => ConnectActionView::Finish,
        ConnectEvent::Remembered(Err(e)) => ConnectActionView::Fail(e@),
    }
}

/// What is awaited once an action was taken.
pub open spec fn connect_stage_after(a: ConnectActionView) -> ConnectStage {
    match a {
        ConnectActionView::ReadName => ConnectStage::Name,
        ConnectActionView::RefreshStatus => ConnectStage::Status,
        ConnectActionView::LoadSettings => ConnectStage::Settings,
        ConnectActionView::ReadToken => ConnectStage::Token,
        ConnectActionView::Tell(_) => ConnectStage::Told,
        ConnectActionView::ReadShown => ConnectStage::Shown,
        ConnectActionView::Renew(_) => ConnectStage::Renewed,
        ConnectActionView::Open => ConnectStage::Waited,
        ConnectActionView::Remember => ConnectStage::Remembered,
        ConnectActionView::Finish => ConnectStage::Over,
        ConnectActionView::Clear(_) => ConnectStage::Over,
        ConnectActionView::Cancel(_) => ConnectStage::Over,
        ConnectActionView::Fail(_) => ConnectStage::Over,
    }
}

/// A worker that is being connected, after an event.
pub open spec fn connect_after(s: ConnectView, e: ConnectEvent) -> ConnectView {
    let stage = connect_stage_after(connect_action(s, e));
    match e {
        ConnectEvent::Name(Ok(preferred)) => ConnectView { stage, preferred: preferred@, ..s },
        ConnectEvent::Status(Ok((registered, online))) => ConnectView {
            stage,
            registered,
            online,
            ..s
        },
        ConnectEvent::Settings(Ok(c)) => ConnectView { stage, current: c.server_name@, ..s },
        _ => ConnectView { stage, ..s },
    }
}

impl WorkerConnect {
    /// A worker that is about to be connected: it has no name, and the server has said nothing of it.
    pub fn new() -> (r: Self)
        ensures
            r@ == (ConnectView {
                stage: ConnectStage::Session,
                preferred: Seq::empty(),
                current: Seq::empty(),
                registered: false,
                online: false,
            }),
    {
        WorkerConnect {
            stage: ConnectStage::Session,
            preferred: String::new(),
            current: String::new(),
            registered: false,
            online: false,
        }
    }

    /// Gives up.
    fn fail(&mut self, problem: AppError) -> (r: ConnectAction)
        ensures
            r@ == ConnectActionView::Fail(problem@),
            final(self)@ == (ConnectView { stage: ConnectStage::Over, ..old(self)@ }),
    {
        self.stage = ConnectStage::Over;
        ConnectAction::Fail(problem)
    }

    /// Goes on with the name of a worker that may be connected.
    fn name(&mut self) -> (r: ConnectAction)
        ensures
            r@ == naming(old(self).preferred@, old(self).current@),
            final(self)@ == (ConnectView { stage: connect_stage_after(r@), ..old(self)@ }),
    {
        match preferred_name(self.preferred.as_str(), self.current.as_str()) {
            Ok(Some(name)) => {
                self.stage = ConnectStage::Told;
                ConnectAction::Tell(name)
            },
            Ok(None) => {
                self.stage = ConnectStage::Shown;
                ConnectAction::ReadShown
            },
            Err(e) => self.fail(e),
        }
    }

    /// Goes on with the settings of a worker.
    fn settle(&mut self, config: AppConfig) -> (r: ConnectAction)
        ensures
            r@ == connect_action(old(self)@, ConnectEvent::Settings(Ok(config))),
            final(self)@ == connect_after(old(self)@, ConnectEvent::Settings(Ok(config))),
    {
        let refusal = connect_gate(self.registered, &config, true);
        let is_server = config.is_server;
        self.current = config.server_name;
        match refusal {
            Some(refused) => {
                self.stage = ConnectStage::Over;
                ConnectAction::Clear(refused.error)
            },
            None => if is_server {
                self.name()
            } else {
                self.stage = ConnectStage::Token;
                ConnectAction::ReadToken
            },
        }
    }

    /// Takes what came back from the last step and says what is to be done next.
    pub fn advance(&mut self, event: ConnectEvent) -> (r: ConnectAction)
        requires
            connect_awaits(old(self).stage, event),
        ensures
            r@ == connect_action(old(self)@, event),
            final(self)@ == connect_after(old(self)@, event),
    {
        match event {
            ConnectEvent::Session(Ok(true)) => {
                self.stage = ConnectStage::Name;
                ConnectAction::ReadName
            },
            ConnectEvent::Session(Ok(false)) => self.fail(
                AppError::Auth("login required to connect worker".to_owned()),
            ),
            ConnectEvent::Name(Ok(preferred)) => {
                self.stage = ConnectStage::Status;
                self.preferred = preferred;
                ConnectAction::RefreshStatus
            },
            ConnectEvent::Status(Ok((registered, online))) => {
                self.stage = ConnectStage::Settings;
                self.registered = registered;
                self.online = online;
                ConnectAction::LoadSettings
            },
            ConnectEvent::Settings(Ok(config)) => self.settle(config),
            ConnectEvent::Token(Ok(true)) => self.name(),
            ConnectEvent::Token(Ok(false)) => self.fail(
                AppError::Auth("worker token missing; register this PC first".to_owned()),
            ),
            ConnectEvent::Told(Ok(_)) => {
                self.stage = ConnectStage::Shown;
                ConnectAction::ReadShown
            },
            ConnectEvent::Shown(status) => match connect_choice(status, self.online) {
                ConnectChoice::Nothing => {
                    self.stage = ConnectStage::Over;
                    ConnectAction::Finish
                },
                ConnectChoice::Connect => {
                    self.stage = ConnectStage::Renewed;
                    ConnectAction::Renew(None)
                },
                ConnectChoice::Reconnect => {
                    self.stage = ConnectStage::Renewed;
                    ConnectAction::Renew(
                        Some(
                            "Worker looked connected locally but server marked it offline; reconnecting".to_owned(),
                        ),
                    )
                },
            },
            ConnectEvent::Renewed(Ok(_)) => {
                self.stage = ConnectStage::Waited;
                ConnectAction::Open
            },
            ConnectEvent::Waited(outcome) => {
                let timed_out = matches!(outcome, ReadyOutcome::TimedOut);
                match connect_worker(outcome) {
                    Ok(_) => {
                        self.stage = ConnectStage::Remembered;
                        ConnectAction::Remember
                    },
                    Err(e) => {
                        self.stage = ConnectStage::Over;
                        if timed_out {
                            ConnectAction::Cancel(e)
                        } else {
                            ConnectAction::Fail(e)
                        }
                    },
                }
            },
            ConnectEvent::Remembered(Ok(_)) => {
                self.stage = ConnectStage::Over;
                ConnectAction::Finish
            },
            ConnectEvent::Session(Err(e)) => self.fail(e),
            ConnectEvent::Name(Err(e)) => self.fail(e),
            ConnectEvent::Status(Err(e)) => self.fail(e),
            ConnectEvent::Settings(Err(e)) => self.fail(e),
            ConnectEvent::Token(Err(e)) => self.fail(e),
            ConnectEvent::Told(Err(e)) => self.fail(e),
            ConnectEvent::Renewed(Err(e)) => self.fail(e),
            ConnectEvent::Remembered(Err(e)) => self.fail(e),
        }
    }
}

/// A worker that is being connected, after some events, each of them awaited.
pub open spec fn connect_path(s: ConnectView, events: Seq<ConnectEvent>) -> Option<ConnectView>
    decreases events.len(),
{
    if events.len() == 0 {
        Some(s)
    } else {
        match connect_path(s, events.drop_last()) {
            Some(t) => if connect_awaits(t.stage, events.last()) {
                Some(connect_after(t, events.last()))
            } else {
                None
            },
            None => None,
        }
    }
}

/// The first events told that somebody is logged in, that the server knows the worker, and that the
/// worker is theirs.
pub open spec fn worker_is_owned(events: Seq<ConnectEvent>) -> bool {
    &&& events.len() >= 4
    &&& events[0] == ConnectEvent::Session(Ok(true))
    &&& events[1] matches ConnectEvent::Name(Ok(_))
    &&& events[2] matches ConnectEvent::Status(Ok((registered, _)))
    &&& registered
    &&& events[3] matches ConnectEvent::Settings(Ok(c))
    &&& server::owned(c@)
    &&& c.is_server || (events.len() >= 5 && events[4] == ConnectEvent::Token(Ok(true)))
}

/// What has happened at each stage but the last.
spec fn reached_in_order(t: ConnectView, events: Seq<ConnectEvent>) -> bool {
    let known = events.len() >= 3 && events[0] == ConnectEvent::Session(Ok(true)) && (
    events[1] matches ConnectEvent::Name(Ok(_))) && (events[2] matches ConnectEvent::Status(
        Ok((registered, _)),
    ) && registered == t.registered);
    match t.stage {
        ConnectStage::Session => events.len() == 0,
        ConnectStage::Name => events.len() == 1 && events[0] == ConnectEvent::Session(Ok(true)),
        ConnectStage::Status => events.len() == 2 && events[0] == ConnectEvent::Session(Ok(true))
            && (events[1] matches ConnectEvent::Name(Ok(_))),
        ConnectStage::Settings => events.len() == 3 && known,
        ConnectStage::Token => events.len() == 4 && known && t.registered && (
        events[3] matches ConnectEvent::Settings(Ok(c)) && server::owned(c@)),
        ConnectStage::Over => true,
        _ => worker_is_owned(events),
    }
}

proof fn connect_so_far(s: ConnectView, events: Seq<ConnectEvent>)
    requires
        s.stage == ConnectStage::Session,
        connect_path(s, events) is Some,
    ensures
        reached_in_order(connect_path(s, events)->Some_0, events),
    decreases events.len(),
{
    if events.len() > 0 {
        connect_so_far(s, events.drop_last());
    }
}

/// A connection is opened only for somebody who is logged in, and only for a worker that the server
/// knows, that is theirs, and that has a token or is set up as one.
pub proof fn only_owned_workers_connect(s: ConnectView, events: Seq<ConnectEvent>)
    requires
        s.stage == ConnectStage::Session,
        connect_path(s, events) matches Some(t) && t.stage == ConnectStage::Waited,
    ensures
        worker_is_owned(events),
{
    connect_so_far(s, events);
}

/// A token is cleared where the worker is not theirs who is logged in, and nowhere else.
pub proof fn tokens_are_cleared_for_strangers(s: ConnectView, e: ConnectEvent)
    ensures
        (connect_action(s, e) is Clear) <==> (e matches ConnectEvent::Settings(Ok(c)) && !(
        s.registered && server::owned(c@))),
{
}

/// The watcher starts for members who are logged in: each step that goes well leads to the next one, and the
/// first that fails ends the start.
pub proof fn starts_go_step_by_step(s: StartView, c: AppConfig, root: String, n: u64)
    ensures
        start_action(s, StartEvent::Session(Ok(true))) is SyncProfile,
        start_action(s, StartEvent::Session(Ok(false))) is Fail,
        watch::may_auto_render(c.user_role@, c.user_plan@) ==> start_action(s, StartEvent::Settings(Ok(c)))
            is FindFolders,
        !watch::may_auto_render(c.user_role@, c.user_plan@) ==> start_action(s, StartEvent::Settings(Ok(c)))
            is Fail,
        start_action(s, StartEvent::Folders(Ok(root))) is ListReplays,
        start_after(s, StartEvent::Folders(Ok(root))).root == root@,
        start_action(s, StartEvent::Replays(Ok(n))) is LoadCache,
        start_after(s, StartEvent::Replays(Ok(n))).existing == n,
{
}

/// A worker is connected only for somebody who is logged in and owns it: with a token, under the name that is
/// preferred, and again where the service does not see it.
pub proof fn connections_go_step_by_step(
    s: ConnectView,
    c: AppConfig,
    name: String,
    registered: bool,
    online: bool,
)
    ensures
        connect_action(s, ConnectEvent::Session(Ok(true))) is ReadName,
        connect_action(s, ConnectEvent::Session(Ok(false))) is Fail,
        connect_after(s, ConnectEvent::Name(Ok(name))).preferred == name@,
        connect_after(s, ConnectEvent::Status(Ok((registered, online)))).registered == registered,
        connect_after(s, ConnectEvent::Status(Ok((registered, online)))).online == online,
        connect_after(s, ConnectEvent::Settings(Ok(c))).current == c.server_name@,
        !s.registered ==> connect_action(s, ConnectEvent::Settings(Ok(c))) is Clear,
        c.registered_user_id@ != c.user_id@ ==> connect_action(s, ConnectEvent::Settings(Ok(c))) is Clear,
        s.registered && c.registered_user_id@ == c.user_id@ && !c.is_server ==> connect_action(
            s,
            ConnectEvent::Settings(Ok(c)),
        ) is ReadToken,
        connect_action(s, ConnectEvent::Token(Ok(false))) is Fail,
        connect_action(s, ConnectEvent::Shown(WorkerStatus::Connecting)) is Finish,
        s.online ==> connect_action(s, ConnectEvent::Shown(WorkerStatus::Connected)) is Finish,
        !s.online ==> connect_action(s, ConnectEvent::Shown(WorkerStatus::Connected)) is Renew,
        connect_action(s, ConnectEvent::Shown(WorkerStatus::Disconnected)) is Renew,
        connect_action(s, ConnectEvent::Renewed(Ok(()))) is Open,
        connect_action(s, ConnectEvent::Waited(ReadyOutcome::Ready)) is Remember,
        connect_action(s, ConnectEvent::Waited(ReadyOutcome::TimedOut)) is Cancel,
{
}

} // verus!
