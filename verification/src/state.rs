//! What the client shows while it runs: its log, its history and its state.
use crate::osu::OsuStablePathsStatus;
use crate::text;
use crate::text::{blank, cat3};
use crate::tools::FfmpegToolsSnapshot;
use crate::types::{
    AppConfig, AutoRendererEvent, BenchmarkProgress, BenchmarkResult, HistoryEntry, HistoryView,
    WatcherStatus, WorkerStatus,
};
use vstd::prelude::*;

verus! {

pub const MOST_LOG_LINES: usize = 300;

pub const MOST_HISTORY_ENTRIES: usize = 100;

/// The last items of a list, at most so many.
pub open spec fn last_of<T>(s: Seq<T>, most: int) -> Seq<T> {
    if s.len() > most {
        s.skip(s.len() - most)
    } else {
        s
    }
}

/// The first items of a list, at most so many.
pub open spec fn first_of<T>(s: Seq<T>, most: int) -> Seq<T> {
    if s.len() > most {
        s.take(most)
    } else {
        s
    }
}

/// A line of the log: the time and the message.
pub fn log_text(timestamp: &str, message: &str) -> (r: String)
    ensures
        r@ == timestamp@ + " "@ + message@,
{
    cat3(timestamp, " ", message)
}

/// Adds a line to the log, which keeps the last three hundred.
pub fn log_line(logs: &mut Vec<String>, line: String)
    ensures
        final(logs)@ == last_of(old(logs)@.push(line), MOST_LOG_LINES as int),
{
    let ghost all = logs@.push(line);
    logs.push(line);
    if logs.len() > MOST_LOG_LINES {
        let extra: usize = logs.len() - MOST_LOG_LINES;
        let rest = logs.split_off(extra);
        *logs = rest;
        assert(logs@ =~= all.skip(all.len() - MOST_LOG_LINES));
    }
}

/// What the entries of a history hold.
pub open spec fn history_view(v: Seq<HistoryEntry>) -> Seq<HistoryView> {
    Seq::new(v.len(), |i: int| v[i]@)
}

/// The id of an entry, or the new one where it has none.
pub open spec fn with_id(e: HistoryView, new_id: Seq<char>) -> HistoryView {
    if e.id.len() == 0 {
        HistoryView { id: new_id, ..e }
    } else {
        e
    }
}

/// Adds an entry to the history, which keeps the newest hundred with the newest first.
pub fn add_history(history: &mut Vec<HistoryEntry>, entry: HistoryEntry, new_id: &str)
    ensures
        history_view(final(history)@) == first_of(
            seq![with_id(entry@, new_id@)] + history_view(old(history)@),
            MOST_HISTORY_ENTRIES as int,
        ),
{
    let ghost before = history@;
    let mut entry = entry;
    let ghost wanted = with_id(entry@, new_id@);
    if entry.id.as_str().is_empty() {
        entry.id = new_id.to_owned();
    }
    assert(entry@ == wanted);
    history.insert(0, entry);
    let ghost all = seq![wanted] + history_view(before);
    assert(history_view(history@) =~= all);
    if history.len() > MOST_HISTORY_ENTRIES {
        history.truncate(MOST_HISTORY_ENTRIES);
        assert(history_view(history@) =~= all.take(MOST_HISTORY_ENTRIES as int));
    }
}

/// An entry of the history.
pub fn history_entry(
    id: String,
    timestamp: String,
    kind: &str,
    title: &str,
    detail: &str,
    status: &str,
    url: Option<String>,
) -> (r: HistoryEntry)
    ensures
        r@ == (HistoryView {
            id: id@,
            timestamp: timestamp@,
            kind: kind@,
            title: title@,
            detail: detail@,
            status: status@,
            url: text::opt_text(url),
        }),
{
    HistoryEntry {
        id,
        timestamp,
        kind: kind.to_owned(),
        title: title.to_owned(),
        detail: detail.to_owned(),
        status: status.to_owned(),
        url,
    }
}

/// Someone is logged in: there is a token of a session, and the account is known.
pub fn is_authenticated(has_api_token: bool, has_refresh_token: bool, user_id: &str) -> (r: bool)
    ensures
        r == ((has_api_token || has_refresh_token) && !text::is_blank(user_id@)),
{
    (has_api_token || has_refresh_token) && !blank(user_id)
}

/// There is a renderer: the one that the client keeps, or the one that the settings name.
pub fn renderer_installed(managed_exists: bool, override_path: &str, override_exists: bool) -> (r: bool)
    ensures
        r == (managed_exists || (!text::is_blank(override_path@) && override_exists)),
{
    managed_exists || (!blank(override_path) && override_exists)
}

/// What the client is doing.
pub struct RuntimeState {
    pub watcher_status: WatcherStatus,
    pub last_auto_renderer_event: Option<AutoRendererEvent>,
    pub worker_status: WorkerStatus,
    pub active_job_id: Option<String>,
    pub benchmark: Option<BenchmarkProgress>,
    pub last_benchmark: Option<BenchmarkResult>,
    pub logs: Vec<String>,
}

impl RuntimeState {
    /// A client that has just started does nothing yet.
    pub fn new() -> (r: Self)
        ensures
            r.watcher_status == WatcherStatus::Stopped,
            r.last_auto_renderer_event is None,
            r.worker_status == WorkerStatus::Disconnected,
            r.active_job_id is None,
            r.benchmark is None,
            r.last_benchmark is None,
            r.logs@.len() == 0,
    {
        RuntimeState {
            watcher_status: WatcherStatus::Stopped,
            last_auto_renderer_event: None,
            worker_status: WorkerStatus::Disconnected,
            active_job_id: None,
            benchmark: None,
            last_benchmark: None,
            logs: Vec::new(),
        }
    }
}

/// What is shown of what the client is doing.
pub struct RuntimeSnapshot {
    pub is_authenticated: bool,
    pub watcher_status: WatcherStatus,
    pub osu_stable_detected: bool,
    pub replay_dir_ready: bool,
    pub stable_replay_dir_ready: bool,
    pub songs_dir_ready: bool,
    pub osu_stable_root: Option<String>,
    pub replay_dir: Option<String>,
    pub stable_replay_dir: Option<String>,
    pub songs_dir: Option<String>,
    pub last_auto_renderer_event: Option<AutoRendererEvent>,
    pub renderer_installed: bool,
    pub worker_status: WorkerStatus,
    pub active_job_id: Option<String>,
    pub benchmark: Option<BenchmarkProgress>,
    pub last_benchmark: Option<BenchmarkResult>,
    pub ffmpeg_tools: FfmpegToolsSnapshot,
}

/// All that is shown of the client.
pub struct AppStatePayload {
    pub config: AppConfig,
    pub runtime: RuntimeSnapshot,
    pub history: Vec<HistoryEntry>,
    pub logs: Vec<String>,
}

/// What was found on the machine: the tokens of the session and the renderers that are there.
#[derive(Clone, Copy, PartialEq, Eq, Structural)]
pub struct MachineFacts {
    pub has_api_token: bool,
    pub has_refresh_token: bool,
    pub managed_renderer: bool,
    pub override_renderer: bool,
}

/// Somebody is logged in: there is a token, and an account that it belongs to.
pub open spec fn logged_in(facts: MachineFacts, user_id: Seq<char>) -> bool {
    (facts.has_api_token || facts.has_refresh_token) && !text::is_blank(user_id)
}

/// There is a renderer: the one of this client, or another one that was chosen.
pub open spec fn has_renderer(facts: MachineFacts, override_path: Seq<char>) -> bool {
    facts.managed_renderer || (!text::is_blank(override_path) && facts.override_renderer)
}

/// All that is shown of the client.
pub fn snapshot(
    config: AppConfig,
    osu: OsuStablePathsStatus,
    facts: MachineFacts,
    history: Vec<HistoryEntry>,
    runtime: RuntimeState,
    ffmpeg_tools: FfmpegToolsSnapshot,
) -> (r: AppStatePayload)
    ensures
        r.runtime.is_authenticated == logged_in(facts, config.user_id@),
        r.runtime.renderer_installed == has_renderer(facts, config.renderer_override_path@),
        r.config == config,
        r.history == history,
        r.logs == runtime.logs,
        r.runtime.is_authenticated == ((facts.has_api_token || facts.has_refresh_token)
            && !text::is_blank(config.user_id@)),
        r.runtime.renderer_installed == (facts.managed_renderer || (!text::is_blank(
            config.renderer_override_path@,
        ) && facts.override_renderer)),
        r.runtime.watcher_status == runtime.watcher_status,
        r.runtime.osu_stable_detected == osu.osu_stable_detected,
        r.runtime.replay_dir_ready == osu.replay_dir_ready,
        r.runtime.stable_replay_dir_ready == osu.stable_replay_dir_ready,
        r.runtime.songs_dir_ready == osu.songs_dir_ready,
        r.runtime.osu_stable_root == osu.osu_stable_root,
        r.runtime.replay_dir == osu.replay_dir,
        r.runtime.stable_replay_dir == osu.stable_replay_dir,
        r.runtime.songs_dir == osu.songs_dir,
        r.runtime.last_auto_renderer_event == runtime.last_auto_renderer_event,
        r.runtime.worker_status == runtime.worker_status,
        r.runtime.active_job_id == runtime.active_job_id,
        r.runtime.benchmark == runtime.benchmark,
        r.runtime.last_benchmark == runtime.last_benchmark,
        r.runtime.ffmpeg_tools == ffmpeg_tools,
{
    let is_authenticated = is_authenticated(
        facts.has_api_token,
        facts.has_refresh_token,
        config.user_id.as_str(),
    );
    let renderer_installed = renderer_installed(
        facts.managed_renderer,
        config.renderer_override_path.as_str(),
        facts.override_renderer,
    );
    let shown = RuntimeSnapshot {
        is_authenticated,
        watcher_status: runtime.watcher_status,
        osu_stable_detected: osu.osu_stable_detected,
        replay_dir_ready: osu.replay_dir_ready,
        stable_replay_dir_ready: osu.stable_replay_dir_ready,
        songs_dir_ready: osu.songs_dir_ready,
        osu_stable_root: osu.osu_stable_root,
        replay_dir: osu.replay_dir,
        stable_replay_dir: osu.stable_replay_dir,
        songs_dir: osu.songs_dir,
        last_auto_renderer_event: runtime.last_auto_renderer_event,
        renderer_installed,
        worker_status: runtime.worker_status,
        active_job_id: runtime.active_job_id,
        benchmark: runtime.benchmark,
        last_benchmark: runtime.last_benchmark,
        ffmpeg_tools,
    };
    AppStatePayload { config, runtime: shown, history, logs: runtime.logs }
}

/// The log never grows past its most, and its newest line is the one that was added.
pub proof fn log_is_bounded<T>(s: Seq<T>, line: T, most: int)
    requires
        most > 0,
    ensures
        last_of(s.push(line), most).len() <= most,
        last_of(s.push(line), most).last() == line,
{
}

/// The history never grows past its most, and its first entry is the one that was added.
pub proof fn history_is_bounded<T>(s: Seq<T>, entry: T, most: int)
    requires
        most > 0,
    ensures
        first_of(seq![entry] + s, most).len() <= most,
        first_of(seq![entry] + s, most)[0] == entry,
{
}

/// Lines keep their order in the log: adding two lines to a log that was cut in between is the same as
/// cutting it once.
pub proof fn log_cuts_compose<T>(s: Seq<T>, a: T, b: T, most: int)
    requires
        most > 0,
    ensures
        last_of(last_of(s.push(a), most).push(b), most) == last_of(s.push(a).push(b), most),
{
    assert(last_of(last_of(s.push(a), most).push(b), most) =~= last_of(s.push(a).push(b), most));
}

/// What is kept of a list are its last entries, or its first ones, in their order, as many as are kept.
pub proof fn entries_are_kept_in_order<T>(s: Seq<T>, most: int, i: int)
    requires
        0 <= most,
    ensures
        s.len() <= most ==> last_of(s, most) == s && first_of(s, most) == s,
        s.len() > most ==> last_of(s, most).len() == most && first_of(s, most).len() == most,
        0 <= i < most < s.len() ==> last_of(s, most)[i] == s[s.len() - most + i] && first_of(s, most)[i]
            == s[i],
{
}

/// An entry without an identifier gets one, and one that has it keeps it; nothing else of it changes.
pub proof fn entries_get_an_identifier(e: HistoryView, new_id: Seq<char>)
    ensures
        e.id.len() == 0 ==> with_id(e, new_id).id == new_id,
        e.id.len() > 0 ==> with_id(e, new_id) == e,
        with_id(e, new_id) == (HistoryView { id: with_id(e, new_id).id, ..e }),
{
}

/// Nobody is logged in without a token or without an account, and either token is enough.
pub proof fn tokens_need_an_account(facts: MachineFacts, user_id: Seq<char>)
    ensures
        text::is_blank(user_id) ==> !logged_in(facts, user_id),
        !facts.has_api_token && !facts.has_refresh_token ==> !logged_in(facts, user_id),
        facts.has_api_token && !text::is_blank(user_id) ==> logged_in(facts, user_id),
        facts.has_refresh_token && !text::is_blank(user_id) ==> logged_in(facts, user_id),
{
}

/// There is a renderer where this client has one, or where one was chosen and is there.
pub proof fn chosen_renderers_count(facts: MachineFacts, path: Seq<char>)
    ensures
        facts.managed_renderer ==> has_renderer(facts, path),
        !facts.managed_renderer && text::is_blank(path) ==> !has_renderer(facts, path),
        !facts.managed_renderer && !text::is_blank(path) ==> (has_renderer(facts, path)
            <==> facts.override_renderer),
{
}

} // verus!
