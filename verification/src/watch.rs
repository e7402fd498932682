//! New replays: which of them are rendered, and how they are sent.
use crate::assets;
use crate::config;
use crate::error;
use crate::error::{AppError, AppResult, ErrorView};
use crate::json;
use crate::json::{Json, JsonView};
use crate::osu::{display_name, ResolvedBeatmap, ResolvedView};
use crate::paths;
use crate::paths::path_extension;
use crate::replay::MAX_REPLAY_FILE_BYTES;
use crate::rules::{total_note_count, AutoRendererFilterDecision};
use crate::scan;
use crate::scan::{contains, contains_char, join, show, show_signed};
use crate::state::history_entry;
use crate::text;
use crate::text::{
    alnum, blank, cat, cat3, cat5, chars_of, eq_ignore_case, lowercase, same_text, text_of, trim,
    uppercase,
};
use crate::types::{
    AppConfig, AutoRendererEvent, Double, HistoryEntry, HistoryView, Resolution, ScoreData,
    WatcherStatus,
};
use vstd::hash_map::StringHashMap;
use vstd::prelude::*;

verus! {

pub const WATCHER_POLL_SECONDS: u64 = 2;

pub const STABLE_SAMPLE_DELAY_MS: u64 = 450;

pub const STABLE_SAMPLE_ATTEMPTS: u8 = 12;

pub const MAX_LOCAL_MAPSET_ARCHIVE_BYTES: u64 = 536_870_912;

pub const MAX_LOCAL_MAPSET_FILES: usize = 4096;

pub const BEATMAP_CACHE_WARMING_MESSAGE: &'static str = "beatmap cache warming";

// ---------------------------------------------------------------------------------------------
// Starting
// ---------------------------------------------------------------------------------------------

/// The role or the plan of an account allows to render on its own.
pub open spec fn may_auto_render(role: Seq<char>, plan: Seq<char>) -> bool {
    let r = text::upper_text(text::trimmed(role));
    let p = text::upper_text(text::trimmed(plan));
    r == "PLUS"@ || r == "ADMIN"@ || p == "PLUS"@
}

/// Whether the account of the settings may render on its own.
pub fn can_use_auto_renderer(config: &AppConfig) -> (r: bool)
    ensures
        r == may_auto_render(config.user_role@, config.user_plan@),
{
    let role = uppercase(trim(config.user_role.as_str()).as_str());
    let plan = uppercase(trim(config.user_plan.as_str()).as_str());
    same_text(role.as_str(), "PLUS") || same_text(role.as_str(), "ADMIN") || same_text(
        plan.as_str(),
        "PLUS",
    )
}

/// The watcher is started unless it runs or is about to.
pub fn begin_watching(status: WatcherStatus) -> (start: bool)
    ensures
        start == !(status == WatcherStatus::Running || status == WatcherStatus::Starting),
{
    !(status == WatcherStatus::Running || status == WatcherStatus::Starting)
}

/// The watcher needs a session and an account that may render on its own.
pub fn start_watcher(has_session: bool, config: &AppConfig) -> (r: AppResult<()>)
    ensures
        error::plain(r) == if has_session && may_auto_render(config.user_role@, config.user_plan@) {
            Ok(())
        } else {
            Err(ErrorView::Auth("Auto Renderer requires a Miru Plus account."@))
        },
{
    if has_session && can_use_auto_renderer(config) {
        Ok(())
    } else {
        Err(AppError::Auth("Auto Renderer requires a Miru Plus account.".to_owned()))
    }
}

/// What the log says once the watcher runs.
pub fn watcher_started_message(root: &str, existing: u64) -> (r: String)
    ensures
        r@ == "Auto renderer watcher started for osu!stable at "@ + root@ + " (ignoring "@
            + scan::decimal(existing as nat) + " existing replays)"@,
{
    cat5(
        "Auto renderer watcher started for osu!stable at ",
        root,
        " (ignoring ",
        show(existing).as_str(),
        " existing replays)",
    )
}

/// An extension is that of replays.
pub open spec fn extends_replays(extension: Option<Seq<char>>) -> bool {
    extension matches Some(e) && text::same_ignoring_case(e, "osr"@)
}

/// Whether a file is a replay, by its extension.
pub fn is_replay_extension(extension: Option<&str>) -> (r: bool)
    ensures
        r == extends_replays(text::opt_str(extension)),
{
    match extension {
        Some(e) => eq_ignore_case(e, "osr"),
        None => false,
    }
}

/// Whether a file is a replay, by its path.
pub fn is_replay_path(path: &str) -> (r: bool)
    ensures
        exists|extension: Option<Seq<char>>|
            #[trigger] paths::may_extend(path@, extension) && r == extends_replays(extension),
{
    let extension = path_extension(path);
    assert(paths::may_extend(path@, text::opt_text(extension)));
    is_replay_extension(text::borrow_text(&extension))
}

/// The form in which the paths of replays are compared.
pub fn normalize_replay_key(path: &str) -> (r: String)
    ensures
        r@ == text::lower_text(path@),
{
    lowercase(path)
}

// ---------------------------------------------------------------------------------------------
// Waiting until a replay is written
// ---------------------------------------------------------------------------------------------

/// What is seen of a file: its size and when it was written, in nanoseconds of Unix time.
#[derive(Clone, Copy, PartialEq, Eq, Structural)]
pub struct FileSignature {
    pub len: u64,
    pub modified: i128,
}

/// A file that is looked at until it does not change any more.
#[derive(Clone, Copy, PartialEq, Eq, Structural)]
pub struct StableSampler {
    pub previous: Option<FileSignature>,
    pub taken: u8,
}

/// What a look at a file comes to.
pub enum SampleOutcome {
    /// It does not change any more.
    Stable,
    /// Look again after a while.
    Again,
    /// Give up, after a while.
    GiveUp(AppError),
    /// Give up at once.
    Fail(AppError),
}

impl StableSampler {
    /// Fewer looks were taken than may be.
    pub open spec fn wf(self) -> bool {
        self.taken < STABLE_SAMPLE_ATTEMPTS
    }

    pub fn new() -> (r: Self)
        ensures
            r.wf(),
            r.previous is None,
            r.taken == 0,
    {
        StableSampler { previous: None, taken: 0 }
    }

    /// Looks at the file once more. It is stable when it looks as it did before.
    pub fn wait_for_stable_replay(&mut self, seen: FileSignature) -> (r: SampleOutcome)
        requires
            old(self).wf(),
        ensures
            if seen.len > MAX_REPLAY_FILE_BYTES {
                &&& r matches SampleOutcome::Fail(e) && e@ == ErrorView::Process(
                    "replay exceeds 8 MiB safety limit"@,
                )
                &&& *final(self) == *old(self)
            } else if old(self).previous == Some(seen) {
                r is Stable && *final(self) == *old(self)
            } else {
                &&& final(self).previous == Some(seen)
                &&& final(self).taken == old(self).taken + 1
                &&& if final(self).wf() {
                    r is Again
                } else {
                    r matches SampleOutcome::GiveUp(e) && e@ == ErrorView::Process(
                        "replay file never reached a stable on-disk state"@,
                    )
                }
            },
    {
        if seen.len > MAX_REPLAY_FILE_BYTES {
            return SampleOutcome::Fail(
                AppError::Process("replay exceeds 8 MiB safety limit".to_owned()),
            );
        }
        if let Some(p) = self.previous {
            if p == seen {
                return SampleOutcome::Stable;
            }
        }
        self.previous = Some(seen);
        self.taken = self.taken + 1;
        if self.taken < STABLE_SAMPLE_ATTEMPTS {
            SampleOutcome::Again
        } else {
            SampleOutcome::GiveUp(
                AppError::Process("replay file never reached a stable on-disk state".to_owned()),
            )
        }
    }
}

// ---------------------------------------------------------------------------------------------
// Which replays were handled
// ---------------------------------------------------------------------------------------------

/// The error says that the beatmaps are not yet known.
pub open spec fn says_warming(e: ErrorView) -> bool {
    e matches ErrorView::Process(m) && scan::has(m, BEATMAP_CACHE_WARMING_MESSAGE@)
}

/// The error says that the replay is still being written, or that the beatmaps are not yet known.
pub open spec fn says_retry(e: ErrorView) -> bool {
    says_warming(e) || (e matches ErrorView::Process(m) && scan::has(m, "stable on-disk state"@))
}

/// Whether an error says that the beatmaps are not yet known.
pub fn is_beatmap_cache_warming_error(e: &AppError) -> (r: bool)
    ensures
        r == says_warming(e@),
{
    match e {
        AppError::Process(m) => contains(m.as_str(), BEATMAP_CACHE_WARMING_MESSAGE),
        _ => false,
    }
}

/// Whether an error says that the replay is tried again.
pub fn should_retry_replay(e: &AppError) -> (r: bool)
    ensures
        r == says_retry(e@),
{
    match e {
        AppError::Process(m) => contains(m.as_str(), "stable on-disk state") || contains(
            m.as_str(),
            BEATMAP_CACHE_WARMING_MESSAGE,
        ),
        _ => false,
    }
}

/// The replays that are done, and those for which the beatmaps were already looked through.
pub struct ReplayTracker {
    pub seen: StringHashMap<bool>,
    pub retries: StringHashMap<bool>,
}

/// What [`ReplayTracker`] holds.
#[verifier::ext_equal]
pub struct TrackerView {
    pub seen: Set<Seq<char>>,
    pub retries: Set<Seq<char>>,
}

impl View for ReplayTracker {
    type V = TrackerView;

    open spec fn view(&self) -> TrackerView {
        TrackerView { seen: self.seen@.dom(), retries: self.retries@.dom() }
    }
}

/// What becomes of a replay that was tried.
pub enum CandidateOutcome {
    /// It is done.
    Done,
    /// It is tried again once the beatmaps are known.
    Waiting,
    /// It is tried again once it is written.
    Unfinished,
    /// It is done with, for this reason.
    Failed(String),
}

/// The replays that are done once one was tried.
pub open spec fn after_attempt(t: TrackerView, key: Seq<char>, result: AppResult<()>) -> TrackerView {
    match result {
        Ok(_) => TrackerView { seen: t.seen.insert(key), retries: t.retries.remove(key) },
        Err(e) => if says_warming(e@) {
            TrackerView { seen: t.seen, retries: t.retries.insert(key) }
        } else if says_retry(e@) {
            t
        } else {
            TrackerView { seen: t.seen.insert(key), retries: t.retries.remove(key) }
        },
    }
}

impl ReplayTracker {
    /// A tracker for which the given replays are done.
    pub fn new(existing: &Vec<String>) -> (r: Self)
        ensures
            r@.retries == Set::<Seq<char>>::empty(),
            forall|k: Seq<char>|
                r@.seen.contains(k) <==> exists|i: int|
                    0 <= i < existing@.len() && (#[trigger] existing@[i])@ == k,
    {
        let mut seen: StringHashMap<bool> = StringHashMap::new();
        let mut i: usize = 0;
        while i < existing.len()
            invariant
                i <= existing@.len(),
                forall|k: Seq<char>|
                    seen@.dom().contains(k) <==> exists|j: int|
                        0 <= j < i && (#[trigger] existing@[j])@ == k,
            decreases existing@.len() - i,
        {
            let ghost before = seen@.dom();
            seen.insert(existing[i].clone(), true);
            proof {
                assert forall|k: Seq<char>| seen@.dom().contains(k) <==> exists|j: int|
                    0 <= j < i + 1 && (#[trigger] existing@[j])@ == k by {
                    if seen@.dom().contains(k) {
                        if before.contains(k) {
                            let j = choose|j: int| 0 <= j < i && (#[trigger] existing@[j])@ == k;
                            assert(existing@[j]@ == k);
                        } else {
                            assert(existing@[i as int]@ == k);
                        }
                    }
                    if exists|j: int| 0 <= j < i + 1 && (#[trigger] existing@[j])@ == k {
                        let j = choose|j: int| 0 <= j < i + 1 && (#[trigger] existing@[j])@ == k;
                        if j < i {
                            assert(before.contains(k));
                        }
                    }
                }
            }
            i = i + 1;
        }
        let r = ReplayTracker { seen, retries: StringHashMap::new() };
        assert(r@.retries =~= Set::empty());
        r
    }

    /// Whether a replay is tried: it is not done.
    pub fn wants(&self, key: &str) -> (r: bool)
        ensures
            r == !self@.seen.contains(key@),
    {
        !self.seen.contains_key(key)
    }

    /// Whether the beatmaps may be looked through for a replay: they were not before.
    pub fn allows_refresh(&self, key: &str) -> (r: bool)
        ensures
            r == !self@.retries.contains(key@),
    {
        !self.retries.contains_key(key)
    }

    /// Notes what became of a replay that was tried.
    pub fn handle_replay_candidate(&mut self, key: &str, result: &AppResult<()>) -> (r:
        CandidateOutcome)
        ensures
            final(self)@ == after_attempt(old(self)@, key@, *result),
            match *result {
                Ok(_) => r is Done,
                Err(e) => if says_warming(e@) {
                    r is Waiting
                } else if says_retry(e@) {
                    r is Unfinished
                } else {
                    r matches CandidateOutcome::Failed(m) && m@ == e@.shown()
                },
            },
    {
        let ghost before = self@;
        match result {
            Ok(_) => {
                self.retries.remove(key);
                self.seen.insert(key.to_owned(), true);
                assert(self@ =~= after_attempt(before, key@, *result));
                CandidateOutcome::Done
            },
            Err(e) => {
                if is_beatmap_cache_warming_error(e) {
                    self.retries.insert(key.to_owned(), true);
                    assert(self@ =~= after_attempt(before, key@, *result));
                    return CandidateOutcome::Waiting;
                }
                if should_retry_replay(e) {
                    return CandidateOutcome::Unfinished;
                }
                self.retries.remove(key);
                self.seen.insert(key.to_owned(), true);
                assert(self@ =~= after_attempt(before, key@, *result));
                CandidateOutcome::Failed(e.message())
            },
        }
    }
}

/// A replay that is done stays done, whatever is tried later.
pub proof fn done_replays_stay_done(
    t: TrackerView,
    done: Seq<char>,
    key: Seq<char>,
    result: AppResult<()>,
)
    requires
        t.seen.contains(done),
    ensures
        after_attempt(t, key, result).seen.contains(done),
{
}

/// A replay is done once it was tried, unless it has to be tried again.
pub proof fn tried_replays_are_done(t: TrackerView, key: Seq<char>, result: AppResult<()>)
    ensures
        !(result matches Err(e) && says_retry(e@)) ==> after_attempt(t, key, result).seen.contains(key)
            && !after_attempt(t, key, result).retries.contains(key),
        (result matches Err(e) && says_retry(e@)) ==> after_attempt(t, key, result).seen == t.seen,
{
}

/// Beatmaps are looked through at most once for a replay that keeps waiting for them.
pub proof fn refresh_is_asked_for_once(t: TrackerView, key: Seq<char>, e: AppError)
    requires
        says_warming(e@),
    ensures
        after_attempt(t, key, Err(e)).retries.contains(key),
{
}

// ---------------------------------------------------------------------------------------------
// The beatmap of a replay
// ---------------------------------------------------------------------------------------------

/// A place where the beatmap of a replay is looked for.
#[derive(Clone, Copy, PartialEq, Eq, Structural)]
pub enum Lookup {
    /// The cache and the database.
    Indexes,
    /// The folders that fit the name of the replay.
    NameHint,
    /// The cache and the database, once more.
    IndexesAgain,
}

/// What follows when the beatmap of a replay was not found.
#[derive(Clone, Copy, PartialEq, Eq, Structural)]
pub enum LookupNext {
    /// Look there.
    Look(Lookup),
    /// Wait until the songs were looked through.
    Wait,
    /// Look through the songs, and wait.
    RefreshAndWait,
    /// The beatmap is nowhere.
    Missing,
}

/// What follows when neither the indexes nor the name tell the beatmap.
pub open spec fn after_hint(warming: bool, allow_refresh: bool) -> LookupNext {
    if warming {
        LookupNext::Wait
    } else if allow_refresh {
        LookupNext::RefreshAndWait
    } else {
        LookupNext::Look(Lookup::IndexesAgain)
    }
}

/// What follows when the beatmap was not found at a place; nothing was searched at first.
pub open spec fn lookup_next(
    tried: Option<Lookup>,
    has_hint: bool,
    warming: bool,
    allow_refresh: bool,
) -> LookupNext {
    match tried {
        None => LookupNext::Look(Lookup::Indexes),
        Some(Lookup::Indexes) => if has_hint {
            LookupNext::Look(Lookup::NameHint)
        } else {
            after_hint(warming, allow_refresh)
        },
        Some(Lookup::NameHint) => after_hint(warming, allow_refresh),
        Some(Lookup::IndexesAgain) => LookupNext::Missing,
    }
}

/// What follows when the beatmap of a replay was not found at a place.
pub fn resolve_replay_beatmap(
    tried: Option<Lookup>,
    has_hint: bool,
    warming: bool,
    allow_refresh: bool,
) -> (r: LookupNext)
    ensures
        r == lookup_next(tried, has_hint, warming, allow_refresh),
{
    match tried {
        None => {
            return LookupNext::Look(Lookup::Indexes);
        },
        Some(Lookup::Indexes) => {
            if has_hint {
                return LookupNext::Look(Lookup::NameHint);
            }
        },
        Some(Lookup::NameHint) => {},
        Some(Lookup::IndexesAgain) => {
            return LookupNext::Missing;
        },
    }
    if warming {
        LookupNext::Wait
    } else if allow_refresh {
        LookupNext::RefreshAndWait
    } else {
        LookupNext::Look(Lookup::IndexesAgain)
    }
}

/// A beatmap is given up only once the songs were looked through for the replay, and not while they
/// are.
pub proof fn missing_beatmaps_were_searched(has_hint: bool, warming: bool, allow_refresh: bool)
    ensures
        forall|tried: Option<Lookup>|
            #[trigger] lookup_next(tried, has_hint, warming, allow_refresh) == LookupNext::Look(
                Lookup::IndexesAgain,
            ) ==> !warming && !allow_refresh,
        forall|tried: Option<Lookup>|
            #[trigger] lookup_next(tried, has_hint, warming, allow_refresh) == LookupNext::Missing
                ==> tried == Some(Lookup::IndexesAgain),
{
}

/// The error that makes a replay wait for the beatmaps.
pub fn warming_error() -> (e: AppError)
    ensures
        e@ == ErrorView::Process(BEATMAP_CACHE_WARMING_MESSAGE@),
        says_warming(e@),
{
    proof {
        let m = BEATMAP_CACHE_WARMING_MESSAGE@;
        assert(m.subrange(0, m.len() as int) =~= m);
        assert(scan::occurs_at(m, m, 0));
    }
    AppError::Process(BEATMAP_CACHE_WARMING_MESSAGE.to_owned())
}

/// Where a replay lies: in the folder of the replays that the game keeps, and in that of the replays
/// that the player has saved, if there is one.
#[derive(Clone, Copy, PartialEq, Eq, Structural)]
pub struct Placement {
    pub kept: bool,
    pub saved: Option<bool>,
}

/// Whether the player has saved a replay, by its path as it was seen and as it is resolved.
pub fn is_stable_replay_saved_with_f2(seen: Placement, resolved: Option<Placement>) -> (r: bool)
    ensures
        r == (seen.saved is Some && (seen.saved == Some(true) || (resolved matches Some(p)
            && p.saved == Some(true)))),
{
    match seen.saved {
        None => false,
        Some(true) => true,
        Some(false) => match resolved {
            Some(p) => p.saved == Some(true),
            None => false,
        },
    }
}

/// A replay lies in a folder that is watched.
pub open spec fn watched(p: Placement) -> bool {
    p.kept || p.saved == Some(true)
}

/// Whether a replay lies in a folder that is watched, by its path as it was seen and as it is resolved.
pub fn is_watched_osu_stable_replay(seen: Placement, resolved: Option<Placement>) -> (r: bool)
    ensures
        r == (watched(seen) || (resolved matches Some(p) && watched(p))),
{
    if seen.kept || seen.saved == Some(true) {
        return true;
    }
    match resolved {
        Some(p) => p.kept || p.saved == Some(true),
        None => false,
    }
}

// ---------------------------------------------------------------------------------------------
// One replay
// ---------------------------------------------------------------------------------------------

/// What is shown of a play.
pub open spec fn play_detail(m: ResolvedView, player: Seq<char>) -> Seq<char> {
    let total = if m.long_note_count + m.normal_note_count > u32::MAX {
        u32::MAX as nat
    } else {
        (m.long_note_count + m.normal_note_count) as nat
    };
    scan::decimal(m.key_count as nat) + "K | "@ + scan::decimal(m.long_note_count as nat)
        + " LN | "@ + scan::decimal(total) + " notes | Player "@ + player
}

/// What is shown of a play: its keys, its notes and its player.
pub fn replay_detail(beatmap: &ResolvedBeatmap, player: &str) -> (r: String)
    ensures
        r@ == play_detail(beatmap@, player@),
{
    let mut s = cat5(
        show(beatmap.key_count as u64).as_str(),
        "K | ",
        show(beatmap.long_note_count as u64).as_str(),
        " LN | ",
        show(total_note_count(beatmap) as u64).as_str(),
    );
    s.append(" notes | Player ");
    s.append(player);
    s
}

/// What comes back from a step with a replay.
pub enum ReplayEvent {
    /// Whether the file was written.
    Written(AppResult<()>),
    /// The player that its header names.
    Header(AppResult<String>),
    /// Its beatmap.
    Beatmap(AppResult<Option<ResolvedBeatmap>>),
    /// What the filters say.
    Filters(AutoRendererFilterDecision),
    /// Whether somebody is logged in.
    Session(AppResult<bool>),
    /// Whether it was sent.
    Sent(AppResult<()>),
}

/// What [`ReplayEvent`] holds.
pub enum ReplayEventView {
    Written(Result<(), ErrorView>),
    Header(Result<Seq<char>, ErrorView>),
    Beatmap(Result<Option<ResolvedView>, ErrorView>),
    Filters(AutoRendererFilterDecision),
    Session(Result<bool, ErrorView>),
    Sent(Result<(), ErrorView>),
}

impl View for ReplayEvent {
    type V = ReplayEventView;

    open spec fn view(&self) -> ReplayEventView {
        match self {
            ReplayEvent::Written(r) => ReplayEventView::Written(error::plain(*r)),
            ReplayEvent::Header(r) => ReplayEventView::Header(error::outcome(*r)),
            ReplayEvent::Beatmap(r) => ReplayEventView::Beatmap(
                match r {
                    Ok(Some(m)) => Ok(Some(m@)),
                    Ok(None) => Ok(None),
                    Err(e) => Err(e@),
                },
            ),
            ReplayEvent::Filters(d) => ReplayEventView::Filters(*d),
            ReplayEvent::Session(r) => ReplayEventView::Session(error::plain(*r)),
            ReplayEvent::Sent(r) => ReplayEventView::Sent(error::plain(*r)),
        }
    }
}

/// What is shown of a replay.
pub struct ReplayNote {
    pub replay_name: String,
    pub title: String,
    pub detail: String,
    pub status: String,
    pub kind: String,
}

/// What [`ReplayNote`] holds.
pub struct NoteView {
    pub replay_name: Seq<char>,
    pub title: Seq<char>,
    pub detail: Seq<char>,
    pub status: Seq<char>,
    pub kind: Seq<char>,
}

impl View for ReplayNote {
    type V = NoteView;

    open spec fn view(&self) -> NoteView {
        NoteView {
            replay_name: self.replay_name@,
            title: self.title@,
            detail: self.detail@,
            status: self.status@,
            kind: self.kind@,
        }
    }
}

/// What is to be done about a replay.
pub enum ReplayAction {
    ReadHeader,
    FindBeatmap,
    Judge,
    FindSession,
    Send,
    /// Leave it, and show this.
    Leave(ReplayNote),
    Fail(AppError),
    /// It was sent.
    Finish,
}

/// What [`ReplayAction`] holds.
pub enum ReplayActionView {
    ReadHeader,
    FindBeatmap,
    Judge,
    FindSession,
    Send,
    Leave(NoteView),
    Fail(ErrorView),
    Finish,
}

impl View for ReplayAction {
    type V = ReplayActionView;

    open spec fn view(&self) -> ReplayActionView {
        match self {
            ReplayAction::ReadHeader => ReplayActionView::ReadHeader,
            ReplayAction::FindBeatmap => ReplayActionView::FindBeatmap,
            ReplayAction::Judge => ReplayActionView::Judge,
            ReplayAction::FindSession => ReplayActionView::FindSession,
            ReplayAction::Send => ReplayActionView::Send,
            ReplayAction::Leave(n) => ReplayActionView::Leave(n@),
            ReplayAction::Fail(e) => ReplayActionView::Fail(e@),
            ReplayAction::Finish => ReplayActionView::Finish,
        }
    }
}

/// How far a replay has come: what is awaited of it.
#[derive(Clone, Copy, PartialEq, Eq, Structural)]
pub enum ReplayStage {
    Writing,
    Header,
    Beatmap,
    Filters,
    Session,
    Sending,
    Over,
}

/// A replay that is being handled: the name of its file, its player, and what is shown of it once its
/// beatmap is known.
pub struct ReplayRun {
    pub stage: ReplayStage,
    pub name: String,
    pub player: String,
    pub display: String,
    pub detail: String,
}

/// What [`ReplayRun`] holds.
pub struct RunView {
    pub stage: ReplayStage,
    pub name: Seq<char>,
    pub player: Seq<char>,
    pub display: Seq<char>,
    pub detail: Seq<char>,
}

impl View for ReplayRun {
    type V = RunView;

    open spec fn view(&self) -> RunView {
        RunView {
            stage: self.stage,
            name: self.name@,
            player: self.player@,
            display: self.display@,
            detail: self.detail@,
        }
    }
}

/// An event is the one that a stage awaits.
pub open spec fn awaited(stage: ReplayStage, e: ReplayEventView) -> bool {
    match stage {
        ReplayStage::Writing => e is Written,
        ReplayStage::Header => e is Header,
        ReplayStage::Beatmap => e is Beatmap,
        ReplayStage::Filters => e is Filters,
        ReplayStage::Session => e is Session,
        ReplayStage::Sending => e is Sent,
        ReplayStage::Over => false,
    }
}

/// The note about a replay that is left.
pub open spec fn left_note(
    name: Seq<char>,
    title: Seq<char>,
    detail: Seq<char>,
    status: Seq<char>,
) -> ReplayActionView {
    ReplayActionView::Leave(
        NoteView { replay_name: name, title, detail, status, kind: "auto-replay"@ },
    )
}

/// What is to be done about a replay after an event. A replay of another mode and one that the filters
/// reject are ignored; one without a beatmap or without points is skipped; one that nobody can send
/// waits.
pub open spec fn replay_action(s: RunView, e: ReplayEventView) -> ReplayActionView {
    match e {
        ReplayEventView::Written(Ok(_)) => ReplayActionView::ReadHeader,
        ReplayEventView::Written(Err(e)) => ReplayActionView::Fail(e),
        ReplayEventView::Header(Ok(_)) => ReplayActionView::FindBeatmap,
        ReplayEventView::Header(Err(e)) => if scan::has(e.shown(), "osu!mania replays"@) {
            left_note(
                s.name,
                s.name,
                "Ignored because the replay is not osu!mania."@,
                "ignored"@,
            )
        } else {
            ReplayActionView::Fail(e)
        },
        ReplayEventView::Beatmap(Ok(Some(_))) => ReplayActionView::Judge,
        ReplayEventView::Beatmap(Ok(None)) => left_note(
            s.name,
            s.name,
            "Beatmap not found in osu!.db or the local Songs cache; replay skipped."@,
            "skipped"@,
        ),
        ReplayEventView::Beatmap(Err(e)) => ReplayActionView::Fail(e),
        ReplayEventView::Filters(AutoRendererFilterDecision::Match) =>
            ReplayActionView::FindSession,
        ReplayEventView::Filters(AutoRendererFilterDecision::Rejected) => left_note(
            s.name,
            s.display,
            s.detail + " | Ignored by current auto-render filters."@,
            "ignored"@,
        ),
        ReplayEventView::Filters(AutoRendererFilterDecision::PpUnavailable) => left_note(
            s.name,
            s.display,
            s.detail + " | PP unavailable for current filters."@,
            "skipped"@,
        ),
        ReplayEventView::Session(Ok(true)) => ReplayActionView::Send,
        ReplayEventView::Session(Ok(false)) => left_note(
            s.name,
            s.display,
            s.detail + " | Replay matched filters but Miru is not logged in."@,
            "waiting"@,
        ),
        ReplayEventView::Session(Err(e)) => ReplayActionView::Fail(e),
        ReplayEventView::Sent(Ok(_)) => ReplayActionView::Finish,
        ReplayEventView::Sent(Err(e)) => ReplayActionView::Fail(e),
    }
}

/// What is awaited once an action was taken.
pub open spec fn stage_after(a: ReplayActionView) -> ReplayStage {
    match a {
        ReplayActionView::ReadHeader => ReplayStage::Header,
        ReplayActionView::FindBeatmap => ReplayStage::Beatmap,
        ReplayActionView::Judge => ReplayStage::Filters,
        ReplayActionView::FindSession => ReplayStage::Session,
        ReplayActionView::Send => ReplayStage::Sending,
        ReplayActionView::Leave(_) => ReplayStage::Over,
        ReplayActionView::Fail(_) => ReplayStage::Over,
        ReplayActionView::Finish => ReplayStage::Over,
    }
}

/// The name under which a replay with a beatmap is shown.
pub open spec fn play_title(m: ResolvedView) -> Seq<char> {
    m.artist + " - "@ + m.title + " ["@ + m.difficulty_name + "]"@
}

/// A replay after an event: what its header and its beatmap tell is kept.
pub open spec fn replay_after(s: RunView, e: ReplayEventView) -> RunView {
    let stage = stage_after(replay_action(s, e));
    match e {
        ReplayEventView::Header(Ok(player)) => RunView { stage, player, ..s },
        ReplayEventView::Beatmap(Ok(Some(m))) => RunView {
            stage,
            display: play_title(m),
            detail: play_detail(m, s.player),
            ..s
        },
        _ => RunView { stage, ..s },
    }
}

fn leave(name: &str, title: &str, detail: String, status: &str) -> (r: ReplayAction)
    ensures
        r@ == left_note(name@, title@, detail@, status@),
{
    ReplayAction::Leave(
        ReplayNote {
            replay_name: name.to_owned(),
            title: title.to_owned(),
            detail,
            status: status.to_owned(),
            kind: "auto-replay".to_owned(),
        },
    )
}

impl ReplayRun {
    /// A replay that was seen. Its file may still be written.
    pub fn new(name: &str) -> (r: Self)
        ensures
            r@ == (RunView {
                stage: ReplayStage::Writing,
                name: name@,
                player: Seq::empty(),
                display: Seq::empty(),
                detail: Seq::empty(),
            }),
    {
        ReplayRun {
            stage: ReplayStage::Writing,
            name: name.to_owned(),
            player: String::new(),
            display: String::new(),
            detail: String::new(),
        }
    }

    /// Takes what came back from the last step and says what is to be done next.
    pub fn process_replay(&mut self, event: ReplayEvent) -> (r: ReplayAction)
        requires
            awaited(old(self).stage, event@),
        ensures
            r@ == replay_action(old(self)@, event@),
            final(self)@ == replay_after(old(self)@, event@),
    {
        match event {
            ReplayEvent::Written(Ok(_)) => {
                self.stage = ReplayStage::Header;
                ReplayAction::ReadHeader
            },
            ReplayEvent::Header(Ok(player)) => {
                self.stage = ReplayStage::Beatmap;
                self.player = player;
                ReplayAction::FindBeatmap
            },
            ReplayEvent::Header(Err(e)) => {
                self.stage = ReplayStage::Over;
                if contains(e.message().as_str(), "osu!mania replays") {
                    leave(
                        self.name.as_str(),
                        self.name.as_str(),
                        "Ignored because the replay is not osu!mania.".to_owned(),
                        "ignored",
                    )
                } else {
                    ReplayAction::Fail(e)
                }
            },
            ReplayEvent::Beatmap(Ok(Some(m))) => {
                self.stage = ReplayStage::Filters;
                self.display = display_name(None, Some(&m));
                self.detail = replay_detail(&m, self.player.as_str());
                ReplayAction::Judge
            },
            ReplayEvent::Beatmap(Ok(None)) => {
                self.stage = ReplayStage::Over;
                leave(
                    self.name.as_str(),
                    self.name.as_str(),
                    "Beatmap not found in osu!.db or the local Songs cache; replay skipped.".to_owned(),
                    "skipped",
                )
            },
            ReplayEvent::Filters(AutoRendererFilterDecision::Match) => {
                self.stage = ReplayStage::Session;
                ReplayAction::FindSession
            },
            ReplayEvent::Filters(AutoRendererFilterDecision::Rejected) => {
                self.stage = ReplayStage::Over;
                leave(
                    self.name.as_str(),
                    self.display.as_str(),
                    cat(self.detail.as_str(), " | Ignored by current auto-render filters."),
                    "ignored",
                )
            },
            ReplayEvent::Filters(AutoRendererFilterDecision::PpUnavailable) => {
                self.stage = ReplayStage::Over;
                leave(
                    self.name.as_str(),
                    self.display.as_str(),
                    cat(self.detail.as_str(), " | PP unavailable for current filters."),
                    "skipped",
                )
            },
            ReplayEvent::Session(Ok(true)) => {
                self.stage = ReplayStage::Sending;
                ReplayAction::Send
            },
            ReplayEvent::Session(Ok(false)) => {
                self.stage = ReplayStage::Over;
                leave(
                    self.name.as_str(),
                    self.display.as_str(),
                    cat(
                        self.detail.as_str(),
                        " | Replay matched filters but Miru is not logged in.",
                    ),
                    "waiting",
                )
            },
            ReplayEvent::Sent(Ok(_)) => {
                self.stage = ReplayStage::Over;
                ReplayAction::Finish
            },
            ReplayEvent::Written(Err(e)) => {
                self.stage = ReplayStage::Over;
                ReplayAction::Fail(e)
            },
            ReplayEvent::Beatmap(Err(e)) => {
                self.stage = ReplayStage::Over;
                ReplayAction::Fail(e)
            },
            ReplayEvent::Session(Err(e)) => {
                self.stage = ReplayStage::Over;
                ReplayAction::Fail(e)
            },
            ReplayEvent::Sent(Err(e)) => {
                self.stage = ReplayStage::Over;
                ReplayAction::Fail(e)
            },
        }
    }
}

/// A replay after some events, each of them awaited.
pub open spec fn replay_path(s: RunView, events: Seq<ReplayEventView>) -> Option<RunView>
    decreases events.len(),
{
    if events.len() == 0 {
        Some(s)
    } else {
        match replay_path(s, events.drop_last()) {
            Some(t) => if awaited(t.stage, events.last()) {
                Some(replay_after(t, events.last()))
            } else {
                None
            },
            None => None,
        }
    }
}

/// A replay is sent only once its file was written, its header was read, its beatmap was found, the
/// filters have matched and somebody is logged in, in that order.
pub proof fn sent_replays_passed_every_test(s: RunView, events: Seq<ReplayEventView>)
    requires
        s.stage == ReplayStage::Writing,
        replay_path(s, events) matches Some(t) && t.stage == ReplayStage::Sending,
    ensures
        events.len() == 5,
        events[0] matches ReplayEventView::Written(Ok(_)),
        events[1] matches ReplayEventView::Header(Ok(_)),
        events[2] matches ReplayEventView::Beatmap(Ok(Some(_))),
        events[3] == ReplayEventView::Filters(AutoRendererFilterDecision::Match),
        events[4] matches ReplayEventView::Session(Ok(true)),
{
    let e4 = events.drop_last();
    let e3 = e4.drop_last();
    let e2 = e3.drop_last();
    let e1 = e2.drop_last();
    let e0 = e1.drop_last();
    reveal_with_fuel(replay_path, 7);
    assert(e4.len() == events.len() - 1);
    assert(events.last() == events[events.len() - 1]);
    assert(replay_path(s, e4)->Some_0.stage == ReplayStage::Session);
    assert(replay_path(s, e3)->Some_0.stage == ReplayStage::Filters);
    assert(replay_path(s, e2)->Some_0.stage == ReplayStage::Beatmap);
    assert(replay_path(s, e1)->Some_0.stage == ReplayStage::Header);
    assert(replay_path(s, e0)->Some_0.stage == ReplayStage::Writing);
    if e0.len() > 0 {
        assert(stage_after(replay_action(replay_path(s, e0.drop_last())->Some_0, e0.last()))
            != ReplayStage::Writing);
    }
}

/// The note about a replay that has failed.
pub fn failed_note(replay_name: &str, problem: &str) -> (r: ReplayNote)
    ensures
        r@ == (NoteView {
            replay_name: replay_name@,
            title: replay_name@,
            detail: problem@,
            status: "failed"@,
            kind: "auto-render"@,
        }),
{
    ReplayNote {
        replay_name: replay_name.to_owned(),
        title: replay_name.to_owned(),
        detail: problem.to_owned(),
        status: "failed".to_owned(),
        kind: "auto-render".to_owned(),
    }
}

/// What the auto renderer did last, and the entry of the history about it.
pub fn add_auto_event(note: &ReplayNote, id: String, timestamp: String) -> (r: (
    AutoRendererEvent,
    HistoryEntry,
))
    ensures
        r.0.replay_name@ == note.replay_name@,
        r.0.title@ == note.title@,
        r.0.detail@ == note.detail@,
        r.0.status@ == note.status@,
        r.1@ == (HistoryView {
            id: id@,
            timestamp: timestamp@,
            kind: note.kind@,
            title: note.title@,
            detail: note.detail@,
            status: note.status@,
            url: None,
        }),
{
    let event = AutoRendererEvent {
        replay_name: note.replay_name.clone(),
        title: note.title.clone(),
        detail: note.detail.clone(),
        status: note.status.clone(),
    };
    let entry = history_entry(
        id,
        timestamp,
        note.kind.as_str(),
        note.title.as_str(),
        note.detail.as_str(),
        note.status.as_str(),
        None,
    );
    (event, entry)
}

// ---------------------------------------------------------------------------------------------
// Sending
// ---------------------------------------------------------------------------------------------

/// How a replay is sent.
#[derive(Clone, Copy, PartialEq, Eq, Structural)]
pub enum SubmitRoute {
    /// By the number of its score.
    Online(i64),
    /// As a file, because it was seen as one.
    LocalWatched,
    /// As a file, because it has no number.
    LocalUnknown,
}

/// The way by which a score is sent.
pub open spec fn route_for(prefer_local: bool, online_score_id: Option<i64>) -> SubmitRoute {
    if prefer_local {
        SubmitRoute::LocalWatched
    } else {
        match online_score_id {
            Some(id) => if id > 0 {
                SubmitRoute::Online(id)
            } else {
                SubmitRoute::LocalUnknown
            },
            None => SubmitRoute::LocalUnknown,
        }
    }
}

/// How a replay is sent: as a file where it was seen as one, otherwise by the number of its score
/// where it has one.
pub fn submit_score(prefer_local: bool, online_score_id: Option<i64>) -> (r: SubmitRoute)
    ensures
        r == route_for(prefer_local, online_score_id),
        r == if prefer_local {
            SubmitRoute::LocalWatched
        } else {
            match online_score_id {
                Some(id) => if id > 0 {
                    SubmitRoute::Online(id)
                } else {
                    SubmitRoute::LocalUnknown
                },
                None => SubmitRoute::LocalUnknown,
            }
        },
{
    if prefer_local {
        return SubmitRoute::LocalWatched;
    }
    match online_score_id {
        Some(id) => if id > 0 {
            SubmitRoute::Online(id)
        } else {
            SubmitRoute::LocalUnknown
        },
        None => SubmitRoute::LocalUnknown,
    }
}

/// A message of the server says that the score cannot be used by its number.
pub open spec fn asks_for_file(message: Seq<char>) -> bool {
    let m = text::lower_text(message);
    ||| scan::has(m, "no se pudo resolver ese score"@)
    ||| scan::has(m, "no tiene replay descargable"@)
    ||| scan::has(m, "no se pudo descargar el replay oficial"@)
    ||| scan::has(m, "/api/v1/client/score 404"@)
    ||| scan::has(m, "/api/v1/client/score 409"@)
    ||| scan::has(m, "/api/v1/client/score 503"@)
    ||| scan::has(m, "/api/v1/client/score returned 404"@)
}

/// Whether a replay that could not be sent by its number is sent as a file.
pub fn should_fallback_to_local_submit(e: &AppError) -> (r: bool)
    ensures
        r == (e@ matches ErrorView::Process(m) && asks_for_file(m)),
{
    match e {
        AppError::Process(m) => {
            let l = lowercase(m.as_str());
            let s = l.as_str();
            contains(s, "no se pudo resolver ese score") || contains(s, "no tiene replay descargable")
                || contains(s, "no se pudo descargar el replay oficial") || contains(
                s,
                "/api/v1/client/score 404",
            ) || contains(s, "/api/v1/client/score 409") || contains(s, "/api/v1/client/score 503")
                || contains(s, "/api/v1/client/score returned 404")
        },
        _ => false,
    }
}

/// What follows an attempt to send a replay by the number of its score.
pub enum OnlineNext {
    Done,
    /// Send it as a file.
    FallBack,
    Fail(AppError),
}

/// What follows an attempt to send a replay by the number of its score.
pub fn after_online_submit(result: AppResult<()>) -> (r: OnlineNext)
    ensures
        match error::plain(result) {
            Ok(_) => r is Done,
            Err(e) => if e matches ErrorView::Process(m) && asks_for_file(m) {
                r is FallBack
            } else {
                r matches OnlineNext::Fail(f) && f@ == e
            },
        },
{
    match result {
        Ok(_) => OnlineNext::Done,
        Err(e) => if should_fallback_to_local_submit(&e) {
            OnlineNext::FallBack
        } else {
            OnlineNext::Fail(e)
        },
    }
}

/// Why a replay is sent as a file.
pub fn local_reason(watched: bool) -> (r: &'static str)
    ensures
        r@ == if watched {
            "local replay file detected by watcher"@
        } else {
            "no usable online score replay"@
        },
{
    if watched {
        "local replay file detected by watcher"
    } else {
        "no usable online score replay"
    }
}

/// The skin that is used: the usual one where none is set.
pub open spec fn skin_used(skin_id: Seq<char>) -> Seq<char> {
    if text::is_blank(skin_id) {
        "default"@
    } else {
        text::trimmed(skin_id)
    }
}

/// The skin that is used; a setting without one uses the usual one.
pub fn skin_or_default(skin_id: &str) -> (r: String)
    ensures
        r@ == skin_used(skin_id@),
{
    if blank(skin_id) {
        "default".to_owned()
    } else {
        trim(skin_id)
    }
}

/// What is sent about a score that is known by its number.
pub struct OnlineScore {
    pub beatmap_id: i64,
    pub beatmap_set_id: i64,
    pub beatmap_md5: String,
    pub score: i64,
    pub combo: i64,
    pub accuracy: Double,
    pub mods: String,
    pub online_score_id: i64,
    pub replay_original_name: String,
    pub resolution: String,
    pub preset_id: Option<String>,
    pub skin_id: String,
    pub key_count: u8,
    pub long_note_count: u32,
    pub normal_note_count: u32,
}

/// What is sent of a score that is kept online.
pub open spec fn tells_online(
    r: OnlineScore,
    score: ScoreData,
    online_score_id: i64,
    beatmap: ResolvedBeatmap,
    resolution: Resolution,
    skin_id: Seq<char>,
    replay_name: Seq<char>,
) -> bool {
    &&& r.beatmap_id == score.beatmap.id
    &&& r.beatmap_set_id == score.beatmap.set_id
    &&& r.beatmap_md5@ == score.beatmap.md5@
    &&& r.score == score.score
    &&& r.combo == score.combo
    &&& r.accuracy == score.accuracy
    &&& r.mods@ == score.mods@
    &&& r.online_score_id == online_score_id
    &&& r.replay_original_name@ == replay_name
    &&& r.resolution@ == config::resolution_name(resolution)
    &&& r.skin_id@ == skin_used(skin_id)
    &&& r.key_count == beatmap.key_count
    &&& r.long_note_count == beatmap.long_note_count
    &&& r.normal_note_count == beatmap.normal_note_count
}

/// What is sent about a score that is known by its number. A preset without a name is left out.
pub fn submit_online_score(
    score: &ScoreData,
    online_score_id: i64,
    beatmap: &ResolvedBeatmap,
    resolution: Resolution,
    preset_id: Option<&str>,
    skin_id: &str,
    replay_name: &str,
) -> (r: OnlineScore)
    ensures
        tells_online(r, *score, online_score_id, *beatmap, resolution, skin_id@, replay_name@),
        r.beatmap_id == score.beatmap.id,
        r.beatmap_set_id == score.beatmap.set_id,
        r.beatmap_md5@ == score.beatmap.md5@,
        r.score == score.score,
        r.combo == score.combo,
        r.accuracy == score.accuracy,
        r.mods@ == score.mods@,
        r.online_score_id == online_score_id,
        r.replay_original_name@ == replay_name@,
        r.resolution@ == config::resolution_name(resolution),
        text::opt_text(r.preset_id) == match preset_id {
            Some(p) => if text::is_blank(p@) {
                None
            } else {
                Some(p@)
            },
            None => None,
        },
        r.skin_id@ == skin_used(skin_id@),
        r.key_count == beatmap.key_count,
        r.long_note_count == beatmap.long_note_count,
        r.normal_note_count == beatmap.normal_note_count,
{
    let preset = match preset_id {
        Some(p) => if blank(p) {
            None
        } else {
            Some(p.to_owned())
        },
        None => None,
    };
    OnlineScore {
        beatmap_id: score.beatmap.id,
        beatmap_set_id: score.beatmap.set_id,
        beatmap_md5: score.beatmap.md5.clone(),
        score: score.score,
        combo: score.combo,
        accuracy: score.accuracy,
        mods: score.mods.clone(),
        online_score_id,
        replay_original_name: replay_name.to_owned(),
        resolution: config::write_resolution(resolution).to_owned(),
        preset_id: preset,
        skin_id: skin_or_default(skin_id),
        key_count: beatmap.key_count,
        long_note_count: beatmap.long_note_count,
        normal_note_count: beatmap.normal_note_count,
    }
}

/// A field of a form, where a condition holds.
pub open spec fn form_if(condition: bool, name: Seq<char>, value: Seq<char>) -> Seq<
    (Seq<char>, Seq<char>),
> {
    if condition {
        seq![(name, value)]
    } else {
        seq![]
    }
}

/// The fields of the form that a replay is sent with as a file.
pub open spec fn local_fields(
    score: ScoreData,
    replay_name: Seq<char>,
    skin_id: Seq<char>,
    resolution: Resolution,
    preset_id: Option<Seq<char>>,
) -> Seq<(Seq<char>, Seq<char>)> {
    let preset = match preset_id {
        Some(p) => text::trimmed(p),
        None => Seq::empty(),
    };
    seq![
        ("beatmapMd5"@, score.beatmap.md5@),
        ("replayOriginalName"@, replay_name),
        ("skinId"@, skin_used(skin_id)),
        ("resolution"@, config::resolution_name(resolution)),
    ] + form_if(preset.len() > 0, "presetId"@, preset) + form_if(
        score.beatmap.id > 0,
        "beatmapId"@,
        scan::signed_decimal(score.beatmap.id as int),
    ) + form_if(
        score.beatmap.set_id > 0,
        "beatmapSetId"@,
        scan::signed_decimal(score.beatmap.set_id as int),
    )
}

fn push_form(out: &mut Vec<(String, String)>, condition: bool, name: &str, value: String)
    ensures
        assets::fields_view(final(out)@) == assets::fields_view(old(out)@) + form_if(
            condition,
            name@,
            value@,
        ),
{
    if condition {
        out.push((name.to_owned(), value));
    }
    assert(assets::fields_view(out@) =~= assets::fields_view(old(out)@) + form_if(
        condition,
        name@,
        value@,
    ));
}

/// The fields of the form that a replay is sent with as a file.
pub fn submit_local_replay(
    score: &ScoreData,
    replay_name: &str,
    skin_id: &str,
    resolution: Resolution,
    preset_id: Option<&str>,
) -> (r: Vec<(String, String)>)
    ensures
        assets::fields_view(r@) == local_fields(
            *score,
            replay_name@,
            skin_id@,
            resolution,
            text::opt_str(preset_id),
        ),
{
    let preset = match preset_id {
        Some(p) => trim(p),
        None => String::new(),
    };
    let mut out: Vec<(String, String)> = Vec::new();
    out.push(("beatmapMd5".to_owned(), score.beatmap.md5.clone()));
    out.push(("replayOriginalName".to_owned(), replay_name.to_owned()));
    out.push(("skinId".to_owned(), skin_or_default(skin_id)));
    out.push(("resolution".to_owned(), config::write_resolution(resolution).to_owned()));
    assert(assets::fields_view(out@) =~= seq![
        ("beatmapMd5"@, score.beatmap.md5@),
        ("replayOriginalName"@, replay_name@),
        ("skinId"@, skin_used(skin_id@)),
        ("resolution"@, config::resolution_name(resolution)),
    ]);
    push_form(&mut out, !preset.as_str().is_empty(), "presetId", preset);
    push_form(
        &mut out,
        score.beatmap.id > 0,
        "beatmapId",
        show_signed(score.beatmap.id),
    );
    push_form(
        &mut out,
        score.beatmap.set_id > 0,
        "beatmapSetId",
        show_signed(score.beatmap.set_id),
    );
    out
}

/// The message of an error that a response tells.
pub open spec fn response_message(j: JsonView) -> Option<Seq<char>> {
    let inner = match j.field("error"@) {
        Some(e) => e.text_field("message"@),
        None => None,
    };
    match inner {
        Some(m) => Some(m),
        None => j.text_field("message"@),
    }
}

/// The message of an error that a response tells.
pub fn response_error_message(body: &Json) -> (r: Option<String>)
    ensures
        text::opt_text(r) == response_message(body@),
{
    if let Some(e) = body.get("error") {
        if let Some(m) = e.text_of("message") {
            return Some(m.to_owned());
        }
    }
    match body.text_of("message") {
        Some(m) => Some(m.to_owned()),
        None => None,
    }
}

/// What sending a replay has failed with, by the status of the response, the message that it tells and
/// its text.
pub open spec fn submit_failure(
    endpoint: Seq<char>,
    status: u16,
    status_text: Seq<char>,
    message: Option<Seq<char>>,
    body: Seq<char>,
) -> ErrorView {
    let head = "auto-render submit failed ("@ + endpoint + " "@ + status_text + ")"@;
    ErrorView::Process(
        match message {
            Some(m) => head + ": "@ + m,
            None => if status == 404 {
                "auto-render submit endpoint is unavailable on the current backend ("@ + endpoint
                    + " returned 404)"@
            } else if text::is_blank(body) {
                head
            } else {
                head + ": "@ + text::trimmed(body)
            },
        },
    )
}

/// What sending a replay has failed with, given the message that the response tells.
pub fn submit_error(
    endpoint: &str,
    status: u16,
    status_text: &str,
    message: Option<String>,
    body: &str,
) -> (e: AppError)
    ensures
        e@ == submit_failure(endpoint@, status, status_text@, text::opt_text(message), body@),
{
    let head = cat5("auto-render submit failed (", endpoint, " ", status_text, ")");
    match message {
        Some(m) => AppError::Process(cat3(head.as_str(), ": ", m.as_str())),
        None => if status == 404 {
            AppError::Process(
                cat3(
                    "auto-render submit endpoint is unavailable on the current backend (",
                    endpoint,
                    " returned 404)",
                ),
            )
        } else if blank(body) {
            AppError::Process(head)
        } else {
            AppError::Process(cat3(head.as_str(), ": ", trim(body).as_str()))
        },
    }
}

/// What sending a replay has failed with, by its response.
pub fn handle_submit_response(endpoint: &str, status: u16, status_text: &str, body: &str) -> (e: AppError)
    ensures
        e@ == submit_failure(
            endpoint@,
            status,
            status_text@,
            match json::parsed_text(body@) {
                Some(j) => response_message(j),
                None => None,
            },
            body@,
        ),
{
    let message = match json::parse(body) {
        Some(j) => response_error_message(&j),
        None => None,
    };
    submit_error(endpoint, status, status_text, message, body)
}

/// The job that a response tells.
pub open spec fn job_in(j: JsonView) -> Seq<char> {
    let field = match j.field("jobId"@) {
        Some(v) => Some(v),
        None => match j.field("data"@) {
            Some(d) => d.field("jobId"@),
            None => None,
        },
    };
    match field {
        Some(v) => match v.text() {
            Some(s) => s,
            None => Seq::empty(),
        },
        None => Seq::empty(),
    }
}

/// What is shown of a replay that was sent: the job that renders it, if it is known.
pub fn submitted_detail(detail: &str, body: &Json) -> (r: String)
    ensures
        r@ == if job_in(body@).len() == 0 {
            detail@ + " | Upload accepted."@
        } else {
            detail@ + " | Render job "@ + job_in(body@) + "."@
        },
{
    let field = match body.get("jobId") {
        Some(v) => Some(v),
        None => match body.get("data") {
            Some(d) => d.get("jobId"),
            None => None,
        },
    };
    let job = match field {
        Some(v) => match v.as_str() {
            Some(s) => s.to_owned(),
            None => String::new(),
        },
        None => String::new(),
    };
    if job.as_str().is_empty() {
        cat(detail, " | Upload accepted.")
    } else {
        let mut s = cat3(detail, " | Render job ", job.as_str());
        s.append(".");
        s
    }
}

/// The note about a replay that was sent.
pub fn submitted_note(display: &str, detail: &str, body: &Json) -> (r: ReplayNote)
    ensures
        r@ == (NoteView {
            replay_name: display@,
            title: display@,
            detail: if job_in(body@).len() == 0 {
                detail@ + " | Upload accepted."@
            } else {
                detail@ + " | Render job "@ + job_in(body@) + "."@
            },
            status: "started"@,
            kind: "render"@,
        }),
{
    ReplayNote {
        replay_name: display.to_owned(),
        title: display.to_owned(),
        detail: submitted_detail(detail, body),
        status: "started".to_owned(),
        kind: "render".to_owned(),
    }
}

// ---------------------------------------------------------------------------------------------
// The mapset that is sent along
// ---------------------------------------------------------------------------------------------

/// A part of a path below the folder of a mapset: a name, or something else.
pub enum PathPart {
    Name(String),
    Other,
}

/// A name that a file in an archive may have.
pub open spec fn is_entry_name(name: Seq<char>) -> bool {
    !text::is_blank(name) && !scan::has_char(name, '/') && !scan::has_char(name, '\\')
}

/// The names of a path, or what is wrong with one of its parts.
pub open spec fn entry_names(parts: Seq<PathPart>) -> Result<Seq<Seq<char>>, ErrorView>
    decreases parts.len(),
{
    if parts.len() == 0 {
        Ok(Seq::empty())
    } else {
        match entry_names(parts.drop_last()) {
            Err(e) => Err(e),
            Ok(names) => match parts.last() {
                PathPart::Name(n) => if is_entry_name(n@) {
                    Ok(names.push(n@))
                } else {
                    Err(ErrorView::Process("local mapset contains an invalid file name"@))
                },
                PathPart::Other => Err(
                    ErrorView::Process("local mapset contains an invalid relative path"@),
                ),
            },
        }
    }
}

/// The name of a file in the archive of a mapset, from the parts of its path below the folder of the
/// mapset; a file outside of that folder has none.
pub open spec fn entry_path(parts: Option<Seq<PathPart>>) -> Result<Seq<char>, ErrorView> {
    match parts {
        None => Err(
            ErrorView::Process("local mapset file escaped the selected mapset directory"@),
        ),
        Some(p) => match entry_names(p) {
            Err(e) => Err(e),
            Ok(names) => if names.len() == 0 {
                Err(ErrorView::Process("local mapset file has an empty relative path"@))
            } else {
                Ok(scan::joined(names, "/"@))
            },
        },
    }
}

proof fn entry_names_fail(parts: Seq<PathPart>, k: int, e: ErrorView)
    requires
        0 <= k <= parts.len(),
        entry_names(parts.take(k)) == Err::<Seq<Seq<char>>, _>(e),
    ensures
        entry_names(parts) == Err::<Seq<Seq<char>>, _>(e),
    decreases parts.len() - k,
{
    if k == parts.len() {
        assert(parts.take(k) =~= parts);
    } else {
        assert(parts.take(k + 1).drop_last() =~= parts.take(k));
        entry_names_fail(parts, k + 1, e);
    }
}

/// What the parts of an optional path are.
pub open spec fn opt_parts(o: Option<Vec<PathPart>>) -> Option<Seq<PathPart>> {
    match o {
        Some(v) => Some(v@),
        None => None,
    }
}

/// The name of a file in the archive of a mapset.
pub fn zip_relative_name(parts: Option<Vec<PathPart>>) -> (r: AppResult<String>)
    ensures
        error::outcome(r) == entry_path(opt_parts(parts)),
{
    let list = match parts {
        Some(p) => p,
        None => {
            return Err(
                AppError::Process(
                    "local mapset file escaped the selected mapset directory".to_owned(),
                ),
            );
        },
    };
    let mut names: Vec<String> = Vec::new();
    let mut i: usize = 0;
    assert(list@.take(0) =~= Seq::empty());
    assert(text::texts(names@) =~= Seq::empty());
    while i < list.len()
        invariant
            opt_parts(parts) == Some(list@),
            i <= list@.len(),
            entry_names(list@.take(i as int)) == Ok::<_, ErrorView>(text::texts(names@)),
        decreases list@.len() - i,
    {
        proof {
            assert(list@.take(i + 1).drop_last() =~= list@.take(i as int));
            assert(list@.take(i + 1).last() == list@[i as int]);
        }
        match &list[i] {
            PathPart::Name(n) => {
                if blank(n.as_str()) || contains_char(n.as_str(), '/') || contains_char(
                    n.as_str(),
                    '\\',
                ) {
                    let e = AppError::Process(
                        "local mapset contains an invalid file name".to_owned(),
                    );
                    proof {
                        entry_names_fail(list@, i + 1, e@);
                    }
                    return Err(e);
                }
                let ghost before = text::texts(names@);
                names.push(n.clone());
                assert(text::texts(names@) =~= before.push(n@));
            },
            PathPart::Other => {
                let e = AppError::Process(
                    "local mapset contains an invalid relative path".to_owned(),
                );
                proof {
                    entry_names_fail(list@, i + 1, e@);
                }
                return Err(e);
            },
        }
        i = i + 1;
    }
    assert(list@.take(list@.len() as int) =~= list@);
    assert(text::texts(names@).len() == names@.len());
    if names.len() == 0 {
        return Err(
            AppError::Process("local mapset file has an empty relative path".to_owned()),
        );
    }
    Ok(join(&names, "/"))
}

/// No name in an archive leads out of it: each of its names is one that a file may have.
pub proof fn entry_names_are_plain(parts: Seq<PathPart>, i: int)
    requires
        entry_names(parts) matches Ok(names) && 0 <= i < names.len(),
    ensures
        entry_names(parts)->Ok_0.len() == parts.len(),
        is_entry_name(entry_names(parts)->Ok_0[i]),
    decreases parts.len(),
{
    if parts.len() > 0 {
        let before = entry_names(parts.drop_last())->Ok_0;
        if i < before.len() {
            entry_names_are_plain(parts.drop_last(), i);
        } else if before.len() > 0 {
            entry_names_are_plain(parts.drop_last(), 0);
        } else {
            entry_count(parts.drop_last());
        }
    }
}

proof fn entry_count(parts: Seq<PathPart>)
    ensures
        entry_names(parts) matches Ok(names) ==> names.len() == parts.len(),
    decreases parts.len(),
{
    if parts.len() > 0 {
        entry_count(parts.drop_last());
    }
}

/// What is asked of a mapset before it is put into an archive.
#[derive(Clone, Copy, PartialEq, Eq, Structural)]
pub enum MapsetCheck {
    /// The beatmap lies in a folder.
    HasFolder,
    /// The folder can be opened.
    IsFolder,
    /// The files of the folder hold the beatmap.
    HoldsBeatmap,
}

/// What is wrong with a mapset that does not meet a check.
pub open spec fn mapset_problem(check: MapsetCheck) -> Seq<char> {
    match check {
        MapsetCheck::HasFolder => "resolved beatmap path has no parent mapset directory"@,
        MapsetCheck::IsFolder => "resolved mapset directory is not available"@,
        MapsetCheck::HoldsBeatmap => "local mapset folder does not contain the replay beatmap file"@,
    }
}

/// Refuses a mapset that does not meet a check.
pub fn check_mapset(check: MapsetCheck, met: bool) -> (r: AppResult<()>)
    ensures
        error::plain(r) == if met {
            Ok(())
        } else {
            Err(ErrorView::Process(mapset_problem(check)))
        },
{
    if met {
        return Ok(());
    }
    let problem = match check {
        MapsetCheck::HasFolder => "resolved beatmap path has no parent mapset directory",
        MapsetCheck::IsFolder => "resolved mapset directory is not available",
        MapsetCheck::HoldsBeatmap => "local mapset folder does not contain the replay beatmap file",
    };
    Err(AppError::Process(problem.to_owned()))
}

/// What an entry of the folder of a mapset is.
#[derive(Clone, Copy, PartialEq, Eq, Structural)]
pub enum EntryKind {
    Link,
    Folder,
    File,
    Other,
}

/// What is done with an entry of the folder of a mapset.
#[derive(Clone, Copy, PartialEq, Eq, Structural)]
pub enum EntryUse {
    Skip,
    /// Look into it.
    Descend,
    /// Put it into the archive.
    Take,
}

/// What is done with an entry of the folder of a mapset.
pub open spec fn entry_use(kind: EntryKind, inside: Option<bool>) -> EntryUse {
    match kind {
        EntryKind::Folder => if inside == Some(true) {
            EntryUse::Descend
        } else {
            EntryUse::Skip
        },
        EntryKind::File => if inside == Some(true) {
            EntryUse::Take
        } else {
            EntryUse::Skip
        },
        _ => EntryUse::Skip,
    }
}

/// What is done with an entry of the folder of a mapset, given whether it lies inside of the mapset
/// once its path is resolved. Links, and what lies elsewhere, are left out.
pub fn mapset_entry(kind: EntryKind, inside: Option<bool>) -> (r: EntryUse)
    ensures
        r == entry_use(kind, inside),
        r == match kind {
            EntryKind::Folder => if inside == Some(true) {
                EntryUse::Descend
            } else {
                EntryUse::Skip
            },
            EntryKind::File => if inside == Some(true) {
                EntryUse::Take
            } else {
                EntryUse::Skip
            },
            _ => EntryUse::Skip,
        },
{
    if inside != Some(true) {
        return EntryUse::Skip;
    }
    match kind {
        EntryKind::Folder => EntryUse::Descend,
        EntryKind::File => EntryUse::Take,
        _ => EntryUse::Skip,
    }
}

/// The files and bytes of a mapset that is put into an archive.
#[derive(Clone, Copy, PartialEq, Eq, Structural)]
pub struct ArchiveMeter {
    pub files: usize,
    pub bytes: u64,
}

impl ArchiveMeter {
    pub fn new() -> (r: Self)
        ensures
            r.files == 0,
            r.bytes == 0,
    {
        ArchiveMeter { files: 0, bytes: 0 }
    }

    /// Counts a file of the mapset; a mapset with too many of them is refused.
    pub fn collect_mapset_files(&mut self) -> (r: AppResult<()>)
        requires
            old(self).files <= MAX_LOCAL_MAPSET_FILES,
        ensures
            final(self).files == old(self).files + 1,
            final(self).bytes == old(self).bytes,
            error::plain(r) == if final(self).files > MAX_LOCAL_MAPSET_FILES {
                Err(ErrorView::Process("local mapset has more than 4096 files"@))
            } else {
                Ok(())
            },
    {
        self.files = self.files + 1;
        if self.files > MAX_LOCAL_MAPSET_FILES {
            return Err(AppError::Process("local mapset has more than 4096 files".to_owned()));
        }
        Ok(())
    }

    /// Counts the bytes of a file that goes into the archive; a mapset with too many of them is
    /// refused.
    pub fn create_local_mapset_archive(&mut self, len: u64) -> (r: AppResult<()>)
        ensures
            final(self).files == old(self).files,
            final(self).bytes == if old(self).bytes + len > u64::MAX {
                u64::MAX as int
            } else {
                old(self).bytes + len
            },
            error::plain(r) == if old(self).bytes + len > MAX_LOCAL_MAPSET_ARCHIVE_BYTES {
                Err(ErrorView::Process("local mapset exceeds 512 MiB upload safety limit"@))
            } else {
                Ok(())
            },
    {
        self.bytes = self.bytes.saturating_add(len);
        if self.bytes > MAX_LOCAL_MAPSET_ARCHIVE_BYTES {
            return Err(
                AppError::Process("local mapset exceeds 512 MiB upload safety limit".to_owned()),
            );
        }
        Ok(())
    }
}

/// Refuses an archive that is too large.
pub fn check_mapset_archive(len: u64) -> (r: AppResult<()>)
    ensures
        error::plain(r) == if len > MAX_LOCAL_MAPSET_ARCHIVE_BYTES {
            Err(ErrorView::Process("local mapset archive exceeds 512 MiB upload safety limit"@))
        } else {
            Ok(())
        },
{
    if len > MAX_LOCAL_MAPSET_ARCHIVE_BYTES {
        return Err(
            AppError::Process(
                "local mapset archive exceeds 512 MiB upload safety limit".to_owned(),
            ),
        );
    }
    Ok(())
}

/// A character that the name of a file may hold.
pub open spec fn is_file_char(c: char) -> bool {
    text::is_alnum(c) || c == '-' || c == '_' || c == '.' || c == ' '
}

/// A character of the name of a file, or an underscore in its place.
pub open spec fn file_char(c: char) -> char {
    if is_file_char(c) {
        c
    } else {
        '_'
    }
}

/// A character that does not stand at either end of the name of a file.
pub open spec fn edge() -> spec_fn(char) -> bool {
    |c: char| c == ' ' || c == '.' || c == '_' || c == '-'
}

/// The first ninety-six characters of a text, each one of the name of a file.
pub open spec fn file_chars(s: Seq<char>) -> Seq<char> {
    Seq::new(
        if s.len() < 96 {
            s.len()
        } else {
            96
        },
        |i: int| file_char(s[i]),
    )
}

/// The name of a file that a text becomes.
pub open spec fn file_name(s: Seq<char>) -> Seq<char> {
    let t = text::drop_back(text::drop_front(file_chars(s), edge()), edge());
    if t.len() == 0 {
        "mapset"@
    } else {
        t
    }
}

/// The name of a file that a text becomes.
pub fn safe_filename_component(value: &str) -> (r: String)
    ensures
        r@ == file_name(value@),
{
    let v = chars_of(value);
    let mut out: Vec<char> = Vec::new();
    let mut i: usize = 0;
    while i < v.len() && i < 96
        invariant
            i <= v@.len(),
            i <= 96,
            v@ == value@,
            out@.len() == i,
            forall|j: int| 0 <= j < i ==> #[trigger] out@[j] == file_char(value@[j]),
        decreases v@.len() - i,
    {
        let c = v[i];
        if alnum(c) || c == '-' || c == '_' || c == '.' || c == ' ' {
            out.push(c);
        } else {
            out.push('_');
        }
        i = i + 1;
    }
    assert(out@ =~= file_chars(value@));
    let front = text::cut_front(
        out.as_slice(),
        |c: char| -> (b: bool)
            ensures b == (c == ' ' || c == '.' || c == '_' || c == '-')
            { c == ' ' || c == '.' || c == '_' || c == '-' },
        Ghost(edge()),
    );
    let both = text::cut_back(
        front.as_slice(),
        |c: char| -> (b: bool)
            ensures b == (c == ' ' || c == '.' || c == '_' || c == '-')
            { c == ' ' || c == '.' || c == '_' || c == '-' },
        Ghost(edge()),
    );
    if both.len() == 0 {
        "mapset".to_owned()
    } else {
        text_of(both.as_slice())
    }
}

/// Replays are rendered for those who have the plan, by their role or their plan, and for those who run the
/// service; the case of the words does not matter.
pub proof fn members_may_auto_render(role: Seq<char>, plan: Seq<char>)
    ensures
        text::upper_text(text::trimmed(role)) == "PLUS"@ ==> may_auto_render(role, plan),
        text::upper_text(text::trimmed(role)) == "ADMIN"@ ==> may_auto_render(role, plan),
        text::upper_text(text::trimmed(plan)) == "PLUS"@ ==> may_auto_render(role, plan),
        text::upper_text(text::trimmed(role)) != "PLUS"@ && text::upper_text(text::trimmed(role))
            != "ADMIN"@ && text::upper_text(text::trimmed(plan)) != "PLUS"@ ==> !may_auto_render(role, plan),
{
}

/// A replay that was handled is not looked at again, whether it went well or failed for good; one that has to
/// wait for the beatmaps is tried again, and one that is not written yet is left as it was. No other replay is
/// touched.
pub proof fn attempts_are_remembered(t: TrackerView, key: Seq<char>, other: Seq<char>, e: AppError)
    ensures
        after_attempt(t, key, Ok(())).seen.contains(key) && !after_attempt(t, key, Ok(())).retries.contains(
            key,
        ),
        (e@ matches ErrorView::Process(m) && scan::has(m, BEATMAP_CACHE_WARMING_MESSAGE@)) ==> after_attempt(
            t,
            key,
            Err(e),
        ).seen == t.seen && after_attempt(t, key, Err(e)).retries.contains(key),
        (e@ matches ErrorView::Process(m) && !scan::has(m, BEATMAP_CACHE_WARMING_MESSAGE@) && scan::has(
            m,
            "stable on-disk state"@,
        )) ==> after_attempt(t, key, Err(e)) == t,
        !(e@ is Process) ==> after_attempt(t, key, Err(e)).seen.contains(key) && !after_attempt(
            t,
            key,
            Err(e),
        ).retries.contains(key),
        (e@ matches ErrorView::Process(m) && !scan::has(m, BEATMAP_CACHE_WARMING_MESSAGE@) && !scan::has(
            m,
            "stable on-disk state"@,
        )) ==> after_attempt(t, key, Err(e)).seen.contains(key) && !after_attempt(
            t,
            key,
            Err(e),
        ).retries.contains(key),
        other != key ==> (after_attempt(t, key, Err(e)).seen.contains(other) <==> t.seen.contains(other)) && (
        after_attempt(t, key, Err(e)).retries.contains(other) <==> t.retries.contains(other)),
        other != key ==> (after_attempt(t, key, Ok(())).seen.contains(other) <==> t.seen.contains(other)) && (
        after_attempt(t, key, Ok(())).retries.contains(other) <==> t.retries.contains(other)),
{
}

/// A beatmap is looked for in the indexes first, then by its name where there is a hint of it; then the search
/// waits for the beatmaps that are being read, asks for them to be read again where it may, and looks into the
/// indexes once more otherwise.
pub proof fn searches_go_on(has_hint: bool, warming: bool, allow_refresh: bool)
    ensures
        lookup_next(None, has_hint, warming, allow_refresh) == LookupNext::Look(Lookup::Indexes),
        has_hint ==> lookup_next(Some(Lookup::Indexes), has_hint, warming, allow_refresh)
            == LookupNext::Look(Lookup::NameHint),
        !has_hint ==> lookup_next(Some(Lookup::Indexes), has_hint, warming, allow_refresh) == lookup_next(
            Some(Lookup::NameHint),
            has_hint,
            warming,
            allow_refresh,
        ),
        warming ==> lookup_next(Some(Lookup::NameHint), has_hint, warming, allow_refresh)
            == LookupNext::Wait,
        !warming && allow_refresh ==> lookup_next(Some(Lookup::NameHint), has_hint, warming, allow_refresh)
            == LookupNext::RefreshAndWait,
        !warming && !allow_refresh ==> lookup_next(
            Some(Lookup::NameHint),
            has_hint,
            warming,
            allow_refresh,
        ) == LookupNext::Look(Lookup::IndexesAgain),
        lookup_next(Some(Lookup::IndexesAgain), has_hint, warming, allow_refresh) == LookupNext::Missing,
{
}

/// A replay is sent where every test of it went well, one after the other, and is left with a note where it is
/// not one of osu!mania, its beatmap is missing, the filters refuse it or nobody is logged in.
pub proof fn replays_go_their_way(s: RunView, m: ResolvedView, player: Seq<char>, e: ErrorView)
    ensures
        replay_action(s, ReplayEventView::Header(Ok(player))) is FindBeatmap,
        replay_after(s, ReplayEventView::Header(Ok(player))).player == player,
        replay_action(s, ReplayEventView::Beatmap(Ok(Some(m)))) is Judge,
        replay_action(s, ReplayEventView::Filters(AutoRendererFilterDecision::Match)) is FindSession,
        replay_action(s, ReplayEventView::Session(Ok(true))) is Send,
        replay_action(s, ReplayEventView::Beatmap(Ok(None))) matches ReplayActionView::Leave(n) && n.status
            == "skipped"@ && n.replay_name == s.name,
        replay_action(
            s,
            ReplayEventView::Filters(AutoRendererFilterDecision::Rejected),
        ) matches ReplayActionView::Leave(n) && n.status == "ignored"@ && n.title == s.display,
        replay_action(
            s,
            ReplayEventView::Filters(AutoRendererFilterDecision::PpUnavailable),
        ) matches ReplayActionView::Leave(n) && n.status == "skipped"@ && n.title == s.display,
        replay_action(s, ReplayEventView::Session(Ok(false))) matches ReplayActionView::Leave(n) && n.status
            == "waiting"@,
        replay_action(s, ReplayEventView::Beatmap(Err(e))) == ReplayActionView::Fail(e),
        replay_action(s, ReplayEventView::Session(Err(e))) == ReplayActionView::Fail(e),
        replay_action(s, ReplayEventView::Sent(Err(e))) == ReplayActionView::Fail(e),
        scan::has(e.shown(), "osu!mania replays"@) ==> (replay_action(
            s,
            ReplayEventView::Header(Err(e)),
        ) matches ReplayActionView::Leave(n) && n.status == "ignored"@),
        !scan::has(e.shown(), "osu!mania replays"@) ==> replay_action(s, ReplayEventView::Header(Err(e)))
            == ReplayActionView::Fail(e),
{
}

/// A form has a value under a name.
pub open spec fn form_tells(
    form: Seq<(Seq<char>, Seq<char>)>,
    name: Seq<char>,
    value: Seq<char>,
) -> bool {
    form.contains((name, value))
}

/// A replay is sent with the hash of its beatmap, its name, a skin and a resolution, and with the preset and
/// the numbers of the beatmap and its set where there are any.
pub proof fn forms_tell_the_replay(
    score: ScoreData,
    replay_name: Seq<char>,
    skin_id: Seq<char>,
    resolution: Resolution,
    preset: Seq<char>,
)
    ensures
        ({
            let f = local_fields(score, replay_name, skin_id, resolution, Some(preset));
            &&& form_tells(f, "beatmapMd5"@, score.beatmap.md5@)
            &&& form_tells(f, "replayOriginalName"@, replay_name)
            &&& text::is_blank(skin_id) ==> form_tells(f, "skinId"@, "default"@)
            &&& !text::is_blank(skin_id) ==> form_tells(f, "skinId"@, text::trimmed(skin_id))
            &&& resolution == Resolution::P720 ==> form_tells(f, "resolution"@, "p720"@)
            &&& resolution == Resolution::P1080 ==> form_tells(f, "resolution"@, "p1080"@)
            &&& !text::is_blank(preset) ==> form_tells(f, "presetId"@, text::trimmed(preset))
            &&& score.beatmap.id > 0 ==> form_tells(
                f,
                "beatmapId"@,
                scan::decimal(score.beatmap.id as nat),
            )
            &&& score.beatmap.set_id > 0 ==> form_tells(
                f,
                "beatmapSetId"@,
                scan::decimal(score.beatmap.set_id as nat),
            )
            &&& f.len() == 4 + (if text::is_blank(preset) {
                0int
            } else {
                1
            }) + (if score.beatmap.id > 0 {
                1int
            } else {
                0
            }) + (if score.beatmap.set_id > 0 {
                1int
            } else {
                0
            })
        }),
        local_fields(score, replay_name, skin_id, resolution, None) == local_fields(
            score,
            replay_name,
            skin_id,
            resolution,
            Some(Seq::empty()),
        ),
{
    let f = local_fields(score, replay_name, skin_id, resolution, Some(preset));
    let n = f.len() as int;
    assert(f[0] == ("beatmapMd5"@, score.beatmap.md5@));
    assert(f[1] == ("replayOriginalName"@, replay_name));
    assert(f[2] == ("skinId"@, skin_used(skin_id)));
    assert(f[3] == ("resolution"@, config::resolution_name(resolution)));
    if !text::is_blank(preset) {
        assert(f[4] == ("presetId"@, text::trimmed(preset)));
    }
    if score.beatmap.set_id > 0 {
        assert(f[n - 1] == ("beatmapSetId"@, scan::decimal(score.beatmap.set_id as nat)));
        if score.beatmap.id > 0 {
            assert(f[n - 2] == ("beatmapId"@, scan::decimal(score.beatmap.id as nat)));
        }
    } else if score.beatmap.id > 0 {
        assert(f[n - 1] == ("beatmapId"@, scan::decimal(score.beatmap.id as nat)));
    }
}

/// The job that a response tells is found at its top, or else in its data.
pub proof fn told_jobs_are_found(j: JsonView, id: Seq<char>)
    ensures
        (j.field("jobId"@) matches Some(v) && v.text() == Some(id)) ==> job_in(j) == id,
        j.field("jobId"@) is None && (j.field("data"@) matches Some(d) && (d.field("jobId"@) matches Some(v)
            && v.text() == Some(id))) ==> job_in(j) == id,
        j.field("jobId"@) is None && j.field("data"@) is None ==> job_in(j).len() == 0,
{
}

/// The message of a response is that of its error, or else its own.
pub proof fn told_messages_are_found(j: JsonView, m: Seq<char>)
    ensures
        (j.field("error"@) matches Some(e) && e.text_field("message"@) == Some(m)) ==> response_message(j)
            == Some(m),
        j.field("error"@) is None ==> response_message(j) == j.text_field("message"@),
{
}

/// A score that is kept online is sent with its own numbers, on the beatmap that was found, in the resolution and
/// with the skin that were chosen.
pub proof fn online_scores_tell_the_play(
    r: OnlineScore,
    score: ScoreData,
    online_score_id: i64,
    beatmap: ResolvedBeatmap,
    resolution: Resolution,
    skin_id: Seq<char>,
    replay_name: Seq<char>,
)
    requires
        tells_online(r, score, online_score_id, beatmap, resolution, skin_id, replay_name),
    ensures
        r.beatmap_id == score.beatmap.id && r.beatmap_set_id == score.beatmap.set_id && r.beatmap_md5@
            == score.beatmap.md5@,
        r.score == score.score && r.combo == score.combo && r.accuracy == score.accuracy && r.mods@
            == score.mods@,
        r.online_score_id == online_score_id && r.replay_original_name@ == replay_name,
        resolution == Resolution::P720 ==> r.resolution@ == "p720"@,
        resolution == Resolution::P1080 ==> r.resolution@ == "p1080"@,
        text::is_blank(skin_id) ==> r.skin_id@ == "default"@,
        !text::is_blank(skin_id) ==> r.skin_id@ == text::trimmed(skin_id),
        r.key_count == beatmap.key_count && r.long_note_count == beatmap.long_note_count
            && r.normal_note_count == beatmap.normal_note_count,
{
}

/// A score is sent by its online number where it has one above zero, unless its file is preferred; the file is
/// sent otherwise.
pub proof fn scores_find_their_way(id: i64)
    ensures
        id > 0 ==> route_for(false, Some(id)) == SubmitRoute::Online(id),
        id <= 0 ==> route_for(false, Some(id)) == SubmitRoute::LocalUnknown,
        route_for(false, None) == SubmitRoute::LocalUnknown,
        route_for(true, Some(id)) == SubmitRoute::LocalWatched,
        route_for(true, None) == SubmitRoute::LocalWatched,
{
}

proof fn names_are_kept(parts: Seq<PathPart>)
    requires
        forall|i: int|
            0 <= i < parts.len() ==> (#[trigger] parts[i] matches PathPart::Name(n) && is_entry_name(n@)),
    ensures
        entry_names(parts) == Ok::<Seq<Seq<char>>, ErrorView>(
            Seq::new(parts.len(), |i: int| parts[i]->Name_0@),
        ),
    decreases parts.len(),
{
    let names = Seq::new(parts.len(), |i: int| parts[i]->Name_0@);
    if parts.len() == 0 {
        assert(names =~= Seq::empty());
    } else {
        let less = parts.drop_last();
        assert forall|i: int| 0 <= i < less.len() implies (#[trigger] less[i] matches PathPart::Name(n)
            && is_entry_name(n@)) by {
            assert(less[i] == parts[i]);
        }
        names_are_kept(less);
        assert(parts[parts.len() - 1] is Name);
        assert(Seq::new(less.len(), |i: int| less[i]->Name_0@).push(parts.last()->Name_0@) =~= names);
    }
}

/// A file of a mapset is named in the archive by the names of its path, with a stroke between them, and the names
/// can be told apart again; a path that is not made of plain names is refused.
pub proof fn entries_are_named_by_their_path(parts: Seq<PathPart>)
    requires
        parts.len() > 0,
        forall|i: int|
            0 <= i < parts.len() ==> (#[trigger] parts[i] matches PathPart::Name(n) && !text::is_blank(n@)
                && !scan::has_char(n@, '/') && !scan::has_char(n@, '\\')),
    ensures
        entry_path(Some(parts)) matches Ok(path) && scan::split(path, text::only('/')) == Seq::new(
            parts.len(),
            |i: int| parts[i]->Name_0@,
        ),
{
    let names = Seq::new(parts.len(), |i: int| parts[i]->Name_0@);
    assert forall|i: int| 0 <= i < parts.len() implies (#[trigger] parts[i] matches PathPart::Name(n)
        && is_entry_name(n@)) by {}
    names_are_kept(parts);
    reveal_strlit("/");
    assert("/"@ =~= seq!['/']);
    assert forall|i: int| 0 <= i < names.len() implies !scan::has_char(#[trigger] names[i], '/') by {
        assert(parts[i] is Name);
    }
    scan::joined_texts_are_cut_again(names, '/');
}

proof fn strange_parts_are_refused(parts: Seq<PathPart>, i: int)
    requires
        0 <= i < parts.len(),
        !(parts[i] matches PathPart::Name(n) && is_entry_name(n@)),
    ensures
        entry_names(parts) is Err,
    decreases parts.len(),
{
    if i < parts.len() - 1 {
        assert(parts.drop_last()[i] == parts[i]);
        strange_parts_are_refused(parts.drop_last(), i);
    }
}

/// A path out of the folder, one without names, and one with anything but plain names in it is refused.
pub proof fn strange_paths_are_refused(parts: Seq<PathPart>, i: int)
    ensures
        entry_path(None) is Err,
        parts.len() == 0 ==> entry_path(Some(parts)) is Err,
        0 <= i < parts.len() && parts[i] is Other ==> entry_path(Some(parts)) is Err,
        0 <= i < parts.len() && (parts[i] matches PathPart::Name(n) && (text::is_blank(n@)
            || scan::has_char(n@, '/') || scan::has_char(n@, '\\'))) ==> entry_path(Some(parts)) is Err,
{
    if 0 <= i < parts.len() && !(parts[i] matches PathPart::Name(n) && is_entry_name(n@)) {
        strange_parts_are_refused(parts, i);
    }
}

/// A play is described by the keys of its beatmap, its held notes, all its notes and the player, and is titled by
/// the artist, the title and the difficulty.
pub proof fn plays_are_described(m: ResolvedView, player: Seq<char>)
    ensures
        m.long_note_count + m.normal_note_count <= 0xffff_ffff ==> play_detail(m, player) == scan::decimal(
            m.key_count as nat,
        ) + "K | "@ + scan::decimal(m.long_note_count as nat) + " LN | "@ + scan::decimal(
            (m.long_note_count + m.normal_note_count) as nat,
        ) + " notes | Player "@ + player,
        play_title(m) == m.artist + " - "@ + m.title + " ["@ + m.difficulty_name + "]"@,
{
}

/// A folder is watched where it is one of the kept replays, or where saved replays are.
pub proof fn kept_replays_are_watched(p: Placement)
    ensures
        p.kept ==> watched(p),
        p.saved == Some(true) ==> watched(p),
        !p.kept && p.saved != Some(true) ==> !watched(p),
{
}

/// A file is asked for where the service says that it cannot find the score or fetch its replay, in whatever case.
pub proof fn missing_scores_ask_for_the_file(message: Seq<char>)
    ensures
        scan::has(text::lower_text(message), "no se pudo resolver ese score"@) ==> asks_for_file(message),
        scan::has(text::lower_text(message), "no tiene replay descargable"@) ==> asks_for_file(message),
        scan::has(text::lower_text(message), "no se pudo descargar el replay oficial"@) ==> asks_for_file(
            message,
        ),
        scan::has(text::lower_text(message), "/api/v1/client/score 404"@) ==> asks_for_file(message),
        scan::has(text::lower_text(message), "/api/v1/client/score 409"@) ==> asks_for_file(message),
        scan::has(text::lower_text(message), "/api/v1/client/score 503"@) ==> asks_for_file(message),
        scan::has(text::lower_text(message), "/api/v1/client/score returned 404"@) ==> asks_for_file(message),
{
}

/// The name of a file keeps its letters, digits, hyphens, low lines, dots and spaces, has a low line for anything
/// else, and at most ninety-six characters; one that begins and ends with a letter or a digit is not cut.
pub proof fn file_names_are_plain(s: Seq<char>, i: int)
    ensures
        file_chars(s).len() == if s.len() < 96 {
            s.len()
        } else {
            96
        },
        0 <= i < file_chars(s).len() && ('a' <= s[i] <= 'z' || 'A' <= s[i] <= 'Z' || '0' <= s[i] <= '9'
            || s[i] == '-' || s[i] == '_' || s[i] == '.' || s[i] == ' ') ==> file_chars(s)[i] == s[i],
        0 <= i < file_chars(s).len() && !('a' <= s[i] <= 'z' || 'A' <= s[i] <= 'Z' || '0' <= s[i] <= '9'
            || s[i] == '-' || s[i] == '_' || s[i] == '.' || s[i] == ' ') ==> file_chars(s)[i] == '_',
        file_name(s).len() > 0,
        file_chars(s).len() > 0 && text::is_alnum(file_chars(s)[0]) && text::is_alnum(file_chars(s).last())
            ==> file_name(s) == file_chars(s),
{
    reveal_strlit("mapset");
    assert("mapset"@.len() == 6);
    let t = file_chars(s);
    if t.len() > 0 && text::is_alnum(t[0]) && text::is_alnum(t.last()) {
        assert(!edge()(t[0]) && !edge()(t.last()));
        assert(text::drop_front(t, edge()) == t);
        assert(text::drop_back(t, edge()) == t);
    }
}

/// A failed submission tells the message of the service where there is one, and otherwise what came back.
pub proof fn failures_tell_the_message(
    endpoint: Seq<char>,
    status: u16,
    status_text: Seq<char>,
    m: Seq<char>,
    body: Seq<char>,
)
    ensures
        submit_failure(endpoint, status, status_text, Some(m), body) matches ErrorView::Process(t)
            && scan::finishes(t, m),
        status != 404 && !text::is_blank(body) ==> (submit_failure(
            endpoint,
            status,
            status_text,
            None,
            body,
        ) matches ErrorView::Process(t) && scan::finishes(t, text::trimmed(body))),
{
    let head = "auto-render submit failed ("@ + endpoint + " "@ + status_text + ")"@;
    let a = head + ": "@ + m;
    assert(a.subrange(a.len() - m.len(), a.len() as int) =~= m);
    let b = head + ": "@ + text::trimmed(body);
    let t = text::trimmed(body);
    assert(b.subrange(b.len() - t.len(), b.len() as int) =~= t);
}

/// Files of a mapset are taken and its folders are looked into, as long as they lie inside it.
pub proof fn only_what_lies_inside_is_taken(kind: EntryKind, inside: Option<bool>)
    ensures
        entry_use(EntryKind::File, Some(true)) == EntryUse::Take,
        entry_use(EntryKind::Folder, Some(true)) == EntryUse::Descend,
        inside != Some(true) ==> entry_use(kind, inside) == EntryUse::Skip,
{
}

/// A replay has the extension of one, in whatever case.
pub proof fn replays_have_their_extension(e: Seq<char>)
    ensures
        extends_replays(Some(e)) <==> text::lower_text(e) == text::lower_text("osr"@),
        !extends_replays(None),
{
}

} // verus!
