use miru_client::error::AppError;
use miru_client::json::{parse, Json};
use miru_client::osu::ResolvedBeatmap;
use miru_client::rules::AutoRendererFilterDecision;
use miru_client::types::{
    AppConfig, BeatmapData, Double, HitData, Resolution, ScoreData, WatcherStatus,
};
use miru_client::watch::{
    add_auto_event, after_online_submit, begin_watching, can_use_auto_renderer, check_mapset,
    check_mapset_archive, failed_note, handle_submit_response, is_beatmap_cache_warming_error,
    is_replay_extension, is_replay_path, is_stable_replay_saved_with_f2,
    is_watched_osu_stable_replay, local_reason, mapset_entry, normalize_replay_key, replay_detail,
    resolve_replay_beatmap, response_error_message, safe_filename_component,
    should_fallback_to_local_submit, should_retry_replay, skin_or_default, start_watcher,
    submit_error, submit_local_replay, submit_online_score, submit_score, submitted_detail,
    submitted_note, warming_error, watcher_started_message, zip_relative_name, ArchiveMeter,
    CandidateOutcome, EntryKind, EntryUse, FileSignature, Lookup, LookupNext, MapsetCheck,
    OnlineNext, PathPart, Placement, ReplayAction, ReplayEvent, ReplayRun, ReplayStage,
    ReplayTracker, SampleOutcome, StableSampler, SubmitRoute, MAX_LOCAL_MAPSET_ARCHIVE_BYTES,
    MAX_LOCAL_MAPSET_FILES,
};

fn told<T>(r: Result<T, AppError>) -> String {
    match r {
        Ok(_) => "ok".to_string(),
        Err(e) => e.message(),
    }
}

fn json(s: &str) -> Json {
    match parse(s) {
        Some(j) => j,
        None => panic!("{s}"),
    }
}

fn process(m: &str) -> AppError {
    AppError::Process(m.to_string())
}

fn zero() -> Double {
    Double { bits: 0 }
}

fn beatmap() -> ResolvedBeatmap {
    ResolvedBeatmap {
        beatmap_id: 7,
        beatmap_set_id: 0,
        beatmap_hash: "h".to_string(),
        artist: "Artist".to_string(),
        title: "Title".to_string(),
        difficulty_name: "Hard".to_string(),
        key_count: 4,
        long_note_count: 10,
        normal_note_count: 90,
        hp: zero(),
        cs: zero(),
        od: zero(),
        bpm: zero(),
        duration_ms: 1000,
        osu_path: "x.osu".to_string(),
    }
}

fn score() -> ScoreData {
    ScoreData {
        beatmap: BeatmapData {
            id: 7,
            set_id: 0,
            md5: "h".to_string(),
            artist: "Artist".to_string(),
            title: "Title".to_string(),
            diff: "Hard".to_string(),
        },
        score: 900_000,
        combo: 100,
        max_combo: 100,
        accuracy: Double { bits: 98.5f64.to_bits() },
        hits: HitData { n300: 1, n100: 2, n50: 3, geki: 4, katu: 5, miss: 6 },
        mods: "NC".to_string(),
        passed: true,
    }
}

#[test]
fn some_accounts_render_on_their_own() {
    let mut c = AppConfig::default();
    assert!(!can_use_auto_renderer(&c));
    c.user_role = " admin ".to_string();
    assert!(can_use_auto_renderer(&c));
    c.user_role = "USER".to_string();
    c.user_plan = "plus".to_string();
    assert!(can_use_auto_renderer(&c));
    assert_eq!(told(start_watcher(true, &c)), "ok");
    assert_eq!(
        told(start_watcher(false, &c)),
        "authentication error: Auto Renderer requires a Miru Plus account."
    );
    c.user_plan = "free".to_string();
    assert!(start_watcher(true, &c).is_err());
    assert!(begin_watching(WatcherStatus::Stopped) && begin_watching(WatcherStatus::Error));
    assert!(!begin_watching(WatcherStatus::Running) && !begin_watching(WatcherStatus::Starting));
    assert_eq!(
        watcher_started_message("/osu", 3),
        "Auto renderer watcher started for osu!stable at /osu (ignoring 3 existing replays)"
    );
}

#[test]
fn replays_are_told_by_their_extension() {
    assert!(is_replay_extension(Some("OSR")));
    assert!(!is_replay_extension(Some("osu")));
    assert!(!is_replay_extension(None));
    assert!(is_replay_path("Replays/a b.osr"));
    assert!(is_replay_path("C:\\Users\\me\\osu!\\Data\\r\\x.osr"));
    assert!(is_replay_path("D:/osu!/Replays/x.OSR"));
    assert!(is_replay_path("/home/me/osu!/Data/r/x.osr"));
    assert!(is_replay_path("\\osu!\\x.osr"));
    assert!(!is_replay_path("C:\\osu!\\Data\\r\\x.osg"));
    assert!(!is_replay_path("/home/me/osu!/Data.osr/x"));
    assert!(!is_replay_path("Replays/.osr"));
    assert!(!is_replay_path("Replays/a.osr.tmp"));
    assert_eq!(normalize_replay_key("C:\\R\\A.osr"), "c:\\r\\a.osr");
}

#[test]
fn files_are_awaited() {
    let sig = |len: u64, modified: i128| FileSignature { len, modified };
    let mut s = StableSampler::new();
    assert!(matches!(s.wait_for_stable_replay(sig(5, 1)), SampleOutcome::Again));
    assert!(matches!(s.wait_for_stable_replay(sig(6, 1)), SampleOutcome::Again));
    assert!(matches!(s.wait_for_stable_replay(sig(6, 1)), SampleOutcome::Stable));
    assert!(matches!(
        s.wait_for_stable_replay(sig(8 * 1024 * 1024 + 1, 1)),
        SampleOutcome::Fail(e) if e.message() == "process error: replay exceeds 8 MiB safety limit"
    ));
    let mut t = StableSampler::new();
    for i in 0..11 {
        assert!(matches!(t.wait_for_stable_replay(sig(i, 0)), SampleOutcome::Again));
    }
    assert!(matches!(
        t.wait_for_stable_replay(sig(11, 0)),
        SampleOutcome::GiveUp(e)
            if e.message() == "process error: replay file never reached a stable on-disk state"
    ));
}

#[test]
fn replays_are_tried_until_they_are_done() {
    assert!(is_beatmap_cache_warming_error(&warming_error()));
    assert!(should_retry_replay(&warming_error()));
    assert!(should_retry_replay(&process("never reached a stable on-disk state")));
    assert!(!should_retry_replay(&AppError::Auth("beatmap cache warming".to_string())));
    let mut t = ReplayTracker::new(&vec!["old".to_string()]);
    assert!(!t.wants("old") && t.wants("new") && t.allows_refresh("new"));
    assert!(matches!(
        t.handle_replay_candidate("new", &Err(warming_error())),
        CandidateOutcome::Waiting
    ));
    assert!(t.wants("new") && !t.allows_refresh("new"));
    assert!(matches!(
        t.handle_replay_candidate("new", &Err(process("stable on-disk state"))),
        CandidateOutcome::Unfinished
    ));
    assert!(t.wants("new") && !t.allows_refresh("new"));
    assert!(matches!(t.handle_replay_candidate("new", &Ok(())), CandidateOutcome::Done));
    assert!(!t.wants("new") && t.allows_refresh("new"));
    assert!(matches!(
        t.handle_replay_candidate("bad", &Err(process("x"))),
        CandidateOutcome::Failed(m) if m == "process error: x"
    ));
    assert!(!t.wants("bad") && !t.wants("old"));
}

#[test]
fn beatmaps_are_looked_for_step_by_step() {
    let next = resolve_replay_beatmap;
    assert!(next(None, true, false, true) == LookupNext::Look(Lookup::Indexes));
    assert!(next(Some(Lookup::Indexes), true, true, true) == LookupNext::Look(Lookup::NameHint));
    assert!(next(Some(Lookup::Indexes), false, true, true) == LookupNext::Wait);
    assert!(next(Some(Lookup::NameHint), true, false, true) == LookupNext::RefreshAndWait);
    assert!(
        next(Some(Lookup::NameHint), true, false, false) == LookupNext::Look(Lookup::IndexesAgain)
    );
    assert!(next(Some(Lookup::IndexesAgain), true, true, true) == LookupNext::Missing);
}

#[test]
fn replays_lie_in_watched_folders() {
    let at = |kept: bool, saved: Option<bool>| Placement { kept, saved };
    assert!(is_stable_replay_saved_with_f2(at(false, Some(true)), None));
    assert!(is_stable_replay_saved_with_f2(at(false, Some(false)), Some(at(false, Some(true)))));
    assert!(!is_stable_replay_saved_with_f2(at(true, None), Some(at(true, Some(true)))));
    assert!(is_watched_osu_stable_replay(at(true, None), None));
    assert!(is_watched_osu_stable_replay(at(false, None), Some(at(true, None))));
    assert!(!is_watched_osu_stable_replay(at(false, Some(false)), None));
}

#[test]
fn a_replay_is_handled() {
    assert_eq!(replay_detail(&beatmap(), "peppy"), "4K | 10 LN | 100 notes | Player peppy");
    let mut r = ReplayRun::new("a.osr");
    assert!(matches!(r.process_replay(ReplayEvent::Written(Ok(()))), ReplayAction::ReadHeader));
    assert!(matches!(
        r.process_replay(ReplayEvent::Header(Ok("peppy".to_string()))),
        ReplayAction::FindBeatmap
    ));
    assert!(matches!(
        r.process_replay(ReplayEvent::Beatmap(Ok(Some(beatmap())))),
        ReplayAction::Judge
    ));
    assert_eq!(r.display, "Artist - Title [Hard]");
    assert!(matches!(
        r.process_replay(ReplayEvent::Filters(AutoRendererFilterDecision::Match)),
        ReplayAction::FindSession
    ));
    assert!(matches!(r.process_replay(ReplayEvent::Session(Ok(true))), ReplayAction::Send));
    assert!(matches!(r.process_replay(ReplayEvent::Sent(Ok(()))), ReplayAction::Finish));
    assert!(r.stage == ReplayStage::Over);
}

fn left(events: Vec<ReplayEvent>) -> (String, String, String) {
    let mut r = ReplayRun::new("a.osr");
    let mut last = ("".to_string(), "".to_string(), "".to_string());
    for e in events {
        match r.process_replay(e) {
            ReplayAction::Leave(n) => {
                assert_eq!((n.replay_name.as_str(), n.kind.as_str()), ("a.osr", "auto-replay"));
                last = (n.title, n.detail, n.status);
            }
            ReplayAction::Fail(e) => last = ("failed".to_string(), e.message(), String::new()),
            _ => {}
        }
    }
    assert!(r.stage == ReplayStage::Over);
    last
}

#[test]
fn replays_are_left_for_a_reason() {
    let written = || ReplayEvent::Written(Ok(()));
    let header = || ReplayEvent::Header(Ok("p".to_string()));
    let found = || ReplayEvent::Beatmap(Ok(Some(beatmap())));
    let detail = "4K | 10 LN | 100 notes | Player p";
    let show = |t: &str, d: String, s: &str| (t.to_string(), d, s.to_string());
    assert_eq!(
        left(vec![written(), ReplayEvent::Header(Err(process("only osu!mania replays are supported")))]),
        show("a.osr", "Ignored because the replay is not osu!mania.".to_string(), "ignored")
    );
    assert_eq!(
        left(vec![written(), ReplayEvent::Header(Err(process("short")))]),
        show("failed", "process error: short".to_string(), "")
    );
    assert_eq!(
        left(vec![written(), header(), ReplayEvent::Beatmap(Ok(None))]),
        show(
            "a.osr",
            "Beatmap not found in osu!.db or the local Songs cache; replay skipped.".to_string(),
            "skipped"
        )
    );
    let filters = |d: AutoRendererFilterDecision| {
        left(vec![written(), header(), found(), ReplayEvent::Filters(d)])
    };
    assert_eq!(
        filters(AutoRendererFilterDecision::Rejected),
        show(
            "Artist - Title [Hard]",
            format!("{detail} | Ignored by current auto-render filters."),
            "ignored"
        )
    );
    assert_eq!(
        filters(AutoRendererFilterDecision::PpUnavailable),
        show(
            "Artist - Title [Hard]",
            format!("{detail} | PP unavailable for current filters."),
            "skipped"
        )
    );
    assert_eq!(
        left(vec![
            written(),
            header(),
            found(),
            ReplayEvent::Filters(AutoRendererFilterDecision::Match),
            ReplayEvent::Session(Ok(false))
        ]),
        show(
            "Artist - Title [Hard]",
            format!("{detail} | Replay matched filters but Miru is not logged in."),
            "waiting"
        )
    );
}

#[test]
fn notes_are_told() {
    let n = failed_note("a.osr", "bad");
    assert_eq!((n.title.as_str(), n.status.as_str(), n.kind.as_str()), ("a.osr", "failed", "auto-render"));
    let (event, entry) = add_auto_event(&n, "i".to_string(), "t".to_string());
    assert_eq!((event.replay_name.as_str(), event.detail.as_str()), ("a.osr", "bad"));
    assert_eq!((entry.id.as_str(), entry.kind.as_str(), entry.url), ("i", "auto-render", None));
    let s = submitted_note("D", "x", &json(r#"{"jobId": "j"}"#));
    assert_eq!((s.detail.as_str(), s.status.as_str()), ("x | Render job j.", "started"));
    assert_eq!(submitted_detail("x", &json(r#"{"data": {"jobId": "k"}}"#)), "x | Render job k.");
    assert_eq!(submitted_detail("x", &json(r#"{"jobId": 5, "data": {"jobId": "k"}}"#)), "x | Upload accepted.");
    assert_eq!(submitted_detail("x", &Json::Null), "x | Upload accepted.");
}

#[test]
fn replays_are_sent_one_way_or_the_other() {
    assert!(submit_score(true, Some(5)) == SubmitRoute::LocalWatched);
    assert!(submit_score(false, Some(5)) == SubmitRoute::Online(5));
    assert!(submit_score(false, Some(0)) == SubmitRoute::LocalUnknown);
    assert!(submit_score(false, None) == SubmitRoute::LocalUnknown);
    assert!(should_fallback_to_local_submit(&process("x NO TIENE replay descargable")));
    assert!(should_fallback_to_local_submit(&process("(/api/v1/client/score 409 Conflict)")));
    assert!(!should_fallback_to_local_submit(&process("(/api/v1/client/score 500)")));
    assert!(!should_fallback_to_local_submit(&AppError::Api("/api/v1/client/score 404".to_string())));
    assert!(matches!(after_online_submit(Ok(())), OnlineNext::Done));
    assert!(matches!(
        after_online_submit(Err(process("/api/v1/client/score 503"))),
        OnlineNext::FallBack
    ));
    assert!(matches!(after_online_submit(Err(process("x"))), OnlineNext::Fail(_)));
    assert_eq!(local_reason(true), "local replay file detected by watcher");
    assert_eq!(local_reason(false), "no usable online score replay");
    assert_eq!(skin_or_default(" "), "default");
    assert_eq!(skin_or_default(" a "), "a");
}

#[test]
fn scores_are_described() {
    let o = submit_online_score(
        &score(), 99, &beatmap(), Resolution::P1080, Some(" "), "", "a.osr",
    );
    assert_eq!((o.beatmap_id, o.online_score_id, o.score, o.combo), (7, 99, 900_000, 100));
    assert_eq!((o.resolution.as_str(), o.preset_id, o.skin_id.as_str()), ("p1080", None, "default"));
    assert_eq!((o.key_count, o.long_note_count, o.normal_note_count), (4, 10, 90));
    assert_eq!(f64::from_bits(o.accuracy.bits), 98.5);
    let fields = submit_local_replay(&score(), "a.osr", "s", Resolution::P720, Some(" p "));
    let expected: Vec<(String, String)> = [
        ("beatmapMd5", "h"),
        ("replayOriginalName", "a.osr"),
        ("skinId", "s"),
        ("resolution", "p720"),
        ("presetId", "p"),
        ("beatmapId", "7"),
    ]
    .iter()
    .map(|(a, b)| (a.to_string(), b.to_string()))
    .collect();
    assert_eq!(fields, expected);
}

#[test]
fn refusals_of_the_server_are_told() {
    let why = |status: u16, text: &str, body: &str| {
        handle_submit_response("/api/v1/client/score", status, text, body).message()
    };
    assert_eq!(
        why(409, "409 Conflict", r#"{"error": {"message": "no"}}"#),
        "process error: auto-render submit failed (/api/v1/client/score 409 Conflict): no"
    );
    assert_eq!(
        why(404, "404 Not Found", "<html>"),
        "process error: auto-render submit endpoint is unavailable on the current backend (/api/v1/client/score returned 404)"
    );
    assert_eq!(
        why(500, "500", " "),
        "process error: auto-render submit failed (/api/v1/client/score 500)"
    );
    assert_eq!(
        why(500, "500", " oops "),
        "process error: auto-render submit failed (/api/v1/client/score 500): oops"
    );
    assert_eq!(response_error_message(&json(r#"{"message": "m"}"#)), Some("m".to_string()));
    assert_eq!(response_error_message(&json(r#"{"error": {"message": 1}, "message": "m"}"#)), Some("m".to_string()));
    assert_eq!(response_error_message(&json("[]")), None);
    assert_eq!(
        submit_error("/e", 404, "404", Some("m".to_string()), "").message(),
        "process error: auto-render submit failed (/e 404): m"
    );
}

#[test]
fn files_of_a_mapset_have_plain_names() {
    let name = |n: &str| PathPart::Name(n.to_string());
    assert!(matches!(
        zip_relative_name(Some(vec![name("sb"), name("a.png")])),
        Ok(n) if n == "sb/a.png"
    ));
    assert_eq!(
        told(zip_relative_name(None)),
        "process error: local mapset file escaped the selected mapset directory"
    );
    assert_eq!(
        told(zip_relative_name(Some(vec![name("a"), PathPart::Other]))),
        "process error: local mapset contains an invalid relative path"
    );
    assert_eq!(
        told(zip_relative_name(Some(vec![name("a\\b")]))),
        "process error: local mapset contains an invalid file name"
    );
    assert!(zip_relative_name(Some(vec![name(" ")])).is_err());
    assert_eq!(
        told(zip_relative_name(Some(vec![]))),
        "process error: local mapset file has an empty relative path"
    );
    assert_eq!(safe_filename_component(" .Artist/Title [x]. "), "Artist_Title _x");
    assert_eq!(safe_filename_component("..."), "mapset");
    assert_eq!(safe_filename_component(&"a".repeat(200)).len(), 96);
}

#[test]
fn mapsets_stay_within_limits() {
    assert_eq!(told(check_mapset(MapsetCheck::HasFolder, true)), "ok");
    assert_eq!(
        told(check_mapset(MapsetCheck::HasFolder, false)),
        "process error: resolved beatmap path has no parent mapset directory"
    );
    assert_eq!(
        told(check_mapset(MapsetCheck::IsFolder, false)),
        "process error: resolved mapset directory is not available"
    );
    assert_eq!(
        told(check_mapset(MapsetCheck::HoldsBeatmap, false)),
        "process error: local mapset folder does not contain the replay beatmap file"
    );
    assert!(mapset_entry(EntryKind::File, Some(true)) == EntryUse::Take);
    assert!(mapset_entry(EntryKind::Folder, Some(true)) == EntryUse::Descend);
    assert!(mapset_entry(EntryKind::File, Some(false)) == EntryUse::Skip);
    assert!(mapset_entry(EntryKind::File, None) == EntryUse::Skip);
    assert!(mapset_entry(EntryKind::Link, Some(true)) == EntryUse::Skip);
    assert!(mapset_entry(EntryKind::Other, Some(true)) == EntryUse::Skip);
    let mut m = ArchiveMeter::new();
    assert!(m.collect_mapset_files().is_ok());
    assert!(m.create_local_mapset_archive(MAX_LOCAL_MAPSET_ARCHIVE_BYTES).is_ok());
    assert_eq!(
        told(m.create_local_mapset_archive(1)),
        "process error: local mapset exceeds 512 MiB upload safety limit"
    );
    assert!(m.create_local_mapset_archive(u64::MAX).is_err());
    assert_eq!((m.files, m.bytes), (1, u64::MAX));
    m.files = MAX_LOCAL_MAPSET_FILES;
    assert_eq!(
        told(m.collect_mapset_files()),
        "process error: local mapset has more than 4096 files"
    );
    assert_eq!(told(check_mapset_archive(MAX_LOCAL_MAPSET_ARCHIVE_BYTES)), "ok");
    assert_eq!(
        told(check_mapset_archive(MAX_LOCAL_MAPSET_ARCHIVE_BYTES + 1)),
        "process error: local mapset archive exceeds 512 MiB upload safety limit"
    );
}
