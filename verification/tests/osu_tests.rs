use miru_client::cache::{get_cached_beatmap, normalize_hash, put_cached_beatmap, BeatmapCache};
use miru_client::error::AppError;
use miru_client::osu::{
    check_local_dir, conclude_stage, detect_osu_stable_root, folder_may_hold, inspect_osu_stable_paths,
    is_beatmap_extension, is_beatmap_path, is_disallowed_network_path, is_known_path, local_dir_result,
    normalize_cache_path, normalize_local_path, normalize_lookup_text,
    normalize_song_folder_lookup, replay_name_tells, require_osu_stable_root,
    resolve_beatmap_by_hash, resolve_from_cache, resolve_osu_stable_paths, stage_accepts,
    stage_digest, validate_osu_stable_override, warm_beatmap_cache_from_songs, LookupStage, ResolvedBeatmap, ResolvedOsuStablePaths,
    RootContents, SubFolder,
};
use miru_client::types::Double;

fn told<T>(r: Result<T, AppError>) -> String {
    match r {
        Ok(_) => "ok".to_string(),
        Err(e) => e.message(),
    }
}

fn beatmap(hash: &str, path: &str) -> ResolvedBeatmap {
    ResolvedBeatmap {
        beatmap_id: 1,
        beatmap_set_id: 2,
        beatmap_hash: hash.to_string(),
        artist: "a".to_string(),
        title: "t".to_string(),
        difficulty_name: "d".to_string(),
        key_count: 7,
        long_note_count: 3,
        normal_note_count: 4,
        hp: Double { bits: 5 },
        cs: Double { bits: 6 },
        od: Double { bits: 7 },
        bpm: Double { bits: 8 },
        duration_ms: 9,
        osu_path: path.to_string(),
    }
}

#[test]
fn beatmaps_are_kept_by_their_hash() {
    let mut cache = BeatmapCache::new();
    put_cached_beatmap(&mut cache, &beatmap(" ABC ", "one.osu"), "now");
    put_cached_beatmap(&mut cache, &beatmap("def", "two.osu"), "now");
    match get_cached_beatmap(&cache, "abc") {
        Some(e) => {
            assert_eq!(e.osu_path, "one.osu");
            assert_eq!(e.last_verified_at, "now");
            let r = e.to_resolved("ABC");
            assert_eq!((r.beatmap_hash.as_str(), r.key_count, r.bpm.bits), ("ABC", 7, 8));
        }
        None => panic!("not kept"),
    }
    put_cached_beatmap(&mut cache, &beatmap("ABC", "three.osu"), "later");
    assert!(matches!(get_cached_beatmap(&cache, "aBc"), Some(e) if e.osu_path == "three.osu"));
    assert!(matches!(get_cached_beatmap(&cache, "DEF"), Some(e) if e.osu_path == "two.osu"));
    assert!(get_cached_beatmap(&cache, "zzz").is_none());
    assert_eq!(normalize_hash(" AbC "), "abc");
}

#[test]
fn what_is_missing_is_taken_from_another_cache() {
    let mut cache = BeatmapCache::new();
    put_cached_beatmap(&mut cache, &beatmap("a", "mine.osu"), "1");
    let mut other = BeatmapCache::new();
    put_cached_beatmap(&mut other, &beatmap("a", "theirs.osu"), "2");
    put_cached_beatmap(&mut other, &beatmap("b", "new.osu"), "2");
    cache.merge_missing(other);
    assert!(matches!(get_cached_beatmap(&cache, "a"), Some(e) if e.osu_path == "mine.osu"));
    assert!(matches!(get_cached_beatmap(&cache, "b"), Some(e) if e.osu_path == "new.osu"));
    assert_eq!(cache.entries.len(), 2);
}

#[test]
fn lookups_go_from_cheap_to_dear() {
    let mut cache = BeatmapCache::new();
    put_cached_beatmap(&mut cache, &beatmap("a", "x.osu"), "1");
    let stages = resolve_beatmap_by_hash(&cache, None, "A", true);
    assert!(stages == vec![LookupStage::Cached, LookupStage::Database, LookupStage::Songs]);
    let stages = resolve_beatmap_by_hash(&cache, None, "b", false);
    assert!(stages == vec![LookupStage::Database]);
    assert!(stage_accepts(true, false, LookupStage::Cached, "AB", "ab"));
    assert!(!stage_accepts(true, false, LookupStage::Indexed, "AB", "ab"));
    assert!(stage_accepts(true, true, LookupStage::Songs, "AB", "ab"));
    assert!(!stage_accepts(false, true, LookupStage::Songs, "AB", "ab"));
    assert!(!stage_accepts(true, true, LookupStage::Songs, "AB", "ac"));
}

const ABC: &str = "900150983cd24fb0d6963f7d28e17f72";

#[test]
fn found_files_have_the_hash() {
    let upper = ABC.to_uppercase();
    let found = |stage: LookupStage, is_file: bool, inside: bool, bytes: &[u8]| {
        stage_digest(stage, is_file, inside, bytes, &upper)
    };
    assert_eq!(found(LookupStage::Songs, true, true, b"abc").as_deref(), Some(ABC));
    assert_eq!(found(LookupStage::Cached, true, false, b"abc").as_deref(), Some(ABC));
    assert_eq!(found(LookupStage::Indexed, true, false, b"abc"), None);
    assert_eq!(found(LookupStage::Songs, false, true, b"abc"), None);
    assert_eq!(found(LookupStage::Songs, true, true, b"abd"), None);
}

#[test]
fn cached_beatmaps_are_checked_again() {
    let mut cache = BeatmapCache::new();
    put_cached_beatmap(&mut cache, &beatmap(ABC, "x.osu"), "1");
    match resolve_from_cache(&cache, &ABC.to_uppercase(), true, b"abc") {
        Some(m) => assert_eq!((m.beatmap_hash.as_str(), m.osu_path.as_str()), (ABC, "x.osu")),
        None => panic!("not found"),
    }
    assert!(resolve_from_cache(&cache, ABC, true, b"stale").is_none());
    assert!(resolve_from_cache(&cache, ABC, false, b"abc").is_none());
    assert!(resolve_from_cache(&BeatmapCache::new(), ABC, true, b"abc").is_none());
}

#[test]
fn stages_keep_what_they_find() {
    let mut cache = BeatmapCache::new();
    assert!(!conclude_stage(&mut cache, LookupStage::Songs, None, "1"));
    assert!(conclude_stage(&mut cache, LookupStage::Cached, Some(&beatmap("a", "x.osu")), "1"));
    assert!(cache.entries.is_empty());
    assert!(conclude_stage(&mut cache, LookupStage::Database, Some(&beatmap("A", "x.osu")), "1"));
    assert!(matches!(get_cached_beatmap(&cache, "a"), Some(e) if e.osu_path == "x.osu"));
}

#[test]
fn warming_adds_what_is_new() {
    let mut cache = BeatmapCache::new();
    put_cached_beatmap(&mut cache, &beatmap("a", "old.osu"), "1");
    let (same, new) = (beatmap("A", "copy.osu"), beatmap("b", "new.osu"));
    assert_eq!(warm_beatmap_cache_from_songs(&mut cache, 0, false, Some(&same), "2"), 0);
    assert_eq!(warm_beatmap_cache_from_songs(&mut cache, 0, true, Some(&new), "2"), 0);
    assert_eq!(warm_beatmap_cache_from_songs(&mut cache, 0, false, None, "2"), 0);
    assert_eq!(cache.entries.len(), 1);
    assert_eq!(warm_beatmap_cache_from_songs(&mut cache, 4, false, Some(&new), "2"), 5);
    assert_eq!(cache.entries.len(), 2);
    assert_eq!(warm_beatmap_cache_from_songs(&mut cache, 5, false, Some(&new), "3"), 5);
    assert!(matches!(get_cached_beatmap(&cache, "a"), Some(e) if e.osu_path == "old.osu"));
    assert!(matches!(get_cached_beatmap(&cache, "b"), Some(e) if e.last_verified_at == "2"));
}

#[test]
fn ascii_names_become_words() {
    let form = normalize_lookup_text("  DJ--Foo (TV  Size) 2!");
    assert_eq!(form, "dj foo tv size 2");
    assert_eq!(normalize_lookup_text(&form), form);
    assert_eq!(normalize_lookup_text("-- !"), "");
}

#[test]
fn known_paths_are_compared_loosely() {
    let mut cache = BeatmapCache::new();
    put_cached_beatmap(&mut cache, &beatmap("a", "C:/Songs/X.osu"), "1");
    assert!(is_known_path(&cache, "c:\\songs\\x.OSU"));
    assert!(!is_known_path(&cache, "c:\\songs\\y.osu"));
    assert_eq!(normalize_cache_path("A/b\\C"), "a\\b\\c");
}

#[test]
fn folders_of_the_game_are_told() {
    let paths = ResolvedOsuStablePaths {
        root: "r".to_string(),
        replay_dir: "d".to_string(),
        stable_replay_dir: Some("s".to_string()),
        songs_dir: "x".to_string(),
    };
    assert_eq!(paths.replay_dirs(), vec!["d", "s"]);
    let status = inspect_osu_stable_paths(Some("r".to_string()), None, Some("s".to_string()), None);
    assert!(status.osu_stable_detected && status.replay_dir_ready && status.stable_replay_dir_ready);
    assert!(!status.songs_dir_ready);
    let none = inspect_osu_stable_paths(None, None, None, None);
    assert!(!none.osu_stable_detected && !none.replay_dir_ready);
    assert_eq!(detect_osu_stable_root(" /a ", Some("/b")), Some("/a".to_string()));
    assert_eq!(detect_osu_stable_root("  ", Some("/b")), Some("/b".to_string()));
    assert_eq!(detect_osu_stable_root("", None), None);
    assert_eq!(
        told(require_osu_stable_root(None)),
        "configuration error: could not detect osu!stable. Set an osu!stable path override in Settings"
    );
}

#[test]
fn folders_have_to_lie_inside_the_game() {
    let f = |inside: bool| SubFolder { path: "p".to_string(), inside };
    assert!(resolve_osu_stable_paths("r".to_string(), f(true), None, f(true)).is_ok());
    assert!(resolve_osu_stable_paths("r".to_string(), f(true), Some(f(true)), f(true)).is_ok());
    for (a, b, c) in [(false, true, true), (true, false, true), (true, true, false)] {
        assert_eq!(
            told(resolve_osu_stable_paths("r".to_string(), f(a), Some(f(b)), f(c))),
            "configuration error: osu!stable directories must stay inside the selected osu!stable root"
        );
    }
}

#[test]
fn paths_to_other_machines_are_refused() {
    assert!(is_disallowed_network_path("\\\\server\\share", true));
    assert!(is_disallowed_network_path("//server/share", true));
    assert!(is_disallowed_network_path("\\\\?\\UNC\\server", true));
    assert!(is_disallowed_network_path("\\\\.\\UNC\\server", true));
    assert!(!is_disallowed_network_path("\\\\?\\C:\\osu", true));
    assert!(!is_disallowed_network_path("C:\\osu", true));
    assert!(!is_disallowed_network_path("//server/share", false));
    assert_eq!(normalize_local_path("\\\\?\\C:\\osu", true), "C:\\osu");
    assert_eq!(normalize_local_path("\\\\?\\UNC\\s", true), "\\\\?\\UNC\\s");
    assert_eq!(normalize_local_path("\\\\?\\C:\\osu", false), "\\\\?\\C:\\osu");
}

#[test]
fn folders_that_a_user_sets_are_checked() {
    assert_eq!(told(check_local_dir("", true, false, true)), "invalid input: path cannot be empty");
    assert_eq!(
        told(check_local_dir("a", false, true, true)),
        "invalid input: path override must be an absolute local directory"
    );
    assert_eq!(
        told(check_local_dir("/a/..", true, true, true)),
        "invalid input: path override cannot contain parent-directory segments"
    );
    assert_eq!(
        told(check_local_dir("//a", true, false, true)),
        "invalid input: network paths are not allowed for osu!stable override"
    );
    assert_eq!(told(check_local_dir("//a", true, false, false)), "ok");
    assert!(matches!(local_dir_result(Ok(("/a".to_string(), true))), Ok(p) if p == "/a"));
    assert_eq!(
        told(local_dir_result(Ok(("/a".to_string(), false)))),
        "invalid input: path override must point to a directory"
    );
    assert_eq!(
        told(local_dir_result(Err("gone".to_string()))),
        "invalid input: path override could not be resolved: gone"
    );
    let all = |d: bool, s: bool, r: bool| RootContents { has_database: d, has_songs: s, has_replays: r };
    let root = || Ok("/osu".to_string());
    assert!(matches!(
        validate_osu_stable_override("  ", Err(AppError::Auth("x".to_string())), all(false, false, false)),
        Ok(p) if p.is_empty()
    ));
    assert!(matches!(validate_osu_stable_override("/osu", root(), all(true, true, true)), Ok(p) if p == "/osu"));
    assert_eq!(
        told(validate_osu_stable_override("/osu", root(), all(false, true, true))),
        "invalid input: osu!stable root must contain osu!.db"
    );
    assert_eq!(
        told(validate_osu_stable_override("/osu", root(), all(true, false, true))),
        "invalid input: osu!stable root must contain a Songs folder"
    );
    assert_eq!(
        told(validate_osu_stable_override("/osu", root(), all(true, true, false))),
        "invalid input: osu!stable root must contain Data\\r for auto-saved replays"
    );
    assert_eq!(
        told(validate_osu_stable_override("/osu", Err(AppError::Auth("x".to_string())), all(true, true, true))),
        "authentication error: x"
    );
}

#[test]
fn names_of_songs_are_folded() {
    assert_eq!(normalize_lookup_text("  Foo -- BAR!! (Ünï) 9 "), "foo bar ünï 9");
    assert_eq!(normalize_lookup_text("---"), "");
    assert_eq!(normalize_lookup_text("İ"), "i\u{307}");
    assert_eq!(normalize_song_folder_lookup("123456 Artist - Title"), "artist title");
    assert_eq!(replay_name_tells("Player - Song"), Some("player song".to_string()));
    assert_eq!(replay_name_tells("a-b"), None);
    assert!(folder_may_hold("1 Artist - Title", "player played artist title diff"));
    assert!(!folder_may_hold("1 Artist - Title", "player played another"));
    assert!(!folder_may_hold("1 a", "a"));
    assert!(is_beatmap_extension(Some("OSU")));
    assert!(!is_beatmap_extension(Some("osz")));
    assert!(!is_beatmap_extension(None));
    assert!(is_beatmap_path("Songs/1 a/x.OSU"));
    assert!(is_beatmap_path("C:\\osu!\\Songs\\1 a\\x.osu"));
    assert!(is_beatmap_path("C:/osu!/Songs/x.osu"));
    assert!(is_beatmap_path("/home/me/Songs/x.osu"));
    assert!(!is_beatmap_path("C:\\osu!\\Songs\\x.osz"));
    assert!(!is_beatmap_path("/home/me/Songs.osu/x"));
    assert!(!is_beatmap_path("Songs/.osu"));
    assert!(!is_beatmap_path("Songs/x.osu/y"));
}
