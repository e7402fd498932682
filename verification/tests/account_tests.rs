use miru_client::auth::{
    after_refresh, apply_current_user, callback_query, clear_local_session_state, has_profile,
    is_generic_desktop_username, is_jwt_fresh, is_session_auth_status, is_session_expired_error,
    jwt_payload, login, login_error, login_response, login_url, normalize_current_user_label,
    normalize_current_username, parse_api_error_message, payload_is_fresh, profile_label,
    refresh_session, refresh_session_with_lock, require_auth_response, switch_message,
    switched_account, sync_current_user_profile, wait_for_code, AuthResponse, CurrentUser,
    LoginProblem, RefreshOutcome, LOGIN_PAGE,
};
use miru_client::error::AppError;
use miru_client::json::{parse, Json};
use miru_client::osu::OsuStablePathsStatus;
use miru_client::rules::{
    judgment_counts, matches_auto_renderer_filters, matches_auto_renderer_filters_with_metrics,
    numeric_rule_matches, optional_numeric_rule_matches, AutoRendererFilterDecision,
    AutoRendererReplayMetrics, BeatmapReadings, Reading,
};
use miru_client::settings::{
    check_settings, judge_settings, judge_webhook, sanitize_auto_renderer_config,
    sanitize_count_rule, sanitize_judgment_rules, sanitize_key_counts, sanitize_optional_id,
    sanitize_required_id, save_settings, save_webhook, set_autostart, Rounded, RoundedJudgments,
    RoundedRules, WebhookAction, WorkerSync, MOST_ACCURACY, MOST_BPM, MOST_DIFFICULTY, MOST_KEYS,
    MOST_NOTES, MOST_POINTS, MOST_SECONDS,
};
use miru_client::state::{
    add_history, history_entry, is_authenticated, log_line, log_text, renderer_installed, snapshot,
    MachineFacts, RuntimeState,
};
use miru_client::tools::{ffmpeg_tools_snapshot, ToolSearch};
use miru_client::types::{
    AppConfig, AutoRendererConfig, CountRule, CountRuleOp, Double, HitData, JudgmentRules, Resolution,
    SaveSettingsInput, WatcherStatus, WorkerStatus, DEFAULT_API_URL, DEFAULT_FRONTEND_URL,
};

fn told<T>(r: Result<T, AppError>) -> String {
    match r {
        Ok(_) => "ok".to_string(),
        Err(e) => e.message(),
    }
}

fn json(s: &str) -> Json {
    match parse(s) {
        Some(j) => j,
        None => panic!("{s}"),
    }
}

fn d(x: f64) -> Double {
    Double { bits: x.to_bits() }
}

fn rule(op: CountRuleOp, value: f64, max: Option<f64>) -> CountRule {
    CountRule { enabled: true, op, value: d(value), max_value: max.map(d) }
}

fn at(value: f64) -> Reading {
    Reading { value: d(value), near: false }
}

#[test]
fn rules_hold_of_numbers() {
    let off = CountRule { enabled: false, op: CountRuleOp::Gte, value: d(9.0), max_value: None };
    assert!(numeric_rule_matches(&off, at(1.0)));
    assert!(optional_numeric_rule_matches(&off, None));
    let near = Reading { value: d(5.0), near: true };
    assert!(numeric_rule_matches(&rule(CountRuleOp::Eq, 5.0, None), near));
    assert!(!numeric_rule_matches(&rule(CountRuleOp::Eq, 5.0, None), at(5.0)));
    assert!(numeric_rule_matches(&rule(CountRuleOp::Gte, 5.0, None), at(5.0)));
    assert!(!numeric_rule_matches(&rule(CountRuleOp::Gte, 5.0, None), at(4.9)));
    assert!(numeric_rule_matches(&rule(CountRuleOp::Lte, 5.0, None), at(-5.0)));
    assert!(!numeric_rule_matches(&rule(CountRuleOp::Lte, 5.0, None), at(f64::NAN)));
    for (a, b) in [(2.0, 4.0), (4.0, 2.0)] {
        let r = rule(CountRuleOp::Between, a, Some(b));
        assert!(numeric_rule_matches(&r, at(2.0)));
        assert!(numeric_rule_matches(&r, at(4.0)));
        assert!(!numeric_rule_matches(&r, at(4.1)));
        assert!(!numeric_rule_matches(&r, at(f64::NAN)));
    }
    assert!(numeric_rule_matches(&rule(CountRuleOp::Between, 3.0, None), at(3.0)));
    assert!(!numeric_rule_matches(&rule(CountRuleOp::Between, 3.0, None), at(3.1)));
    assert!(!optional_numeric_rule_matches(&rule(CountRuleOp::Gte, 0.0, None), None));
    assert!(optional_numeric_rule_matches(&rule(CountRuleOp::Gte, 0.0, None), Some(at(1.0))));
}

fn beatmap() -> BeatmapReadings {
    BeatmapReadings {
        long_notes: at(10.0),
        normal_notes: at(90.0),
        total_notes: at(100.0),
        bpm: at(180.0),
        hp: at(8.0),
        cs: at(4.0),
        od: at(8.0),
        duration: at(120.0),
    }
}

fn play(pp: Option<f64>) -> AutoRendererReplayMetrics {
    AutoRendererReplayMetrics {
        max_combo: at(100.0),
        accuracy: at(98.0),
        pp: pp.map(at),
        max: at(80.0),
        n300: at(15.0),
        n200: at(3.0),
        n100: at(1.0),
        n50: at(1.0),
        miss: at(0.0),
    }
}

#[test]
fn replays_are_filtered() {
    let mut c = AutoRendererConfig::default();
    let decide = |c: &AutoRendererConfig, pp: Option<f64>| {
        matches_auto_renderer_filters_with_metrics(c, 4, &beatmap(), &play(pp))
    };
    assert!(decide(&c, None) == AutoRendererFilterDecision::Match);
    c.key_counts = vec![7];
    assert!(decide(&c, None) == AutoRendererFilterDecision::Rejected);
    assert!(matches_auto_renderer_filters(&c, 7, &beatmap()) == AutoRendererFilterDecision::Match);
    c.key_counts = vec![7, 4];
    c.pp_rule = rule(CountRuleOp::Gte, 200.0, None);
    assert!(decide(&c, None) == AutoRendererFilterDecision::PpUnavailable);
    assert!(decide(&c, Some(199.0)) == AutoRendererFilterDecision::Rejected);
    assert!(decide(&c, Some(200.0)) == AutoRendererFilterDecision::Match);
    c.bpm_rule = rule(CountRuleOp::Lte, 170.0, None);
    assert!(decide(&c, None) == AutoRendererFilterDecision::Rejected);
    c.bpm_rule.enabled = false;
    c.judgment_rules.miss = rule(CountRuleOp::Gte, 1.0, None);
    assert!(decide(&c, Some(200.0)) == AutoRendererFilterDecision::Rejected);
}

#[test]
fn identifiers_are_trimmed() {
    assert!(matches!(sanitize_optional_id(Some(" a ".to_string()), "Preset"), Ok(Some(s)) if s == "a"));
    assert!(matches!(sanitize_optional_id(Some(" ".to_string()), "Preset"), Ok(None)));
    assert!(matches!(sanitize_optional_id(None, "Preset"), Ok(None)));
    assert_eq!(
        told(sanitize_optional_id(Some("é".repeat(65)), "Preset")),
        "invalid input: Preset id is too long"
    );
    assert!(matches!(sanitize_required_id(String::new(), "Skin", "default"), Ok(s) if s == "default"));
    assert!(matches!(sanitize_required_id("x".to_string(), "Skin", "default"), Ok(s) if s == "x"));
    assert!(sanitize_required_id("x".repeat(129), "Skin", "default").is_err());
}

fn same(x: f64) -> Rounded {
    Rounded { value: d(x), max_value: d(x) }
}

#[test]
fn limits_are_the_numbers_they_name() {
    let of = |bits: u64| f64::from_bits(bits);
    assert_eq!(of(MOST_NOTES), 5_000_000.0);
    assert_eq!(of(MOST_ACCURACY), 100.0);
    assert_eq!(of(MOST_POINTS), 100_000.0);
    assert_eq!(of(MOST_BPM), 10_000.0);
    assert_eq!(of(MOST_DIFFICULTY), 20.0);
    assert_eq!(of(MOST_KEYS), 18.0);
    assert_eq!(of(MOST_SECONDS), 86_400.0);
}

#[test]
fn rules_are_checked() {
    let check = |r: CountRule, n: Rounded| sanitize_count_rule(r, n, "BPM", MOST_BPM);
    match check(rule(CountRuleOp::Gte, 1.23456, None), same(1.235)) {
        Ok(r) => assert!(f64::from_bits(r.value.bits) == 1.235 && r.max_value.is_none() && r.enabled),
        Err(e) => panic!("{}", e.message()),
    }
    assert_eq!(
        told(check(rule(CountRuleOp::Gte, -1.0, None), same(-1.0))),
        "invalid input: BPM must be a non-negative finite number"
    );
    assert!(check(rule(CountRuleOp::Gte, f64::INFINITY, None), same(0.0)).is_err());
    assert!(check(rule(CountRuleOp::Gte, f64::NAN, None), same(0.0)).is_err());
    assert!(check(rule(CountRuleOp::Gte, -0.0, None), same(-0.0)).is_ok());
    assert_eq!(
        told(check(rule(CountRuleOp::Between, 1.0, Some(-1.0)), same(1.0))),
        "invalid input: BPM max must be a non-negative finite number"
    );
    assert_eq!(
        told(check(rule(CountRuleOp::Gte, 10_001.0, None), same(10_001.0))),
        "invalid input: BPM is above the supported safety limit"
    );
    assert!(check(rule(CountRuleOp::Gte, 10_000.0, None), same(10_000.0)).is_ok());
    let mut off = rule(CountRuleOp::Gte, 10_001.0, None);
    off.enabled = false;
    assert!(check(off, same(10_001.0)).is_ok());
}

fn judgments() -> RoundedJudgments {
    let n = same(0.0);
    RoundedJudgments { max: n, n300: n, n200: n, n100: n, n50: n, miss: n }
}

fn rounded() -> RoundedRules {
    let n = same(0.0);
    RoundedRules {
        long_note: n,
        normal_note: n,
        total_note: n,
        max_combo: n,
        accuracy: n,
        pp: n,
        bpm: n,
        hp: n,
        cs: n,
        od: n,
        duration: n,
        judgments: judgments(),
    }
}

#[test]
fn settings_of_the_auto_renderer_are_checked() {
    let mut j = JudgmentRules::default();
    assert!(sanitize_judgment_rules(j, judgments()).is_ok());
    j.n200.value = d(-1.0);
    assert_eq!(
        told(sanitize_judgment_rules(j, judgments())),
        "invalid input: 200 count must be a non-negative finite number"
    );
    assert!(matches!(sanitize_key_counts(&vec![7, 4, 7, 18, 1]), Ok(k) if k == vec![1, 4, 7, 18]));
    assert_eq!(
        told(sanitize_key_counts(&vec![19])),
        "invalid input: Key count filters must stay between 1K and 18K"
    );
    assert!(sanitize_key_counts(&vec![0]).is_err());
    let mut c = AutoRendererConfig::default();
    c.key_counts = vec![7, 4];
    c.selected_preset_id = Some(" p ".to_string());
    c.selected_skin_id = " ".to_string();
    match sanitize_auto_renderer_config(c, &rounded(), Ok("/osu".to_string())) {
        Ok(c) => {
            assert_eq!(c.key_counts, vec![4, 7]);
            assert_eq!(c.selected_preset_id, Some("p".to_string()));
            assert_eq!(c.selected_skin_id, "default");
            assert_eq!(c.osu_stable_path_override, "/osu");
        }
        Err(e) => panic!("{}", e.message()),
    }
    let mut c = AutoRendererConfig::default();
    c.hp_rule = rule(CountRuleOp::Gte, 20.0, None);
    let mut n = rounded();
    n.hp = same(20.001);
    assert_eq!(
        told(sanitize_auto_renderer_config(c, &n, Ok(String::new()))),
        "invalid input: HP is above the supported safety limit"
    );
    assert_eq!(
        told(sanitize_auto_renderer_config(
            AutoRendererConfig::default(),
            &rounded(),
            Err(AppError::Config("no".to_string()))
        )),
        "configuration error: no"
    );
}

#[test]
fn entered_settings_are_checked() {
    let check = |api: &str, frontend: &str| {
        told(check_settings(
            api,
            frontend,
            AutoRendererConfig::default(),
            &rounded(),
            Ok(String::new()),
        ))
    };
    assert_eq!(check(DEFAULT_API_URL, DEFAULT_FRONTEND_URL), "ok");
    assert_ne!(check("https://other/api", DEFAULT_FRONTEND_URL), "ok");
    assert_ne!(check(DEFAULT_API_URL, "https://other"), "ok");
    let bad = || AppError::Url("x".to_string());
    assert_eq!(
        told(judge_settings(Err(bad()), Ok(()), Ok(AutoRendererConfig::default()))),
        "URL error: x"
    );
    assert!(matches!(save_webhook(None), Ok(WebhookAction::Keep)));
    assert!(matches!(save_webhook(Some(" ")), Ok(WebhookAction::Remove)));
    assert!(matches!(
        save_webhook(Some(" https://discord.com/api/webhooks/1/x ")),
        Ok(WebhookAction::Store(w)) if w == "https://discord.com/api/webhooks/1/x"
    ));
    assert!(save_webhook(Some("https://example.com/x")).is_err());
    assert!(judge_webhook(Some("x"), Err(bad())).is_err());
    assert!(matches!(judge_webhook(Some(" "), Err(bad())), Ok(WebhookAction::Remove)));
}

fn entered(name: &str) -> SaveSettingsInput {
    SaveSettingsInput {
        api_url: DEFAULT_API_URL.to_string(),
        frontend_url: DEFAULT_FRONTEND_URL.to_string(),
        resolution: Resolution::P1080,
        auto_renderer: AutoRendererConfig::default(),
        discord_enabled: true,
        discord_webhook: None,
        server_name: name.to_string(),
        renderer_override_path: " /m ".to_string(),
        autostart: true,
        start_minimized_to_tray: true,
        show_discord_renderer_role: true,
        show_gpu_in_status_image: true,
        connect_worker_on_launch: true,
        close_to_tray_on_exit: true,
    }
}

#[test]
fn settings_are_saved() {
    let mut c = AppConfig::default();
    c.user_id = "u".to_string();
    match save_settings(&mut c, &entered(" PC "), AutoRendererConfig::default(), true) {
        Ok(change) => assert!(change.autostart && change.sync == WorkerSync::AskFirst),
        Err(e) => panic!("{}", e.message()),
    }
    assert_eq!((c.server_name.as_str(), c.renderer_override_path.as_str()), ("PC", "/m"));
    assert!(c.discord.enabled && c.discord.webhook_set && c.autostart);
    match save_settings(&mut c, &entered(" PC "), AutoRendererConfig::default(), true) {
        Ok(change) => assert!(!change.autostart && change.sync == WorkerSync::Nothing),
        Err(e) => panic!("{}", e.message()),
    }
    c.is_server = true;
    c.registered_user_id = "u".to_string();
    match save_settings(&mut c, &entered("PC"), AutoRendererConfig::default(), false) {
        Ok(change) => assert!(change.sync == WorkerSync::Send),
        Err(e) => panic!("{}", e.message()),
    }
    assert_eq!(
        told(save_settings(&mut c, &entered("1234567890123456789"), AutoRendererConfig::default(), false)),
        "invalid input: server name must be 18 characters or fewer"
    );
    assert_eq!(c.server_name, "PC");
    assert!(!set_autostart(&mut c, true));
    assert!(set_autostart(&mut c, false));
    assert!(!c.autostart);
}

#[test]
fn users_have_names() {
    assert!(is_generic_desktop_username(" Miru User "));
    assert_eq!(normalize_current_username("old", " new "), "new");
    assert_eq!(normalize_current_username(" old ", " "), "old");
    assert_eq!(normalize_current_username("old", "miru user"), "old");
    assert_eq!(normalize_current_username("MIRU USER", ""), "");
    assert_eq!(normalize_current_username("miru user", "Miru User"), "");
    assert_eq!(profile_label(" "), "UNKNOWN");
    assert_eq!(profile_label(" PRO "), "PRO");
    let label = |s: &str| normalize_current_user_label(&json(s));
    assert_eq!(label(r#"" pro ""#), "PRO");
    assert_eq!(label(r#"{"name": "a", "role": " ", "tier": "b"}"#), "A");
    assert_eq!(label(r#"{"plan": {"slug": "x"}, "role": "r"}"#), "X");
    assert_eq!(label(r#"{"id": "i"}"#), "I");
    assert_eq!(label("5"), "");
}

fn user(id: &str) -> CurrentUser {
    CurrentUser {
        id: id.to_string(),
        username: "peppy".to_string(),
        avatar_url: None,
        role: json(r#""admin""#),
        plan: json(r#"{"tier": "gold"}"#),
        discord_linked: true,
    }
}

#[test]
fn changed_profiles_are_logged() {
    let mut c = AppConfig::default();
    let log = sync_current_user_profile(&mut c, DEFAULT_API_URL, DEFAULT_FRONTEND_URL, user("1"));
    assert_eq!(
        log.as_deref(),
        Some("Account profile refreshed: role=ADMIN, plan=GOLD, discordLinked=true")
    );
    assert_eq!(c.user_id, "1");
    let again = sync_current_user_profile(&mut c, DEFAULT_API_URL, DEFAULT_FRONTEND_URL, user("2"));
    assert!(again.is_none());
    assert_eq!(c.user_id, "2");
    let mut left = user("2");
    left.plan = json("null");
    left.discord_linked = false;
    let log = sync_current_user_profile(&mut c, DEFAULT_API_URL, DEFAULT_FRONTEND_URL, left);
    assert_eq!(
        log.as_deref(),
        Some("Account profile refreshed: role=ADMIN, plan=UNKNOWN, discordLinked=false")
    );
}

#[test]
fn accounts_log_in_and_out() {
    let mut c = AppConfig::default();
    assert!(!login(&mut c, DEFAULT_API_URL, DEFAULT_FRONTEND_URL, user("1")));
    assert!(has_profile(&c));
    assert_eq!((c.user_role.as_str(), c.user_plan.as_str()), ("ADMIN", "GOLD"));
    c.is_server = true;
    c.registered_user_id = "1".to_string();
    apply_current_user(&mut c, DEFAULT_API_URL, DEFAULT_FRONTEND_URL, user("1"));
    assert!(c.is_server);
    assert!(login(&mut c, DEFAULT_API_URL, DEFAULT_FRONTEND_URL, user("2")));
    assert!(!c.is_server);
    assert_eq!(c.registered_user_id, "");
    clear_local_session_state(&mut c);
    assert!(!has_profile(&c) && c.username.is_empty() && !c.discord_linked);
    assert!(!switched_account(" ", "2"));
    assert!(!switched_account("2", "2"));
    assert!(switched_account("1", "2"));
    assert_eq!(
        switch_message("1", " ", "b"),
        "Account changed from 1 to b; disconnecting previous renderer session"
    );
    let why = |p: LoginProblem| login_error(p).message();
    assert_eq!(
        why(LoginProblem::Request("500".to_string())),
        "authentication error: failed to create desktop auth request: 500"
    );
    assert_eq!(why(LoginProblem::TimedOut), "authentication error: authentication timed out");
    assert_eq!(
        why(LoginProblem::Exchange("400".to_string())),
        "authentication error: failed to exchange desktop login code: 400"
    );
    assert_eq!(why(LoginProblem::NoTokens), "authentication error: missing token exchange payload");
    assert_eq!(
        why(LoginProblem::Profile("x".to_string())),
        "authentication error: failed to load desktop account profile: x"
    );
}

#[test]
fn tokens_are_read() {
    let bare = "h.eyJleHAiOjEwMH0.s";
    let padded = "h.eyJleHAiOjEwMH0=.s";
    assert_eq!(jwt_payload(bare).and_then(|p| p.get("exp").and_then(|v| v.as_u64())), Some(100));
    assert!(is_jwt_fresh(bare, 39, 60));
    assert!(!is_jwt_fresh(bare, 40, 60));
    assert!(is_jwt_fresh(padded, 0, 60));
    assert!(is_jwt_fresh("h.eyJzdWIiOiJ4Pz4ifQ", 999, 60));
    assert!(!is_jwt_fresh("h", 0, 0));
    assert!(!is_jwt_fresh("h.%%.s", 0, 0));
    assert!(!is_jwt_fresh("h.aGk.s", 0, 0));
    assert!(payload_is_fresh(&json(r#"{"exp": "x"}"#), 5, 5));
    assert!(!payload_is_fresh(&json(r#"{"exp": 18446744073709551615}"#), u64::MAX, 60));
    assert!(refresh_session_with_lock(Some(bare), 0, false));
    assert!(!refresh_session_with_lock(Some(bare), 0, true));
    assert!(!refresh_session_with_lock(Some(bare), 50, false));
    assert!(!refresh_session_with_lock(None, 0, false));
}

#[test]
fn responses_are_judged() {
    assert!(is_session_auth_status(401) && !is_session_auth_status(403));
    assert!(matches!(require_auth_response(200, true, None, None), AuthResponse::Pass));
    assert!(matches!(require_auth_response(401, false, None, None), AuthResponse::Refresh));
    assert!(matches!(
        require_auth_response(500, false, Some("Internal Server Error"), None),
        AuthResponse::Fail(e) if e.message() == "API error: 500 Internal Server Error"
    ));
    assert!(matches!(
        require_auth_response(599, false, None, None),
        AuthResponse::Fail(e) if e.message() == "API error: 599 HTTP error"
    ));
    assert!(matches!(
        require_auth_response(400, false, None, Some("m".to_string())),
        AuthResponse::Fail(e) if e.message() == "API error: m"
    ));
    let error = |m: &str| {
        parse_api_error_message(404, Some("Not Found"), Some(("GONE".to_string(), m.to_string())))
    };
    assert_eq!(error(" "), Some("404 Not Found: GONE".to_string()));
    assert_eq!(error("no"), Some("404 Not Found: GONE: no".to_string()));
    assert_eq!(parse_api_error_message(404, None, None), None);
    assert!(is_session_expired_error(&after_refresh(false)));
    assert!(!is_session_expired_error(&after_refresh(true)));
    assert_eq!(
        after_refresh(true).message(),
        "authentication error: session refreshed; retry the action"
    );
    assert!(matches!(refresh_session(200, true, true, ""), RefreshOutcome::Accept));
    assert!(matches!(refresh_session(200, true, false, ""), RefreshOutcome::Forget));
    assert!(matches!(refresh_session(403, false, true, ""), RefreshOutcome::Forget));
    assert!(matches!(
        refresh_session(500, false, true, "500 Internal Server Error"),
        RefreshOutcome::Fail(e) if e.message()
            == "authentication error: failed to refresh desktop session: 500 Internal Server Error"
    ));
}

#[test]
fn logins_end_with_a_code() {
    assert!(matches!(
        wait_for_code(b"GET /?state=1&code=a%20b HTTP/1.1\r\nHost: x\r\n"),
        Ok(c) if c == "a b"
    ));
    assert_eq!(
        told(wait_for_code(b"GET / HTTP/1.1\r\n")),
        "authentication error: missing login code"
    );
    assert_eq!(told(wait_for_code(b"GET\nx y")), "authentication error: invalid auth callback");
    assert!(matches!(callback_query("GET  /cb?x=1 HTTP"), Ok(q) if q == "x=1"));
    assert_eq!(
        login_url("https://h//", 80, "r"),
        "https://h/cli-auth?port=80&request=r"
    );
    let response = login_response();
    assert!(response.ends_with(LOGIN_PAGE));
    assert!(response.contains(&format!("Content-Length: {}\r\n", LOGIN_PAGE.len())));
}

#[test]
fn logs_and_history_are_cut() {
    let mut logs: Vec<String> = (0..300).map(|i| i.to_string()).collect();
    log_line(&mut logs, log_text("12:00", "new"));
    assert_eq!(logs.len(), 300);
    assert_eq!((logs[0].as_str(), logs[299].as_str()), ("1", "12:00 new"));
    let entry = |id: &str| {
        history_entry(id.to_string(), "t".to_string(), "k", "n", "d", "s", Some("u".to_string()))
    };
    let mut history = Vec::new();
    for i in 0..100 {
        add_history(&mut history, entry(&i.to_string()), "unused");
    }
    add_history(&mut history, entry(""), "fresh");
    assert_eq!(history.len(), 100);
    assert_eq!((history[0].id.as_str(), history[99].id.as_str()), ("fresh", "1"));
    assert_eq!((history[0].kind.as_str(), history[0].title.as_str()), ("k", "n"));
}

#[test]
fn the_state_is_shown() {
    assert!(is_authenticated(false, true, "u"));
    assert!(!is_authenticated(true, true, " "));
    assert!(!is_authenticated(false, false, "u"));
    assert!(renderer_installed(true, "", false));
    assert!(renderer_installed(false, "/m", true));
    assert!(!renderer_installed(false, " ", true));
    let runtime = RuntimeState::new();
    assert!(runtime.watcher_status == WatcherStatus::Stopped);
    let mut c = AppConfig::default();
    c.user_id = "u".to_string();
    let tool = || ToolSearch {
        managed_path: String::new(),
        managed_directory: String::new(),
        managed_exists: false,
        on_path: None,
    };
    let s = snapshot(
        c,
        OsuStablePathsStatus {
            osu_stable_detected: true,
            replay_dir_ready: false,
            stable_replay_dir_ready: true,
            songs_dir_ready: false,
            osu_stable_root: Some("/osu".to_string()),
            replay_dir: None,
            stable_replay_dir: None,
            songs_dir: None,
        },
        MachineFacts {
            has_api_token: true,
            has_refresh_token: false,
            managed_renderer: false,
            override_renderer: true,
        },
        Vec::new(),
        runtime,
        ffmpeg_tools_snapshot("/t".to_string(), tool(), tool()),
    );
    assert!(s.runtime.is_authenticated && !s.runtime.renderer_installed);
    assert!(s.runtime.osu_stable_detected && s.runtime.stable_replay_dir_ready);
    assert!(s.runtime.worker_status == WorkerStatus::Disconnected);
    assert_eq!(s.runtime.osu_stable_root, Some("/osu".to_string()));
    assert_eq!(s.config.user_id, "u");
}

#[test]
fn judgments_have_the_names_of_their_rules() {
    let hits = HitData { n300: 1, n100: 2, n50: 3, geki: 4, katu: 5, miss: 6 };
    let c = judgment_counts(&hits);
    assert_eq!((c.max, c.n300, c.n200, c.n100, c.n50, c.miss), (4, 1, 5, 2, 3, 6));
}
