use miru_client::error::AppError;
use miru_client::jobs::{JobAssignment, WorkerRenderMode, WorkerResolution};
use miru_client::json::{parse, Json};
use miru_client::render::{
    append_text_tail, normalize_gpu_name, output_line, parse_gpu_name, parse_percent,
    render_progress, render_step, render_with_cli, truncate_utf8, RenderEnd,
};
use miru_client::server::{
    apply_registration, benchmark_meets_requirements, clear_registration, connect_choice,
    connect_gate, connect_worker, get_server_slots, legacy_worker_stats, next_reconnect_delay,
    normalize_server_name, parse_slots_response, preferred_name, reconnect_message,
    refresh_server_status, register_server, require_account, require_machine_id, require_token,
    sanitize_server_name, server_name_or_default, should_auto_reconnect_worker,
    sync_server_worker_settings,
    should_connect_on_launch, ConnectChoice, ReadyOutcome, ServerStatusResponse,
    ServerWorkerStatus, RECONNECT_FIRST_SECONDS,
};
use miru_client::socket::{
    connect_packet, event_of, handle_job, handle_worker_socket_event, parse_socket_error,
    parse_socket_event, queue_socket_event, queue_socket_event_no_payload, queue_worker_complete,
    queue_worker_error,
    queue_worker_heartbeat, queue_worker_progress, refusal_of, socket_aftermath, worker_identity,
    ActiveJob, JobEvent, JobVerdict, SocketAction, SocketEvent, SocketState, WorkerNotice,
    WorkerSocketExit,
};
use miru_client::types::{AppConfig, BenchmarkResult, Double, WorkerStatus};

fn told<T>(r: Result<T, AppError>) -> String {
    match r {
        Ok(_) => "ok".to_string(),
        Err(e) => e.message(),
    }
}

fn json(s: &str) -> Json {
    match parse(s) {
        Some(j) => j,
        None => panic!("{s}"),
    }
}

fn d(x: f64) -> Double {
    Double { bits: x.to_bits() }
}

fn benchmark() -> BenchmarkResult {
    BenchmarkResult {
        render_time_ms: 5000,
        download_mbps: d(50.0),
        upload_mbps: d(10.0),
        latency_ms: 20,
        speed_test_bytes: 100,
        benchmark_source: "server".to_string(),
        max_render_ms: 5000,
        min_mbps: d(50.0),
        min_upload_mbps: d(10.0),
        gpu_name: "RTX".to_string(),
    }
}

fn worker() -> AppConfig {
    let mut c = AppConfig::default();
    c.machine_id = " m-1 ".to_string();
    c.user_id = "u".to_string();
    c.registered_user_id = "u".to_string();
    c.is_server = true;
    c.server_name = "PC".to_string();
    c.server_auto_reconnect = true;
    c.connect_worker_on_launch = true;
    c
}

#[test]
fn the_end_of_an_output_is_kept() {
    let mut s = String::new();
    append_text_tail(&mut s, "one", 100);
    assert_eq!(s, "one");
    append_text_tail(&mut s, "two", 100);
    assert_eq!(s, "one\ntwo");
    append_text_tail(&mut s, "3", 5);
    assert_eq!(s, "two\n3");
    let mut t = "aé".to_string();
    append_text_tail(&mut t, "b", 3);
    assert_eq!(t, "\nb");
    append_text_tail(&mut t, "", 0);
    assert_eq!(t, "");
}

#[test]
fn the_beginning_of_a_line_is_kept() {
    assert_eq!(truncate_utf8("abc", 3), "abc");
    assert_eq!(truncate_utf8("aéb", 2), "a");
    assert_eq!(truncate_utf8("aéb", 3), "aé");
    assert_eq!(truncate_utf8("é", 1), "");
    assert_eq!(output_line("stderr", "x"), "stderr: x");
    assert_eq!(output_line("stdout", &"x".repeat(3000)).len(), 8 + 2048);
}

#[test]
fn progress_is_read_from_a_line() {
    assert_eq!(parse_percent("frame 12 of 30: 40.5% done 99%"), Some("40.5".to_string()));
    assert_eq!(parse_percent("7 %"), Some("7".to_string()));
    assert_eq!(parse_percent("% 3"), None);
    assert_eq!(parse_percent("done"), None);
    assert_eq!(render_progress(5, 40), Some(40));
    assert_eq!(render_progress(40, 40), None);
    assert_eq!(render_progress(5, 100), Some(94));
    assert_eq!(render_progress(4, -3), Some(5));
    assert_eq!(render_progress(5, 3), None);
    assert_eq!(render_step(40), "Renderizando: 40%");
}

#[test]
fn graphics_cards_are_read_from_a_line() {
    assert_eq!(parse_gpu_name(" GPU: RTX 4090 "), Some("RTX 4090".to_string()));
    assert_eq!(parse_gpu_name("gpu:x"), Some("x".to_string()));
    assert_eq!(parse_gpu_name("Gpu:x"), None);
    assert_eq!(parse_gpu_name("GPU: 300 FPS"), None);
    assert_eq!(parse_gpu_name("GPU:"), None);
    assert_eq!(normalize_gpu_name(" UNKNOWN "), None);
    assert_eq!(normalize_gpu_name(" "), None);
    assert_eq!(normalize_gpu_name(" a "), Some("a".to_string()));
}

#[test]
fn renders_end() {
    let exit = |success: bool, output: &str| {
        told(render_with_cli(RenderEnd::Exited {
            success,
            status: "exit status: 1".to_string(),
            output: output.to_string(),
        }))
    };
    assert_eq!(exit(true, "x"), "ok");
    assert_eq!(exit(false, " "), "process error: renderer exited with exit status: 1");
    assert_eq!(exit(false, " bad\n"), "process error: renderer exited with exit status: 1: bad");
    assert_eq!(
        told(render_with_cli(RenderEnd::TimedOut(61_500))),
        "process error: Render timed out after 61 seconds"
    );
    assert_eq!(told(render_with_cli(RenderEnd::Cancelled)), "process error: Render cancelled");
}

#[test]
fn workers_have_names() {
    assert!(matches!(normalize_server_name(" a "), Ok(n) if n == "a"));
    assert!(matches!(normalize_server_name("ééééééééééééééééée"), Ok(_)));
    assert_eq!(
        told(normalize_server_name("1234567890123456789")),
        "invalid input: server name must be 1-18 characters"
    );
    assert_eq!(told(normalize_server_name(" ")), "invalid input: server name must be 1-18 characters");
    assert!(matches!(server_name_or_default(" "), Ok(n) if n == "Miru PC"));
    assert!(matches!(server_name_or_default(" x"), Ok(n) if n == "x"));
    let mut config = AppConfig::default();
    assert!(matches!(sync_server_worker_settings(&config), Err(AppError::Config(_))));
    config.machine_id = " desktop:1 ".to_string();
    config.show_gpu_in_status_image = false;
    assert!(matches!(
        sync_server_worker_settings(&config),
        Ok(told) if told.machine_id == "desktop:1" && told.name == "Miru PC"
            && told.show_discord_renderer_role && !told.show_gpu_in_status_image
    ));
    config.server_name = "nineteen characters".to_string();
    assert!(matches!(sync_server_worker_settings(&config), Err(AppError::InvalidInput(_))));
    assert!(matches!(sanitize_server_name(" "), Ok(n) if n.is_empty()));
    assert_eq!(
        told(sanitize_server_name("1234567890123456789")),
        "invalid input: server name must be 18 characters or fewer"
    );
    assert!(matches!(preferred_name(" a ", "a"), Ok(None)));
    assert!(matches!(preferred_name(" ", "a"), Ok(None)));
    assert!(matches!(preferred_name(" b ", "a"), Ok(Some(n)) if n == "b"));
    assert!(preferred_name("1234567890123456789", "a").is_err());
}

#[test]
fn slots_are_read() {
    let slots = |s: &str| parse_slots_response(&json(s));
    assert_eq!(slots("3"), Some(3));
    assert_eq!(slots(r#"{"available": 1, "slots": 2}"#), Some(2));
    assert_eq!(slots(r#"{"available": 1, "slots": "x"}"#), Some(1));
    assert_eq!(slots(r#"{"data": {"available": 1, "slots": 2}}"#), Some(2));
    assert_eq!(slots(r#"{"data": {"available": -1}}"#), Some(-1));
    assert_eq!(slots(r#"{"data": 4}"#), None);
    assert!(matches!(get_server_slots(&json("3")), Ok(3)));
    assert_eq!(
        told(get_server_slots(&Json::Null)),
        "invalid input: server slots response missing slots"
    );
}

#[test]
fn machines_are_registered_after_a_benchmark() {
    let b = benchmark();
    assert!(benchmark_meets_requirements(&b));
    let mut c = worker();
    assert!(matches!(register_server(&c, 0, Some(&b)), Ok(id) if id == "m-1"));
    assert_eq!(told(require_account(&c)), "ok");
    assert_eq!(
        told(require_account(&AppConfig::default())),
        "authentication error: current account id missing; log in again before registering"
    );
    c.is_server = false;
    assert_eq!(
        told(register_server(&c, 0, Some(&b))),
        "process error: No public renderer slots are available right now"
    );
    assert_eq!(
        told(register_server(&c, 1, None)),
        "invalid input: run a benchmark before registering this PC"
    );
    let mut slow = benchmark();
    slow.upload_mbps = d(9.99);
    assert_eq!(
        told(register_server(&c, 1, Some(&slow))),
        "invalid input: benchmark requirements were not met; this PC cannot be added as a renderer"
    );
    slow.upload_mbps = d(f64::NAN);
    assert!(!benchmark_meets_requirements(&slow));
    slow = benchmark();
    slow.render_time_ms = 5001;
    assert!(!benchmark_meets_requirements(&slow));
    c.machine_id = " ".to_string();
    assert_eq!(
        told(register_server(&c, 1, Some(&b))),
        "configuration error: renderer machine id is missing; restart Miru and try again"
    );
    assert!(require_machine_id(&c).is_err());
    c.user_id = String::new();
    assert_eq!(
        told(register_server(&c, 1, Some(&b))),
        "authentication error: current account id missing; log in again before registering"
    );
    assert!(matches!(require_token(Some("t".to_string()), "x"), Ok(t) if t == "t"));
    assert_eq!(told(require_token(None, "connect")), "authentication error: login required to connect");
}

#[test]
fn registrations_come_and_go() {
    let mut c = AppConfig::default();
    c.user_id = "u".to_string();
    apply_registration(&mut c, "N".to_string(), "id", None, "gpu");
    assert!(c.is_server);
    assert_eq!(
        (c.registered_user_id.as_str(), c.server_client_id.as_str(), c.server_status.as_str()),
        ("u", "id", "ACTIVE")
    );
    assert_eq!((c.server_name.as_str(), c.server_gpu.as_str()), ("N", "gpu"));
    c.server_auto_reconnect = true;
    clear_registration(&mut c);
    assert!(!c.is_server && !c.server_auto_reconnect);
    assert_eq!(c.registered_user_id, "");
    assert_eq!(c.server_status, "");
    assert_eq!(c.server_name, "N");
}

fn status(registered: bool, status: &str, worker: bool) -> ServerStatusResponse {
    ServerStatusResponse {
        registered,
        status: status.to_string(),
        slots: 2,
        total: 5,
        worker: if worker {
            Some(ServerWorkerStatus {
                client_id: "w".to_string(),
                name: None,
                is_online: true,
                jobs_completed: 3,
                jobs_failed: 1,
                total_render_time_seconds: 60,
            })
        } else {
            None
        },
        compliance: None,
    }
}

#[test]
fn the_server_decides_about_a_registration() {
    let mut c = worker();
    c.is_server = false;
    c.registered_user_id = String::new();
    let (stats, clear) = refresh_server_status(&mut c, status(true, "ACTIVE", true));
    assert!(!clear && stats.registered && stats.is_online && c.is_server);
    assert_eq!(c.registered_user_id, "u");
    assert_eq!(c.server_client_id, "w");
    assert_eq!(stats.name, "PC");
    assert_eq!((stats.jobs_completed, stats.jobs_failed, stats.total_render_time_seconds), (3, 1, 60));
    let (stats, clear) = refresh_server_status(&mut c, status(true, "PENDING", false));
    assert!(clear && !stats.registered && !stats.is_online && !c.is_server);
    assert!(!c.server_auto_reconnect);
    assert_eq!(c.server_status, "PENDING");
    assert_eq!((stats.slots_available, stats.slots_total), (2, 5));
    let legacy = legacy_worker_stats(&worker(), 4);
    assert!(legacy.registered && legacy.client_id.is_none());
    assert_eq!((legacy.status.as_str(), legacy.slots_available, legacy.slots_total), ("ACTIVE", 4, 5));
    assert_eq!(legacy_worker_stats(&c, 4).status, "UNKNOWN");
}

#[test]
fn connections_are_made_for_owners() {
    let mut c = worker();
    assert!(connect_gate(true, &c, false).is_none());
    let refused = |r: bool, c: &AppConfig, t: bool| match connect_gate(r, c, t) {
        Some(x) => (x.clear_token, x.error.message()),
        None => (false, "ok".to_string()),
    };
    assert_eq!(
        refused(false, &c, true),
        (true, "authentication error: this account does not own an active renderer registration".to_string())
    );
    c.is_server = false;
    assert_eq!(
        refused(true, &c, false),
        (false, "authentication error: worker token missing; register this PC first".to_string())
    );
    assert!(!should_auto_reconnect_worker(&c));
    assert!(should_auto_reconnect_worker(&worker()));
    assert!(should_connect_on_launch(true, &c));
    assert!(!should_connect_on_launch(false, &c));
    c.user_id = "other".to_string();
    assert!(!should_connect_on_launch(true, &c));
    assert!(connect_choice(WorkerStatus::Connecting, false) == ConnectChoice::Nothing);
    assert!(connect_choice(WorkerStatus::Connected, true) == ConnectChoice::Nothing);
    assert!(connect_choice(WorkerStatus::Connected, false) == ConnectChoice::Reconnect);
    assert!(connect_choice(WorkerStatus::Error, true) == ConnectChoice::Connect);
    assert_eq!(told(connect_worker(ReadyOutcome::Ready)), "ok");
    assert_eq!(told(connect_worker(ReadyOutcome::Rejected("no".to_string()))), "process error: no");
    assert_eq!(told(connect_worker(ReadyOutcome::Dropped)), "process error: worker socket startup failed");
    assert_eq!(
        told(connect_worker(ReadyOutcome::TimedOut)),
        "process error: worker socket connection timeout"
    );
}

#[test]
fn attempts_get_rarer() {
    let mut seconds = RECONNECT_FIRST_SECONDS;
    let mut seen = Vec::new();
    for _ in 0..7 {
        seen.push(seconds);
        seconds = next_reconnect_delay(seconds);
    }
    assert_eq!(seen, vec![10, 20, 40, 80, 160, 300, 300]);
    assert_eq!(next_reconnect_delay(u64::MAX), 300);
    assert_eq!(
        reconnect_message(20, "socket closed"),
        "Worker will reconnect in 20s after socket closed"
    );
}

#[test]
fn packets_are_read() {
    assert_eq!(queue_socket_event_no_payload("worker:ready"), r#"42/workers,["worker:ready"]"#);
    assert_eq!(queue_socket_event_no_payload("a\"b"), r#"42/workers,["a\"b"]"#);
    assert_eq!(
        connect_packet("t\\k", "My \u{1}PC\n", "GPU", "Windows x86_64"),
        [
            r#"40/workers,{"gpu":"GPU","machineName":"My \u0001PC\n","os":"Windows x86_64","#,
            r#""protocolVersion":3,"token":"t\\k"}"#,
        ]
        .concat()
    );
    match parse_socket_event(r#"42/workers,["job:cancel",{"jobId":"7"},3]"#) {
        Some((name, payload)) => {
            assert_eq!(name, "job:cancel");
            assert_eq!(payload.text_of("jobId"), Some("7"));
        }
        None => panic!("no event"),
    }
    assert!(matches!(parse_socket_event(r#"42/workers,["x"]"#), Some((n, Json::Null)) if n == "x"));
    assert!(parse_socket_event(r#"42["x"]"#).is_none());
    assert!(parse_socket_event("42/workers,[").is_none());
    assert!(event_of(json("[1]")).is_none());
    assert!(event_of(json("[]")).is_none());
    assert!(event_of(json(r#""x""#)).is_none());
    let refused = |s: &str| parse_socket_error(s);
    assert_eq!(refused(r#"44/workers,{"message":"no"}"#), Some("no".to_string()));
    assert_eq!(refused(r#"44/workers,"why""#), Some("why".to_string()));
    assert_eq!(refused("44/workers,{}"), Some("worker namespace rejected connection".to_string()));
    assert_eq!(refused("44/workers,{"), None);
    assert_eq!(refused("44{}"), None);
    assert_eq!(refusal_of(&json(r#"{"message":5}"#)), "worker namespace rejected connection");
}

#[test]
fn written_packets_are_read_back() {
    assert!(matches!(
        parse_socket_event(&queue_socket_event_no_payload("a\"\n\u{1}b")),
        Some((name, Json::Null)) if name == "a\"\n\u{1}b"
    ));
    let notice = WorkerNotice::Complete {
        job_id: "j\\1".to_string(),
        attempt_id: "a".to_string(),
        video_key: "k".to_string(),
        duration: 7,
        file_size: u64::MAX,
        summary_mismatch: Some(true),
    };
    match parse_socket_event(&queue_socket_event(&notice)) {
        Some((name, payload)) => {
            assert_eq!(name, "worker:complete");
            assert_eq!(payload.text_of("jobId"), Some("j\\1"));
            assert!(matches!(payload.get("fileSize"), Some(Json::Unsigned(n)) if *n == u64::MAX));
            assert!(matches!(
                payload.get("replayIntegrity").and_then(|r| r.get("has_summary_mismatch")),
                Some(Json::Bool(true))
            ));
        }
        None => panic!("no event"),
    }
}

#[test]
fn a_worker_says_who_it_is() {
    let mut c = worker();
    c.server_gpu = " unknown".to_string();
    assert_eq!(worker_identity(&c), ("PC".to_string(), "Unknown".to_string()));
    c.server_name = " ".to_string();
    c.server_gpu = " RTX ".to_string();
    assert_eq!(worker_identity(&c), ("Miru Desktop".to_string(), "RTX".to_string()));
}

#[test]
fn the_conversation_goes_by_packets() {
    let mut s = SocketState::new();
    let packet = |t: &str| SocketEvent::Packet(t.to_string());
    assert!(matches!(s.worker_socket_loop(packet(r#"0{"sid":"x"}"#)), SocketAction::SendIdentity));
    assert!(matches!(s.worker_socket_loop(packet("2")), SocketAction::SendPong));
    assert!(matches!(s.worker_socket_loop(packet("3")), SocketAction::Wait));
    assert!(matches!(s.worker_socket_loop(SocketEvent::Other), SocketAction::Wait));
    assert!(matches!(
        s.worker_socket_loop(packet("40/workers,{}")),
        SocketAction::Connected { tell: true }
    ));
    assert!(matches!(
        s.worker_socket_loop(packet("40/workers,{}")),
        SocketAction::Connected { tell: false }
    ));
    assert!(matches!(
        s.worker_socket_loop(packet(r#"42/workers,["job:assigned",{}]"#)),
        SocketAction::Handle { event, .. } if event == "job:assigned"
    ));
    assert!(matches!(
        s.worker_socket_loop(packet(r#"44/workers,"no""#)),
        SocketAction::Fail { error, notify: None } if error.message() == "process error: no"
    ));
    let mut t = SocketState::new();
    assert!(matches!(
        t.worker_socket_loop(packet(r#"44/workers,"no""#)),
        SocketAction::Fail { notify: Some(m), .. } if m == "no"
    ));
    assert!(matches!(
        t.worker_socket_loop(SocketEvent::Failed("reset".to_string())),
        SocketAction::Fail { error, notify: None } if error.message() == "WebSocket error: reset"
    ));
    assert!(matches!(
        t.worker_socket_loop(SocketEvent::Idle),
        SocketAction::GiveUp(e) if e.message() == "process error: worker socket idle timeout after 90s"
    ));
    assert!(matches!(
        t.worker_socket_loop(SocketEvent::Shutdown),
        SocketAction::Leave(WorkerSocketExit::Shutdown)
    ));
    assert!(matches!(
        t.worker_socket_loop(SocketEvent::Closed),
        SocketAction::Leave(WorkerSocketExit::Closed)
    ));
}

#[test]
fn only_a_wanted_end_is_final() {
    let a = socket_aftermath(&Ok(WorkerSocketExit::Shutdown));
    assert!(a.status == WorkerStatus::Disconnected && a.reconnect.is_none());
    let b = socket_aftermath(&Ok(WorkerSocketExit::Closed));
    assert!(b.status == WorkerStatus::Disconnected && b.reconnect == Some("socket closed"));
    let c = socket_aftermath(&Err(AppError::Process("x".to_string())));
    assert!(c.status == WorkerStatus::Error && c.reconnect == Some("socket error"));
}

#[test]
fn a_worker_has_one_job() {
    assert!(handle_worker_socket_event("job:assigned") == JobEvent::Assigned);
    assert!(handle_worker_socket_event("job:cancel") == JobEvent::Cancel);
    assert!(handle_worker_socket_event("job") == JobEvent::Other);
    let mut a = ActiveJob::new();
    assert_eq!(a.cancel(&json("{}")), None);
    assert!(a.assign("1"));
    assert!(!a.assign("2"));
    assert_eq!(a.cancel(&json(r#"{"jobId":"2"}"#)), None);
    assert_eq!(a.cancel(&json(r#"{"jobId":"1"}"#)), Some("1".to_string()));
    a.finish("2");
    assert_eq!(a.job_id, Some("1".to_string()));
    a.finish("1");
    assert!(a.assign("2"));
}

#[test]
fn the_server_is_told_of_jobs() {
    let job = JobAssignment {
        id: "1".to_string(),
        attempt_id: None,
        attempt_number: None,
        render_mode: WorkerRenderMode::Replay,
        replay_url: None,
        replay_extension: None,
        beatmap_url: None,
        beatmap_extension: None,
        mapset_url: None,
        mapset_extension: None,
        difficulty_index: None,
        skin_url: None,
        skin_extension: None,
        output_upload_url: String::new(),
        output_storage_key: "key".to_string(),
        max_output_size_bytes: 0,
        max_render_duration_ms: None,
        hud_config: None,
        bg_opacity: None,
        scroll_speed: None,
        motion_blur_percent: None,
        background_blur_percent: None,
        background_video_enabled: None,
        render_intro_enabled: None,
        storyboard_enabled: None,
        skin_animations_enabled: None,
        combo_images_enabled: None,
        music_volume: None,
        hitsound_volume: None,
        intro_user: None,
        resolution: WorkerResolution { width: 1280, height: 720, fps: 60 },
    };
    let p = queue_worker_progress(&job, 5, "s", "f");
    assert_eq!(p.event_name(), "worker:progress");
    assert_eq!(
        queue_socket_event(&p),
        r#"42/workers,["worker:progress",{"attemptId":"1","currentStep":"s","jobId":"1","phase":"f","progress":5}]"#
    );
    assert!(matches!(
        p,
        WorkerNotice::Progress { job_id, attempt_id, progress: 5, current_step, phase }
            if job_id == "1" && attempt_id == "1" && current_step == "s" && phase == "f"
    ));
    assert_eq!(queue_worker_heartbeat(&job).event_name(), "worker:heartbeat");
    assert_eq!(
        queue_socket_event(&queue_worker_heartbeat(&job)),
        r#"42/workers,["worker:heartbeat",{"attemptId":"1","jobId":"1"}]"#
    );
    let c = queue_worker_complete(&job, 12, 34, Some(true));
    assert_eq!(c.event_name(), "worker:complete");
    assert_eq!(
        queue_socket_event(&c),
        [
            r#"42/workers,["worker:complete",{"attemptId":"1","duration":12,"fileSize":34,"jobId":"1","#,
            r#""replayIntegrity":{"has_summary_mismatch":true},"videoKey":"key"}]"#,
        ]
        .concat()
    );
    let unknown = queue_socket_event(&queue_worker_complete(&job, 0, 0, None));
    assert!(unknown.contains(r#""replayIntegrity":null,"#));
    assert!(matches!(
        c,
        WorkerNotice::Complete { video_key, duration: 12, file_size: 34, summary_mismatch: Some(true), .. }
            if video_key == "key"
    ));
    let e = queue_worker_error(&job, "bad");
    assert_eq!(e.event_name(), "worker:error");
    assert_eq!(
        queue_socket_event(&queue_worker_error(&job, "a \"b\"\t\u{1f}\u{8}\u{c}\r/\u{7f}")),
        [
            r#"42/workers,["worker:error",{"attemptId":"1","error":"a \"b\"\t\u001f\b\f\r/"#,
            "\u{7f}",
            r#"","jobId":"1"}]"#,
        ]
        .concat()
    );
    assert!(matches!(e, WorkerNotice::Error { error, .. } if error == "bad"));
    assert!(matches!(handle_job(&Ok(())), JobVerdict::Completed));
    assert!(matches!(
        handle_job(&Err(AppError::Process("Render cancelled".to_string()))),
        JobVerdict::Cancelled
    ));
    assert!(matches!(
        handle_job(&Err(AppError::Auth("x".to_string()))),
        JobVerdict::Failed(m) if m == "authentication error: x"
    ));
}
