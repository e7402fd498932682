use miru_client::benchmark::{
    after_size, apply_benchmark_requirement_overrides, benchmark_content_length,
    download_benchmark_assets, ensure_ffmpeg_tools_available, first_source, get_benchmark_config,
    get_benchmark_download_plan, legacy_benchmark_config, measure_upload_speed, remember_gpu,
    render_benchmark, replay_seconds, set_benchmark, speed_progress, tools_wanted,
    BenchmarkAction, BenchmarkConfigPayload, BenchmarkEvent, BenchmarkMoment, BenchmarkRun,
    BenchmarkStage, Probe, ProbeNext, SpeedMeasurement, SpeedTest, MAPSET_PATH, REPLAY_PATH,
};
use miru_client::desktop::{
    apply_autostart, autostart_args, build_tray_menu, can_control_server_worker_from_tray,
    can_use_auto_renderer_from_tray, default_auto_renderer_library, dialog_initial_dir,
    escape_powershell_literal, get_auto_renderer_library, is_authenticated_for_tray,
    launch_client_installer_after_exit, normalize_windows_dialog_path, open_external_url,
    pick_local_folder, pick_renderer_executable, run_powershell_picker, should_close_to_tray,
    should_start_minimized_to_tray, startup_command, tray_item, TrayItem, DISCORD_INVITE,
    START_MINIMIZED_ARG,
};
use miru_client::error::AppError;
use miru_client::json::Json;
use miru_client::releases::{custom_download_info, RendererDownloadInfo};
use miru_client::tools::{ffmpeg_tools_snapshot, FfmpegToolInfo, FfmpegToolsSnapshot, ToolSearch};
use miru_client::types::{
    AppConfig, AutoRendererLibraryPreset, AutoRendererLibrarySkin, Double, Resolution,
    WatcherStatus, WorkerStatus,
};

fn told<T>(r: Result<T, AppError>) -> String {
    match r {
        Ok(_) => "ok".to_string(),
        Err(e) => e.message(),
    }
}

fn d(x: f64) -> Double {
    Double { bits: x.to_bits() }
}

fn of(x: Double) -> f64 {
    f64::from_bits(x.bits)
}

fn bare() -> BenchmarkConfigPayload {
    BenchmarkConfigPayload {
        min_download_mbps: d(1.0),
        min_upload_mbps: d(1.0),
        max_render_ms: 0,
        upload_bytes: 0,
        download_sources: Vec::new(),
        upload_url: String::new(),
        replay_url: Some(" ".to_string()),
        mapset_url: None,
        replay_seconds: None,
    }
}

#[test]
fn benchmarks_are_completed() {
    let c = get_benchmark_config(bare());
    assert_eq!((of(c.min_download_mbps), of(c.min_upload_mbps)), (20.0, 15.0));
    assert_eq!(c.max_render_ms, 30_000);
    assert_eq!(c.replay_url, Some(REPLAY_PATH.to_string()));
    assert_eq!(c.mapset_url, Some(MAPSET_PATH.to_string()));
    assert!(matches!(
        first_source(&c),
        Ok(s) if s.label == "Miru API" && s.bytes == 33_554_432
            && s.url == "/servers/benchmark/speed-test?bytes=33554432"
    ));
    let again = get_benchmark_config(c);
    assert_eq!(again.download_sources.len(), 1);
    let l = legacy_benchmark_config();
    assert_eq!(l.replay_seconds, Some(30));
    assert!(matches!(
        first_source(&l),
        Ok(s) if s.url == "/api/v1/servers/benchmark/speed-test?duration=12"
    ));
    let mut b = bare();
    apply_benchmark_requirement_overrides(&mut b);
    assert_eq!(of(b.min_upload_mbps), 15.0);
    assert_eq!(told(first_source(&b)), "invalid input: benchmark missing download source");
    let seconds = |s: Option<u32>| {
        let mut b = bare();
        b.replay_seconds = s;
        replay_seconds(&b)
    };
    assert_eq!((seconds(None), seconds(Some(0)), seconds(Some(12)), seconds(Some(99))), (30, 1, 12, 30));
}

#[test]
fn sizes_are_asked_for() {
    assert!(benchmark_content_length(Probe::Head, 405, None) == ProbeNext::Ask(Probe::FirstByte));
    assert!(benchmark_content_length(Probe::Head, 404, None) == ProbeNext::Ask(Probe::FirstByte));
    assert!(benchmark_content_length(Probe::Head, 200, None) == ProbeNext::ReadSize);
    assert!(benchmark_content_length(Probe::FirstByte, 416, Some(5)) == ProbeNext::Size(Some(5)));
    assert!(benchmark_content_length(Probe::FirstByte, 206, Some(5)) == ProbeNext::ReadSize);
    assert!(benchmark_content_length(Probe::Whole, 416, Some(5)) == ProbeNext::ReadSize);
    assert!(after_size(Probe::Head, None) == ProbeNext::Ask(Probe::FirstByte));
    assert!(after_size(Probe::FirstByte, None) == ProbeNext::Ask(Probe::Whole));
    assert!(after_size(Probe::Whole, None) == ProbeNext::Size(None));
    assert!(after_size(Probe::Head, Some(3)) == ProbeNext::Size(Some(3)));
}

fn tools() -> FfmpegToolsSnapshot {
    let search = || ToolSearch {
        managed_path: "/t/x".to_string(),
        managed_directory: "/t".to_string(),
        managed_exists: false,
        on_path: None,
    };
    ffmpeg_tools_snapshot("/t".to_string(), search(), search())
}

fn info(available: bool, size_bytes: Option<u64>) -> FfmpegToolInfo {
    FfmpegToolInfo { available, size_bytes }
}

#[test]
fn plans_count_what_is_fetched() {
    let renderer = RendererDownloadInfo {
        version: "v1".to_string(),
        size_bytes: 100,
        install_path: "/m".to_string(),
        already_available: false,
        release_url: "u".to_string(),
    };
    let plan = get_benchmark_download_plan(
        &renderer, &tools(), &info(false, None), &info(true, Some(3)), Some(50), Some(7), None,
    );
    assert_eq!(plan.total_download_bytes, 157);
    assert_eq!(plan.release_url, Some("u".to_string()));
    assert_eq!(plan.items[0].detail, "Version v1 from GitHub Releases to /m");
    assert_eq!(plan.items[1].detail, "ffmpeg is missing. Download all will install it to /t/x");
    assert_eq!(plan.items[1].status, "download");
    assert_eq!(plan.items[3].size_bytes, None);
    let local = get_benchmark_download_plan(
        &custom_download_info("/c".to_string(), Some(9)),
        &tools(),
        &info(true, Some(2)),
        &info(true, Some(3)),
        Some(50),
        Some(7),
        Some(8),
    );
    assert_eq!(local.total_download_bytes, 15);
    assert_eq!(local.release_url, None);
    assert_eq!((local.items[1].size_bytes, local.items[1].status.as_str()), (Some(5), "local"));
    assert_eq!(local.items[0].detail, "Already available at /c");
    assert!(tools_wanted(&info(true, None), &info(false, None)));
    assert!(!tools_wanted(&info(true, None), &info(true, None)));
    assert_eq!(told(ensure_ffmpeg_tools_available(&tools(), &info(true, None), &info(true, None))), "ok");
    assert_eq!(
        told(ensure_ffmpeg_tools_available(&tools(), &info(false, None), &info(false, None))),
        "process error: ffmpeg and ffprobe are missing. Download all will install them to /t"
    );
    assert!(matches!(
        download_benchmark_assets(&get_benchmark_config(bare())),
        Ok((r, m)) if r == REPLAY_PATH && m == MAPSET_PATH
    ));
    assert_eq!(
        told(download_benchmark_assets(&bare())),
        "invalid input: benchmark mapset URL is missing"
    );
}

#[test]
fn speeds_are_measured() {
    let mut t = SpeedTest::new();
    assert_eq!(t.latency(9), 9);
    assert!(!t.measure_speed(10, 5, 25));
    assert!(!t.measure_speed(10, 8, 25));
    assert!(t.measure_speed(10, 9, 25));
    assert_eq!((t.bytes, t.latency(9)), (30, 5));
    assert!(SpeedTest::new().measure_speed(1, 20_000, 25));
    let upload = |url: &str, bytes: u64| {
        let mut b = bare();
        b.upload_url = url.to_string();
        b.upload_bytes = bytes;
        measure_upload_speed(&b)
    };
    assert_eq!(upload(" ", 5), None);
    assert_eq!(upload("u", 0), None);
    assert_eq!(upload("u", 5), Some(1_048_576));
    assert_eq!(upload("u", 2_000_000), Some(2_000_000));
    assert_eq!(upload("u", u64::MAX), Some(134_217_728));
    assert_eq!(
        render_benchmark("r", "m", "o", "s", Resolution::P1080, 12),
        vec![
            "--replay", "r", "--mapset", "m", "--out", "o", "--width", "1920", "--height", "1080",
            "--fps", "60", "--songs-dir", "s", "--end", "12"
        ]
    );
}

fn speed(down: f64) -> SpeedMeasurement {
    SpeedMeasurement {
        download_mbps: d(down),
        upload_mbps: d(15.0),
        latency_ms: 9,
        bytes: 1000,
        source: "Miru API".to_string(),
        download_text: format!("{down:.1}"),
        upload_text: "15.0".to_string(),
    }
}

#[test]
fn benchmarks_run_step_by_step() {
    for (down, eligible) in [(20.0, true), (19.9, false)] {
        let mut run = BenchmarkRun::new();
        assert!(matches!(run.run_benchmark(BenchmarkEvent::Session(Ok(true))), BenchmarkAction::CountSlots));
        assert!(matches!(run.run_benchmark(BenchmarkEvent::Slots(Ok(1))), BenchmarkAction::PrepareTools));
        assert!(matches!(run.run_benchmark(BenchmarkEvent::Tools(Ok(()))), BenchmarkAction::FetchConfig));
        assert!(matches!(
            run.run_benchmark(BenchmarkEvent::Config(Ok(get_benchmark_config(bare())))),
            BenchmarkAction::MeasureSpeed
        ));
        assert!(matches!(
            run.run_benchmark(BenchmarkEvent::Speed(Ok(speed(down)))),
            BenchmarkAction::FetchRenderer
        ));
        assert!(matches!(run.run_benchmark(BenchmarkEvent::Renderer(Ok(()))), BenchmarkAction::FetchAssets));
        assert!(matches!(run.run_benchmark(BenchmarkEvent::Assets(Ok(()))), BenchmarkAction::Render(30)));
        match run.run_benchmark(BenchmarkEvent::Rendered(Ok((30_000, "RTX".to_string())))) {
            BenchmarkAction::Finish(out) => {
                assert_eq!(out.eligible, eligible);
                assert_eq!(out.detail, format!("30000ms | {down:.1}/15.0 Mbps | RTX"));
                assert_eq!(out.title == "Benchmark passed", eligible);
                assert_eq!(out.status == "passed", eligible);
                assert_eq!(out.result.latency_ms, 9);
                let mut c = AppConfig::default();
                remember_gpu(&mut c, &out.result);
                assert_eq!(c.server_gpu, "RTX");
            }
            _ => panic!("not finished"),
        }
        assert!(run.stage == BenchmarkStage::Over);
    }
    let mut run = BenchmarkRun::new();
    assert!(matches!(
        run.run_benchmark(BenchmarkEvent::Session(Ok(false))),
        BenchmarkAction::Fail(e) if e.message() == "authentication error: login required to run benchmark"
    ));
    let mut run = BenchmarkRun::new();
    run.run_benchmark(BenchmarkEvent::Session(Ok(true)));
    assert!(matches!(
        run.run_benchmark(BenchmarkEvent::Slots(Ok(0))),
        BenchmarkAction::Fail(e)
            if e.message() == "process error: No public renderer slots are available right now"
    ));
}

#[test]
fn benchmarks_are_shown() {
    let p = set_benchmark(BenchmarkMoment::Speed);
    assert_eq!((p.phase.as_str(), of(p.percent), p.message.as_str()), ("speed", 5.0, "Testing real connection speed"));
    assert_eq!(of(set_benchmark(BenchmarkMoment::Upload).percent), 16.0);
    assert_eq!(of(set_benchmark(BenchmarkMoment::Tools).percent), 25.0);
    assert_eq!(of(set_benchmark(BenchmarkMoment::Replay).percent), 23.0);
    assert_eq!(of(set_benchmark(BenchmarkMoment::Mapset).percent), 29.0);
    assert_eq!(of(set_benchmark(BenchmarkMoment::Render).percent), 35.0);
    assert_eq!(set_benchmark(BenchmarkMoment::Done(true)).message, "Benchmark passed");
    assert_eq!(
        set_benchmark(BenchmarkMoment::Done(false)).message,
        "Benchmark complete; requirements not met"
    );
    let c = get_benchmark_config(bare());
    let p = speed_progress(&c, &speed(20.0));
    assert_eq!((of(p.percent), p.message.as_str()), (20.0, "20.0 Mbps down / 15.0 Mbps up"));
    assert_eq!(
        speed_progress(&c, &speed(1.0)).message,
        "1.0 Mbps down / 15.0 Mbps up; continuing render test"
    );
}

#[test]
fn the_tray_has_a_menu() {
    let mut c = AppConfig::default();
    let menu = |c: &AppConfig| build_tray_menu(c, WatcherStatus::Running, WorkerStatus::Error);
    assert!(menu(&c) == vec![TrayItem::Open, TrayItem::Quit]);
    c.user_role = "admin".to_string();
    c.is_server = true;
    assert!(can_use_auto_renderer_from_tray(&c) && !is_authenticated_for_tray(&c));
    assert!(menu(&c) == vec![TrayItem::Open, TrayItem::Quit]);
    c.user_id = " u".to_string();
    c.registered_user_id = "u ".to_string();
    assert!(can_control_server_worker_from_tray(&c));
    assert!(
        menu(&c)
            == vec![TrayItem::Open, TrayItem::StopWatcher, TrayItem::ConnectWorker, TrayItem::Quit]
    );
    assert!(
        build_tray_menu(&c, WatcherStatus::Error, WorkerStatus::Connecting)
            == vec![
                TrayItem::Open,
                TrayItem::StartWatcher,
                TrayItem::DisconnectWorker,
                TrayItem::Quit
            ]
    );
    for item in menu(&c) {
        assert!(tray_item(item.id()) == Some(item));
    }
    assert!(tray_item("x").is_none());
    assert_eq!(TrayItem::Quit.label(), "Quit");
    assert!(should_close_to_tray(None));
    c.close_to_tray_on_exit = false;
    assert!(!should_close_to_tray(Some(&c)));
}

#[test]
fn the_client_starts_with_the_system() {
    let args = |v: &[&str]| v.iter().map(|s| s.to_string()).collect::<Vec<String>>();
    assert!(should_start_minimized_to_tray(&args(&["miru", START_MINIMIZED_ARG])));
    assert!(!should_start_minimized_to_tray(&args(&["miru"])));
    assert_eq!(startup_command("C:\\m.exe", true), "\"C:\\m.exe\" --minimized-to-tray");
    assert_eq!(startup_command("C:\\m.exe", false), "\"C:\\m.exe\"");
    let key = "HKCU\\Software\\Microsoft\\Windows\\CurrentVersion\\Run";
    assert_eq!(
        autostart_args(true, "m", false),
        vec!["add", key, "/v", "MiruDesktopClient", "/t", "REG_SZ", "/d", "\"m\"", "/f"]
    );
    assert_eq!(autostart_args(false, "m", true), vec!["delete", key, "/v", "MiruDesktopClient", "/f"]);
    assert_eq!(told(apply_autostart(false, false)), "ok");
    assert_eq!(told(apply_autostart(true, true)), "ok");
    assert_eq!(
        told(apply_autostart(false, true)),
        "process error: failed to update Windows autostart registry"
    );
}

#[test]
fn dialogs_are_scripts() {
    assert_eq!(told(open_external_url(DISCORD_INVITE)), "ok");
    assert_eq!(told(open_external_url("https://x")), "invalid input: unsupported external URL");
    assert_eq!(dialog_initial_dir(" ", true, None), None);
    assert_eq!(dialog_initial_dir(" /a ", true, None), Some("/a".to_string()));
    assert_eq!(dialog_initial_dir("/a/b", false, Some("/a".to_string())), Some("/a".to_string()));
    assert_eq!(escape_powershell_literal("it's"), "it''s");
    let s = pick_renderer_executable(Some("C:\\o'b"));
    assert!(s.contains("if ('C:\\o''b' -ne '') { $dialog.InitialDirectory = 'C:\\o''b' }"));
    assert!(pick_renderer_executable(None).contains("if ('' -ne '')"));
    assert!(pick_local_folder(Some("C:\\o")).contains("$dialog.SelectedPath = 'C:\\o'"));
    assert_eq!(normalize_windows_dialog_path("\\\\?\\C:\\x".to_string()), "C:\\x");
    assert!(matches!(
        run_powershell_picker(true, " \\\\?\\C:\\x\r\n", ""),
        Ok(Some(p)) if p == "C:\\x"
    ));
    assert!(matches!(run_powershell_picker(true, "\r\n", ""), Ok(None)));
    assert_eq!(
        told(run_powershell_picker(false, "", " no ")),
        "process error: failed to open Windows picker dialog: no"
    );
    assert_eq!(
        told(run_powershell_picker(false, "", "")),
        "process error: failed to open Windows picker dialog"
    );
    let l = launch_client_installer_after_exit("C:\\s.exe", 42);
    assert!(l.starts_with("$installer = 'C:\\s.exe'\n$parentPid = 42\n"));
}

#[test]
fn the_library_has_the_usual_skin() {
    let skin = |id: &str| AutoRendererLibrarySkin {
        id: id.to_string(),
        name: id.to_string(),
        is_default: false,
        size_bytes: Some(1),
        created_at: None,
    };
    let l = default_auto_renderer_library();
    assert!(l.presets.is_empty() && l.skins.len() == 1 && l.skins[0].is_default);
    let preset = AutoRendererLibraryPreset {
        id: "p".to_string(),
        name: "P".to_string(),
        config: Json::Null,
        is_default: false,
        updated_at: None,
    };
    let l = get_auto_renderer_library(Some(vec![preset]), Some(vec![skin("a"), skin("default"), skin("b")]));
    let ids: Vec<&str> = l.skins.iter().map(|s| s.id.as_str()).collect();
    assert_eq!(ids, vec!["default", "a", "b"]);
    assert_eq!(l.skins[0].name, "Default skin");
    assert_eq!(l.presets[0].id, "p");
    assert_eq!(get_auto_renderer_library(None, None).skins.len(), 1);
}
