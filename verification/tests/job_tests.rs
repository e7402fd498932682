use miru_client::error::AppError;
use miru_client::jobs::{
    assert_allowed_resolution, choose_extension, is_safe_extension, render_timeout_for_job,
    resolve_file_extension, safe_hud_asset_component, safe_path_component,
    validate_job_assignment, JobAssignment, WorkerRenderMode, WorkerResolution,
};
use miru_client::plan::{
    build_render_cli_args, clamp_optional, execute_job, job_file_name, JobFile, JobStep,
    PreparedJobPaths, RenderArg,
};
use miru_client::transfer::{
    benchmark_chunk, check_benchmark_length, check_json_size, check_output_size,
    content_range_total, data_url_payload, declared_content_size, decode_data_url_bytes,
    finish_benchmark_file, replay_report_wanted, take_whole, validate_transfer_size, ByteBudget,
    Download,
};
use miru_client::types::Double;

fn told<T>(r: Result<T, AppError>) -> String {
    match r {
        Ok(_) => "ok".to_string(),
        Err(e) => e.message(),
    }
}

fn d(x: f64) -> Option<Double> {
    Some(Double { bits: x.to_bits() })
}

fn some(s: &str) -> Option<String> {
    Some(s.to_string())
}

fn job(mode: WorkerRenderMode) -> JobAssignment {
    JobAssignment {
        id: "job-1".to_string(),
        attempt_id: some("attempt-9"),
        attempt_number: Some(1),
        render_mode: mode,
        replay_url: some("https://h/r"),
        replay_extension: some(".osr"),
        beatmap_url: None,
        beatmap_extension: None,
        mapset_url: some("https://h/m"),
        mapset_extension: some("x/y.OSZ"),
        difficulty_index: Some(2),
        skin_url: None,
        skin_extension: None,
        output_upload_url: "https://h/up".to_string(),
        output_storage_key: "videos/1.mp4".to_string(),
        max_output_size_bytes: 1000,
        max_render_duration_ms: None,
        hud_config: None,
        bg_opacity: None,
        scroll_speed: None,
        motion_blur_percent: None,
        background_blur_percent: None,
        background_video_enabled: None,
        render_intro_enabled: None,
        storyboard_enabled: None,
        skin_animations_enabled: None,
        combo_images_enabled: None,
        music_volume: None,
        hitsound_volume: None,
        intro_user: None,
        resolution: WorkerResolution { width: 1280, height: 720, fps: 60 },
    }
}

#[test]
fn attempts_have_a_name() {
    let mut j = job(WorkerRenderMode::Replay);
    assert_eq!(j.attempt_id(), "attempt-9");
    j.attempt_id = some("  ");
    assert_eq!(j.attempt_id(), "job-1");
    j.attempt_id = None;
    assert_eq!(j.attempt_id(), "job-1");
}

#[test]
fn only_two_sizes_are_rendered() {
    let r = |w: u32, h: u32, f: u32| told(assert_allowed_resolution(&WorkerResolution { width: w, height: h, fps: f }));
    assert_eq!(r(1280, 720, 60), "ok");
    assert_eq!(r(1920, 1080, 60), "ok");
    assert_eq!(r(1920, 720, 60), "invalid input: unexpected render resolution requested: 1920x720@60");
    assert_eq!(r(1280, 720, 30), "invalid input: unexpected render resolution requested: 1280x720@30");
}

#[test]
fn jobs_are_checked_in_order() {
    let problem = |change: &dyn Fn(&mut JobAssignment)| {
        let mut j = job(WorkerRenderMode::Replay);
        change(&mut j);
        told(validate_job_assignment(&j))
    };
    assert_eq!(problem(&|_| {}), "ok");
    assert_eq!(problem(&|j| j.id = " ".to_string()), "invalid input: job missing id");
    assert_eq!(
        problem(&|j| j.attempt_number = Some(0)),
        "invalid input: job declared invalid attempt number"
    );
    assert_eq!(
        problem(&|j| j.resolution.fps = 1),
        "invalid input: unexpected render resolution requested: 1280x720@1"
    );
    assert_eq!(
        problem(&|j| j.output_upload_url = "".to_string()),
        "invalid input: job missing output upload URL"
    );
    assert_eq!(
        problem(&|j| j.output_storage_key = "".to_string()),
        "invalid input: job missing output storage key"
    );
    assert_eq!(
        problem(&|j| j.max_output_size_bytes = 0),
        "invalid input: job declared invalid max output size"
    );
    assert_eq!(problem(&|j| j.replay_url = some(" ")), "invalid input: replay job missing replay URL");
    assert_eq!(
        problem(&|j| j.mapset_url = None),
        "invalid input: replay job missing resolved mapset or beatmap URL"
    );
    assert_eq!(
        problem(&|j| j.difficulty_index = Some(-1)),
        "invalid input: replay job missing valid difficulty index for mapset"
    );
    assert_eq!(
        problem(&|j| {
            j.render_mode = WorkerRenderMode::Autoplay;
            j.difficulty_index = None;
        }),
        "invalid input: autoplay job missing valid mapset URL or difficulty index"
    );
}

#[test]
fn renders_have_a_time_limit() {
    let ms = |v: Option<u64>| {
        let mut j = job(WorkerRenderMode::Replay);
        j.max_render_duration_ms = v;
        render_timeout_for_job(&j)
    };
    assert_eq!(ms(None), 600_000);
    assert_eq!(ms(Some(0)), 600_000);
    assert_eq!(ms(Some(5)), 1000);
    assert_eq!(ms(Some(7000)), 7000);
}

#[test]
fn names_of_files_are_safe() {
    assert_eq!(safe_path_component("a/../b é", "x"), "a____b__");
    assert_eq!(safe_path_component("", "x"), "x");
    assert_eq!(safe_path_component(&"a".repeat(200), "x").len(), 96);
    assert_eq!(safe_hud_asset_component(Some(" __a b__ "), "o"), "a_b");
    assert_eq!(safe_hud_asset_component(Some("///"), "o"), "o");
    assert_eq!(safe_hud_asset_component(None, "asset-3"), "asset-3");
}

#[test]
fn extensions_are_safe() {
    assert!(is_safe_extension("osz"));
    assert!(!is_safe_extension(""));
    assert!(!is_safe_extension("o.z"));
    assert!(!is_safe_extension("abcdefghijklm"));
    assert_eq!(resolve_file_extension(None, ".osr"), ".osr");
    assert_eq!(resolve_file_extension(Some(" .OSR "), ".x"), ".osr");
    assert_eq!(resolve_file_extension(Some("file.OSZ"), ".x"), ".osz");
    assert_eq!(resolve_file_extension(Some("noext"), ".x"), ".x");
    assert_eq!(choose_extension(Some("n"), Some("Mp4"), ".x"), ".mp4");
    assert_eq!(choose_extension(Some("n"), Some("m-4"), ".x"), ".x");
    assert_eq!(choose_extension(None, Some("mp4"), ".x"), ".x");
}

#[test]
fn files_of_a_job_have_names() {
    let j = job(WorkerRenderMode::Replay);
    assert_eq!(job_file_name(&j, JobFile::Replay), "replay.osr");
    assert_eq!(job_file_name(&j, JobFile::Mapset), "mapset.osz");
    assert_eq!(job_file_name(&j, JobFile::Beatmap), "beatmap.osu");
    assert_eq!(job_file_name(&j, JobFile::Skin), "skin.osk");
    assert_eq!(job_file_name(&j, JobFile::Output), "output.mp4");
    assert_eq!(job_file_name(&j, JobFile::Folder), "");
}

fn names(steps: &[JobStep]) -> Vec<String> {
    steps
        .iter()
        .map(|s| match s {
            JobStep::EnsureTools => "tools".to_string(),
            JobStep::MakeFolder => "folder".to_string(),
            JobStep::Report { progress, phase, .. } => format!("{progress} {phase}"),
            JobStep::PrepareIntro => "intro".to_string(),
            JobStep::Fetch { url, limit, .. } => format!("{url} {limit}"),
            JobStep::WriteHudConfig => "hud".to_string(),
            JobStep::WriteAutoplayMods => "mods".to_string(),
            JobStep::Render { with_report } => format!("render {with_report}"),
            JobStep::ReadReport => "report".to_string(),
            JobStep::Upload => "upload".to_string(),
        })
        .collect()
}

#[test]
fn a_replay_goes_through_its_steps() {
    let mut j = job(WorkerRenderMode::Replay);
    j.skin_url = some("https://h/s");
    j.hud_config = Some(miru_client::json::Json::Null);
    match execute_job(&j) {
        Ok(steps) => assert_eq!(
            names(&steps),
            vec![
                "tools", "folder", "0 input_download", "intro", "https://h/r 67108864",
                "https://h/m 536870912", "https://h/s 134217728", "hud", "5 input_download",
                "render true", "report", "95 output_upload", "upload"
            ]
        ),
        Err(e) => panic!("{}", e.message()),
    }
}

#[test]
fn an_autoplay_goes_through_its_steps() {
    let mut j = job(WorkerRenderMode::Autoplay);
    j.render_intro_enabled = Some(false);
    match execute_job(&j) {
        Ok(steps) => assert_eq!(
            names(&steps),
            vec![
                "tools", "folder", "0 input_download", "https://h/m 536870912", "mods",
                "5 input_download", "render false", "95 output_upload", "upload"
            ]
        ),
        Err(e) => panic!("{}", e.message()),
    }
    j.id = String::new();
    assert_eq!(told(execute_job(&j)), "invalid input: job missing id");
}

#[test]
fn steps_prepare_files() {
    let j = job(WorkerRenderMode::Replay);
    let mut paths = PreparedJobPaths::new();
    match execute_job(&j) {
        Ok(steps) => {
            for s in &steps {
                paths.done(s, true);
            }
        }
        Err(e) => panic!("{}", e.message()),
    }
    assert!(paths.replay && paths.mapset && paths.intro_user);
    assert!(!paths.beatmap && !paths.skin && !paths.hud_config && !paths.autoplay_mods);
}

fn words(args: &[RenderArg]) -> Vec<String> {
    args.iter()
        .map(|a| match a {
            RenderArg::Text(s) => s.clone(),
            RenderArg::File(f) => format!("<{}>", *f as u8),
            RenderArg::Number(n) => format!("{}", f64::from_bits(n.bits)),
            RenderArg::Rounded(n) => format!("{}", f64::from_bits(n.bits).round()),
        })
        .collect()
}

#[test]
fn the_renderer_is_told_everything() {
    let mut j = job(WorkerRenderMode::Replay);
    j.render_intro_enabled = Some(false);
    j.bg_opacity = d(150.0);
    j.scroll_speed = d(0.5);
    j.motion_blur_percent = d(12.6);
    j.background_blur_percent = d(0.0);
    j.background_video_enabled = Some(false);
    j.storyboard_enabled = Some(false);
    j.skin_animations_enabled = Some(true);
    j.combo_images_enabled = Some(false);
    j.music_volume = d(f64::NAN);
    j.hitsound_volume = d(-3.0);
    let paths = PreparedJobPaths {
        replay: true,
        beatmap: false,
        mapset: true,
        skin: true,
        hud_config: true,
        autoplay_mods: false,
        intro_user: true,
    };
    assert_eq!(
        words(&build_render_cli_args(&j, &paths, true)),
        vec![
            "--replay", "<0>", "--mapset", "<2>", "--diff-index", "2", "--width", "1280",
            "--height", "720", "--fps", "60", "--out", "<8>", "--songs-dir", "<9>", "--skin",
            "<3>", "--hud-config", "<4>", "--intro-user-json", "<6>", "--no-intro",
            "--bg-opacity", "100", "--ss", "1", "--motion-blur", "13", "--no-bg-video",
            "--no-storyboard", "--no-combo-burst", "--hitsound-volume", "0", "--report-out", "<7>"
        ]
    );
    let a = job(WorkerRenderMode::Autoplay);
    let ready = PreparedJobPaths {
        replay: false,
        beatmap: true,
        mapset: true,
        skin: false,
        hud_config: false,
        autoplay_mods: true,
        intro_user: false,
    };
    assert_eq!(
        words(&build_render_cli_args(&a, &ready, false)),
        vec![
            "--mapset", "<2>", "--diff-index", "2", "--autoplay-mods-config", "<5>", "--width",
            "1280", "--height", "720", "--fps", "60", "--out", "<8>", "--songs-dir", "<9>",
            "--osu", "<1>"
        ]
    );
}

#[test]
fn numbers_are_drawn_into_a_range() {
    let c = |x: f64| clamp_optional(d(x), Double { bits: 0 }, Double { bits: 100f64.to_bits() }).map(|v| f64::from_bits(v.bits));
    assert_eq!(c(-1.0), Some(0.0));
    assert_eq!(c(50.5), Some(50.5));
    assert_eq!(c(1e9), Some(100.0));
    assert_eq!(c(f64::INFINITY), None);
    assert_eq!(c(f64::NAN), None);
    assert!(clamp_optional(None, Double { bits: 0 }, Double { bits: 0 }).is_none());
}

#[test]
fn transfers_stay_within_limits() {
    let budget = ByteBudget { used_bytes: 90, max_bytes: 100 };
    assert_eq!(told(validate_transfer_size(10, 10, &budget)), "ok");
    assert_eq!(
        told(validate_transfer_size(11, 10, &budget)),
        "invalid input: transfer exceeds file size limit (11 > 10 bytes)"
    );
    assert_eq!(
        told(validate_transfer_size(11, 20, &budget)),
        "invalid input: transfer exceeds total job size limit (101 > 100 bytes)"
    );
    assert_eq!(
        told(validate_transfer_size(u64::MAX, u64::MAX, &budget)),
        "invalid input: transfer budget overflow"
    );
}

#[test]
fn downloads_are_counted() {
    let budget = ByteBudget { used_bytes: 5, max_bytes: 100 };
    match Download::begin(budget, 50, Some(20)) {
        Ok(mut dl) => {
            assert!(dl.chunk(15).is_ok());
            assert!(dl.chunk(30).is_ok());
            assert_eq!(
                told(dl.chunk(6)),
                "invalid input: transfer exceeds file size limit (51 > 50 bytes)"
            );
            assert_eq!(told(dl.chunk(u64::MAX)), "invalid input: download size overflow");
            match dl.finish() {
                Ok((n, b)) => assert_eq!((n, b.used_bytes, b.max_bytes), (45, 50, 100)),
                Err(e) => panic!("{}", e.message()),
            }
        }
        Err(e) => panic!("{}", e.message()),
    }
    assert!(Download::begin(budget, 50, Some(51)).is_err());
    match Download::begin(budget, 50, None) {
        Ok(dl) => assert_eq!(told(dl.finish()), "invalid input: downloaded file is empty"),
        Err(e) => panic!("{}", e.message()),
    }
    assert!(matches!(take_whole(10, 50, budget), Ok(b) if b.used_bytes == 15));
    assert_eq!(told(take_whole(0, 50, budget)), "invalid input: downloaded file is empty");
    assert_eq!(
        told(take_whole(60, 50, budget)),
        "invalid input: transfer exceeds file size limit (60 > 50 bytes)"
    );
}

#[test]
fn files_stand_in_addresses() {
    assert!(matches!(decode_data_url_bytes("https://a"), Ok(None)));
    assert!(matches!(decode_data_url_bytes(" data:image/png;BASE64, aGk= "), Ok(Some(b)) if b == b"hi"));
    assert!(matches!(data_url_payload("data:;base64,QQ=="), Ok(Some(p)) if p == "QQ=="));
    assert_eq!(told(decode_data_url_bytes("data:abc")), "invalid input: invalid data URL asset payload");
    assert_eq!(
        told(decode_data_url_bytes("data:text/plain,abc")),
        "invalid input: data URL assets must be base64 encoded"
    );
    assert_eq!(
        told(decode_data_url_bytes("data:;base64,%%")),
        "invalid input: invalid base64 data URL asset"
    );
}

#[test]
fn benchmark_files_and_videos_are_checked() {
    assert_eq!(told(check_benchmark_length(Some(5), 5)), "ok");
    assert_eq!(told(check_benchmark_length(None, 5)), "ok");
    assert_eq!(
        told(check_benchmark_length(Some(6), 5)),
        "process error: benchmark asset is too large: 6 bytes"
    );
    assert!(matches!(benchmark_chunk(3, 2, 5), Ok(5)));
    assert_eq!(told(benchmark_chunk(3, 3, 5)), "process error: benchmark asset exceeded 5 bytes");
    assert_eq!(told(finish_benchmark_file(0)), "process error: benchmark asset download was empty");
    assert_eq!(told(finish_benchmark_file(1)), "ok");
    assert_eq!(told(check_output_size(0, 5)), "invalid input: rendered output is empty");
    assert_eq!(
        told(check_output_size(6, 5)),
        "invalid input: rendered output exceeds allowed size (6 > 5 bytes)"
    );
    assert_eq!(told(check_output_size(5, 5)), "ok");
    assert_eq!(
        told(check_json_size("HUD config", 6, 5)),
        "invalid input: HUD config exceeds allowed size (6 > 5 bytes)"
    );
    assert!(matches!(replay_report_wanted(0), Ok(false)));
    assert!(matches!(replay_report_wanted(9), Ok(true)));
    assert_eq!(
        told(replay_report_wanted(524_289)),
        "process error: replay integrity report exceeded 524288 bytes"
    );
}

#[test]
fn sizes_are_told_by_headers() {
    assert_eq!(content_range_total(Some(" bytes 0-0/1234 ")), Some(1234));
    assert_eq!(content_range_total(Some("bytes 0-0/*")), None);
    assert_eq!(content_range_total(Some("bytes 0-0/0")), None);
    assert_eq!(content_range_total(Some("1234")), None);
    assert_eq!(content_range_total(None), None);
    assert_eq!(declared_content_size(206, Some("bytes 0-0/99"), Some(1)), Some(99));
    assert_eq!(declared_content_size(206, None, Some(1)), Some(1));
    assert_eq!(declared_content_size(200, Some("bytes 0-0/99"), Some(7)), Some(7));
    assert_eq!(declared_content_size(200, None, Some(0)), None);
}
