use miru_client::codec::sha256_hex;
use miru_client::config::{
    clear_auth_secrets, first_config, generate_machine_id, import_legacy_config, load_config,
    migrate_client_endpoints, parse_app_config, read_secret, resolution_from_string, secret_file,
    secret_text, strip_byte_order_mark, strip_marked_bytes, write_resolution, write_secret, SecretWrite,
};
use miru_client::error::AppError;
use miru_client::json::{parse, Json};
use miru_client::paths::{AppPaths, LocalPath, SecretKey};
use miru_client::releases::{
    asset_names_match, check_asset_size, check_client_update, client_installer_path,
    client_update_available, custom_download_info, custom_renderer_override,
    download_client_installer, emit_client_update_progress, ensure_renderer,
    install_client_update, installer_total, is_managed_renderer_path, is_newer_version,
    is_safe_asset_name, judge_asset_name, judge_client, judge_installer, judge_newer,
    judge_renderer, judge_update, managed_renderer_name, managed_renderer_path,
    normalize_github_asset_name, normalize_version_label, paths_equal, place_installer,
    release_asset, release_download_info, renderer_release_asset, renderer_update_status,
    select_windows_manifest, shows_progress, validate_manifest, validate_renderer_manifest,
    verify_file_sha256, ClientManifest, GitHubRelease, GitHubReleaseAsset, InstallChoice,
    InstalledRenderer, RendererManifest, RendererManifestAsset, RendererReleaseManifest,
    UpdateMoment,
};
use miru_client::tools::{
    archive_chunk, candidates_of, check_archive_length, check_extracted,
    content_length_or_range_total, download_ffmpeg_archive, executable_candidate_names,
    executable_file_name, extract_archive_tool, fetch_ffmpeg_archive_sha256,
    ffmpeg_requirement_message, ffmpeg_tools_snapshot, is_sha256_text, judge_archive,
    managed_ffmpeg_tool_path, managed_tool_snapshot, ArchiveEntry, ToolSearch,
    FFMPEG_TOOL_MAX_BYTES, FFMPEG_ZIP_MAX_BYTES,
};
use miru_client::types::{AppConfig, Resolution, DEFAULT_API_URL, DEFAULT_FRONTEND_URL};

fn told<T>(r: Result<T, AppError>) -> String {
    match r {
        Ok(_) => "ok".to_string(),
        Err(e) => e.message(),
    }
}

fn json(s: &str) -> Json {
    match parse(s) {
        Some(j) => j,
        None => panic!("{s}"),
    }
}

const HI: &str = "8f434346648f6b96df89dda901c5176b10a6d83961dd3c1ac88b59b2dc327aa4";

#[test]
fn sizes_of_videos_are_read() {
    assert!(resolution_from_string("p1080") == Resolution::P1080);
    assert!(resolution_from_string("1080p60") == Resolution::P1080);
    assert!(resolution_from_string("1440") == Resolution::P1080);
    assert!(resolution_from_string("p720") == Resolution::P720);
    assert!(resolution_from_string("540p") == Resolution::P720);
    assert!(resolution_from_string("full hd") == Resolution::P720);
    assert!(resolution_from_string("") == Resolution::P720);
    assert_eq!(write_resolution(Resolution::P1080), "p1080");
    assert!(resolution_from_string(write_resolution(Resolution::P720)) == Resolution::P720);
    assert_eq!(parse_app_config(&json(r#"{"resolution": "1080p"}"#)), Some("p1080"));
    assert_eq!(parse_app_config(&json(r#"{"resolution": "p720"}"#)), None);
    assert_eq!(parse_app_config(&json("{}")), None);
    assert_eq!(strip_byte_order_mark("\u{feff}\u{feff}{}"), "{}");
    assert_eq!(strip_marked_bytes(b"\xef\xbb\xbf\xef\xbb\xbf{}"), b"\xef\xbb\xbf{}");
    assert_eq!(strip_marked_bytes(b"\xef\xbb"), b"\xef\xbb");
    assert_eq!(strip_marked_bytes(b"{}"), b"{}");
}

#[test]
fn settings_are_brought_up_to_date() {
    let mut c = AppConfig::default();
    assert_eq!(c.api_url, DEFAULT_API_URL);
    assert!(!migrate_client_endpoints(&mut c));
    c.api_url = "http://localhost:3000/api".to_string();
    assert!(migrate_client_endpoints(&mut c));
    assert_eq!(c.api_url, DEFAULT_API_URL);
    assert!(!migrate_client_endpoints(&mut c));
    c.api_url = format!(" {DEFAULT_API_URL}/ ");
    assert!(!migrate_client_endpoints(&mut c));
    assert!(clear_auth_secrets()
        == vec![SecretKey::ApiToken, SecretKey::RefreshToken, SecretKey::WorkerToken]);
    assert!(load_config(&mut c, false, "desktop:1", true));
    assert_eq!(c.machine_id, "desktop:1");
    assert!(c.discord.webhook_set);
    assert!(!load_config(&mut c, false, "desktop:2", false));
    assert_eq!(c.machine_id, "desktop:1");
    assert!(!c.discord.webhook_set);
    assert!(load_config(&mut c, true, "desktop:2", false));
    assert_eq!(first_config(None, "desktop:3").machine_id, "desktop:3");
    assert_eq!(generate_machine_id("x"), "desktop:x");
}

#[test]
fn older_settings_are_taken_over() {
    let c = import_legacy_config(&json(
        r#"{"username": "peppy", "resolution": "1080p", "isServer": true, "serverName": "PC",
            "discord": {"enabled": true}, "miruRendererPath": "C:\\m.exe", "autostart": true}"#,
    ));
    assert_eq!(c.username, "peppy");
    assert!(c.resolution == Resolution::P1080);
    assert!(c.is_server && c.discord.enabled && !c.discord.webhook_set && c.imported_legacy_config);
    assert_eq!(c.server_name, "PC");
    assert_eq!(c.renderer_override_path, "C:\\m.exe");
    assert!(!c.autostart);
    assert_eq!(c.frontend_url, DEFAULT_FRONTEND_URL);
    let d = first_config(Some(c), "desktop:9");
    assert_eq!((d.username.as_str(), d.machine_id.as_str()), ("peppy", "desktop:9"));
}

#[test]
fn secrets_are_kept_in_hexadecimal() {
    assert_eq!(secret_file(&[0, 255]), "00ff");
    assert!(matches!(read_secret(" 00FF\n"), Ok(Some(b)) if b == vec![0, 255]));
    assert!(matches!(read_secret(" "), Ok(None)));
    assert_eq!(
        told(read_secret("zz")),
        "configuration error: invalid protected secret encoding: Invalid character 'z' at position 0"
    );
    assert_eq!(
        told(read_secret("abc")),
        "configuration error: invalid protected secret encoding: Odd number of digits"
    );
    assert!(matches!(write_secret("  "), SecretWrite::Remove));
    assert!(matches!(write_secret(" x"), SecretWrite::Protect));
    assert_eq!(secret_text("é".as_bytes()), "é");
    assert_eq!(secret_text(&[b'a', 0xff]), "a\u{fffd}");
}

fn paths() -> AppPaths {
    AppPaths::new(LocalPath::at("/c"), LocalPath::at("/d"))
}

#[test]
fn files_have_their_places() {
    let p = paths();
    assert_eq!((p.bin_dir.base.as_str(), p.bin_dir.names.clone()), ("/d", vec!["bin".to_string()]));
    assert_eq!(p.config_path.names, vec!["config.json"]);
    assert_eq!(p.config_path.base, "/c");
    let s = p.secret_path(SecretKey::RefreshToken);
    assert_eq!(s.base, "/c");
    assert_eq!(s.names, vec!["secrets", "refresh_token.dpapi"]);
    assert_eq!(p.secret_path(SecretKey::DiscordWebhook).names[1], "discord_webhook.dpapi");
    assert_eq!(p.history_path.names, vec!["history.json"]);
    assert_eq!(p.beatmap_cache_path.names, vec!["beatmap-cache.json"]);
}

#[test]
fn names_of_release_files_are_safe() {
    assert!(is_safe_asset_name("miru.exe"));
    assert!(is_safe_asset_name("Miru Setup 1.2.exe"));
    assert!(!is_safe_asset_name("../miru.exe"));
    assert!(!is_safe_asset_name("a\\b"));
    assert!(!is_safe_asset_name(" a"));
    assert!(!is_safe_asset_name(".."));
    assert!(!is_safe_asset_name("."));
    assert!(!is_safe_asset_name(""));
    assert!(judge_asset_name("a", Some("a")));
    assert!(!judge_asset_name("a", Some("b")));
    assert!(!judge_asset_name("a", None));
}

fn renderer() -> RendererManifest {
    RendererManifest {
        version: "v1.2.0".to_string(),
        renderer_commit: "abc".to_string(),
        platform: "Windows-x64".to_string(),
        asset_name: "Miru.exe".to_string(),
        size_bytes: 2,
        sha256: HI.to_string(),
    }
}

fn listed(assets: Vec<RendererManifestAsset>, platform: Option<&str>) -> RendererReleaseManifest {
    RendererReleaseManifest {
        version: "v1".to_string(),
        renderer_commit: "c".to_string(),
        assets,
        platform: platform.map(|s| s.to_string()),
        asset_name: None,
        size_bytes: Some(7),
        sha256: None,
    }
}

fn asset(platform: &str, size: u64) -> RendererManifestAsset {
    RendererManifestAsset {
        platform: platform.to_string(),
        asset_name: "miru.exe".to_string(),
        size_bytes: size,
        sha256: "s".to_string(),
    }
}

#[test]
fn the_renderer_for_windows_is_taken() {
    match select_windows_manifest("t", listed(vec![asset("linux", 1), asset("WINDOWS-X64", 2)], None)) {
        Ok(m) => assert_eq!((m.size_bytes, m.platform.as_str(), m.version.as_str()), (2, "WINDOWS-X64", "v1")),
        Err(e) => panic!("{}", e.message()),
    }
    assert_eq!(
        told(select_windows_manifest("t", listed(vec![asset("linux", 1)], Some("windows-x64")))),
        "binary error: Miru renderer release t has no Windows renderer asset"
    );
    assert_eq!(
        told(select_windows_manifest("t", listed(vec![], None))),
        "binary error: Miru renderer release t manifest has no platform assets"
    );
    match select_windows_manifest("t", listed(vec![], Some("p"))) {
        Ok(m) => assert_eq!((m.size_bytes, m.asset_name.as_str(), m.sha256.as_str()), (7, "", "")),
        Err(e) => panic!("{}", e.message()),
    }
}

#[test]
fn renderers_are_checked() {
    let problem = |change: &dyn Fn(&mut RendererManifest)| {
        let mut m = renderer();
        change(&mut m);
        told(validate_renderer_manifest("t", &m))
    };
    assert_eq!(problem(&|_| {}), "ok");
    assert_eq!(
        problem(&|m| m.platform = "linux".to_string()),
        "binary error: renderer release t asset platform linux is not supported by the Windows client"
    );
    assert_eq!(
        problem(&|m| m.asset_name = "x.exe".to_string()),
        "binary error: renderer release t must expose miru.exe for the Windows client"
    );
    assert_eq!(
        told(judge_renderer("t", &renderer(), false)),
        "binary error: renderer manifest has an invalid asset name"
    );
    assert_eq!(
        problem(&|m| m.size_bytes = 0),
        "binary error: renderer manifest has an empty binary size"
    );
    assert_eq!(
        problem(&|m| m.sha256 = "ab".to_string()),
        "binary error: renderer manifest has an invalid SHA-256"
    );
    assert_eq!(
        problem(&|m| m.renderer_commit = " ".to_string()),
        "binary error: renderer manifest has no source commit"
    );
    assert_eq!(told(ensure_renderer(&renderer(), b"hi")), "ok");
    assert_eq!(
        told(ensure_renderer(&renderer(), b"hello")),
        "binary error: renderer size mismatch: expected 2 bytes, got 5 bytes"
    );
    assert_eq!(
        told(ensure_renderer(&renderer(), b"ho")),
        "binary error: renderer checksum mismatch after download"
    );
    assert_eq!(sha256_hex(b"hi"), HI);
    assert!(verify_file_sha256(Some(b"hi"), &HI.to_uppercase()));
    assert!(!verify_file_sha256(None, HI));
    assert_eq!(told(check_asset_size("renderer", 2, 2)), "ok");
    assert_eq!(
        told(check_asset_size("renderer", 2, 3)),
        "binary error: renderer release asset size mismatch: manifest says 2, GitHub says 3"
    );
}

fn release(names: &[&str]) -> GitHubRelease {
    GitHubRelease {
        tag_name: "v9".to_string(),
        html_url: "https://g/r".to_string(),
        published_at: None,
        assets: names
            .iter()
            .map(|n| GitHubReleaseAsset {
                name: n.to_string(),
                size: 1,
                browser_download_url: format!("https://g/{n}"),
            })
            .collect(),
    }
}

#[test]
fn files_of_a_release_are_found() {
    let r = release(&["a.txt", "MIRU.EXE", "Miru.Setup.exe"]);
    assert!(matches!(renderer_release_asset(&r, "miru.exe"), Ok(1)));
    assert_eq!(
        told(renderer_release_asset(&r, "x")),
        "binary error: Miru renderer release v9 is missing asset x"
    );
    assert!(matches!(release_asset(&r, "miru setup.exe"), Ok(2)));
    assert_eq!(
        told(release_asset(&r, "x")),
        "binary error: Miru Client release v9 is missing asset x"
    );
    assert_eq!(normalize_github_asset_name(" Miru Setup.EXE "), "miru-setup-exe");
    assert!(asset_names_match("A B", "a.b"));
    assert!(!asset_names_match("A B", "a_b"));
}

#[test]
fn renderers_have_their_place() {
    assert_eq!(managed_renderer_name(Some("x.exe")), "x.exe");
    assert_eq!(managed_renderer_name(Some(" ")), "miru.exe");
    assert_eq!(managed_renderer_name(None), "miru.exe");
    assert_eq!(managed_renderer_path(&paths(), &renderer()).names, vec!["bin", "Miru.exe"]);
    let mut m = renderer();
    m.asset_name = "a/b/c.exe".to_string();
    assert_eq!(managed_renderer_path(&paths(), &m).names, vec!["bin", "c.exe"]);
    assert_eq!(custom_renderer_override(" /x ", true, false), Some("/x".to_string()));
    assert_eq!(custom_renderer_override(" ", true, false), None);
    assert_eq!(custom_renderer_override("/x", false, false), None);
    assert_eq!(custom_renderer_override("/x", true, true), None);
    assert!(paths_equal("C:/A", "c:\\a", None));
    assert!(!paths_equal("C:/A", "c:\\b", None));
    assert!(paths_equal("a", "b", Some(true)));
    assert!(is_managed_renderer_path("a", Some(true), None, None));
    assert!(!is_managed_renderer_path("a", Some(false), Some("a"), None));
    assert!(is_managed_renderer_path("C:/bin/m", None, Some("c:\\BIN\\m"), None));
    assert!(!is_managed_renderer_path("a", None, None, Some(true)));
    assert!(!is_managed_renderer_path("a", None, Some("a"), Some(false)));
    let custom = custom_download_info("/x".to_string(), None);
    assert!(custom.already_available && custom.size_bytes == 0 && custom.version == "custom");
    let rel = release_download_info(&renderer(), "/y".to_string(), false, "u");
    assert_eq!((rel.version.as_str(), rel.size_bytes, rel.release_url.as_str()), ("v1.2.0", 2, "u"));
    let status = |i: InstalledRenderer| renderer_update_status(&i, &renderer(), "u", "a", "/y".to_string());
    let s = status(InstalledRenderer::Custom);
    assert!(s.installed && s.custom_override && !s.update_available && s.current_version == "custom");
    let s = status(InstalledRenderer::Latest);
    assert!(s.installed && !s.update_available && s.current_version == "v1.2.0");
    let s = status(InstalledRenderer::Older(None));
    assert!(s.installed && s.update_available && s.current_version == "unknown");
    let s = status(InstalledRenderer::Older(Some("v1".to_string())));
    assert_eq!(s.current_version, "v1");
    let s = status(InstalledRenderer::Missing);
    assert!(!s.installed && !s.update_available && s.current_version == "not installed");
}

fn client() -> ClientManifest {
    ClientManifest {
        version: "v2.0.0".to_string(),
        client_commit: " abc ".to_string(),
        platform: "windows-x64".to_string(),
        asset_name: "Setup.EXE".to_string(),
        size_bytes: 2,
        sha256: HI.to_string(),
    }
}

#[test]
fn clients_are_checked() {
    let problem = |change: &dyn Fn(&mut ClientManifest)| {
        let mut m = client();
        change(&mut m);
        told(validate_manifest("t", &m))
    };
    assert_eq!(problem(&|_| {}), "ok");
    assert_eq!(
        problem(&|m| m.platform = "Windows-x64".to_string()),
        "binary error: client release t is for unsupported platform Windows-x64"
    );
    assert_eq!(
        problem(&|m| m.asset_name = " ".to_string()),
        "binary error: client manifest has no asset name"
    );
    assert_eq!(
        problem(&|m| m.asset_name = "../x.exe".to_string()),
        "binary error: client manifest has an invalid installer asset name"
    );
    assert_eq!(
        problem(&|m| m.asset_name = "x.msi".to_string()),
        "binary error: client installer asset must be a Windows .exe"
    );
    assert_eq!(
        problem(&|m| m.size_bytes = 0),
        "binary error: client manifest has an empty installer size"
    );
    assert_eq!(
        problem(&|m| m.sha256 = "x".to_string()),
        "binary error: client manifest has an invalid SHA-256"
    );
    assert_eq!(
        problem(&|m| m.client_commit = String::new()),
        "binary error: client manifest has no source commit"
    );
    assert_eq!(
        told(judge_client("t", &client(), false)),
        "binary error: client manifest has an invalid installer asset name"
    );
}

#[test]
fn installers_are_placed_and_checked() {
    assert!(matches!(
        client_installer_path(&paths(), "s.exe"),
        Ok(p) if p.names == vec!["updates", "s.exe"] && p.base == "/d"
    ));
    assert_eq!(
        told(client_installer_path(&paths(), "a/s.exe")),
        "binary error: client installer asset name is not safe"
    );
    assert!(place_installer(&paths(), "s.exe", false).is_err());
    assert_eq!(told(download_client_installer(&client(), b"hi")), "ok");
    assert_eq!(
        told(download_client_installer(&client(), b"hey")),
        "binary error: client installer size mismatch: expected 2 bytes, got 3 bytes"
    );
    assert_eq!(
        told(download_client_installer(&client(), b"ho")),
        "binary error: client installer checksum mismatch after download"
    );
    assert_eq!(told(judge_installer(&client(), 2, &HI.to_uppercase())), "ok");
    assert_eq!(installer_total(Some(5), 3), 5);
    assert_eq!(installer_total(Some(2), 3), 3);
    assert_eq!(installer_total(None, 3), 3);
    assert!(shows_progress(1, 2, 0));
    assert!(shows_progress(1, 1, 250));
    assert!(!shows_progress(1, 1, 249));
}

#[test]
fn versions_are_ordered() {
    assert_eq!(normalize_version_label(" vv1.2 "), "1.2");
    assert!(is_newer_version("v1.2.3", "1.10.0"));
    assert!(!is_newer_version("1.2.3", "v1.2.3"));
    assert!(!is_newer_version("2.0.0", "1.9.9"));
    assert!(is_newer_version("1.0.0-rc.1", "1.0.0"));
    assert!(is_newer_version("1.2", "1.1"));
    assert!(!is_newer_version("nightly", "vnightly"));
    assert!(judge_newer(Some(true), "1", "1"));
    assert!(judge_newer(None, "1", "2"));
    assert!(client_update_available("1.0.0", "1.0.1", None, "x"));
    assert!(client_update_available("1.0.0", "v1.0.0", Some("a"), " b "));
    assert!(!client_update_available("1.0.0", "v1.0.0", Some("A"), " a "));
    assert!(!client_update_available("1.0.0", "v1.0.0", Some(" "), "b"));
    assert!(!client_update_available("1.0.0", "0.9.0", Some("a"), "b"));
    assert!(judge_update(true, "1", "2", None, ""));
}

#[test]
fn updates_are_told() {
    let r = release(&["Setup.exe"]);
    let s = check_client_update(
        "1.0.0",
        Some("old".to_string()),
        "u".to_string(),
        None,
        &r.assets[0],
        &client(),
    );
    assert!(s.update_available);
    assert_eq!((s.latest_version.as_str(), s.latest_commit.as_str()), ("2.0.0", "abc"));
    assert_eq!((s.download_url.as_str(), s.asset_name.as_str()), ("https://g/Setup.exe", "Setup.exe"));
    assert!(matches!(
        install_client_update(false, "1.0.0", true),
        InstallChoice::Refuse(e)
            if e.message() == "binary error: Miru Desktop Client is already up to date (1.0.0)"
    ));
    assert!(matches!(install_client_update(true, "1", true), InstallChoice::Launch));
    assert!(matches!(install_client_update(true, "1", false), InstallChoice::Download));
    let shown = |m: UpdateMoment| {
        let p = emit_client_update_progress(&m);
        (p.phase, f64::from_bits(p.percent_bits), p.message)
    };
    assert_eq!(shown(UpdateMoment::Checking).1, 2.0);
    assert_eq!(
        shown(UpdateMoment::UpToDate("1".to_string())),
        ("error".to_string(), 100.0, "Miru Desktop Client ya esta actualizado (1).".to_string())
    );
    assert_eq!(shown(UpdateMoment::AlreadyThere).1, 88.0);
    assert_eq!(shown(UpdateMoment::Verifying).1, 84.0);
    assert_eq!(shown(UpdateMoment::Ready).1, 92.0);
    assert_eq!(shown(UpdateMoment::Launching).1, 96.0);
    assert_eq!(
        shown(UpdateMoment::LaunchFailed("x".to_string())).2,
        "No se pudo iniciar el instalador: x"
    );
    assert_eq!(shown(UpdateMoment::Closing).0, "closing");
}

fn tool(managed: bool, other: bool) -> ToolSearch {
    ToolSearch {
        managed_path: "/d/bin/ffmpeg/x".to_string(),
        managed_directory: "/d/bin/ffmpeg".to_string(),
        managed_exists: managed,
        on_path: if other { Some(("/usr/x".to_string(), "/usr".to_string())) } else { None },
    }
}

#[test]
fn tools_are_looked_for() {
    let a = managed_tool_snapshot(tool(true, true));
    assert!(a.exists && a.source == "managed" && a.path == "/d/bin/ffmpeg/x");
    let b = managed_tool_snapshot(tool(false, true));
    assert!(b.exists && b.source == "path" && b.path == "/usr/x" && b.directory == "/usr");
    let c = managed_tool_snapshot(tool(false, false));
    assert!(!c.exists && c.source == "managed");
    let s = ffmpeg_tools_snapshot("/d/bin/ffmpeg".to_string(), tool(true, false), tool(false, true));
    assert_eq!(s.ffprobe.path, "/usr/x");
    let says = |f: bool, p: bool| ffmpeg_requirement_message(&s, f, p);
    assert_eq!(says(true, true), "Available for renderer encoding at /d/bin/ffmpeg");
    assert_eq!(says(false, true), "ffmpeg is missing. Download all will install it to /d/bin/ffmpeg/x");
    assert_eq!(says(true, false), "ffprobe is missing. Download all will install it to /usr/x");
    assert_eq!(
        says(false, false),
        "ffmpeg and ffprobe are missing. Download all will install them to /d/bin/ffmpeg"
    );
    assert_eq!(executable_file_name("ffmpeg", true), "ffmpeg.exe");
    assert_eq!(executable_file_name("ffmpeg.EXE", true), "ffmpeg.EXE");
    assert_eq!(executable_file_name("ffmpeg", false), "ffmpeg");
    assert_eq!(
        managed_ffmpeg_tool_path(&paths(), "ffmpeg", true).names,
        vec!["bin", "ffmpeg", "ffmpeg.exe"]
    );
    assert_eq!(
        executable_candidate_names("x", true, Some(".COM; ;.BAT")),
        vec!["x.COM", "x.BAT", "x.exe"]
    );
    assert_eq!(executable_candidate_names("x", true, None), vec!["x.exe"]);
    assert_eq!(executable_candidate_names("x.exe", true, Some(".COM")), vec!["x.exe"]);
    assert_eq!(executable_candidate_names("x", false, Some(".COM")), vec!["x"]);
    assert_eq!(candidates_of("x", true, true, None), vec!["x"]);
}

#[test]
fn archives_of_tools_are_checked() {
    assert!(is_sha256_text(HI));
    assert!(!is_sha256_text(&HI[1..]));
    assert!(!is_sha256_text(&HI.replace('8', "g")));
    assert!(matches!(
        fetch_ffmpeg_archive_sha256(&format!("SHA256 (x.zip)={} *x", HI.to_uppercase())),
        Ok(s) if s == HI
    ));
    assert_eq!(
        told(fetch_ffmpeg_archive_sha256("nothing")),
        "binary error: FFmpeg SHA-256 manifest did not contain a valid hash"
    );
    assert_eq!(told(check_archive_length(Some(FFMPEG_ZIP_MAX_BYTES))), "ok");
    assert_eq!(
        told(check_archive_length(Some(FFMPEG_ZIP_MAX_BYTES + 1))),
        "binary error: FFmpeg archive is larger than the 268435456 byte safety limit"
    );
    assert!(matches!(archive_chunk(5, 6), Ok(11)));
    assert_eq!(
        told(archive_chunk(FFMPEG_ZIP_MAX_BYTES, 1)),
        "binary error: FFmpeg archive exceeded the 268435456 byte safety limit"
    );
    assert!(archive_chunk(u64::MAX, u64::MAX).is_err());
    assert_eq!(told(download_ffmpeg_archive(b"hi", HI)), "ok");
    assert_eq!(told(download_ffmpeg_archive(b"", HI)), "binary error: FFmpeg archive download was empty");
    assert_eq!(told(download_ffmpeg_archive(b"x", HI)), "binary error: FFmpeg archive checksum mismatch");
    assert_eq!(told(judge_archive(1, "AB", "ab")), "ok");
    let entry = |n: &str, size: u64| ArchiveEntry { name: n.to_string(), size };
    let entries = vec![
        entry("f/xffmpeg.exe", 1),
        entry("f\\BIN\\ffmpeg.exe", 5),
        entry("ffprobe.exe", 0),
        entry("a/bin/ffplay.exe", FFMPEG_TOOL_MAX_BYTES + 1),
    ];
    assert!(matches!(extract_archive_tool(&entries, "ffmpeg.exe"), Ok(1)));
    assert_eq!(
        told(extract_archive_tool(&entries, "ffprobe.exe")),
        "binary error: ffprobe.exe in FFmpeg archive has an invalid size"
    );
    assert!(extract_archive_tool(&entries, "ffplay.exe").is_err());
    assert_eq!(
        told(extract_archive_tool(&entries, "x.exe")),
        "binary error: x.exe was not found in the FFmpeg archive"
    );
    assert_eq!(told(check_extracted("x.exe", 1, 1)), "ok");
    assert_eq!(
        told(check_extracted("x.exe", 1, 2)),
        "binary error: x.exe in FFmpeg archive could not be extracted completely"
    );
    assert_eq!(content_length_or_range_total(Some("bytes 0-0/9"), Some("5")), Some(9));
    assert_eq!(content_length_or_range_total(Some("bytes"), Some(" 5 ")), Some(5));
    assert_eq!(content_length_or_range_total(None, Some("0")), None);
    assert_eq!(content_length_or_range_total(None, None), None);
}
