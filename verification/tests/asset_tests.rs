use miru_client::assets::{
    choose_font_extension, filled_text_of, flag_url_for_country_code, hud_asset_extension,
    hud_asset_fetch, hud_asset_path, hud_font_action, hud_font_extension, hud_font_file_name,
    hud_font_source, hud_font_url_key, hud_has_assets, intro_file_name, intro_flag_url,
    intro_manifest, is_render_cancelled, normalize_country_code, try_download_intro_asset,
    FontAction, FontSource,
};
use miru_client::error::AppError;
use miru_client::hud::{asset_edit, font_edit, hud_list, hud_steps, prepare_hud_config_json, FontKey, HudList, HudStep};
use miru_client::jobs::IntroUserAssignment;
use miru_client::json::{parse, Json};

fn json(s: &str) -> Json {
    match parse(s) {
        Some(j) => j,
        None => panic!("{s}"),
    }
}

fn some(s: &str) -> Option<String> {
    Some(s.to_string())
}

#[test]
fn pictures_of_the_display_are_fetched() {
    assert!(hud_has_assets(&json(r#"{"version": 4}"#)));
    assert!(!hud_has_assets(&json(r#"{"version": 3}"#)));
    assert!(!hud_has_assets(&json("[]")));
    let a = json(r#"{"id": "a b", "url": " https://h/a ", "path": "/x", "mimeType": "IMAGE/JPEG"}"#);
    assert_eq!(hud_asset_path(&a), some("/x"));
    assert!(hud_asset_fetch(&a, 3, true).is_none());
    match hud_asset_fetch(&a, 3, false) {
        Some(f) => {
            assert_eq!(f.url, "https://h/a");
            assert_eq!(f.file_name, "hud-3-a_b.jpg");
            assert!(!f.drop_url);
        }
        None => panic!("not fetched"),
    }
    let e = json(r#"{"url": "data:image/png;base64,AA==", "path": "/x"}"#);
    assert_eq!(hud_asset_path(&e), None);
    match hud_asset_fetch(&e, 0, true) {
        Some(f) => {
            assert_eq!(f.file_name, "hud-0-asset-0.png");
            assert!(f.drop_url);
        }
        None => panic!("not written"),
    }
    assert!(hud_asset_fetch(&json(r#"{"id": "x"}"#), 0, false).is_none());
    assert!(hud_asset_fetch(&Json::Null, 0, false).is_none());
    assert_eq!(filled_text_of(&a, "url"), some("https://h/a"));
}

#[test]
fn pictures_have_extensions() {
    assert_eq!(hud_asset_extension(&json(r#"{"mime_type": "image/gif"}"#)), ".gif");
    assert_eq!(hud_asset_extension(&json(r#"{"mimeType": "image/jpg"}"#)), ".jpg");
    assert_eq!(hud_asset_extension(&json(r#"{"mimeType": "image/webp"}"#)), ".webp");
    assert_eq!(hud_asset_extension(&json(r#"{"kind": "GIF"}"#)), ".gif");
    assert_eq!(hud_asset_extension(&json(r#"{}"#)), ".png");
}

#[test]
fn fonts_of_the_display_are_found() {
    assert_eq!(hud_font_url_key("path"), Some("url"));
    assert_eq!(hud_font_url_key("normalPath"), Some("normalUrl"));
    assert_eq!(hud_font_url_key("boldPath"), Some("boldUrl"));
    assert_eq!(hud_font_url_key("x"), None);
    assert_eq!(choose_font_extension(Some("TTF")), ".ttf");
    assert_eq!(choose_font_extension(Some("otf")), ".otf");
    assert_eq!(choose_font_extension(Some("ttc")), ".ttc");
    assert_eq!(choose_font_extension(Some("exe")), ".woff2");
    assert_eq!(choose_font_extension(None), ".woff2");
    assert_eq!(hud_font_extension(Some("https://h/a.OTF?v=1.ttf")), ".otf");
    assert_eq!(hud_font_extension(None), ".woff2");
    assert_eq!(hud_font_extension(Some("C:\\Fonts\\a.TTF")), ".ttf");
    assert_eq!(hud_font_extension(Some("/usr/share/fonts/a.otf")), ".otf");
    let f = json(r#"{"id": "My Font", "normalUrl": "https://h/n.ttf", "path": " "}"#);
    assert!(hud_font_source(&f, "path").is_none());
    match hud_font_source(&f, "normalPath") {
        Some(s) => {
            assert_eq!(s.path, None);
            assert_eq!(s.url, some("https://h/n.ttf"));
            assert_eq!(hud_font_file_name(&f, 2, "normalPath", &s), "hud-font-2-My_Font-normalPath.ttf");
        }
        None => panic!("no source"),
    }
}

#[test]
fn a_font_that_is_there_goes_before_an_address() {
    let both = FontSource { path: some("/p"), url: some("u") };
    assert!(matches!(hud_font_action(&both, true, true), FontAction::Keep(p) if p == "/p"));
    assert!(matches!(hud_font_action(&both, true, false), FontAction::Copy(p) if p == "/p"));
    assert!(matches!(hud_font_action(&both, false, false), FontAction::Download(u) if u == "u"));
    let path = FontSource { path: some("/p"), url: None };
    assert!(matches!(hud_font_action(&path, false, false), FontAction::Skip));
}

#[test]
fn settings_of_the_display_are_made_ready() {
    let mut config = json(
        r#"{"version": 4, "assets": [7, {"url": "data:x", "id": "a"}, {"id": "b"}], "fonts": [{"url": "u", "id": "f"}], "x": 1}"#,
    );
    let steps = hud_steps(&config);
    assert!(
        steps
            == vec![
                HudStep::Asset(1),
                HudStep::Asset(2),
                HudStep::Font(0, FontKey::Usual),
                HudStep::Font(0, FontKey::Normal),
                HudStep::Font(0, FontKey::Bold),
            ]
    );
    prepare_hud_config_json(&mut config, &asset_edit(1, "/f1".to_string(), true));
    prepare_hud_config_json(&mut config, &font_edit(0, FontKey::Usual, "/f2".to_string()));
    prepare_hud_config_json(&mut config, &asset_edit(0, "/no".to_string(), false));
    prepare_hud_config_json(&mut config, &asset_edit(9, "/no".to_string(), false));
    match hud_list(&config, HudList::Assets) {
        Some(items) => {
            assert_eq!(items[0].as_u64(), Some(7));
            assert_eq!(items[1].text_of("path"), Some("/f1"));
            assert_eq!(items[1].text_of("id"), Some("a"));
            assert!(items[1].get("url").is_none());
            assert!(items[2].get("path").is_none());
        }
        None => panic!("no list"),
    }
    match hud_list(&config, HudList::Fonts) {
        Some(items) => {
            assert_eq!(items[0].text_of("path"), Some("/f2"));
            assert!(items[0].get("url").is_none());
        }
        None => panic!("no list"),
    }
    assert!(hud_steps(&json(r#"{"version": 3, "assets": [{}]}"#)).is_empty());
    assert!(hud_list(&json(r#"{"assets": 1}"#), HudList::Assets).is_none());
    assert_eq!(FontKey::Bold.path_key(), "boldPath");
}

#[test]
fn countries_have_flags() {
    assert_eq!(normalize_country_code(Some(" ec ")), some("EC"));
    assert_eq!(normalize_country_code(Some("e1")), None);
    assert_eq!(normalize_country_code(Some("ecu")), None);
    assert_eq!(normalize_country_code(None), None);
    assert_eq!(flag_url_for_country_code("EC"), "https://flagcdn.com/h40/ec.png");
    let user = |flag: Option<&str>, code: Option<&str>| IntroUserAssignment {
        avatar_url: None,
        country_code: code.map(|s| s.to_string()),
        flag_url: flag.map(|s| s.to_string()),
        team_badge_url: None,
    };
    assert_eq!(intro_flag_url(&user(Some(" https://f "), Some("EC"))), some("https://f"));
    assert_eq!(intro_flag_url(&user(None, Some("ec"))), some("https://flagcdn.com/h40/ec.png"));
    assert_eq!(intro_flag_url(&user(None, None)), None);
}

#[test]
fn the_intro_has_a_record() {
    assert!(intro_manifest(&None, &None, &None, &None).is_none());
    match intro_manifest(&some("a.png"), &some("EC"), &None, &some("b.png")) {
        Some(fields) => assert_eq!(
            fields,
            vec![
                ("avatar_path".to_string(), "a.png".to_string()),
                ("country_code".to_string(), "EC".to_string()),
                ("team_badge_path".to_string(), "b.png".to_string()),
            ]
        ),
        None => panic!("no record"),
    }
    assert_eq!(intro_file_name("intro-flag", Some("https://h/a.png")), "intro-flag.png");
}

#[test]
fn only_a_cancelled_render_stops_the_intro() {
    let cancelled = || AppError::Process("Render cancelled".to_string());
    assert!(is_render_cancelled(&cancelled()));
    assert!(!is_render_cancelled(&AppError::Auth("Render cancelled".to_string())));
    assert!(matches!(try_download_intro_asset(Ok(5), "a.png"), Ok(Some(n)) if n == "a.png"));
    assert!(matches!(
        try_download_intro_asset(Err(AppError::Http("gone".to_string())), "a.png"),
        Ok(None)
    ));
    assert!(try_download_intro_asset(Err(cancelled()), "a.png").is_err());
}
