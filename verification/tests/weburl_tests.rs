use miru_client::weburl::{
    accept_transfer_url, append_machine_id_query, avatar_url_from, find_in_query, find_value,
    is_expected_public_endpoint, is_same_origin, judge_discord_webhook, judge_public_url,
    matches_endpoint, normalize_avatar_url, normalize_legacy_url, origins_agree,
    resolve_worker_url, trim_trailing_slash, validate_discord_webhook, validate_public_miru_url,
    worker_socket_path, worker_socket_url, write_origin, UrlParts,
};

const API: &str = "https://app.miru.uno/api/v1";

fn told<T>(r: Result<T, miru_client::error::AppError>) -> String {
    match r {
        Ok(_) => "ok".to_string(),
        Err(e) => e.message(),
    }
}

fn parts(scheme: &str, host: Option<&str>, path: &str) -> UrlParts {
    UrlParts {
        scheme: scheme.to_string(),
        host: host.map(|h| h.to_string()),
        port: None,
        port_or_default: Some(443),
        path: path.to_string(),
        query: None,
        fragment: None,
        text: "whole".to_string(),
    }
}

#[test]
fn slashes_at_the_end_go() {
    assert_eq!(trim_trailing_slash("https://a/b//"), "https://a/b");
    assert_eq!(trim_trailing_slash("/"), "");
}

#[test]
fn only_the_service_is_accepted() {
    assert!(is_expected_public_endpoint("https://app.miru.uno/api/v1/", API));
    assert!(is_expected_public_endpoint("https://APP.miru.uno/api/v1", API));
    assert!(!is_expected_public_endpoint("http://app.miru.uno/api/v1", API));
    assert!(!is_expected_public_endpoint("https://app.miru.uno/api/v1?x=1", API));
    assert!(!is_expected_public_endpoint("https://app.miru.uno/api/v1#x", API));
    assert!(!is_expected_public_endpoint("https://other/api/v1", API));
    assert!(!is_expected_public_endpoint("nothing", API));
}

#[test]
fn entered_addresses_are_checked() {
    assert_eq!(told(validate_public_miru_url("https://app.miru.uno/api/v1", API, "API URL")), "ok");
    assert_eq!(
        told(validate_public_miru_url("nope", API, "API URL")),
        "invalid input: invalid URL: nope"
    );
    assert_eq!(
        told(validate_public_miru_url("https://evil.example/api/v1", API, "API URL")),
        "invalid input: API URL must be https://app.miru.uno/api/v1"
    );
    assert_eq!(
        told(validate_public_miru_url(API, "broken", "API URL")),
        "configuration error: invalid bundled API URL: broken"
    );
    assert!(judge_public_url("v", None, "e", None, "L").is_err());
    assert!(matches_endpoint(&parts("https", Some("h"), "/a/"), &parts("https", Some("h"), "/a")));
}

#[test]
fn webhooks_belong_to_discord() {
    assert_eq!(told(validate_discord_webhook("https://discord.com/api/webhooks/1/x")), "ok");
    assert_eq!(told(validate_discord_webhook("https://DiscordApp.com/api")), "ok");
    assert_eq!(
        told(validate_discord_webhook("https://example.com")),
        "invalid input: Discord webhook must be an HTTPS discord.com/discordapp.com URL"
    );
    assert_eq!(
        told(validate_discord_webhook("http://discord.com/x")),
        "invalid input: Discord webhook must be an HTTPS discord.com/discordapp.com URL"
    );
    assert_eq!(told(validate_discord_webhook("x")), "invalid input: invalid Discord webhook URL");
    assert!(judge_discord_webhook(Some(parts("https", Some("DISCORD.COM"), "/"))).is_ok());
    assert!(judge_discord_webhook(Some(parts("https", None, "/"))).is_err());
}

#[test]
fn pictures_of_users_have_encrypted_addresses() {
    let site = "https://app.miru.uno/";
    assert_eq!(normalize_avatar_url(API, site, None), "");
    assert_eq!(normalize_avatar_url(API, site, Some("  ")), "");
    assert_eq!(normalize_avatar_url(API, site, Some(" https://a/b.png ")), "https://a/b.png");
    assert_eq!(normalize_avatar_url(API, site, Some("http://a/b.png")), "");
    assert_eq!(normalize_avatar_url(API, site, Some("/img/a.png")), "https://app.miru.uno/img/a.png");
    assert_eq!(
        normalize_avatar_url("https://api.miru.uno:8443/v1", site, Some("api/a.png")),
        "https://api.miru.uno/api/a.png"
    );
    assert_eq!(normalize_avatar_url("broken", site, Some("api/a.png")), "https://app.miru.uno/api/a.png");
    assert_eq!(normalize_avatar_url(API, site, Some("a.png")), "");
    assert_eq!(avatar_url_from(Some(parts("https", Some("h"), "/")), "f", Some("api/x")), "https://h/api/x");
    assert_eq!(avatar_url_from(None, "f/", Some("api/x")), "f/api/x");
}

#[test]
fn origins_are_compared() {
    assert!(is_same_origin("https://a.b/x", "https://a.b:443/y?z"));
    assert!(!is_same_origin("https://a.b/x", "https://a.b:444/"));
    assert!(!is_same_origin("https://a.b/x", "http://a.b/x"));
    assert!(!is_same_origin("https://a.b/x", "x"));
    assert!(!origins_agree(&None, &None));
    assert!(origins_agree(&Some(parts("https", Some("h"), "/a")), &Some(parts("https", Some("h"), "/b"))));
}

#[test]
fn transfers_go_to_encrypted_addresses() {
    let ok = |raw: &str, api: &str| match resolve_worker_url(raw, api) {
        Ok(s) => s,
        Err(e) => e.message(),
    };
    assert_eq!(ok(" https://cdn.example/a b ", API), "https://cdn.example/a%20b");
    assert_eq!(ok("/api/v1/x", "https://host:8443/api/v1"), "https://host:8443/api/v1/x");
    assert_eq!(ok("servers/x?y=1", API), "https://app.miru.uno/api/v1/servers/x?y=1");
    assert_eq!(ok("//servers/x", "https://h/api/v1//"), "https://h/api/v1/servers/x");
    assert_eq!(
        ok("http://a/b", API),
        "invalid input: only HTTPS URLs are allowed for worker transfers: http://a/b"
    );
    assert_eq!(
        ok("/api/x", "http://a/"),
        "invalid input: only HTTPS URLs are allowed for worker transfers: http://a/api/x"
    );
    assert_eq!(ok("x", "broken"), "invalid input: invalid API URL: broken");
    assert_eq!(ok("/api/x", "data:,a"), "invalid input: invalid API URL: data:,a");
    assert_eq!(ok("https://", API), "invalid input: invalid worker transfer URL: https://");
    assert!(accept_transfer_url(None, "r").is_err());
    assert!(matches!(accept_transfer_url(Some(parts("https", Some("h"), "/")), "r"), Ok(t) if t == "whole"));
    let mut u = parts("https", Some("h"), "/");
    u.port = Some(99);
    assert_eq!(write_origin(&u, "h"), "https://h:99");
}

#[test]
fn the_socket_has_an_address() {
    let ok = |api: &str| match worker_socket_url(api) {
        Ok(s) => s,
        Err(e) => e.message(),
    };
    assert_eq!(ok(API), "wss://app.miru.uno/socket.io/?EIO=4&transport=websocket");
    assert_eq!(
        ok("https://h:8443/base/api/v2/"),
        "wss://h:8443/base/socket.io/?EIO=4&transport=websocket"
    );
    assert_eq!(ok("https://h/base/"), "wss://h/base/socket.io/?EIO=4&transport=websocket");
    assert_eq!(ok("http://h/api/v1"), "invalid input: worker socket URL must use HTTPS");
    assert_eq!(ok("h"), "invalid input: invalid API URL: h");
    assert_eq!(worker_socket_path("/api/v1"), "/socket.io/");
    assert_eq!(worker_socket_path("/"), "/socket.io/");
}

#[test]
fn the_machine_is_told_in_the_query() {
    assert!(matches!(
        append_machine_id_query("https://h/a?limit=80", "m 1"),
        Ok(s) if s == "https://h/a?limit=80&machineId=m+1"
    ));
    assert_eq!(told(append_machine_id_query("x", "m")), "invalid input: invalid URL: x");
}

#[test]
fn queries_are_searched() {
    assert_eq!(find_in_query("a=1&code=x%20y&code=z", "code"), Some("x y".to_string()));
    assert_eq!(find_in_query("a=1", "code"), None);
    assert_eq!(find_in_query("code", "code"), Some("".to_string()));
    let pairs = vec![("k".to_string(), "v".to_string()), ("k".to_string(), "w".to_string())];
    assert_eq!(find_value(&pairs, "k"), Some("v".to_string()));
    assert_eq!(find_value(&pairs, "z"), None);
}

#[test]
fn old_addresses_become_the_present_ones() {
    assert_eq!(normalize_legacy_url("https://app.miru.uno/api/v1/", API), "https://app.miru.uno/api/v1");
    assert_eq!(normalize_legacy_url("http://localhost:3000", API), API);
    assert_eq!(normalize_legacy_url("", API), API);
}
