//! The settings of the client: reading them, and what is kept secret.
use crate::codec;
use crate::codec::{from_hex, to_hex};
use crate::error::{AppError, AppResult, ErrorView};
use crate::json::{Json, JsonView};
use crate::paths::SecretKey;
use crate::scan;
use crate::scan::{parse_u32, split_on};
use crate::text;
use crate::text::{blank, cat, chars_of, same_text, trim, trim_start_of};
use crate::types::{
    AppConfig, ConfigView, DiscordConfig, Resolution, DEFAULT_API_URL, DEFAULT_FRONTEND_URL,
};
use crate::weburl;
use crate::weburl::{is_expected_public_endpoint, normalize_legacy_url};
use vstd::prelude::*;
use vstd::slice::slice_subrange;

verus! {

/// A text without the marks of byte order in front of it.
pub open spec fn unmarked(s: Seq<char>) -> Seq<char> {
    text::drop_front(s, text::only('\u{feff}'))
}

/// A text without the marks of byte order in front of it.
pub fn strip_byte_order_mark(s: &str) -> (r: String)
    ensures
        r@ == unmarked(s@),
{
    trim_start_of(s, '\u{feff}')
}

/// The bytes of a document without the mark of byte order in front of them.
pub open spec fn unmarked_bytes(b: Seq<u8>) -> Seq<u8> {
    if b.len() >= 3 && b[0] == 0xef && b[1] == 0xbb && b[2] == 0xbf {
        b.skip(3)
    } else {
        b
    }
}

/// The bytes of a document without the mark of byte order in front of them.
pub fn strip_marked_bytes(b: &[u8]) -> (r: &[u8])
    ensures
        r@ == unmarked_bytes(b@),
{
    if b.len() >= 3 && b[0] == 0xef && b[1] == 0xbb && b[2] == 0xbf {
        let r = slice_subrange(b, 3, b.len());
        assert(r@ =~= b@.skip(3));
        r
    } else {
        b
    }
}

// ---------------------------------------------------------------------------------------------
// Resolutions
// ---------------------------------------------------------------------------------------------

/// No digit.
pub open spec fn no_digit() -> spec_fn(char) -> bool {
    |c: char| !text::is_digit(c)
}

/// The number at the beginning of a text, behind the letter "p"; seven hundred and twenty where there
/// is none.
pub open spec fn lines_in(s: Seq<char>) -> nat {
    let digits = scan::split(text::drop_front(s, text::only('p')), no_digit())[0];
    match scan::unsigned_value(digits, u32::MAX as nat) {
        Some(n) => n,
        None => 720,
    }
}

/// The resolution that a text names.
pub open spec fn resolution_in(s: Seq<char>) -> Resolution {
    if lines_in(s) >= 1080 {
        Resolution::P1080
    } else {
        Resolution::P720
    }
}

/// The resolution that a text names.
pub fn resolution_from_string(value: &str) -> (r: Resolution)
    ensures
        r == resolution_in(value@),
{
    let body = trim_start_of(value, 'p');
    let v = chars_of(body.as_str());
    let pieces = split_on(
        v.as_slice(),
        |c: char| -> (b: bool)
            ensures b == !text::is_digit(c)
            { !text::digit(c) },
        Ghost(no_digit()),
    );
    assert(text::texts(pieces@)[0] == pieces@[0]@);
    let lines: u32 = match parse_u32(pieces[0].as_str()) {
        Some(n) => n,
        None => 720,
    };
    if lines >= 1080 {
        Resolution::P1080
    } else {
        Resolution::P720
    }
}

/// A resolution as the settings write it.
pub open spec fn resolution_name(r: Resolution) -> Seq<char> {
    match r {
        Resolution::P1080 => "p1080"@,
        Resolution::P720 => "p720"@,
    }
}

/// A resolution as the settings write it.
pub fn write_resolution(r: Resolution) -> (s: &'static str)
    ensures
        s@ == resolution_name(r),
{
    match r {
        Resolution::P1080 => "p1080",
        Resolution::P720 => "p720",
    }
}

/// The text that goes in place of the resolution in the settings, where that is another one.
pub open spec fn resolution_fix(settings: JsonView) -> Option<Seq<char>> {
    match settings.text_field("resolution"@) {
        Some(s) => if s == resolution_name(resolution_in(s)) {
            None
        } else {
            Some(resolution_name(resolution_in(s)))
        },
        None => None,
    }
}

/// The text that goes in place of the resolution in the settings, where that is another one.
pub fn parse_app_config(settings: &Json) -> (r: Option<&'static str>)
    ensures
        text::opt_str(r) == resolution_fix(settings@),
{
    match settings.text_of("resolution") {
        Some(s) => {
            let fixed = write_resolution(resolution_from_string(s));
            if same_text(s, fixed) {
                None
            } else {
                Some(fixed)
            }
        },
        None => None,
    }
}

/// A resolution that the settings write is read as what it is, and needs no fixing.
pub proof fn written_resolutions_are_read(r: Resolution)
    ensures
        resolution_in(resolution_name(r)) == r,
{
    reveal_strlit("p1080");
    reveal_strlit("p720");
    let s = resolution_name(r);
    let p = text::only('p');
    let body = s.drop_first();
    assert(text::drop_front(s, p) == body) by {
        assert(s[0] == 'p');
        assert(body[0] != 'p');
        reveal_with_fuel(text::drop_front, 2);
    }
    assert forall|i: int| 0 <= i < body.len() implies text::is_digit(#[trigger] body[i]) by {}
    assert(scan::split(body, no_digit())[0] == body) by {
        undivided(Seq::empty(), body);
        assert(Seq::<char>::empty() + body =~= body);
    }
    assert(scan::all(body, scan::digits()));
    match r {
        Resolution::P1080 => {
            assert(body =~= seq!['1', '0', '8', '0']);
            assert(scan::digits_value(body) == 1080) by {
                reveal_with_fuel(scan::digits_value, 6);
                assert(body.drop_last() =~= seq!['1', '0', '8']);
                assert(body.drop_last().drop_last() =~= seq!['1', '0']);
                assert(body.drop_last().drop_last().drop_last() =~= seq!['1']);
            }
        },
        Resolution::P720 => {
            assert(body =~= seq!['7', '2', '0']);
            assert(scan::digits_value(body) == 720) by {
                reveal_with_fuel(scan::digits_value, 6);
                assert(body.drop_last() =~= seq!['7', '2']);
                assert(body.drop_last().drop_last() =~= seq!['7']);
            }
        },
    }
}

proof fn undivided(cur: Seq<char>, rest: Seq<char>)
    requires
        forall|i: int| 0 <= i < rest.len() ==> text::is_digit(#[trigger] rest[i]),
    ensures
        scan::pieces(cur, rest, no_digit())[0] == cur + rest,
    decreases rest.len(),
{
    if rest.len() == 0 {
        assert(cur + rest =~= cur);
    } else {
        undivided(cur.push(rest[0]), rest.drop_first());
        assert(cur.push(rest[0]) + rest.drop_first() =~= cur + rest);
    }
}

// ---------------------------------------------------------------------------------------------
// Addresses in the settings
// ---------------------------------------------------------------------------------------------

/// An address of the settings: the expected one stays as it is written, any other one is replaced.
pub open spec fn migrated(value: Seq<char>, expected: Seq<char>) -> Seq<char> {
    if weburl::is_expected(value, expected) {
        value
    } else {
        expected
    }
}

fn migrate_url(value: &str, expected: &str) -> (r: String)
    ensures
        r@ == migrated(value@, expected@),
{
    if is_expected_public_endpoint(value, expected) {
        value.to_owned()
    } else {
        expected.to_owned()
    }
}

/// The settings with the addresses of the service.
pub open spec fn with_endpoints(c: ConfigView) -> ConfigView {
    ConfigView {
        api_url: migrated(c.api_url, DEFAULT_API_URL@),
        frontend_url: migrated(c.frontend_url, DEFAULT_FRONTEND_URL@),
        ..c
    }
}

/// The addresses of the settings are those of the service.
pub open spec fn has_endpoints(c: ConfigView) -> bool {
    weburl::is_expected(c.api_url, DEFAULT_API_URL@) && weburl::is_expected(
        c.frontend_url,
        DEFAULT_FRONTEND_URL@,
    )
}

/// The addresses of the service are plain ones.
proof fn endpoints_are_plain()
    ensures
        weburl::is_plain_address(DEFAULT_API_URL@),
        weburl::is_plain_address(DEFAULT_FRONTEND_URL@),
{
    let host = "app.miru.uno"@;
    let path = "/api/v1"@;
    reveal_strlit("https://");
    reveal_strlit("app.miru.uno");
    reveal_strlit("/api/v1");
    reveal_strlit("https://app.miru.uno/api/v1");
    reveal_strlit("https://app.miru.uno");
    assert(DEFAULT_API_URL@ =~= weburl::address(host, path));
    assert(DEFAULT_FRONTEND_URL@ =~= weburl::address(host, Seq::empty()));
    assert(weburl::plain_host(host));
    assert(weburl::plain_path(path));
    assert(weburl::plain_path(Seq::empty()));
}

/// Puts the addresses of the service into the settings, and tells whether any other one stood there.
/// The settings then have the addresses of the service, so that doing so again changes nothing.
pub fn migrate_client_endpoints(config: &mut AppConfig) -> (changed: bool)
    ensures
        final(config)@ == with_endpoints(old(config)@),
        changed == !has_endpoints(old(config)@),
        changed == (final(config)@.api_url != old(config)@.api_url || final(config)@.frontend_url
            != old(config)@.frontend_url),
        has_endpoints(final(config)@),
{
    let api_ok = is_expected_public_endpoint(config.api_url.as_str(), DEFAULT_API_URL);
    let frontend_ok = is_expected_public_endpoint(
        config.frontend_url.as_str(),
        DEFAULT_FRONTEND_URL,
    );
    proof {
        endpoints_are_plain();
    }
    let api_url = migrate_url(config.api_url.as_str(), DEFAULT_API_URL);
    let frontend_url = migrate_url(config.frontend_url.as_str(), DEFAULT_FRONTEND_URL);
    config.api_url = api_url;
    config.frontend_url = frontend_url;
    !(api_ok && frontend_ok)
}

/// Putting the addresses in twice is the same as doing so once, and settings that have them stay as they
/// are.
pub proof fn migration_is_stable(c: ConfigView)
    ensures
        with_endpoints(with_endpoints(c)) == with_endpoints(c),
        has_endpoints(c) ==> with_endpoints(c) == c,
{
}

// ---------------------------------------------------------------------------------------------
// Loading
// ---------------------------------------------------------------------------------------------

/// The id of a machine, or the new one where it has none.
pub open spec fn id_or(id: Seq<char>, new_id: Seq<char>) -> Seq<char> {
    if text::is_blank(id) {
        new_id
    } else {
        id
    }
}

fn keep_id(id: &str, new_id: &str) -> (r: String)
    ensures
        r@ == id_or(id@, new_id@),
{
    if blank(id) {
        new_id.to_owned()
    } else {
        id.to_owned()
    }
}

/// The settings once they are loaded: with an id of the machine, with what is known of the webhook,
/// and with the addresses of the service.
pub open spec fn loaded(c: ConfigView, new_id: Seq<char>, webhook_set: bool) -> ConfigView {
    with_endpoints(
        ConfigView {
            machine_id: id_or(c.machine_id, new_id),
            discord: DiscordConfig { webhook_set, ..c.discord },
            ..c
        },
    )
}

/// Settings that were read from disk, and whether they have to be written again. `new_id` is the id
/// that the machine gets if it has none.
pub fn load_config(config: &mut AppConfig, normalized: bool, new_id: &str, webhook_set: bool) -> (save:
    bool)
    ensures
        final(config)@ == loaded(old(config)@, new_id@, webhook_set),
        save == (normalized || text::is_blank(old(config)@.machine_id) || !(weburl::is_expected(
            old(config)@.api_url,
            DEFAULT_API_URL@,
        ) && weburl::is_expected(old(config)@.frontend_url, DEFAULT_FRONTEND_URL@))),
{
    let nameless = blank(config.machine_id.as_str());
    let id = keep_id(config.machine_id.as_str(), new_id);
    config.machine_id = id;
    config.discord = DiscordConfig { enabled: config.discord.enabled, webhook_set };
    let moved = migrate_client_endpoints(config);
    normalized || nameless || moved
}

/// The settings of a client that starts for the first time.
pub open spec fn first_settings(former: Option<ConfigView>, new_id: Seq<char>) -> ConfigView {
    let c = match former {
        Some(c) => c,
        None => ConfigView::initial(),
    };
    with_endpoints(ConfigView { machine_id: id_or(c.machine_id, new_id), ..c })
}

/// Settings that are made anew, from older ones or from nothing.
pub fn first_config(imported: Option<AppConfig>, new_id: &str) -> (r: AppConfig)
    ensures
        r@ == first_settings(
            match imported {
                Some(c) => Some(c@),
                None => None,
            },
            new_id@,
        ),
        ({
            let c = match imported {
                Some(c) => c@,
                None => ConfigView::initial(),
            };
            r@ == with_endpoints(
                ConfigView {
                    machine_id: id_or(c.machine_id, new_id@),
                    ..c
                },
            )
        }),
{
    let mut config = match imported {
        Some(c) => c,
        None => AppConfig::default(),
    };
    let id = keep_id(config.machine_id.as_str(), new_id);
    config.machine_id = id;
    migrate_client_endpoints(&mut config);
    config
}

/// The id of a machine, from an identifier that was drawn for it.
pub fn generate_machine_id(identifier: &str) -> (r: String)
    ensures
        r@ == "desktop:"@ + identifier@,
{
    cat("desktop:", identifier)
}

/// A machine keeps its id, and every machine has one once its settings are loaded.
pub proof fn machines_keep_their_id(c: ConfigView, new_id: Seq<char>, webhook_set: bool)
    requires
        !text::is_blank(new_id),
    ensures
        !text::is_blank(loaded(c, new_id, webhook_set).machine_id),
        !text::is_blank(c.machine_id) ==> loaded(c, new_id, webhook_set).machine_id == c.machine_id,
{
}

// ---------------------------------------------------------------------------------------------
// Older settings
// ---------------------------------------------------------------------------------------------

/// A text of the older settings, or the other one.
pub open spec fn text_or(j: JsonView, name: Seq<char>, other: Seq<char>) -> Seq<char> {
    match j.text_field(name) {
        Some(s) => s,
        None => other,
    }
}

/// A truth value of the older settings, or the other one.
pub open spec fn truth_or(j: JsonView, name: Seq<char>, other: bool) -> bool {
    match j.truth_field(name) {
        Some(b) => b,
        None => other,
    }
}

/// The settings that older ones become.
pub open spec fn imported(j: JsonView) -> ConfigView {
    let c = ConfigView::initial();
    ConfigView {
        username: text_or(j, "username"@, c.username),
        api_url: match j.text_field("apiUrl"@) {
            Some(s) => weburl::legacy_url(s, DEFAULT_API_URL@),
            None => c.api_url,
        },
        frontend_url: match j.text_field("frontendUrl"@) {
            Some(s) => weburl::legacy_url(s, DEFAULT_FRONTEND_URL@),
            None => c.frontend_url,
        },
        resolution: match j.text_field("resolution"@) {
            Some(s) => resolution_in(s),
            None => c.resolution,
        },
        server_name: text_or(j, "serverName"@, c.server_name),
        server_gpu: text_or(j, "serverGpu"@, c.server_gpu),
        is_server: truth_or(j, "isServer"@, c.is_server),
        server_auto_reconnect: truth_or(j, "serverAutoReconnect"@, c.server_auto_reconnect),
        connect_worker_on_launch: truth_or(
            j,
            "connectWorkerOnLaunch"@,
            c.connect_worker_on_launch,
        ),
        show_discord_renderer_role: truth_or(
            j,
            "showDiscordRendererRole"@,
            c.show_discord_renderer_role,
        ),
        show_gpu_in_status_image: truth_or(j, "showGpuInStatusImage"@, c.show_gpu_in_status_image),
        renderer_override_path: text_or(j, "miruRendererPath"@, c.renderer_override_path),
        discord: match j.field("discord"@) {
            Some(d) => if d is Record {
                DiscordConfig { enabled: truth_or(d, "enabled"@, false), webhook_set: false }
            } else {
                c.discord
            },
            None => c.discord,
        },
        imported_legacy_config: true,
        ..c
    }
}

fn take_text(j: &Json, name: &str, other: String) -> (r: String)
    ensures
        r@ == text_or(j@, name@, other@),
{
    match j.text_of(name) {
        Some(s) => s.to_owned(),
        None => other,
    }
}

fn take_truth(j: &Json, name: &str, other: bool) -> (r: bool)
    ensures
        r == truth_or(j@, name@, other),
{
    match j.truth_of(name) {
        Some(b) => b,
        None => other,
    }
}

fn take_discord(j: &Json, other: DiscordConfig) -> (r: DiscordConfig)
    ensures
        r == match j@.field("discord"@) {
            Some(d) => if d is Record {
                DiscordConfig { enabled: truth_or(d, "enabled"@, false), webhook_set: false }
            } else {
                other
            },
            None => other,
        },
{
    match j.get("discord") {
        Some(d) => match d {
            Json::Record(_) => DiscordConfig {
                enabled: take_truth(d, "enabled", false),
                webhook_set: false,
            },
            _ => other,
        },
        None => other,
    }
}

/// The settings that older ones become.
pub fn import_legacy_config(value: &Json) -> (r: AppConfig)
    ensures
        r@ == imported(value@),
{
    let c = AppConfig::default();
    AppConfig {
        username: take_text(value, "username", c.username),
        api_url: match value.text_of("apiUrl") {
            Some(s) => normalize_legacy_url(s, DEFAULT_API_URL),
            None => c.api_url,
        },
        frontend_url: match value.text_of("frontendUrl") {
            Some(s) => normalize_legacy_url(s, DEFAULT_FRONTEND_URL),
            None => c.frontend_url,
        },
        resolution: match value.text_of("resolution") {
            Some(s) => resolution_from_string(s),
            None => c.resolution,
        },
        server_name: take_text(value, "serverName", c.server_name),
        server_gpu: take_text(value, "serverGpu", c.server_gpu),
        is_server: take_truth(value, "isServer", c.is_server),
        server_auto_reconnect: take_truth(value, "serverAutoReconnect", c.server_auto_reconnect),
        connect_worker_on_launch: take_truth(
            value,
            "connectWorkerOnLaunch",
            c.connect_worker_on_launch,
        ),
        show_discord_renderer_role: take_truth(
            value,
            "showDiscordRendererRole",
            c.show_discord_renderer_role,
        ),
        show_gpu_in_status_image: take_truth(
            value,
            "showGpuInStatusImage",
            c.show_gpu_in_status_image,
        ),
        renderer_override_path: take_text(value, "miruRendererPath", c.renderer_override_path),
        discord: take_discord(value, c.discord),
        imported_legacy_config: true,
        machine_id: c.machine_id,
        user_id: c.user_id,
        user_avatar_url: c.user_avatar_url,
        user_role: c.user_role,
        user_plan: c.user_plan,
        discord_linked: c.discord_linked,
        auto_renderer: c.auto_renderer,
        registered_user_id: c.registered_user_id,
        server_client_id: c.server_client_id,
        server_status: c.server_status,
        autostart: c.autostart,
        start_minimized_to_tray: c.start_minimized_to_tray,
        close_to_tray_on_exit: c.close_to_tray_on_exit,
    }
}

// ---------------------------------------------------------------------------------------------
// Secrets
// ---------------------------------------------------------------------------------------------

/// The protected bytes of the file of a secret. A blank file holds none.
pub open spec fn secret_bytes(file: Seq<char>) -> Result<Option<Seq<u8>>, ErrorView> {
    let s = text::trimmed(file);
    if s.len() == 0 {
        Ok(None)
    } else {
        match codec::hex_bytes(s) {
            Some(b) => Ok(Some(b)),
            None => Err(
                ErrorView::Config("invalid protected secret encoding: "@ + codec::hex_complaint(s)),
            ),
        }
    }
}

/// The protected bytes of the file of a secret.
pub fn read_secret(file: &str) -> (r: AppResult<Option<Vec<u8>>>)
    ensures
        match secret_bytes(file@) {
            Ok(b) => r matches Ok(o) && codec::opt_bytes(o) == b,
            Err(e) => r matches Err(err) && err@ == e,
        },
{
    let s = trim(file);
    if s.as_str().is_empty() {
        return Ok(None);
    }
    match from_hex(s.as_str()) {
        Ok(b) => Ok(Some(b)),
        Err(e) => Err(
            AppError::Config(cat("invalid protected secret encoding: ", e.as_str())),
        ),
    }
}

/// What is done to keep a secret.
pub enum SecretWrite {
    /// Remove its file.
    Remove,
    /// Protect it and write its file.
    Protect,
}

/// A blank secret is none.
pub fn write_secret(value: &str) -> (r: SecretWrite)
    ensures
        r is Remove == text::is_blank(value@),
{
    if blank(value) {
        SecretWrite::Remove
    } else {
        SecretWrite::Protect
    }
}

/// The secrets that go when the account does: the tokens of the session and of the worker. The webhook
/// stays.
pub fn clear_auth_secrets() -> (r: Vec<SecretKey>)
    ensures
        r@ == seq![SecretKey::ApiToken, SecretKey::RefreshToken, SecretKey::WorkerToken],
        !r@.contains(SecretKey::DiscordWebhook),
{
    let r = vec![SecretKey::ApiToken, SecretKey::RefreshToken, SecretKey::WorkerToken];
    assert(r@ =~= seq![SecretKey::ApiToken, SecretKey::RefreshToken, SecretKey::WorkerToken]);
    r
}

/// The file of a secret, from its protected bytes.
pub fn secret_file(protected: &[u8]) -> (r: String)
    ensures
        r@ == codec::hex_text(protected@),
{
    to_hex(protected)
}

/// The text of a secret, from the bytes that it was protected from.
pub fn secret_text(plain: &[u8]) -> (r: String)
    ensures
        r@ == codec::lossy(plain@),
        vstd::utf8::valid_utf8(plain@) ==> r@ == vstd::utf8::decode_utf8(plain@),
{
    codec::text_from_bytes(plain)
}

/// Reading the file of a secret gives the protected bytes that it was written from.
pub proof fn secrets_are_read_back(protected: Seq<u8>)
    requires
        protected.len() > 0,
    ensures
        secret_bytes(codec::hex_text(protected)) == Ok::<Option<Seq<u8>>, ErrorView>(
            Some(protected),
        ),
{
    codec::hex_round_trip(protected);
    let s = codec::hex_text(protected);
    assert(text::is_hex_digit(s[0]));
    assert(text::is_hex_digit(s.last()));
    text::trimmed_is(s);
}

/// A setting of the former client is taken over under its own name, and anything that it does not tell is as in
/// a new client.
pub proof fn former_settings_are_taken_over(j: JsonView, s: Seq<char>, b: bool)
    ensures
        j.text_field("username"@) == Some(s) ==> imported(j).username == s,
        j.text_field("serverName"@) == Some(s) ==> imported(j).server_name == s,
        j.text_field("serverGpu"@) == Some(s) ==> imported(j).server_gpu == s,
        j.text_field("miruRendererPath"@) == Some(s) ==> imported(j).renderer_override_path == s,
        j.text_field("resolution"@) == Some(s) && lines_in(s) >= 1080 ==> imported(j).resolution
            == Resolution::P1080,
        j.text_field("resolution"@) == Some(s) && lines_in(s) < 1080 ==> imported(j).resolution
            == Resolution::P720,
        j.truth_field("isServer"@) == Some(b) ==> imported(j).is_server == b,
        j.truth_field("serverAutoReconnect"@) == Some(b) ==> imported(j).server_auto_reconnect == b,
        j.truth_field("connectWorkerOnLaunch"@) == Some(b) ==> imported(j).connect_worker_on_launch == b,
        j.truth_field("showDiscordRendererRole"@) == Some(b) ==> imported(j).show_discord_renderer_role == b,
        j.truth_field("showGpuInStatusImage"@) == Some(b) ==> imported(j).show_gpu_in_status_image == b,
        (j.field("discord"@) matches Some(d) && d is Record && d.truth_field("enabled"@) == Some(b))
            ==> imported(j).discord.enabled == b,
        imported(j).imported_legacy_config,
        imported(j).user_id == ConfigView::initial().user_id && imported(j).machine_id
            == ConfigView::initial().machine_id && imported(j).auto_renderer
            == ConfigView::initial().auto_renderer,
        j.text_field("username"@) is None ==> imported(j).username == ConfigView::initial().username,
        j.text_field("serverName"@) is None ==> imported(j).server_name == ConfigView::initial().server_name,
        j.text_field("resolution"@) is None ==> imported(j).resolution == ConfigView::initial().resolution,
        j.truth_field("isServer"@) is None ==> imported(j).is_server == ConfigView::initial().is_server,
{
}

/// Settings are loaded as they were stored: only a missing identifier of the machine, an address that is not
/// that of the service and the word on the webhook are put right.
pub proof fn stored_settings_are_loaded(c: ConfigView, new_id: Seq<char>, webhook_set: bool)
    ensures
        ({
            let d = loaded(c, new_id, webhook_set);
            &&& d.resolution == c.resolution && d.auto_renderer == c.auto_renderer && d.user_id == c.user_id
            &&& d.username == c.username && d.server_name == c.server_name && d.is_server == c.is_server
            &&& d.registered_user_id == c.registered_user_id && d.server_client_id == c.server_client_id
            &&& d.server_status == c.server_status && d.server_gpu == c.server_gpu
            &&& d.server_auto_reconnect == c.server_auto_reconnect && d.autostart == c.autostart
            &&& d.start_minimized_to_tray == c.start_minimized_to_tray
            &&& d.close_to_tray_on_exit == c.close_to_tray_on_exit
            &&& d.connect_worker_on_launch == c.connect_worker_on_launch
            &&& d.renderer_override_path == c.renderer_override_path
            &&& d.discord.enabled == c.discord.enabled && d.discord.webhook_set == webhook_set
            &&& text::is_blank(c.machine_id) ==> d.machine_id == new_id
            &&& !text::is_blank(c.machine_id) ==> d.machine_id == c.machine_id
            &&& weburl::is_expected(c.api_url, "https://app.miru.uno/api/v1"@) ==> d.api_url == c.api_url
            &&& !weburl::is_expected(c.api_url, "https://app.miru.uno/api/v1"@) ==> d.api_url
                == "https://app.miru.uno/api/v1"@
            &&& weburl::is_expected(c.frontend_url, "https://app.miru.uno"@) ==> d.frontend_url
                == c.frontend_url
            &&& !weburl::is_expected(c.frontend_url, "https://app.miru.uno"@) ==> d.frontend_url
                == "https://app.miru.uno"@
        }),
{
}

/// The mark at the beginning of a file is taken away, and nothing else.
pub proof fn marks_are_taken_away(b: Seq<u8>)
    ensures
        unmarked_bytes(seq![0xefu8, 0xbbu8, 0xbfu8] + b) == b,
        !(b.len() >= 3 && b[0] == 0xef && b[1] == 0xbb && b[2] == 0xbf) ==> unmarked_bytes(b) == b,
{
    assert((seq![0xefu8, 0xbbu8, 0xbfu8] + b).skip(3) =~= b);
}

/// The lines of a resolution are read from the number in it, with a letter in front of it and one behind it or
/// not.
pub proof fn lines_are_read_back(n: nat, rest: Seq<char>)
    requires
        n <= 0xffff_ffff,
        rest.len() > 0 ==> !text::is_digit(rest[0]),
    ensures
        lines_in(scan::decimal(n) + rest) == n,
        lines_in(seq!['p'] + scan::decimal(n) + rest) == n,
{
    let d = scan::decimal(n);
    scan::decimals_are_plain(n);
    scan::written_numbers_are_read_back(n, 0xffff_ffff);
    let a = d + rest;
    let b = seq!['p'] + d + rest;
    assert(a[0] == d[0]);
    assert(text::drop_front(a, text::only('p')) == a);
    assert(b.drop_first() =~= a);
    assert(text::drop_front(b, text::only('p')) == a);
    digits_come_first(Seq::empty(), d, rest);
    assert(Seq::<char>::empty() + d =~= d);
}

proof fn digits_come_first(cur: Seq<char>, d: Seq<char>, rest: Seq<char>)
    requires
        forall|i: int| 0 <= i < d.len() ==> '0' <= #[trigger] d[i] <= '9',
        rest.len() > 0 ==> !text::is_digit(rest[0]),
    ensures
        scan::pieces(cur, d + rest, no_digit())[0] == cur + d,
    decreases d.len(),
{
    let s = d + rest;
    if d.len() == 0 {
        assert(s =~= rest);
        assert(cur + d =~= cur);
        if rest.len() > 0 {
            scan::pieces_nonempty(Seq::empty(), rest.drop_first(), no_digit());
        }
    } else {
        assert(s[0] == d[0]);
        assert(s.drop_first() =~= d.drop_first() + rest);
        assert forall|i: int| 0 <= i < d.drop_first().len() implies '0' <= #[trigger] d.drop_first()[i]
            <= '9' by {
            assert(d.drop_first()[i] == d[i + 1]);
        }
        digits_come_first(cur.push(d[0]), d.drop_first(), rest);
        assert(cur.push(d[0]) + d.drop_first() =~= cur + d);
    }
}

/// A client that starts for the first time takes over what the former one had, or begins anew; it has an
/// identifier either way.
pub proof fn first_starts_keep_what_was_there(c: ConfigView, new_id: Seq<char>)
    ensures
        first_settings(None, new_id).machine_id == new_id,
        !text::is_blank(c.machine_id) ==> first_settings(Some(c), new_id).machine_id == c.machine_id,
        text::is_blank(c.machine_id) ==> first_settings(Some(c), new_id).machine_id == new_id,
        first_settings(Some(c), new_id).resolution == c.resolution && first_settings(Some(c), new_id).username
            == c.username && first_settings(Some(c), new_id).auto_renderer == c.auto_renderer
            && first_settings(Some(c), new_id).server_name == c.server_name && first_settings(
            Some(c),
            new_id,
        ).imported_legacy_config == c.imported_legacy_config && first_settings(Some(c), new_id).discord
            == c.discord,
        first_settings(None, new_id).resolution == Resolution::P720,
        !first_settings(None, new_id).autostart && first_settings(None, new_id).close_to_tray_on_exit,
{
}

} // verus!
