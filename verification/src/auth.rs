//! The account of the user: logging in, keeping the session fresh, and what is known of the account.
use crate::codec;
use crate::codec::{decode_url_bare, decode_url_padded, text_from_bytes};
use crate::error;
use crate::error::{AppError, AppResult, ErrorView};
use crate::json;
use crate::json::{Json, JsonView};
use crate::scan;
use crate::scan::{cut_before, show, show_wide, split_at_char, split_on, split_once};
use crate::server;
use crate::text;
use crate::text::{
    blank, bytes_in, cat, cat3, cat5, chars_of, eq_ignore_case, same_text, trim, uppercase,
};
use crate::types::{AppConfig, ConfigView};
use crate::weburl;
use crate::weburl::{find_in_query, normalize_avatar_url};
use vstd::prelude::*;

verus! {

pub const SESSION_EXPIRED_MESSAGE: &'static str = "session expired; log in again";

// ---------------------------------------------------------------------------------------------
// The account
// ---------------------------------------------------------------------------------------------

/// The name that stands for no name.
pub open spec fn is_generic(name: Seq<char>) -> bool {
    text::same_ignoring_case(text::trimmed(name), "miru user"@)
}

/// The name that stands for no name.
pub fn is_generic_desktop_username(value: &str) -> (r: bool)
    ensures
        r == is_generic(value@),
{
    eq_ignore_case(trim(value).as_str(), "miru user")
}

/// The name of an account: the new one, or the known one where the new one says nothing; none where
/// neither says anything.
pub open spec fn username(existing: Seq<char>, incoming: Seq<char>) -> Seq<char> {
    let new = text::trimmed(incoming);
    let known = text::trimmed(existing);
    if new.len() > 0 && !is_generic(new) {
        new
    } else if is_generic(known) {
        Seq::empty()
    } else {
        known
    }
}

/// The name of an account.
pub fn normalize_current_username(existing: &str, incoming: &str) -> (r: String)
    ensures
        r@ == username(existing@, incoming@),
{
    let new = trim(incoming);
    let known = trim(existing);
    if new.as_str().is_empty() {
        if is_generic_desktop_username(known.as_str()) {
            return String::new();
        }
        return known;
    }
    if is_generic_desktop_username(new.as_str()) {
        if !known.as_str().is_empty() && !is_generic_desktop_username(known.as_str()) {
            return known;
        }
        proof {
            assert(known@.len() == 0 ==> known@ =~= Seq::empty());
        }
        return String::new();
    }
    new
}

/// No account goes by the name that stands for no name.
pub proof fn generic_names_are_dropped(existing: Seq<char>, incoming: Seq<char>)
    ensures
        username(existing, incoming).len() > 0 ==> !is_generic(username(existing, incoming)),
{
    text::trimmed_idempotent(existing);
    text::trimmed_idempotent(incoming);
}

/// A label as the log shows it.
pub open spec fn shown_label(value: Seq<char>) -> Seq<char> {
    if text::is_blank(value) {
        "UNKNOWN"@
    } else {
        text::trimmed(value)
    }
}

/// A label as the log shows it.
pub fn profile_label(value: &str) -> (r: String)
    ensures
        r@ == shown_label(value@),
{
    if blank(value) {
        "UNKNOWN".to_owned()
    } else {
        trim(value)
    }
}

/// What a field holds is smaller than the fields that it is one of.
pub proof fn lookup_is_smaller(fields: Seq<(Seq<char>, JsonView)>, name: Seq<char>)
    ensures
        json::lookup(fields, name) matches Some(v) ==> decreases_to!(fields => v),
    decreases fields.len(),
{
    if fields.len() > 0 {
        if fields[0].0 == name {
            assert(decreases_to!(fields => fields[0]));
            assert(decreases_to!(fields[0] => fields[0].1));
        } else {
            lookup_is_smaller(fields.skip(1), name);
            assert(decreases_to!(fields => fields.skip(1)));
        }
    }
}

/// The label in a field.
pub open spec fn label_in(fields: Seq<(Seq<char>, JsonView)>, name: Seq<char>) -> Seq<char>
    decreases fields, 0nat,
{
    match json::lookup(fields, name) {
        Some(v) => {
            proof {
                lookup_is_smaller(fields, name);
            }
            label_of(v)
        },
        None => Seq::empty(),
    }
}

/// The label of a role or a plan: a text in upper case, or the first field with a label of those that
/// may hold one.
pub open spec fn label_of(v: JsonView) -> Seq<char>
    decreases v, 1nat,
{
    match v {
        JsonView::Text(s) => text::upper_text(text::trimmed(s)),
        JsonView::Record(fields) => {
            let plan = label_in(fields, "plan"@);
            let role = label_in(fields, "role"@);
            let name = label_in(fields, "name"@);
            let tier = label_in(fields, "tier"@);
            let slug = label_in(fields, "slug"@);
            if plan.len() > 0 {
                plan
            } else if role.len() > 0 {
                role
            } else if name.len() > 0 {
                name
            } else if tier.len() > 0 {
                tier
            } else if slug.len() > 0 {
                slug
            } else {
                label_in(fields, "id"@)
            }
        },
        _ => Seq::empty(),
    }
}

fn label_at(value: &Json, name: &str) -> (r: String)
    requires
        value@ is Record,
    ensures
        r@ == label_in(value@->Record_0, name@),
    decreases value, 0nat,
{
    match value.get(name) {
        Some(v) => normalize_current_user_label(v),
        None => String::new(),
    }
}

/// The label of a role or a plan.
pub fn normalize_current_user_label(value: &Json) -> (r: String)
    ensures
        r@ == label_of(value@),
    decreases value, 1nat,
{
    match value {
        Json::Text(s) => uppercase(trim(s.as_str()).as_str()),
        Json::Record(_) => {
            let plan = label_at(value, "plan");
            if !plan.as_str().is_empty() {
                return plan;
            }
            let role = label_at(value, "role");
            if !role.as_str().is_empty() {
                return role;
            }
            let name = label_at(value, "name");
            if !name.as_str().is_empty() {
                return name;
            }
            let tier = label_at(value, "tier");
            if !tier.as_str().is_empty() {
                return tier;
            }
            let slug = label_at(value, "slug");
            if !slug.as_str().is_empty() {
                return slug;
            }
            label_at(value, "id")
        },
        _ => String::new(),
    }
}

/// The account as the server describes it.
pub struct CurrentUser {
    pub id: String,
    pub username: String,
    pub avatar_url: Option<String>,
    pub role: Json,
    pub plan: Json,
    pub discord_linked: bool,
}

/// The settings with what is known of the account.
pub open spec fn with_user(c: ConfigView, api: Seq<char>, frontend: Seq<char>, u: CurrentUser) -> ConfigView {
    ConfigView {
        user_id: u.id@,
        username: username(c.username, u.username@),
        user_avatar_url: weburl::avatar_url(
            weburl::parsed_url(api),
            frontend,
            text::opt_text(u.avatar_url),
        ),
        user_role: label_of(u.role@),
        user_plan: label_of(u.plan@),
        discord_linked: u.discord_linked,
        ..c
    }
}

/// Takes what is known of the account into the settings.
pub fn apply_current_user(config: &mut AppConfig, api_url: &str, frontend_url: &str, user: CurrentUser)
    ensures
        final(config)@ == with_user(old(config)@, api_url@, frontend_url@, user),
{
    let name = normalize_current_username(config.username.as_str(), user.username.as_str());
    let avatar = normalize_avatar_url(
        api_url,
        frontend_url,
        text::borrow_text(&user.avatar_url),
    );
    let role = normalize_current_user_label(&user.role);
    let plan = normalize_current_user_label(&user.plan);
    config.user_id = user.id;
    config.username = name;
    config.user_avatar_url = avatar;
    config.user_role = role;
    config.user_plan = plan;
    config.discord_linked = user.discord_linked;
}

/// What the log says once the account was asked for again: its role, its plan and whether Discord is
/// linked, where one of them has changed.
pub open spec fn profile_log(before: ConfigView, after: ConfigView) -> Option<Seq<char>> {
    if before.user_role != after.user_role || before.user_plan != after.user_plan
        || before.discord_linked != after.discord_linked {
        Some(
            "Account profile refreshed: role="@ + shown_label(after.user_role) + ", plan="@
                + shown_label(after.user_plan) + ", discordLinked="@ + if after.discord_linked {
                "true"@
            } else {
                "false"@
            },
        )
    } else {
        None
    }
}

/// Takes what is known of the account into the settings, and says what is logged of it.
pub fn sync_current_user_profile(
    config: &mut AppConfig,
    api_url: &str,
    frontend_url: &str,
    user: CurrentUser,
) -> (log: Option<String>)
    ensures
        final(config)@ == with_user(old(config)@, api_url@, frontend_url@, user),
        text::opt_text(log) == profile_log(old(config)@, final(config)@),
{
    let role = config.user_role.as_str().to_owned();
    let plan = config.user_plan.as_str().to_owned();
    let linked = config.discord_linked;
    apply_current_user(config, api_url, frontend_url, user);
    if same_text(role.as_str(), config.user_role.as_str()) && same_text(
        plan.as_str(),
        config.user_plan.as_str(),
    ) && linked == config.discord_linked {
        return None;
    }
    let labels = cat5(
        "Account profile refreshed: role=",
        profile_label(config.user_role.as_str()).as_str(),
        ", plan=",
        profile_label(config.user_plan.as_str()).as_str(),
        ", discordLinked=",
    );
    Some(
        cat(
            labels.as_str(),
            if config.discord_linked {
                "true"
            } else {
                "false"
            },
        ),
    )
}

/// The account is known well enough not to be asked for.
pub fn has_profile(config: &AppConfig) -> (r: bool)
    ensures
        r == (!text::is_blank(config.user_id@) && !text::is_blank(config.username@)
            && !text::is_blank(config.user_role@)),
{
    !blank(config.user_id.as_str()) && !blank(config.username.as_str()) && !blank(
        config.user_role.as_str(),
    )
}

/// The settings of a client that nobody is logged in to.
pub open spec fn logged_out(c: ConfigView) -> ConfigView {
    server::unregistered(
        ConfigView {
            username: Seq::empty(),
            user_id: Seq::empty(),
            user_avatar_url: Seq::empty(),
            user_role: Seq::empty(),
            user_plan: Seq::empty(),
            discord_linked: false,
            ..c
        },
    )
}

/// Forgets the account and its worker.
pub fn clear_local_session_state(config: &mut AppConfig)
    ensures
        final(config)@ == logged_out(old(config)@),
{
    config.username = String::new();
    config.user_id = String::new();
    config.user_avatar_url = String::new();
    config.user_role = String::new();
    config.user_plan = String::new();
    config.discord_linked = false;
    server::clear_registration(config);
}

/// The account that logs in is another one than before.
pub fn switched_account(previous_user_id: &str, user_id: &str) -> (r: bool)
    ensures
        r == (!text::is_blank(previous_user_id@) && previous_user_id@ != user_id@),
{
    !blank(previous_user_id) && !same_text(previous_user_id, user_id)
}

/// What the log says when another account logs in.
pub fn switch_message(previous_user_id: &str, previous_username: &str, username: &str) -> (r: String)
    ensures
        r@ == "Account changed from "@ + (if text::is_blank(previous_username@) {
            previous_user_id@
        } else {
            previous_username@
        }) + " to "@ + username@ + "; disconnecting previous renderer session"@,
{
    let who = if blank(previous_username) {
        previous_user_id
    } else {
        previous_username
    };
    cat5(
        "Account changed from ",
        who,
        " to ",
        username,
        "; disconnecting previous renderer session",
    )
}

/// The settings once an account has logged in. Another one than before does not keep its worker.
pub open spec fn logged_in(c: ConfigView, api: Seq<char>, frontend: Seq<char>, u: CurrentUser) -> ConfigView {
    let kept = if !text::is_blank(c.user_id) && c.user_id != u.id@ {
        server::unregistered(c)
    } else {
        c
    };
    with_user(kept, api, frontend, u)
}

/// Takes an account that has logged in into the settings, and tells whether it is another one than
/// before.
pub fn login(config: &mut AppConfig, api_url: &str, frontend_url: &str, user: CurrentUser) -> (switched:
    bool)
    ensures
        switched == (!text::is_blank(old(config).user_id@) && old(config).user_id@ != user.id@),
        final(config)@ == logged_in(old(config)@, api_url@, frontend_url@, user),
{
    let switched = switched_account(config.user_id.as_str(), user.id.as_str());
    if switched {
        server::clear_registration(config);
    }
    apply_current_user(config, api_url, frontend_url, user);
    switched
}

/// Why logging in has failed.
pub enum LoginProblem {
    /// The request was refused, with this status.
    Request(String),
    TimedOut,
    /// The code was refused, with this status.
    Exchange(String),
    NoTokens,
    /// The account could not be loaded, for this reason.
    Profile(String),
}

/// The error of a login that has failed.
pub fn login_error(problem: LoginProblem) -> (e: AppError)
    ensures
        e@ == ErrorView::Auth(
            match problem {
                LoginProblem::Request(status) => "failed to create desktop auth request: "@ + status@,
                LoginProblem::TimedOut => "authentication timed out"@,
                LoginProblem::Exchange(status) => "failed to exchange desktop login code: "@
                    + status@,
                LoginProblem::NoTokens => "missing token exchange payload"@,
                LoginProblem::Profile(reason) => "failed to load desktop account profile: "@
                    + reason@,
            },
        ),
{
    AppError::Auth(
        match problem {
            LoginProblem::Request(status) => cat(
                "failed to create desktop auth request: ",
                status.as_str(),
            ),
            LoginProblem::TimedOut => "authentication timed out".to_owned(),
            LoginProblem::Exchange(status) => cat(
                "failed to exchange desktop login code: ",
                status.as_str(),
            ),
            LoginProblem::NoTokens => "missing token exchange payload".to_owned(),
            LoginProblem::Profile(reason) => cat(
                "failed to load desktop account profile: ",
                reason.as_str(),
            ),
        },
    )
}

/// A worker that one account has registered is not taken over by another account that logs in.
pub proof fn workers_stay_with_their_account(
    c: ConfigView,
    api: Seq<char>,
    frontend: Seq<char>,
    u: CurrentUser,
)
    requires
        !text::is_blank(c.user_id),
        c.user_id != u.id@,
    ensures
        !logged_in(c, api, frontend, u).is_server,
        logged_in(c, api, frontend, u).registered_user_id.len() == 0,
        !logged_in(c, api, frontend, u).server_auto_reconnect,
        logged_in(c, api, frontend, u).machine_id == c.machine_id,
{
}

/// Nothing of an account is left in the settings once nobody is logged in.
pub proof fn logging_out_forgets_the_account(c: ConfigView)
    ensures
        ({
            let d = logged_out(c);
            &&& d.user_id.len() == 0 && d.username.len() == 0 && d.user_role.len() == 0
            &&& d.user_plan.len() == 0 && d.user_avatar_url.len() == 0 && !d.discord_linked
            &&& !d.is_server && d.registered_user_id.len() == 0 && !d.server_auto_reconnect
            &&& d.machine_id == c.machine_id && d.auto_renderer == c.auto_renderer
        }),
{
}

// ---------------------------------------------------------------------------------------------
// Tokens
// ---------------------------------------------------------------------------------------------

/// The payload of a token: its second part, in base64 with or without padding, is JSON.
pub open spec fn token_payload(token: Seq<char>) -> Option<JsonView> {
    let parts = scan::split(token, text::only('.'));
    if parts.len() < 2 {
        None
    } else {
        let bytes = match codec::base64_url_bare(parts[1]) {
            Some(b) => Some(b),
            None => codec::base64_url_padded(parts[1]),
        };
        match bytes {
            Some(b) => json::parsed_bytes(b),
            None => None,
        }
    }
}

/// The payload of a token.
pub fn jwt_payload(token: &str) -> (r: Option<Json>)
    ensures
        json::view_of(r) == token_payload(token@),
{
    let parts = split_at_char(token, '.');
    if parts.len() < 2 {
        return None;
    }
    assert(text::texts(parts@)[1] == parts@[1]@);
    let bytes = match decode_url_bare(parts[1].as_str()) {
        Some(b) => Some(b),
        None => decode_url_padded(parts[1].as_str()),
    };
    match bytes {
        Some(b) => json::parse_bytes(b.as_slice()),
        None => None,
    }
}

/// A payload is fresh: it tells no end, or one that is further away than so many seconds.
pub open spec fn is_fresh(payload: JsonView, now: u64, leeway: u64) -> bool {
    match payload.field("exp"@) {
        Some(v) => match v.unsigned() {
            Some(exp) => exp > now + leeway,
            None => true,
        },
        None => true,
    }
}

/// Whether a payload is fresh.
pub fn payload_is_fresh(payload: &Json, now: u64, leeway_seconds: u64) -> (r: bool)
    ensures
        r == is_fresh(payload@, now, leeway_seconds),
{
    match payload.get("exp") {
        Some(v) => match v.as_u64() {
            Some(exp) => match now.checked_add(leeway_seconds) {
                Some(limit) => exp > limit,
                None => false,
            },
            None => true,
        },
        None => true,
    }
}

/// Whether a token is fresh. What is no token is not.
pub fn is_jwt_fresh(token: &str, now: u64, leeway_seconds: u64) -> (r: bool)
    ensures
        r == match token_payload(token@) {
            Some(p) => is_fresh(p, now, leeway_seconds),
            None => false,
        },
{
    match jwt_payload(token) {
        Some(p) => payload_is_fresh(&p, now, leeway_seconds),
        None => false,
    }
}

/// A token that is fresh now was fresh before.
pub proof fn freshness_only_ends(payload: JsonView, earlier: u64, later: u64, leeway: u64)
    requires
        earlier <= later,
        is_fresh(payload, later, leeway),
    ensures
        is_fresh(payload, earlier, leeway),
{
}

// ---------------------------------------------------------------------------------------------
// The session
// ---------------------------------------------------------------------------------------------

/// What a response of the service comes to.
pub enum AuthResponse {
    /// It is fine.
    Pass,
    /// The session is refused: try to make it fresh.
    Refresh,
    /// It is an error.
    Fail(AppError),
}

/// The server says that the session is no good.
pub fn is_session_auth_status(status: u16) -> (r: bool)
    ensures
        r == (status == 401),
{
    status == 401
}

/// An error of the service as it is shown: the status, its name, the code and the message of it.
pub open spec fn api_message(status: u16, reason: Seq<char>, code: Seq<char>, message: Seq<char>) -> Seq<
    char,
> {
    scan::decimal(status as nat) + " "@ + reason + ": "@ + if text::is_blank(message) {
        code
    } else {
        code + ": "@ + message
    }
}

/// The name of a status, where it has one.
pub open spec fn reason_or(reason: Option<&str>) -> Seq<char> {
    match reason {
        Some(r) => r@,
        None => "HTTP error"@,
    }
}

fn pick_reason<'a>(reason: Option<&'a str>) -> (r: &'a str)
    ensures
        r@ == reason_or(reason),
{
    match reason {
        Some(r) => r,
        None => "HTTP error",
    }
}

/// An error of the service as it is shown; nothing where the response tells no error.
pub fn parse_api_error_message(status: u16, reason: Option<&str>, error: Option<(String, String)>) -> (r:
    Option<String>)
    ensures
        text::opt_text(r) == match error {
            Some((code, message)) => Some(
                api_message(status, reason_or(reason), code@, message@),
            ),
            None => None,
        },
{
    match error {
        None => None,
        Some((code, message)) => {
            let detail = if blank(message.as_str()) {
                code
            } else {
                cat3(code.as_str(), ": ", message.as_str())
            };
            let number = show(status as u64);
            Some(cat5(number.as_str(), " ", pick_reason(reason), ": ", detail.as_str()))
        },
    }
}

/// Decides what a response of the service comes to, given its status and the error that it tells.
pub fn require_auth_response(status: u16, success: bool, reason: Option<&str>, error: Option<String>) -> (r:
    AuthResponse)
    ensures
        if success {
            r is Pass
        } else if status == 401 {
            r is Refresh
        } else {
            r matches AuthResponse::Fail(e) && e@ == ErrorView::Api(
                match error {
                    Some(m) => m@,
                    None => scan::decimal(status as nat) + " "@ + reason_or(reason),
                },
            )
        },
{
    if success {
        return AuthResponse::Pass;
    }
    if is_session_auth_status(status) {
        return AuthResponse::Refresh;
    }
    let message = match error {
        Some(m) => m,
        None => cat3(show(status as u64).as_str(), " ", pick_reason(reason)),
    };
    AuthResponse::Fail(AppError::Api(message))
}

/// What an action ends with whose session was refused, once the session was made fresh or not.
pub fn after_refresh(refreshed: bool) -> (e: AppError)
    ensures
        e@ == ErrorView::Auth(
            if refreshed {
                "session refreshed; retry the action"@
            } else {
                SESSION_EXPIRED_MESSAGE@
            },
        ),
{
    if refreshed {
        AppError::Auth("session refreshed; retry the action".to_owned())
    } else {
        AppError::Auth(SESSION_EXPIRED_MESSAGE.to_owned())
    }
}

/// Whether an error says that the session is over.
pub fn is_session_expired_error(e: &AppError) -> (r: bool)
    ensures
        r == (e@ == ErrorView::Auth(SESSION_EXPIRED_MESSAGE@)),
{
    match e {
        AppError::Auth(m) => same_text(m.as_str(), SESSION_EXPIRED_MESSAGE),
        _ => false,
    }
}

/// A session that could not be made fresh is told as one that is over, and no other.
pub proof fn expired_sessions_are_told(refreshed: bool)
    ensures
        (ErrorView::Auth(
            if refreshed {
                "session refreshed; retry the action"@
            } else {
                SESSION_EXPIRED_MESSAGE@
            },
        ) == ErrorView::Auth(SESSION_EXPIRED_MESSAGE@)) == !refreshed,
{
    reveal_strlit("session refreshed; retry the action");
    reveal_strlit("session expired; log in again");
    assert("session refreshed; retry the action"@.len() != SESSION_EXPIRED_MESSAGE@.len());
}

/// Whether the token of the session is used as it is, or made fresh first.
pub fn refresh_session_with_lock(token: Option<&str>, now: u64, force_refresh: bool) -> (keep: bool)
    ensures
        keep == (!force_refresh && (token matches Some(t) && (token_payload(t@) matches Some(p)
            && is_fresh(p, now, 60)))),
{
    if force_refresh {
        return false;
    }
    match token {
        Some(t) => is_jwt_fresh(t, now, 60),
        None => false,
    }
}

/// What the answer to a refresh comes to.
pub enum RefreshOutcome {
    /// Take the new tokens.
    Accept,
    /// Forget the session.
    Forget,
    /// It is an error.
    Fail(AppError),
}

/// What the answer to a refresh comes to: a refusal ends the session, and so does an answer without
/// tokens; any other failure is an error.
pub open spec fn refresh_outcome(
    status: u16,
    success: bool,
    has_tokens: bool,
    status_text: Seq<char>,
) -> Result<bool, ErrorView> {
    if success {
        Ok(has_tokens)
    } else if status == 401 || status == 403 {
        Ok(false)
    } else {
        Err(ErrorView::Auth("failed to refresh desktop session: "@ + status_text))
    }
}

/// What the answer to a refresh comes to.
pub fn refresh_session(status: u16, success: bool, has_tokens: bool, status_text: &str) -> (r:
    RefreshOutcome)
    ensures
        match refresh_outcome(status, success, has_tokens, status_text@) {
            Ok(true) => r is Accept,
            Ok(false) => r is Forget,
            Err(e) => r matches RefreshOutcome::Fail(err) && err@ == e,
        },
{
    if success {
        if has_tokens {
            return RefreshOutcome::Accept;
        }
        return RefreshOutcome::Forget;
    }
    if status == 401 || status == 403 {
        return RefreshOutcome::Forget;
    }
    RefreshOutcome::Fail(AppError::Auth(cat("failed to refresh desktop session: ", status_text)))
}

// ---------------------------------------------------------------------------------------------
// Logging in
// ---------------------------------------------------------------------------------------------

/// The pieces that are not empty.
pub open spec fn filled_pieces(pieces: Seq<Seq<char>>) -> Seq<Seq<char>>
    decreases pieces.len(),
{
    if pieces.len() == 0 {
        Seq::empty()
    } else {
        let before = filled_pieces(pieces.drop_last());
        if pieces.last().len() == 0 {
            before
        } else {
            before.push(pieces.last())
        }
    }
}

/// The words of a text.
pub open spec fn words(s: Seq<char>) -> Seq<Seq<char>> {
    filled_pieces(scan::split(s, text::space()))
}

fn split_words(s: &str) -> (r: Vec<String>)
    ensures
        text::texts(r@) == words(s@),
{
    let v = chars_of(s);
    let pieces = split_on(
        v.as_slice(),
        |c: char| -> (b: bool)
            ensures b == text::is_white_space(c)
            { text::white_space(c) },
        Ghost(text::space()),
    );
    let ghost all = text::texts(pieces@);
    let mut out: Vec<String> = Vec::new();
    let mut i: usize = 0;
    assert(all.take(0) =~= Seq::empty());
    assert(text::texts(out@) =~= Seq::empty());
    while i < pieces.len()
        invariant
            i <= pieces@.len(),
            all == text::texts(pieces@),
            text::texts(out@) == filled_pieces(all.take(i as int)),
        decreases pieces@.len() - i,
    {
        proof {
            assert(all.take(i + 1).drop_last() =~= all.take(i as int));
            assert(all.take(i + 1).last() == pieces@[i as int]@);
        }
        if !pieces[i].as_str().is_empty() {
            let ghost before = text::texts(out@);
            out.push(pieces[i].clone());
            assert(text::texts(out@) =~= before.push(pieces@[i as int]@));
        }
        i = i + 1;
    }
    assert(all.take(all.len() as int) =~= all);
    out
}

/// The query of a request: what follows the question mark in the second word of its first line.
pub open spec fn request_query(request: Seq<char>) -> Result<Seq<char>, ErrorView> {
    let w = words(scan::before_first(request, "\n"@));
    if w.len() < 2 {
        Err(ErrorView::Auth("invalid auth callback"@))
    } else {
        match scan::cut_once(w[1], '?') {
            Some((_, query)) => Ok(query),
            None => Ok(Seq::empty()),
        }
    }
}

/// The query of the request that ends a login.
pub fn callback_query(request: &str) -> (r: AppResult<String>)
    ensures
        error::outcome(r) == request_query(request@),
{
    let line = cut_before(request, "\n");
    let w = split_words(line.as_str());
    if w.len() < 2 {
        return Err(AppError::Auth("invalid auth callback".to_owned()));
    }
    assert(text::texts(w@)[1] == w@[1]@);
    match split_once(w[1].as_str(), '?') {
        Some((_, query)) => Ok(query),
        None => Ok(String::new()),
    }
}

/// The code that a request to end a login brings.
pub fn wait_for_code(request: &[u8]) -> (r: AppResult<String>)
    ensures
        error::outcome(r) == match request_query(codec::lossy(request@)) {
            Err(e) => Err::<Seq<char>, ErrorView>(e),
            Ok(q) => match weburl::first_value(weburl::query_pairs(q), "code"@) {
                Some(code) => Ok(code),
                None => Err(ErrorView::Auth("missing login code"@)),
            },
        },
{
    let s = text_from_bytes(request);
    let query = match callback_query(s.as_str()) {
        Ok(q) => q,
        Err(e) => {
            return Err(e);
        },
    };
    match find_in_query(query.as_str(), "code") {
        Some(code) => Ok(code),
        None => Err(AppError::Auth("missing login code".to_owned())),
    }
}

/// What the browser shows once the login is done.
pub const LOGIN_PAGE: &'static str =
    "<html><body style=\"font-family:sans-serif;background:#121418;color:#f4f5f7\"><h1>Miru login complete</h1><p>You can close this window.</p></body></html>";

/// The response to the browser once the login is done.
pub fn login_response() -> (r: String)
    ensures
        r@ == "HTTP/1.1 200 OK\r\nContent-Type: text/html; charset=utf-8\r\nContent-Length: "@
            + scan::decimal(text::byte_len(LOGIN_PAGE@))
            + "\r\nConnection: close\r\n\r\n"@ + LOGIN_PAGE@,
{
    let mut s = cat3(
        "HTTP/1.1 200 OK\r\nContent-Type: text/html; charset=utf-8\r\nContent-Length: ",
        show_wide(bytes_in(LOGIN_PAGE)).as_str(),
        "\r\nConnection: close\r\n\r\n",
    );
    s.append(LOGIN_PAGE);
    s
}

/// The address that the browser opens to log in.
pub fn login_url(frontend_url: &str, port: u16, request_id: &str) -> (r: String)
    ensures
        r@ == weburl::unslashed(frontend_url@) + "/cli-auth?port="@ + scan::decimal(port as nat)
            + "&request="@ + request_id@,
{
    let base = weburl::trim_trailing_slash(frontend_url);
    cat5(
        base.as_str(),
        "/cli-auth?port=",
        show(port as u64).as_str(),
        "&request=",
        request_id,
    )
}

/// A name that is told is taken, unless it is the one that everybody has; then the known one stays, unless
/// that is such a name as well.
pub proof fn told_names_are_taken(existing: Seq<char>, incoming: Seq<char>)
    ensures
        !text::is_blank(incoming) && text::lower_text(text::trimmed(incoming)) != text::lower_text(
            "miru user"@,
        ) ==> username(existing, incoming) == text::trimmed(incoming),
        text::is_blank(incoming) && text::lower_text(text::trimmed(existing)) != text::lower_text(
            "miru user"@,
        ) ==> username(existing, incoming) == text::trimmed(existing),
        text::lower_text(text::trimmed(incoming)) == text::lower_text("miru user"@) && text::lower_text(
            text::trimmed(existing),
        ) != text::lower_text("miru user"@) ==> username(existing, incoming) == text::trimmed(existing),
{
    text::trimmed_idempotent(incoming);
    text::trimmed_idempotent(existing);
}

/// Whoever logs in is the account that is kept: the identifier, the role, the plan and the link to Discord are
/// those of the user, whoever was logged in before.
pub proof fn accounts_are_those_of_the_user(
    c: ConfigView,
    api: Seq<char>,
    frontend: Seq<char>,
    u: CurrentUser,
)
    ensures
        ({
            let d = logged_in(c, api, frontend, u);
            &&& d.user_id == u.id@
            &&& d.user_role == label_of(u.role@) && d.user_plan == label_of(u.plan@)
            &&& d.discord_linked == u.discord_linked
            &&& d.username == username(c.username, u.username@)
            &&& d.resolution == c.resolution && d.auto_renderer == c.auto_renderer && d.machine_id
                == c.machine_id
            &&& d.server_name == c.server_name && d.discord == c.discord && d.autostart == c.autostart
            &&& d.api_url == c.api_url && d.frontend_url == c.frontend_url
        }),
        c.user_id == u.id@ || text::is_blank(c.user_id) ==> ({
            let d = logged_in(c, api, frontend, u);
            &&& d.is_server == c.is_server && d.registered_user_id == c.registered_user_id
            &&& d.server_client_id == c.server_client_id && d.server_status == c.server_status
            &&& d.server_auto_reconnect == c.server_auto_reconnect
        }),
{
}

/// A text that names a role or a plan is shown in capitals; a record is shown by the first of its plan, role,
/// name, tier, slug and identifier that names something.
pub proof fn labels_are_found(fields: Seq<(Seq<char>, JsonView)>, s: Seq<char>)
    ensures
        label_of(JsonView::Text(s)) == text::upper_text(text::trimmed(s)),
        label_in(fields, "plan"@).len() > 0 ==> label_of(JsonView::Record(fields)) == label_in(
            fields,
            "plan"@,
        ),
        label_in(fields, "plan"@).len() == 0 && label_in(fields, "role"@).len() > 0 ==> label_of(
            JsonView::Record(fields),
        ) == label_in(fields, "role"@),
        label_in(fields, "plan"@).len() == 0 && label_in(fields, "role"@).len() == 0 && label_in(
            fields,
            "name"@,
        ).len() > 0 ==> label_of(JsonView::Record(fields)) == label_in(fields, "name"@),
        label_of(JsonView::Record(fields)).len() == 0 ==> label_in(fields, "plan"@).len() == 0 && label_in(
            fields,
            "role"@,
        ).len() == 0 && label_in(fields, "name"@).len() == 0 && label_in(fields, "tier"@).len() == 0
            && label_in(fields, "slug"@).len() == 0 && label_in(fields, "id"@).len() == 0,
{
}

/// A token lasts until the time that it tells, less the leeway; one that tells none lasts.
pub proof fn tokens_end_when_they_say(payload: JsonView, exp: u64, now: u64, leeway: u64)
    ensures
        (payload.field("exp"@) matches Some(v) && v.unsigned() == Some(exp)) ==> (is_fresh(
            payload,
            now,
            leeway,
        ) <==> now + leeway < exp),
        payload.field("exp"@) is None ==> is_fresh(payload, now, leeway),
{
}

/// A session is given up where the service refuses it, and only there; any other failure is told.
pub proof fn refused_sessions_are_given_up(status: u16, has_tokens: bool, status_text: Seq<char>)
    ensures
        refresh_outcome(status, true, has_tokens, status_text) == Ok::<bool, ErrorView>(has_tokens),
        refresh_outcome(status, false, has_tokens, status_text) == Ok::<bool, ErrorView>(false) <==> status
            == 401 || status == 403,
        status != 401 && status != 403 ==> refresh_outcome(status, false, has_tokens, status_text) is Err,
{
}

/// A change of the account is told where its role, its plan or its link to Discord is another one.
pub proof fn changes_of_the_account_are_told(before: ConfigView, after: ConfigView)
    ensures
        profile_log(before, after) is None <==> before.user_role == after.user_role && before.user_plan
            == after.user_plan && before.discord_linked == after.discord_linked,
{
}

/// The query of a request is what follows the question mark in its second word.
pub proof fn queries_follow_the_question_mark(request: Seq<char>, path: Seq<char>, query: Seq<char>)
    requires
        !scan::has_char(path, '?'),
    ensures
        words(scan::before_first(request, "\n"@)).len() >= 2 && words(
            scan::before_first(request, "\n"@),
        )[1] == path + seq!['?'] + query ==> request_query(request) == Ok::<Seq<char>, ErrorView>(query),
        words(scan::before_first(request, "\n"@)).len() >= 2 && words(
            scan::before_first(request, "\n"@),
        )[1] == path ==> request_query(request) == Ok::<Seq<char>, ErrorView>(Seq::empty()),
        words(scan::before_first(request, "\n"@)).len() < 2 ==> request_query(request) is Err,
{
    scan::names_and_values_are_told_apart(path, '?', query);
}

proof fn filled_pieces_are_filled(pieces: Seq<Seq<char>>)
    ensures
        forall|i: int| 0 <= i < filled_pieces(pieces).len() ==> (#[trigger] filled_pieces(pieces)[i]).len()
            > 0,
        forall|p: Seq<char>| #[trigger]
            filled_pieces(pieces).contains(p) <==> pieces.contains(p) && p.len() > 0,
    decreases pieces.len(),
{
    if pieces.len() > 0 {
        let less = pieces.drop_last();
        let a = filled_pieces(less);
        let b = filled_pieces(pieces);
        filled_pieces_are_filled(less);
        assert forall|i: int| 0 <= i < b.len() implies (#[trigger] b[i]).len() > 0 by {
            if i < a.len() {
                assert(b[i] == a[i]);
            }
        }
        assert forall|p: Seq<char>| #[trigger] b.contains(p) <==> pieces.contains(p) && p.len() > 0 by {
            if b.contains(p) {
                let k = choose|k: int| 0 <= k < b.len() && b[k] == p;
                if k < a.len() {
                    assert(a[k] == p && a.contains(p));
                    let j = choose|j: int| 0 <= j < less.len() && less[j] == p;
                    assert(pieces[j] == p);
                } else {
                    assert(pieces[pieces.len() - 1] == p);
                }
            }
            if pieces.contains(p) && p.len() > 0 {
                let j = choose|j: int| 0 <= j < pieces.len() && pieces[j] == p;
                if j < less.len() {
                    assert(less[j] == pieces[j]);
                    assert(less.contains(pieces[j]));
                    assert(a.contains(p));
                    let k = choose|k: int| 0 <= k < a.len() && a[k] == p;
                    assert(b[k] == p);
                } else {
                    assert(b.last() == p);
                }
            }
        }
    }
}

/// The words of a text are its pieces between white space, all but the empty ones.
pub proof fn words_are_the_filled_pieces(s: Seq<char>, p: Seq<char>)
    ensures
        words(s).contains(p) <==> scan::split(s, text::space()).contains(p) && p.len() > 0,
        forall|i: int| 0 <= i < words(s).len() ==> (#[trigger] words(s)[i]).len() > 0,
{
    filled_pieces_are_filled(scan::split(s, text::space()));
}

/// A message of the service begins with its status, and ends with what it says, or else with its code.
pub proof fn messages_tell_status_and_reason(
    status: u16,
    reason: Seq<char>,
    code: Seq<char>,
    message: Seq<char>,
)
    ensures
        text::is_blank(message) ==> api_message(status, reason, code, message) == scan::decimal(status as nat)
            + " "@ + reason + ": "@ + code,
        !text::is_blank(message) ==> api_message(status, reason, code, message) == scan::decimal(
            status as nat,
        ) + " "@ + reason + ": "@ + (code + ": "@ + message),
{
}

} // verus!
