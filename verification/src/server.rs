//! The registration of this machine as a worker, and what the server knows of it.
use crate::error;
use crate::error::{invalid, AppError, AppResult, ErrorView};
use crate::json::{Json, JsonView};
use crate::scan;
use crate::text;
use crate::text::{blank, chars_of, same_text, trim};
use crate::types::{
    AppConfig, BenchmarkResult, ConfigView, WorkerComplianceSummary, WorkerStatsPayload,
    WorkerStatus,
};
use vstd::prelude::*;

verus! {

pub const DEFAULT_PUBLIC_SLOT_TOTAL: i64 = 5;

pub const MACHINE_ID_HEADER: &'static str = "x-miru-machine-id";

// ---------------------------------------------------------------------------------------------
// Names
// ---------------------------------------------------------------------------------------------

/// What a session is needed for, where there is none.
pub fn require_token(token: Option<String>, purpose: &str) -> (r: AppResult<String>)
    ensures
        error::outcome(r) == match token {
            Some(t) => Ok::<Seq<char>, ErrorView>(t@),
            None => Err(ErrorView::Auth("login required to "@ + purpose@)),
        },
{
    match token {
        Some(t) => Ok(t),
        None => Err(AppError::Auth(text::cat("login required to ", purpose))),
    }
}

/// The machine that the settings name.
pub fn require_machine_id(config: &AppConfig) -> (r: AppResult<String>)
    ensures
        error::outcome(r) == if text::is_blank(config.machine_id@) {
            Err(
                ErrorView::Config("renderer machine id is missing; restart Miru and try again"@),
            )
        } else {
            Ok(text::trimmed(config.machine_id@))
        },
{
    if blank(config.machine_id.as_str()) {
        return Err(
            AppError::Config(
                "renderer machine id is missing; restart Miru and try again".to_owned(),
            ),
        );
    }
    Ok(trim(config.machine_id.as_str()))
}

/// The name of a worker: one to eighteen characters.
pub open spec fn server_name(value: Seq<char>) -> Result<Seq<char>, ErrorView> {
    let name = text::trimmed(value);
    if 0 < name.len() <= 18 {
        Ok(name)
    } else {
        Err(ErrorView::InvalidInput("server name must be 1-18 characters"@))
    }
}

/// The name of a worker: one to eighteen characters.
pub fn normalize_server_name(value: &str) -> (r: AppResult<String>)
    ensures
        error::outcome(r) == server_name(value@),
{
    let name = trim(value);
    let n: usize = chars_of(name.as_str()).len();
    if n == 0 || n > 18 {
        return Err(invalid("server name must be 1-18 characters"));
    }
    Ok(name)
}

/// The name of a worker; a worker without one has the usual one.
pub open spec fn told_name(value: Seq<char>) -> Result<Seq<char>, ErrorView> {
    if text::is_blank(value) {
        Ok("Miru PC"@)
    } else {
        server_name(value)
    }
}

/// The name of a worker; a worker without one has the usual one.
pub fn server_name_or_default(value: &str) -> (r: AppResult<String>)
    ensures
        error::outcome(r) == told_name(value@),
{
    if blank(value) {
        return Ok("Miru PC".to_owned());
    }
    normalize_server_name(value)
}

/// What the server is told of the settings of a worker.
pub struct WorkerSettings {
    pub machine_id: String,
    pub name: String,
    pub show_discord_renderer_role: bool,
    pub show_gpu_in_status_image: bool,
}

/// What the server is told of the settings of a worker: nothing without the id of the machine, nor
/// under a name that is too long.
pub fn sync_server_worker_settings(config: &AppConfig) -> (r: AppResult<WorkerSettings>)
    ensures
        match r {
            Ok(told) => {
                &&& !text::is_blank(config.machine_id@)
                &&& told.machine_id@ == text::trimmed(config.machine_id@)
                &&& Ok::<Seq<char>, ErrorView>(told.name@) == told_name(config.server_name@)
                &&& told.show_discord_renderer_role == config.show_discord_renderer_role
                &&& told.show_gpu_in_status_image == config.show_gpu_in_status_image
            },
            Err(e) => if text::is_blank(config.machine_id@) {
                e@ == ErrorView::Config(
                    "renderer machine id is missing; restart Miru and try again"@,
                )
            } else {
                Err::<Seq<char>, ErrorView>(e@) == told_name(config.server_name@)
            },
        },
{
    let machine_id = match require_machine_id(config) {
        Ok(id) => id,
        Err(e) => {
            return Err(e);
        },
    };
    match server_name_or_default(config.server_name.as_str()) {
        Ok(name) => Ok(
            WorkerSettings {
                machine_id,
                name,
                show_discord_renderer_role: config.show_discord_renderer_role,
                show_gpu_in_status_image: config.show_gpu_in_status_image,
            },
        ),
        Err(e) => Err(e),
    }
}

/// The name of a worker as the settings hold it: at most eighteen characters, or none.
pub fn sanitize_server_name(value: &str) -> (r: AppResult<String>)
    ensures
        error::outcome(r) == if text::trimmed(value@).len() > 18 {
            Err(ErrorView::InvalidInput("server name must be 18 characters or fewer"@))
        } else {
            Ok(text::trimmed(value@))
        },
{
    let name = trim(value);
    if chars_of(name.as_str()).len() > 18 {
        return Err(invalid("server name must be 18 characters or fewer"));
    }
    Ok(name)
}

/// A name that was taken stays as it is when it is taken again.
pub proof fn server_name_is_stable(value: Seq<char>)
    ensures
        server_name(value) matches Ok(name) ==> server_name(name) == Ok::<Seq<char>, ErrorView>(name),
{
    text::trimmed_idempotent(value);
}

// ---------------------------------------------------------------------------------------------
// Slots
// ---------------------------------------------------------------------------------------------

/// A whole number in a field.
pub open spec fn signed_field(j: JsonView, name: Seq<char>) -> Option<i64> {
    match j.field(name) {
        Some(v) => v.signed(),
        None => None,
    }
}

/// A whole number in a field of a field.
pub open spec fn signed_below(j: JsonView, outer: Seq<char>, name: Seq<char>) -> Option<i64> {
    match j.field(outer) {
        Some(v) => signed_field(v, name),
        None => None,
    }
}

/// The number of free slots that a response tells, in one of the forms that it may have.
pub open spec fn slots_in(j: JsonView) -> Option<i64> {
    if j.signed() is Some {
        j.signed()
    } else if signed_field(j, "slots"@) is Some {
        signed_field(j, "slots"@)
    } else if signed_field(j, "available"@) is Some {
        signed_field(j, "available"@)
    } else if signed_below(j, "data"@, "slots"@) is Some {
        signed_below(j, "data"@, "slots"@)
    } else {
        signed_below(j, "data"@, "available"@)
    }
}

fn signed_of(j: &Json, name: &str) -> (r: Option<i64>)
    ensures
        r == signed_field(j@, name@),
{
    match j.get(name) {
        Some(v) => v.as_i64(),
        None => None,
    }
}

/// The number of free slots that a response tells.
pub fn parse_slots_response(value: &Json) -> (r: Option<i64>)
    ensures
        r == slots_in(value@),
{
    let own: Option<i64> = value.as_i64();
    if own.is_some() {
        return own;
    }
    let slots: Option<i64> = signed_of(value, "slots");
    if slots.is_some() {
        return slots;
    }
    let available: Option<i64> = signed_of(value, "available");
    if available.is_some() {
        return available;
    }
    match value.get("data") {
        Some(data) => {
            let slots: Option<i64> = signed_of(data, "slots");
            if slots.is_some() {
                slots
            } else {
                signed_of(data, "available")
            }
        },
        None => None,
    }
}

/// The number of free slots, or the error where a response tells none.
pub fn get_server_slots(value: &Json) -> (r: AppResult<i64>)
    ensures
        error::plain(r) == match slots_in(value@) {
            Some(n) => Ok(n),
            None => Err(ErrorView::InvalidInput("server slots response missing slots"@)),
        },
{
    match parse_slots_response(value) {
        Some(n) => Ok(n),
        None => Err(invalid("server slots response missing slots")),
    }
}

// ---------------------------------------------------------------------------------------------
// Registering
// ---------------------------------------------------------------------------------------------

/// A benchmark that is good enough for a worker.
pub open spec fn good_enough(b: BenchmarkResult) -> bool {
    &&& b.min_mbps.at_most(b.download_mbps)
    &&& b.min_upload_mbps.at_most(b.upload_mbps)
    &&& b.render_time_ms <= b.max_render_ms
}

/// Whether a benchmark is good enough for a worker.
pub fn benchmark_meets_requirements(result: &BenchmarkResult) -> (r: bool)
    ensures
        r == good_enough(*result),
{
    result.min_mbps.le(result.download_mbps) && result.min_upload_mbps.le(result.upload_mbps)
        && result.render_time_ms <= result.max_render_ms
}

/// Why this machine cannot be registered, if so.
pub open spec fn registration_problem(
    config: AppConfig,
    slots: i64,
    benchmark: Option<&BenchmarkResult>,
) -> Option<ErrorView> {
    if text::is_blank(config.user_id@) {
        Some(ErrorView::Auth("current account id missing; log in again before registering"@))
    } else if slots <= 0 && !config.is_server {
        Some(ErrorView::Process("No public renderer slots are available right now"@))
    } else if benchmark is None {
        Some(ErrorView::InvalidInput("run a benchmark before registering this PC"@))
    } else if !good_enough(*benchmark->0) {
        Some(
            ErrorView::InvalidInput(
                "benchmark requirements were not met; this PC cannot be added as a renderer"@,
            ),
        )
    } else if text::is_blank(config.machine_id@) {
        Some(ErrorView::Config("renderer machine id is missing; restart Miru and try again"@))
    } else {
        None
    }
}

/// Whether an account is known that this machine can be registered for. Nothing is asked of the server
/// before.
pub fn require_account(config: &AppConfig) -> (r: AppResult<()>)
    ensures
        error::plain(r) == if text::is_blank(config.user_id@) {
            Err(
                ErrorView::Auth("current account id missing; log in again before registering"@),
            )
        } else {
            Ok(())
        },
{
    if blank(config.user_id.as_str()) {
        return Err(
            AppError::Auth("current account id missing; log in again before registering".to_owned()),
        );
    }
    Ok(())
}

/// Whether this machine can be registered, and under which id.
pub fn register_server(config: &AppConfig, slots: i64, benchmark: Option<&BenchmarkResult>) -> (r:
    AppResult<String>)
    ensures
        error::outcome(r) == match registration_problem(*config, slots, benchmark) {
            Some(e) => Err(e),
            None => Ok(text::trimmed(config.machine_id@)),
        },
{
    match require_account(config) {
        Ok(_) => {},
        Err(e) => {
            return Err(e);
        },
    }
    if slots <= 0 && !config.is_server {
        return Err(
            AppError::Process("No public renderer slots are available right now".to_owned()),
        );
    }
    match benchmark {
        None => {
            return Err(invalid("run a benchmark before registering this PC"));
        },
        Some(b) => {
            if !benchmark_meets_requirements(b) {
                return Err(
                    invalid(
                        "benchmark requirements were not met; this PC cannot be added as a renderer",
                    ),
                );
            }
        },
    }
    require_machine_id(config)
}

/// No machine is registered on a benchmark that is not good enough, nor without an account.
pub proof fn registration_needs_a_benchmark(
    config: AppConfig,
    slots: i64,
    benchmark: Option<&BenchmarkResult>,
)
    requires
        registration_problem(config, slots, benchmark) is None,
    ensures
        benchmark matches Some(b) && good_enough(*b),
        !text::is_blank(config.user_id@),
        !text::is_blank(config.machine_id@),
{
}

/// The settings of a machine that was just registered by the account that is logged in.
pub open spec fn registered_as(
    c: ConfigView,
    name: Seq<char>,
    client_id: Seq<char>,
    status: Option<Seq<char>>,
    gpu_name: Seq<char>,
) -> ConfigView {
    ConfigView {
        is_server: true,
        registered_user_id: c.user_id,
        server_client_id: client_id,
        server_status: match status {
            Some(s) => s,
            None => "ACTIVE"@,
        },
        server_name: name,
        server_gpu: gpu_name,
        ..c
    }
}

/// The settings of a machine that was just registered.
pub fn apply_registration(
    config: &mut AppConfig,
    name: String,
    client_id: &str,
    status: Option<String>,
    gpu_name: &str,
)
    ensures
        final(config)@ == registered_as(
            old(config)@,
            name@,
            client_id@,
            text::opt_text(status),
            gpu_name@,
        ),
        final(config)@ == (ConfigView {
            is_server: true,
            registered_user_id: old(config)@.user_id,
            server_client_id: client_id@,
            server_status: match status {
                Some(s) => s@,
                None => "ACTIVE"@,
            },
            server_name: name@,
            server_gpu: gpu_name@,
            ..old(config)@
        }),
{
    config.is_server = true;
    config.registered_user_id = config.user_id.clone();
    config.server_client_id = client_id.to_owned();
    config.server_status = match status {
        Some(s) => s,
        None => "ACTIVE".to_owned(),
    };
    config.server_name = name;
    config.server_gpu = gpu_name.to_owned();
}

/// The settings of a machine that is no worker.
pub open spec fn unregistered(c: ConfigView) -> ConfigView {
    ConfigView {
        is_server: false,
        registered_user_id: Seq::empty(),
        server_client_id: Seq::empty(),
        server_status: Seq::empty(),
        server_auto_reconnect: false,
        ..c
    }
}

/// The settings of a machine that is no worker any more.
pub fn clear_registration(config: &mut AppConfig)
    ensures
        final(config)@ == unregistered(old(config)@),
{
    config.is_server = false;
    config.registered_user_id = String::new();
    config.server_client_id = String::new();
    config.server_status = String::new();
    config.server_auto_reconnect = false;
}

// ---------------------------------------------------------------------------------------------
// What the server knows
// ---------------------------------------------------------------------------------------------

/// A worker as the server describes it.
pub struct ServerWorkerStatus {
    pub client_id: String,
    pub name: Option<String>,
    pub is_online: bool,
    pub jobs_completed: u64,
    pub jobs_failed: u64,
    pub total_render_time_seconds: u64,
}

/// What the server answers when it is asked for the status of a worker.
pub struct ServerStatusResponse {
    pub registered: bool,
    pub status: String,
    pub slots: i64,
    pub total: i64,
    pub worker: Option<ServerWorkerStatus>,
    pub compliance: Option<WorkerComplianceSummary>,
}

impl ServerStatusResponse {
    /// The worker is registered, and its registration is active.
    pub open spec fn active(self) -> bool {
        self.registered && self.status@ == "ACTIVE"@
    }
}

/// The settings of an active worker.
pub open spec fn with_worker(c: ConfigView, w: ServerWorkerStatus, status: Seq<char>) -> ConfigView {
    ConfigView {
        is_server: true,
        registered_user_id: c.user_id,
        server_client_id: w.client_id@,
        server_status: status,
        server_name: name_or(w.name, c.server_name),
        ..c
    }
}

/// A name that the server tells, or the other one.
pub open spec fn name_or(name: Option<String>, other: Seq<char>) -> Seq<char> {
    match name {
        Some(n) => n@,
        None => other,
    }
}

/// The settings of a machine whose registration is not active.
pub open spec fn without_worker(c: ConfigView, status: Seq<char>) -> ConfigView {
    ConfigView {
        is_server: false,
        registered_user_id: Seq::empty(),
        server_client_id: Seq::empty(),
        server_status: status,
        server_auto_reconnect: false,
        ..c
    }
}

/// The settings once the status of the worker is known.
pub open spec fn with_status(c: ConfigView, s: ServerStatusResponse) -> ConfigView {
    if s.active() {
        match s.worker {
            Some(w) => with_worker(c, w, s.status@),
            None => c,
        }
    } else {
        without_worker(c, s.status@)
    }
}

fn pick_name(name: &Option<String>, other: &str) -> (r: String)
    ensures
        r@ == name_or(*name, other@),
{
    match name {
        Some(n) => n.clone(),
        None => other.to_owned(),
    }
}

fn set_worker(config: &mut AppConfig, w: &ServerWorkerStatus, status: &str)
    ensures
        final(config)@ == with_worker(old(config)@, *w, status@),
{
    let name = pick_name(&w.name, config.server_name.as_str());
    config.is_server = true;
    config.registered_user_id = config.user_id.clone();
    config.server_client_id = w.client_id.clone();
    config.server_status = status.to_owned();
    config.server_name = name;
}

fn drop_worker(config: &mut AppConfig, status: &str)
    ensures
        final(config)@ == without_worker(old(config)@, status@),
{
    config.is_server = false;
    config.registered_user_id = String::new();
    config.server_client_id = String::new();
    config.server_status = status.to_owned();
    config.server_auto_reconnect = false;
}

/// Takes the status of the worker into the settings.
fn apply_server_status(config: &mut AppConfig, s: &ServerStatusResponse) -> (active: bool)
    ensures
        final(config)@ == with_status(old(config)@, *s),
        active == s.active(),
{
    let active = s.registered && same_text(s.status.as_str(), "ACTIVE");
    if active {
        match &s.worker {
            Some(w) => set_worker(config, w, s.status.as_str()),
            None => {},
        }
    } else {
        drop_worker(config, s.status.as_str());
    }
    active
}

/// What is shown of a worker: what the server says of it, under the name of the settings where the
/// server tells none.
pub open spec fn shows(r: WorkerStatsPayload, s: ServerStatusResponse, name: Seq<char>) -> bool {
    &&& r.registered == s.active()
    &&& r.status@ == s.status@
    &&& r.slots_available == s.slots
    &&& r.slots_total == s.total
    &&& r.compliance == s.compliance
    &&& match s.worker {
        Some(w) => {
            &&& r.is_online == w.is_online
            &&& r.name@ == match w.name {
                Some(n) => n@,
                None => name,
            }
            &&& text::opt_text(r.client_id) == Some(w.client_id@)
            &&& r.jobs_completed == w.jobs_completed
            &&& r.jobs_failed == w.jobs_failed
            &&& r.total_render_time_seconds == w.total_render_time_seconds
        },
        None => {
            &&& !r.is_online
            &&& r.name@ == name
            &&& r.client_id is None
            &&& r.jobs_completed == 0
            &&& r.jobs_failed == 0
            &&& r.total_render_time_seconds == 0
        },
    }
}

fn stats_of(s: ServerStatusResponse, active: bool, name: &str) -> (r: WorkerStatsPayload)
    requires
        active == s.active(),
    ensures
        shows(r, s, name@),
{
    match s.worker {
        Some(w) => WorkerStatsPayload {
            registered: active,
            status: s.status,
            is_online: w.is_online,
            name: match w.name {
                Some(n) => n,
                None => name.to_owned(),
            },
            client_id: Some(w.client_id),
            jobs_completed: w.jobs_completed,
            jobs_failed: w.jobs_failed,
            total_render_time_seconds: w.total_render_time_seconds,
            slots_available: s.slots,
            slots_total: s.total,
            compliance: s.compliance,
        },
        None => WorkerStatsPayload {
            registered: active,
            status: s.status,
            is_online: false,
            name: name.to_owned(),
            client_id: None,
            jobs_completed: 0,
            jobs_failed: 0,
            total_render_time_seconds: 0,
            slots_available: s.slots,
            slots_total: s.total,
            compliance: s.compliance,
        },
    }
}

/// Takes the status of the worker into the settings. The token of a worker that is not registered
/// has to go; that is told beside what is shown.
pub fn refresh_server_status(config: &mut AppConfig, s: ServerStatusResponse) -> (r: (
    WorkerStatsPayload,
    bool,
))
    ensures
        final(config)@ == with_status(old(config)@, s),
        shows(r.0, s, old(config)@.server_name),
        r.1 == !s.active(),
{
    let name = config.server_name.clone();
    let active = apply_server_status(config, &s);
    (stats_of(s, active, name.as_str()), !active)
}

/// What is shown of a worker while the service tells nothing of it.
pub open spec fn shows_kept(r: WorkerStatsPayload, c: ConfigView, slots: i64) -> bool {
    &&& r.registered == (c.is_server && !text::is_blank(c.user_id) && c.registered_user_id == c.user_id)
    &&& r.status@ == if r.registered {
        "ACTIVE"@
    } else {
        "UNKNOWN"@
    }
    &&& !r.is_online
    &&& r.name@ == c.server_name
    &&& r.jobs_completed == 0 && r.jobs_failed == 0 && r.total_render_time_seconds == 0
    &&& r.slots_available == slots
}

/// What is shown of the worker where the server cannot tell it.
pub fn legacy_worker_stats(config: &AppConfig, slots: i64) -> (r: WorkerStatsPayload)
    ensures
        shows_kept(r, config@, slots),
        r.registered == (config.is_server && !text::is_blank(config.user_id@)
            && config.registered_user_id@ == config.user_id@),
        r.status@ == if r.registered {
            "ACTIVE"@
        } else {
            "UNKNOWN"@
        },
        !r.is_online,
        r.name@ == config.server_name@,
        text::opt_text(r.client_id) == if text::is_blank(config.server_client_id@) {
            None
        } else {
            Some(config.server_client_id@)
        },
        r.jobs_completed == 0,
        r.jobs_failed == 0,
        r.total_render_time_seconds == 0,
        r.slots_available == slots,
        r.slots_total == DEFAULT_PUBLIC_SLOT_TOTAL,
        r.compliance is None,
{
    let registered = config.is_server && !blank(config.user_id.as_str()) && same_text(
        config.registered_user_id.as_str(),
        config.user_id.as_str(),
    );
    WorkerStatsPayload {
        registered,
        status: if registered {
            "ACTIVE".to_owned()
        } else {
            "UNKNOWN".to_owned()
        },
        is_online: false,
        name: config.server_name.clone(),
        client_id: if blank(config.server_client_id.as_str()) {
            None
        } else {
            Some(config.server_client_id.clone())
        },
        jobs_completed: 0,
        jobs_failed: 0,
        total_render_time_seconds: 0,
        slots_available: slots,
        slots_total: DEFAULT_PUBLIC_SLOT_TOTAL,
        compliance: None,
    }
}

/// Only an active registration leaves a machine a worker, and then it belongs to the account that is
/// logged in.
pub proof fn status_decides_registration(c: ConfigView, s: ServerStatusResponse)
    ensures
        !s.active() ==> !with_status(c, s).is_server && !with_status(c, s).server_auto_reconnect,
        s.active() && s.worker is Some ==> with_status(c, s).is_server && with_status(
            c,
            s,
        ).registered_user_id == c.user_id,
        with_status(c, s).user_id == c.user_id,
{
}

// ---------------------------------------------------------------------------------------------
// Connecting
// ---------------------------------------------------------------------------------------------

/// The worker of these settings belongs to the account that is logged in.
pub open spec fn owned(c: ConfigView) -> bool {
    c.registered_user_id == c.user_id
}

/// Why a worker is not connected, and whether its token has to go.
pub struct ConnectRefusal {
    pub clear_token: bool,
    pub error: AppError,
}

/// Whether a worker may be connected, given what the server says of it and whether it has a token.
pub fn connect_gate(registered: bool, config: &AppConfig, has_token: bool) -> (r: Option<ConnectRefusal>)
    ensures
        match r {
            None => registered && owned(config@) && (config.is_server || has_token),
            Some(refusal) => if !registered || !owned(config@) {
                refusal.clear_token && refusal.error@ == ErrorView::Auth(
                    "this account does not own an active renderer registration"@,
                )
            } else {
                &&& !config.is_server && !has_token
                &&& !refusal.clear_token
                &&& refusal.error@ == ErrorView::Auth(
                    "worker token missing; register this PC first"@,
                )
            },
        },
{
    if !registered || !same_text(config.registered_user_id.as_str(), config.user_id.as_str()) {
        return Some(
            ConnectRefusal {
                clear_token: true,
                error: AppError::Auth(
                    "this account does not own an active renderer registration".to_owned(),
                ),
            },
        );
    }
    if !config.is_server && !has_token {
        return Some(
            ConnectRefusal {
                clear_token: false,
                error: AppError::Auth("worker token missing; register this PC first".to_owned()),
            },
        );
    }
    None
}

/// The name that the server is told before a worker connects: the one that the user prefers, where it
/// is another one.
pub open spec fn rename_outcome(preferred: Seq<char>, current: Seq<char>) -> Result<
    Option<Seq<char>>,
    ErrorView,
> {
    if text::is_blank(preferred) || text::trimmed(preferred) == text::trimmed(current) {
        Ok(None)
    } else {
        match server_name(preferred) {
            Ok(n) => Ok(Some(n)),
            Err(e) => Err(e),
        }
    }
}

/// The name that the server is told before a worker connects.
pub fn preferred_name(preferred: &str, current: &str) -> (r: AppResult<Option<String>>)
    ensures
        match rename_outcome(preferred@, current@) {
            Ok(n) => r matches Ok(v) && text::opt_text(v) == n,
            Err(e) => r matches Err(err) && err@ == e,
        },
{
    let p = trim(preferred);
    if p.as_str().is_empty() || same_text(p.as_str(), trim(current).as_str()) {
        return Ok(None);
    }
    match normalize_server_name(preferred) {
        Ok(n) => Ok(Some(n)),
        Err(e) => Err(e),
    }
}

/// What connecting comes to, by what the client and the server believe.
#[derive(Clone, Copy, PartialEq, Eq, Structural)]
pub enum ConnectChoice {
    /// It is under way, or done.
    Nothing,
    /// Connect.
    Connect,
    /// Connect anew, though the client believes to be connected.
    Reconnect,
}

/// What is done to connect a worker that is shown in a state.
pub open spec fn choice_for(status: WorkerStatus, is_online: bool) -> ConnectChoice {
    match status {
        WorkerStatus::Connecting => ConnectChoice::Nothing,
        WorkerStatus::Connected => if is_online {
            ConnectChoice::Nothing
        } else {
            ConnectChoice::Reconnect
        },
        _ => ConnectChoice::Connect,
    }
}

/// Decides whether a connection is made.
pub fn connect_choice(status: WorkerStatus, is_online: bool) -> (r: ConnectChoice)
    ensures
        r == choice_for(status, is_online),
        r == match status {
            WorkerStatus::Connecting => ConnectChoice::Nothing,
            WorkerStatus::Connected => if is_online {
                ConnectChoice::Nothing
            } else {
                ConnectChoice::Reconnect
            },
            _ => ConnectChoice::Connect,
        },
{
    match status {
        WorkerStatus::Connecting => ConnectChoice::Nothing,
        WorkerStatus::Connected => if is_online {
            ConnectChoice::Nothing
        } else {
            ConnectChoice::Reconnect
        },
        _ => ConnectChoice::Connect,
    }
}

/// What came of waiting for a connection.
pub enum ReadyOutcome {
    Ready,
    Rejected(String),
    Dropped,
    TimedOut,
}

/// What connecting ends with. After a success the worker connects on its own in the future; after a
/// timeout the attempt is cancelled.
pub fn connect_worker(outcome: ReadyOutcome) -> (r: AppResult<()>)
    ensures
        error::plain(r) == match outcome {
            ReadyOutcome::Ready => Ok(()),
            ReadyOutcome::Rejected(m) => Err(ErrorView::Process(m@)),
            ReadyOutcome::Dropped => Err(ErrorView::Process("worker socket startup failed"@)),
            ReadyOutcome::TimedOut => Err(ErrorView::Process("worker socket connection timeout"@)),
        },
{
    match outcome {
        ReadyOutcome::Ready => Ok(()),
        ReadyOutcome::Rejected(m) => Err(AppError::Process(m)),
        ReadyOutcome::Dropped => Err(AppError::Process("worker socket startup failed".to_owned())),
        ReadyOutcome::TimedOut => Err(
            AppError::Process("worker socket connection timeout".to_owned()),
        ),
    }
}

/// A worker connects on its own only where the user wants it and the worker is the user's.
pub fn should_auto_reconnect_worker(config: &AppConfig) -> (r: bool)
    ensures
        r == (config.server_auto_reconnect && config.connect_worker_on_launch && config.is_server
            && owned(config@)),
{
    config.server_auto_reconnect && config.connect_worker_on_launch && config.is_server && same_text(
        config.registered_user_id.as_str(),
        config.user_id.as_str(),
    )
}

/// Whether a worker connects when the client starts.
pub fn should_connect_on_launch(registered: bool, config: &AppConfig) -> (r: bool)
    ensures
        r == (registered && config.connect_worker_on_launch && owned(config@)),
{
    registered && config.connect_worker_on_launch && same_text(
        config.registered_user_id.as_str(),
        config.user_id.as_str(),
    )
}

// ---------------------------------------------------------------------------------------------
// Trying again
// ---------------------------------------------------------------------------------------------

/// The seconds before the first attempt to connect again.
pub const RECONNECT_FIRST_SECONDS: u64 = 10;

/// The most seconds between two attempts.
pub const RECONNECT_MOST_SECONDS: u64 = 300;

/// The seconds before the next attempt: twice as many as before, but not more than the most.
pub open spec fn longer(seconds: u64) -> u64 {
    if seconds > RECONNECT_MOST_SECONDS / 2 {
        RECONNECT_MOST_SECONDS
    } else {
        (2 * seconds) as u64
    }
}

/// The seconds before the next attempt.
pub fn next_reconnect_delay(seconds: u64) -> (r: u64)
    ensures
        r == longer(seconds),
{
    if seconds > RECONNECT_MOST_SECONDS / 2 {
        RECONNECT_MOST_SECONDS
    } else {
        2 * seconds
    }
}

/// The seconds before an attempt, after so many that failed.
pub open spec fn delay_after(failures: nat) -> u64
    decreases failures,
{
    if failures == 0 {
        RECONNECT_FIRST_SECONDS
    } else {
        longer(delay_after((failures - 1) as nat))
    }
}

/// The delay never shrinks, never leaves its bounds, and is at its most after five failures.
pub proof fn delays_are_bounded(failures: nat)
    ensures
        RECONNECT_FIRST_SECONDS <= delay_after(failures) <= RECONNECT_MOST_SECONDS,
        delay_after(failures) <= delay_after(failures + 1),
        failures >= 5 ==> delay_after(failures) == RECONNECT_MOST_SECONDS,
    decreases failures,
{
    reveal_with_fuel(delay_after, 8);
    if failures > 5 {
        delays_are_bounded((failures - 1) as nat);
    }
}

/// What the log says before an attempt.
pub fn reconnect_message(seconds: u64, reason: &str) -> (r: String)
    ensures
        r@ == "Worker will reconnect in "@ + scan::decimal(seconds as nat) + "s after "@ + reason@,
{
    let mut m = text::cat3("Worker will reconnect in ", scan::show(seconds).as_str(), "s after ");
    m.append(reason);
    m
}

/// The settings after the service has told how it stands are those of its worker where the machine is
/// registered and active, and of none otherwise; everything else stays.
pub proof fn told_workers_are_kept(c: ConfigView, s: ServerStatusResponse)
    ensures
        s.registered && s.status@ == "ACTIVE"@ ==> (s.worker matches Some(w) ==> {
            let d = with_status(c, s);
            &&& d.is_server && d.registered_user_id == c.user_id && d.server_client_id == w.client_id@
            &&& d.server_status == s.status@
            &&& w.name matches Some(n) ==> d.server_name == n@
            &&& w.name is None ==> d.server_name == c.server_name
            &&& d.server_auto_reconnect == c.server_auto_reconnect
        }),
        !(s.registered && s.status@ == "ACTIVE"@) ==> ({
            let d = with_status(c, s);
            &&& !d.is_server && d.registered_user_id.len() == 0 && d.server_client_id.len() == 0
            &&& d.server_status == s.status@ && !d.server_auto_reconnect && d.server_name == c.server_name
        }),
        ({
            let d = with_status(c, s);
            &&& d.user_id == c.user_id && d.machine_id == c.machine_id && d.resolution == c.resolution
            &&& d.auto_renderer == c.auto_renderer && d.server_gpu == c.server_gpu && d.discord == c.discord
            &&& d.username == c.username && d.connect_worker_on_launch == c.connect_worker_on_launch
        }),
{
}

/// A machine can be registered exactly where somebody is logged in, a slot is free or the machine has one, the
/// benchmark is good enough in all three numbers, and the machine has an identifier.
pub proof fn good_machines_can_be_registered(config: AppConfig, slots: i64, b: &BenchmarkResult)
    ensures
        registration_problem(config, slots, Some(b)) is None <==> {
            &&& !text::is_blank(config.user_id@)
            &&& slots > 0 || config.is_server
            &&& b.min_mbps.at_most(b.download_mbps)
            &&& b.min_upload_mbps.at_most(b.upload_mbps)
            &&& b.render_time_ms <= b.max_render_ms
            &&& !text::is_blank(config.machine_id@)
        },
        registration_problem(config, slots, None) is Some,
{
}

/// A machine that is no longer registered keeps nothing of its registration, and everything else.
pub proof fn unregistered_machines_keep_the_rest(c: ConfigView)
    ensures
        ({
            let d = unregistered(c);
            &&& !d.is_server && d.registered_user_id.len() == 0 && d.server_client_id.len() == 0
            &&& d.server_status.len() == 0 && !d.server_auto_reconnect
            &&& d.user_id == c.user_id && d.machine_id == c.machine_id && d.server_name == c.server_name
            &&& d.server_gpu == c.server_gpu && d.resolution == c.resolution && d.auto_renderer
                == c.auto_renderer
        }),
{
}

/// The name of a machine is kept without space around it; one without characters or with more than eighteen is
/// refused.
pub proof fn names_have_up_to_eighteen_characters(value: Seq<char>)
    ensures
        1 <= text::trimmed(value).len() <= 18 ==> server_name(value) == Ok::<Seq<char>, ErrorView>(
            text::trimmed(value),
        ),
        text::trimmed(value).len() == 0 || text::trimmed(value).len() > 18 ==> server_name(value) is Err,
        text::trimmed(value).len() == 0 ==> told_name(value) == Ok::<Seq<char>, ErrorView>("Miru PC"@),
        text::trimmed(value).len() > 0 ==> told_name(value) == server_name(value),
{
}

/// A machine is given another name only where one is preferred that it does not have.
pub proof fn machines_are_renamed_where_preferred(preferred: Seq<char>, current: Seq<char>)
    ensures
        text::is_blank(preferred) ==> rename_outcome(preferred, current) == Ok::<
            Option<Seq<char>>,
            ErrorView,
        >(None),
        text::trimmed(preferred) == text::trimmed(current) ==> rename_outcome(preferred, current) == Ok::<
            Option<Seq<char>>,
            ErrorView,
        >(None),
        text::trimmed(preferred) != text::trimmed(current) && 1 <= text::trimmed(preferred).len() <= 18
            ==> rename_outcome(preferred, current) == Ok::<Option<Seq<char>>, ErrorView>(
            Some(text::trimmed(preferred)),
        ),
        text::trimmed(preferred) != text::trimmed(current) && text::trimmed(preferred).len() > 18
            ==> rename_outcome(preferred, current) is Err,
{
}

/// The free slots are found wherever the service may tell them, the number itself first.
pub proof fn slots_are_found(j: JsonView, n: i64)
    ensures
        j.signed() == Some(n) ==> slots_in(j) == Some(n),
        j.signed() is None && (j.field("slots"@) matches Some(v) && v.signed() == Some(n)) ==> slots_in(j)
            == Some(n),
        j.signed() is None && signed_field(j, "slots"@) is None && (j.field("available"@) matches Some(v)
            && v.signed() == Some(n)) ==> slots_in(j) == Some(n),
        j.signed() is None && signed_field(j, "slots"@) is None && signed_field(j, "available"@) is None && (
        j.field("data"@) matches Some(d) && (d.field("slots"@) matches Some(v) && v.signed() == Some(n)))
            ==> slots_in(j) == Some(n),
        j.signed() is None && signed_field(j, "slots"@) is None && signed_field(j, "available"@) is None && (
        j.field("data"@) matches Some(d) && signed_field(d, "slots"@) is None && (d.field(
            "available"@,
        ) matches Some(v) && v.signed() == Some(n))) ==> slots_in(j) == Some(n),
{
}

proof fn delays_never_shrink(failures: nat)
    ensures
        10 <= delay_after(failures) <= 300,
        delay_after(failures) <= delay_after(failures + 1),
        delay_after(failures) < 300 ==> delay_after(failures + 1) > delay_after(failures),
    decreases failures,
{
    if failures > 0 {
        delays_never_shrink((failures - 1) as nat);
    }
    assert(delay_after(failures + 1) == longer(delay_after(failures)));
}

/// The first delay before another attempt is ten seconds; each further one is twice the one before, and at most
/// five minutes.
pub proof fn delays_double(failures: nat)
    ensures
        delay_after(0) == 10,
        2 * delay_after(failures) <= 300 ==> delay_after(failures + 1) == 2 * delay_after(failures),
        2 * delay_after(failures) > 300 ==> delay_after(failures + 1) == 300,
{
    delays_never_shrink(failures);
    assert(delay_after(failures + 1) == longer(delay_after(failures)));
}

/// A machine that was registered belongs to the account that is logged in, under the name, the identifier and the
/// card that were told; logging out undoes that.
pub proof fn registrations_belong_to_the_account(
    c: ConfigView,
    name: Seq<char>,
    client_id: Seq<char>,
    status: Option<Seq<char>>,
    gpu_name: Seq<char>,
)
    ensures
        ({
            let d = registered_as(c, name, client_id, status, gpu_name);
            &&& d.is_server && owned(d) && d.user_id == c.user_id && d.registered_user_id == c.user_id
            &&& d.server_client_id == client_id && d.server_name == name && d.server_gpu == gpu_name
            &&& status matches Some(s) ==> d.server_status == s
            &&& status is None ==> d.server_status == "ACTIVE"@
            &&& d.machine_id == c.machine_id && d.resolution == c.resolution && d.auto_renderer
                == c.auto_renderer
            &&& d.server_auto_reconnect == c.server_auto_reconnect && d.username == c.username
            &&& !unregistered(d).is_server && unregistered(d).registered_user_id.len() == 0
        }),
{
}

/// A worker that is connected is left alone where the service sees it, and connected again where it does not; one
/// that is connecting is left alone, and any other one is connected.
pub proof fn lost_workers_connect_again(is_online: bool)
    ensures
        choice_for(WorkerStatus::Connected, true) == ConnectChoice::Nothing,
        choice_for(WorkerStatus::Connected, false) == ConnectChoice::Reconnect,
        choice_for(WorkerStatus::Connecting, is_online) == ConnectChoice::Nothing,
        choice_for(WorkerStatus::Disconnected, is_online) == ConnectChoice::Connect,
        choice_for(WorkerStatus::Error, is_online) == ConnectChoice::Connect,
{
}

/// Where the service tells nothing, a worker is shown as registered only to the account that registered it, and
/// never as online.
pub proof fn kept_workers_are_shown_to_their_account(r: WorkerStatsPayload, c: ConfigView, slots: i64)
    requires
        shows_kept(r, c, slots),
    ensures
        r.registered <==> c.is_server && !text::is_blank(c.user_id) && c.registered_user_id == c.user_id,
        r.registered ==> r.status@ == "ACTIVE"@,
        !r.registered ==> r.status@ == "UNKNOWN"@,
        !r.is_online && r.slots_available == slots && r.name@ == c.server_name,
        r.jobs_completed == 0 && r.jobs_failed == 0,
{
}

} // verus!
