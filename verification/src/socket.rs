//! The socket of a worker: the packets on it, and what they lead to.
use crate::error;
use crate::error::{AppError, AppResult, ErrorView};
use crate::jobs::JobAssignment;
use crate::json;
use crate::json::{
    value_of_bool, value_of_list, value_of_nothing, value_of_number, value_of_record, value_of_text,
    write_value, Json, JsonView,
};
use crate::render::normalize_gpu_name;
use crate::scan;
use crate::scan::{starts_with, strip_prefix};
use crate::text;
use crate::text::{blank, cat, same_text};
use crate::types::{AppConfig, WorkerStatus};
use vstd::prelude::*;

verus! {

pub const WORKER_PROTOCOL_VERSION: u8 = 3;

pub const WORKER_CONNECT_TIMEOUT_SECONDS: u64 = 12;

pub const WORKER_SOCKET_IDLE_SECONDS: u64 = 90;

pub const HEARTBEAT_SECONDS: u64 = 15;

// ---------------------------------------------------------------------------------------------
// Packets
// ---------------------------------------------------------------------------------------------

/// The packet that tells an event without a payload.
pub open spec fn bare_packet(event: Seq<char>) -> Seq<char> {
    "42/workers,"@ + json::json_text(JsonView::List(seq![JsonView::Text(event)]))
}

/// What follows the front of a packet.
proof fn packet_body(front: Seq<char>, body: Seq<char>)
    ensures
        scan::begins(front + body, front),
        (front + body).skip(front.len() as int) == body,
{
    assert((front + body).skip(front.len() as int) =~= body);
    assert((front + body).subrange(0, front.len() as int) =~= front);
}

/// The packet that tells an event without a payload. It is read back as that event.
pub fn queue_socket_event_no_payload(event: &str) -> (r: String)
    ensures
        r@ == bare_packet(event@),
        packet_event(r@) == Some((event@, JsonView::Null)),
{
    let document = value_of_list(vec![value_of_text(event)]);
    proof {
        assert(json::value_tree(document)->List_0 =~= seq![JsonView::Text(event@)]);
        reveal_with_fuel(json::writable, 3);
    }
    let body = write_value(&document);
    proof {
        packet_body("42/workers,"@, body@);
    }
    cat("42/workers,", body.as_str())
}

/// What a worker says of itself.
pub open spec fn identity(
    token: Seq<char>,
    machine_name: Seq<char>,
    gpu: Seq<char>,
    os: Seq<char>,
) -> JsonView {
    JsonView::Record(
        seq![
            ("gpu"@, JsonView::Text(gpu)),
            ("machineName"@, JsonView::Text(machine_name)),
            ("os"@, JsonView::Text(os)),
            ("protocolVersion"@, JsonView::Unsigned(WORKER_PROTOCOL_VERSION as u64)),
            ("token"@, JsonView::Text(token)),
        ],
    )
}

/// The packet that opens the connection, with what the worker says of itself.
pub open spec fn identity_packet(
    token: Seq<char>,
    machine_name: Seq<char>,
    gpu: Seq<char>,
    os: Seq<char>,
) -> Seq<char> {
    "40/workers,"@ + json::json_text(identity(token, machine_name, gpu, os))
}

/// One text comes before another one by their first characters.
proof fn first_decides(a: Seq<char>, b: Seq<char>)
    requires
        a.len() > 0,
        b.len() > 0,
        a[0] < b[0],
    ensures
        json::goes_before(a, b),
{
    assert(a.take(0) =~= b.take(0));
}

/// The packet that opens the connection, with what the worker says of itself.
pub fn connect_packet(token: &str, machine_name: &str, gpu: &str, os: &str) -> (r: String)
    ensures
        r@ == identity_packet(token@, machine_name@, gpu@, os@),
{
    let fields = vec![
        ("gpu".to_owned(), value_of_text(gpu)),
        ("machineName".to_owned(), value_of_text(machine_name)),
        ("os".to_owned(), value_of_text(os)),
        ("protocolVersion".to_owned(), value_of_number(WORKER_PROTOCOL_VERSION as u64)),
        ("token".to_owned(), value_of_text(token)),
    ];
    proof {
        reveal_strlit("gpu");
        reveal_strlit("machineName");
        reveal_strlit("os");
        reveal_strlit("protocolVersion");
        reveal_strlit("token");
        first_decides("gpu"@, "machineName"@);
        first_decides("machineName"@, "os"@);
        first_decides("os"@, "protocolVersion"@);
        first_decides("protocolVersion"@, "token"@);
    }
    let document = value_of_record(fields);
    proof {
        assert(json::value_tree(document)->Record_0 =~= identity(
            token@,
            machine_name@,
            gpu@,
            os@,
        )->Record_0);
        reveal_with_fuel(json::writable, 3);
    }
    cat("40/workers,", write_value(&document).as_str())
}

/// The event that a JSON list tells: its name, and its payload if it has one.
pub open spec fn event_in(j: JsonView) -> Option<(Seq<char>, JsonView)> {
    match j {
        JsonView::List(items) => if items.len() == 0 {
            None
        } else {
            match items[0].text() {
                Some(name) => Some(
                    (
                        name,
                        if items.len() > 1 {
                            items[1]
                        } else {
                            JsonView::Null
                        },
                    ),
                ),
                None => None,
            }
        },
        _ => None,
    }
}

/// What an event holds.
pub open spec fn event_view(o: Option<(String, Json)>) -> Option<(Seq<char>, JsonView)> {
    match o {
        Some((name, payload)) => Some((name@, payload@)),
        None => None,
    }
}

/// The event that a JSON document tells.
pub fn event_of(document: Json) -> (r: Option<(String, Json)>)
    ensures
        event_view(r) == event_in(document@),
{
    match document {
        Json::List(items) => {
            let mut items = items;
            if items.len() == 0 {
                return None;
            }
            let name = match items[0].as_str() {
                Some(s) => s.to_owned(),
                None => {
                    return None;
                },
            };
            if items.len() > 1 {
                let payload = items.remove(1);
                Some((name, payload))
            } else {
                Some((name, Json::Null))
            }
        },
        _ => None,
    }
}

/// The event that a packet tells.
pub open spec fn packet_event(packet: Seq<char>) -> Option<(Seq<char>, JsonView)> {
    if scan::begins(packet, "42/workers,"@) {
        match json::parsed_text(packet.skip("42/workers,"@.len() as int)) {
            Some(j) => event_in(j),
            None => None,
        }
    } else {
        None
    }
}

/// The event that a packet tells.
pub fn parse_socket_event(packet: &str) -> (r: Option<(String, Json)>)
    ensures
        event_view(r) == packet_event(packet@),
{
    match strip_prefix(packet, "42/workers,") {
        Some(body) => match json::parse(body.as_str()) {
            Some(j) => event_of(j),
            None => None,
        },
        None => None,
    }
}

/// Why the server refuses the connection, by what it sends.
pub open spec fn refusal_in(j: JsonView) -> Seq<char> {
    match j.text_field("message"@) {
        Some(m) => m,
        None => match j.text() {
            Some(s) => s,
            None => "worker namespace rejected connection"@,
        },
    }
}

/// Why the server refuses the connection, by what it sends.
pub fn refusal_of(document: &Json) -> (r: String)
    ensures
        r@ == refusal_in(document@),
{
    match document.text_of("message") {
        Some(m) => m.to_owned(),
        None => match document.as_str() {
            Some(s) => s.to_owned(),
            None => "worker namespace rejected connection".to_owned(),
        },
    }
}

/// Why a packet refuses the connection, if it does.
pub open spec fn packet_refusal(packet: Seq<char>) -> Option<Seq<char>> {
    if scan::begins(packet, "44/workers,"@) {
        match json::parsed_text(packet.skip("44/workers,"@.len() as int)) {
            Some(j) => Some(refusal_in(j)),
            None => None,
        }
    } else {
        None
    }
}

/// Why a packet refuses the connection, if it does.
pub fn parse_socket_error(packet: &str) -> (r: Option<String>)
    ensures
        text::opt_text(r) == packet_refusal(packet@),
{
    match strip_prefix(packet, "44/workers,") {
        Some(body) => match json::parse(body.as_str()) {
            Some(j) => Some(refusal_of(&j)),
            None => None,
        },
        None => None,
    }
}

/// The name under which a machine connects.
pub open spec fn connect_name(server_name: Seq<char>) -> Seq<char> {
    if text::is_blank(server_name) {
        "Miru Desktop"@
    } else {
        server_name
    }
}

/// The graphics card that a machine tells.
pub open spec fn told_gpu(gpu: Seq<char>) -> Seq<char> {
    let g = text::trimmed(gpu);
    if g.len() == 0 || text::same_ignoring_case(g, "unknown"@) {
        "Unknown"@
    } else {
        g
    }
}

/// What a worker says of itself: its name and its graphics card.
pub fn worker_identity(config: &AppConfig) -> (r: (String, String))
    ensures
        r.0@ == connect_name(config.server_name@),
        r.1@ == told_gpu(config.server_gpu@),
        r.0@ == if text::is_blank(config.server_name@) {
            "Miru Desktop"@
        } else {
            config.server_name@
        },
        r.1@ == {
            let g = text::trimmed(config.server_gpu@);
            if g.len() == 0 || text::same_ignoring_case(g, "unknown"@) {
                "Unknown"@
            } else {
                g
            }
        },
{
    let name = if blank(config.server_name.as_str()) {
        "Miru Desktop".to_owned()
    } else {
        config.server_name.clone()
    };
    let gpu = match normalize_gpu_name(config.server_gpu.as_str()) {
        Some(g) => g,
        None => "Unknown".to_owned(),
    };
    (name, gpu)
}

// ---------------------------------------------------------------------------------------------
// The conversation
// ---------------------------------------------------------------------------------------------

/// What happens on the socket or to it.
pub enum SocketEvent {
    /// The client wants to end.
    Shutdown,
    /// Nothing has come for too long.
    Idle,
    /// The other side has closed.
    Closed,
    /// The socket has failed.
    Failed(String),
    /// A packet has come.
    Packet(String),
    /// Something else has come.
    Other,
}

/// How the conversation ends.
#[derive(Clone, Copy, PartialEq, Eq, Structural)]
pub enum WorkerSocketExit {
    Shutdown,
    Closed,
}

/// What is to be done next.
pub enum SocketAction {
    /// Wait for more.
    Wait,
    /// Send who the worker is.
    SendIdentity,
    /// Answer that the worker is there.
    SendPong,
    /// The worker is connected: show it, tell the one who waits for it, if anyone still does, and tell
    /// the server that the worker is ready.
    Connected { tell: bool },
    /// Handle an event.
    Handle { event: String, payload: Json },
    /// End as the client or the server wants it; a job that runs is cancelled.
    Leave(WorkerSocketExit),
    /// End because the worker was idle; a job that runs is cancelled.
    GiveUp(AppError),
    /// End with an error; the one who waits for the connection, if anyone still does, is told so.
    Fail { error: AppError, notify: Option<String> },
}

/// What [`SocketAction`] holds.
pub enum ActionView {
    Wait,
    SendIdentity,
    SendPong,
    Connected { tell: bool },
    Handle { event: Seq<char>, payload: JsonView },
    Leave(WorkerSocketExit),
    GiveUp(ErrorView),
    Fail { error: ErrorView, notify: Option<Seq<char>> },
}

impl View for SocketAction {
    type V = ActionView;

    open spec fn view(&self) -> ActionView {
        match self {
            SocketAction::Wait => ActionView::Wait,
            SocketAction::SendIdentity => ActionView::SendIdentity,
            SocketAction::SendPong => ActionView::SendPong,
            SocketAction::Connected { tell } => ActionView::Connected { tell: *tell },
            SocketAction::Handle { event, payload } => ActionView::Handle {
                event: event@,
                payload: payload@,
            },
            SocketAction::Leave(exit) => ActionView::Leave(*exit),
            SocketAction::GiveUp(e) => ActionView::GiveUp(e@),
            SocketAction::Fail { error, notify } => ActionView::Fail {
                error: error@,
                notify: text::opt_text(*notify),
            },
        }
    }
}

/// Whether anyone still waits for the connection.
#[derive(Clone, Copy, PartialEq, Eq, Structural)]
pub struct SocketState {
    pub awaited: bool,
}

/// The answer to a packet. The kinds of packets are told apart by what they begin with, in this
/// order; a packet that is none of them is passed over.
pub open spec fn packet_action(awaited: bool, packet: Seq<char>) -> ActionView {
    if scan::begins(packet, "0"@) {
        ActionView::SendIdentity
    } else if packet == "2"@ {
        ActionView::SendPong
    } else if scan::begins(packet, "40/workers"@) {
        ActionView::Connected { tell: awaited }
    } else if packet_refusal(packet) is Some {
        ActionView::Fail {
            error: ErrorView::Process(packet_refusal(packet)->0),
            notify: if awaited {
                packet_refusal(packet)
            } else {
                None
            },
        }
    } else {
        match packet_event(packet) {
            Some((event, payload)) => ActionView::Handle { event, payload },
            None => ActionView::Wait,
        }
    }
}

/// What is to be done after an event.
pub open spec fn action_after(awaited: bool, event: SocketEvent) -> ActionView {
    match event {
        SocketEvent::Shutdown => ActionView::Leave(WorkerSocketExit::Shutdown),
        SocketEvent::Idle => ActionView::GiveUp(
            ErrorView::Process("worker socket idle timeout after 90s"@),
        ),
        SocketEvent::Closed => ActionView::Leave(WorkerSocketExit::Closed),
        SocketEvent::Failed(m) => ActionView::Fail { error: ErrorView::WebSocket(m@), notify: None },
        SocketEvent::Packet(p) => packet_action(awaited, p@),
        SocketEvent::Other => ActionView::Wait,
    }
}

/// Someone is told at most once what came of the connection.
pub open spec fn still_awaited(awaited: bool, action: ActionView) -> bool {
    match action {
        ActionView::Connected { .. } => false,
        ActionView::Fail { error, notify } => awaited && notify is None,
        _ => awaited,
    }
}

impl SocketState {
    /// A conversation that someone waits for.
    pub fn new() -> (r: Self)
        ensures
            r.awaited,
    {
        SocketState { awaited: true }
    }

    fn on_packet(&mut self, packet: &str) -> (r: SocketAction)
        ensures
            r@ == packet_action(old(self).awaited, packet@),
            final(self).awaited == still_awaited(old(self).awaited, r@),
    {
        if starts_with(packet, "0") {
            return SocketAction::SendIdentity;
        }
        if same_text(packet, "2") {
            return SocketAction::SendPong;
        }
        if starts_with(packet, "40/workers") {
            let tell = self.awaited;
            self.awaited = false;
            return SocketAction::Connected { tell };
        }
        if let Some(m) = parse_socket_error(packet) {
            let notify = if self.awaited {
                Some(m.clone())
            } else {
                None
            };
            self.awaited = false;
            return SocketAction::Fail { error: AppError::Process(m), notify };
        }
        match parse_socket_event(packet) {
            Some((event, payload)) => SocketAction::Handle { event, payload },
            None => SocketAction::Wait,
        }
    }

    /// Takes what has happened and tells what is to be done.
    pub fn worker_socket_loop(&mut self, event: SocketEvent) -> (r: SocketAction)
        ensures
            r@ == action_after(old(self).awaited, event),
            final(self).awaited == still_awaited(old(self).awaited, r@),
    {
        match event {
            SocketEvent::Shutdown => SocketAction::Leave(WorkerSocketExit::Shutdown),
            SocketEvent::Idle => SocketAction::GiveUp(
                AppError::Process("worker socket idle timeout after 90s".to_owned()),
            ),
            SocketEvent::Closed => SocketAction::Leave(WorkerSocketExit::Closed),
            SocketEvent::Failed(m) => SocketAction::Fail {
                error: AppError::WebSocket(m),
                notify: None,
            },
            SocketEvent::Packet(p) => self.on_packet(p.as_str()),
            SocketEvent::Other => SocketAction::Wait,
        }
    }
}

/// The one who waits for a connection is told of it once, whatever the server sends later.
pub proof fn told_once(first: ActionView, packet: Seq<char>)
    requires
        first matches ActionView::Connected { tell } && tell,
    ensures
        ({
            let awaited = still_awaited(true, first);
            match packet_action(awaited, packet) {
                ActionView::Connected { tell } => !tell,
                ActionView::Fail { error, notify } => notify is None,
                _ => true,
            }
        }),
{
}

/// A server that asks whether the worker is there is always answered.
pub proof fn pings_are_answered(awaited: bool)
    ensures
        packet_action(awaited, "2"@) == ActionView::SendPong,
{
    reveal_strlit("0");
    reveal_strlit("2");
    if scan::begins("2"@, "0"@) {
        assert("2"@.subrange(0, 1)[0] == "0"@[0]);
    }
}

/// What the client shows and does once the conversation is over.
pub struct SocketAftermath {
    pub status: WorkerStatus,
    /// Why the client tries to connect again, if it does.
    pub reconnect: Option<&'static str>,
}

/// Whether a worker connects again once its socket has ended.
pub open spec fn connects_again(result: AppResult<WorkerSocketExit>) -> bool {
    match result {
        Ok(WorkerSocketExit::Shutdown) => false,
        Ok(WorkerSocketExit::Closed) => true,
        Err(_) => true,
    }
}

/// What the client shows and does once the conversation is over: only an end that the client wanted
/// is final.
pub fn socket_aftermath(result: &AppResult<WorkerSocketExit>) -> (r: SocketAftermath)
    ensures
        r.reconnect is Some == connects_again(*result),
        r.status == match *result {
            Ok(_) => WorkerStatus::Disconnected,
            Err(_) => WorkerStatus::Error,
        },
        text::opt_str(r.reconnect) == match *result {
            Ok(WorkerSocketExit::Shutdown) => None,
            Ok(WorkerSocketExit::Closed) => Some("socket closed"@),
            Err(_) => Some("socket error"@),
        },
{
    match result {
        Ok(WorkerSocketExit::Shutdown) => SocketAftermath {
            status: WorkerStatus::Disconnected,
            reconnect: None,
        },
        Ok(WorkerSocketExit::Closed) => SocketAftermath {
            status: WorkerStatus::Disconnected,
            reconnect: Some("socket closed"),
        },
        Err(_) => SocketAftermath { status: WorkerStatus::Error, reconnect: Some("socket error") },
    }
}

// ---------------------------------------------------------------------------------------------
// Jobs
// ---------------------------------------------------------------------------------------------

/// What an event is about.
#[derive(Clone, Copy, PartialEq, Eq, Structural)]
pub enum JobEvent {
    Assigned,
    Cancel,
    Other,
}

/// What an event is about, by its name.
pub open spec fn job_event(event: Seq<char>) -> JobEvent {
    if event == "job:assigned"@ {
        JobEvent::Assigned
    } else if event == "job:cancel"@ {
        JobEvent::Cancel
    } else {
        JobEvent::Other
    }
}

/// What an event is about, by its name.
pub fn handle_worker_socket_event(event: &str) -> (r: JobEvent)
    ensures
        r == job_event(event@),
{
    if same_text(event, "job:assigned") {
        JobEvent::Assigned
    } else if same_text(event, "job:cancel") {
        JobEvent::Cancel
    } else {
        JobEvent::Other
    }
}

/// The job that a worker renders. It is one at most.
pub struct ActiveJob {
    pub job_id: Option<String>,
}

impl View for ActiveJob {
    type V = Option<Seq<char>>;

    open spec fn view(&self) -> Option<Seq<char>> {
        text::opt_text(self.job_id)
    }
}

/// The job that a request to cancel names.
pub open spec fn job_to_cancel(payload: JsonView) -> Seq<char> {
    match payload.text_field("jobId"@) {
        Some(id) => id,
        None => Seq::empty(),
    }
}

/// The job of a worker once it is assigned one.
pub open spec fn job_after_assign(active: Option<Seq<char>>, id: Seq<char>) -> Option<Seq<char>> {
    match active {
        Some(a) => Some(a),
        None => Some(id),
    }
}

/// The job of a worker once a job is over.
pub open spec fn job_after_end(active: Option<Seq<char>>, id: Seq<char>) -> Option<Seq<char>> {
    if active == Some(id) {
        None
    } else {
        active
    }
}

impl ActiveJob {
    /// A worker without a job.
    pub fn new() -> (r: Self)
        ensures
            r@ is None,
    {
        ActiveJob { job_id: None }
    }

    /// Takes a job, unless the worker has one.
    pub fn assign(&mut self, job_id: &str) -> (taken: bool)
        ensures
            taken == (old(self)@ is None),
            final(self)@ == job_after_assign(old(self)@, job_id@),
    {
        if self.job_id.is_some() {
            return false;
        }
        self.job_id = Some(job_id.to_owned());
        true
    }

    /// The job that is to be cancelled: the one that the request names, if it is the one that the
    /// worker renders.
    pub fn cancel(&self, payload: &Json) -> (r: Option<String>)
        ensures
            text::opt_text(r) == if self@ == Some(job_to_cancel(payload@)) {
                self@
            } else {
                None
            },
    {
        let wanted = match payload.text_of("jobId") {
            Some(id) => id.to_owned(),
            None => String::new(),
        };
        match &self.job_id {
            Some(id) => if same_text(id.as_str(), wanted.as_str()) {
                Some(wanted)
            } else {
                None
            },
            None => None,
        }
    }

    /// Notes that a job is over.
    pub fn finish(&mut self, job_id: &str)
        ensures
            final(self)@ == job_after_end(old(self)@, job_id@),
    {
        let over = match &self.job_id {
            Some(id) => same_text(id.as_str(), job_id),
            None => false,
        };
        if over {
            self.job_id = None;
        }
    }
}

/// A worker that has a job keeps it: another job is refused and changes nothing, the end of another
/// job changes nothing, and the end of its own job makes room for the next.
pub proof fn one_job_at_a_time(first: Seq<char>, second: Seq<char>)
    ensures
        job_after_assign(None, first) == Some(first),
        job_after_assign(Some(first), second) == Some(first),
        first != second ==> job_after_end(Some(first), second) == Some(first),
        job_after_assign(job_after_end(Some(first), first), second) == Some(second),
{
}

/// What a worker tells the server of a job.
pub enum WorkerNotice {
    Progress { job_id: String, attempt_id: String, progress: u64, current_step: String, phase: String },
    Heartbeat { job_id: String, attempt_id: String },
    Complete {
        job_id: String,
        attempt_id: String,
        video_key: String,
        duration: u64,
        file_size: u64,
        summary_mismatch: Option<bool>,
    },
    Error { job_id: String, attempt_id: String, error: String },
}

/// The name of the event that tells a notice.
pub open spec fn notice_name(n: WorkerNotice) -> Seq<char> {
    match n {
        WorkerNotice::Progress { .. } => "worker:progress"@,
        WorkerNotice::Heartbeat { .. } => "worker:heartbeat"@,
        WorkerNotice::Complete { .. } => "worker:complete"@,
        WorkerNotice::Error { .. } => "worker:error"@,
    }
}

impl WorkerNotice {
    /// The name of the event that tells it.
    pub fn event_name(&self) -> (r: &'static str)
        ensures
            r@ == notice_name(*self),
    {
        match self {
            WorkerNotice::Progress { .. } => "worker:progress",
            WorkerNotice::Heartbeat { .. } => "worker:heartbeat",
            WorkerNotice::Complete { .. } => "worker:complete",
            WorkerNotice::Error { .. } => "worker:error",
        }
    }
}

/// Whether a replay and its summary differ, as the server is told: nothing where it is not known.
pub open spec fn integrity(mismatch: Option<bool>) -> JsonView {
    match mismatch {
        None => JsonView::Null,
        Some(b) => JsonView::Record(seq![("has_summary_mismatch"@, JsonView::Bool(b))]),
    }
}

/// What a notice says, field by field.
pub open spec fn notice_fields(n: WorkerNotice) -> Seq<(Seq<char>, JsonView)> {
    match n {
        WorkerNotice::Progress { job_id, attempt_id, progress, current_step, phase } => seq![
            ("attemptId"@, JsonView::Text(attempt_id@)),
            ("currentStep"@, JsonView::Text(current_step@)),
            ("jobId"@, JsonView::Text(job_id@)),
            ("phase"@, JsonView::Text(phase@)),
            ("progress"@, JsonView::Unsigned(progress)),
        ],
        WorkerNotice::Heartbeat { job_id, attempt_id } => seq![
            ("attemptId"@, JsonView::Text(attempt_id@)),
            ("jobId"@, JsonView::Text(job_id@)),
        ],
        WorkerNotice::Complete {
            job_id,
            attempt_id,
            video_key,
            duration,
            file_size,
            summary_mismatch,
        } => seq![
            ("attemptId"@, JsonView::Text(attempt_id@)),
            ("duration"@, JsonView::Unsigned(duration)),
            ("fileSize"@, JsonView::Unsigned(file_size)),
            ("jobId"@, JsonView::Text(job_id@)),
            ("replayIntegrity"@, integrity(summary_mismatch)),
            ("videoKey"@, JsonView::Text(video_key@)),
        ],
        WorkerNotice::Error { job_id, attempt_id, error } => seq![
            ("attemptId"@, JsonView::Text(attempt_id@)),
            ("error"@, JsonView::Text(error@)),
            ("jobId"@, JsonView::Text(job_id@)),
        ],
    }
}

/// The event that tells a notice: its name, and what the notice says.
pub open spec fn notice_event(n: WorkerNotice) -> JsonView {
    JsonView::List(seq![JsonView::Text(notice_name(n)), JsonView::Record(notice_fields(n))])
}

/// The packet that tells a notice.
pub open spec fn notice_packet(n: WorkerNotice) -> Seq<char> {
    "42/workers,"@ + json::json_text(notice_event(n))
}

fn integrity_value(mismatch: Option<bool>) -> (r: serde_json::Value)
    ensures
        json::value_tree(r) == integrity(mismatch),
{
    match mismatch {
        None => value_of_nothing(),
        Some(b) => {
            let r = value_of_record(vec![("has_summary_mismatch".to_owned(), value_of_bool(b))]);
            assert(json::value_tree(r)->Record_0 =~= integrity(mismatch)->Record_0);
            r
        },
    }
}

/// The names of the fields of notices come in their order.
proof fn field_names_ascend()
    ensures
        json::goes_before("attemptId"@, "currentStep"@),
        json::goes_before("attemptId"@, "duration"@),
        json::goes_before("attemptId"@, "error"@),
        json::goes_before("attemptId"@, "jobId"@),
        json::goes_before("currentStep"@, "jobId"@),
        json::goes_before("duration"@, "fileSize"@),
        json::goes_before("error"@, "jobId"@),
        json::goes_before("fileSize"@, "jobId"@),
        json::goes_before("jobId"@, "phase"@),
        json::goes_before("jobId"@, "replayIntegrity"@),
        json::goes_before("phase"@, "progress"@),
        json::goes_before("replayIntegrity"@, "videoKey"@),
{
    reveal_strlit("attemptId");
    reveal_strlit("currentStep");
    reveal_strlit("duration");
    reveal_strlit("error");
    reveal_strlit("fileSize");
    reveal_strlit("jobId");
    reveal_strlit("phase");
    reveal_strlit("progress");
    reveal_strlit("replayIntegrity");
    reveal_strlit("videoKey");
    first_decides("attemptId"@, "currentStep"@);
    first_decides("attemptId"@, "duration"@);
    first_decides("attemptId"@, "error"@);
    first_decides("attemptId"@, "jobId"@);
    first_decides("currentStep"@, "jobId"@);
    first_decides("duration"@, "fileSize"@);
    first_decides("error"@, "jobId"@);
    first_decides("fileSize"@, "jobId"@);
    first_decides("jobId"@, "phase"@);
    first_decides("jobId"@, "replayIntegrity"@);
    first_decides("replayIntegrity"@, "videoKey"@);
    assert("phase"@.take(1) =~= "progress"@.take(1));
}

fn notice_value(n: &WorkerNotice) -> (r: serde_json::Value)
    ensures
        json::value_tree(r) == JsonView::Record(notice_fields(*n)),
{
    let fields = match n {
        WorkerNotice::Progress { job_id, attempt_id, progress, current_step, phase } => vec![
            ("attemptId".to_owned(), value_of_text(attempt_id.as_str())),
            ("currentStep".to_owned(), value_of_text(current_step.as_str())),
            ("jobId".to_owned(), value_of_text(job_id.as_str())),
            ("phase".to_owned(), value_of_text(phase.as_str())),
            ("progress".to_owned(), value_of_number(*progress)),
        ],
        WorkerNotice::Heartbeat { job_id, attempt_id } => vec![
            ("attemptId".to_owned(), value_of_text(attempt_id.as_str())),
            ("jobId".to_owned(), value_of_text(job_id.as_str())),
        ],
        WorkerNotice::Complete {
            job_id,
            attempt_id,
            video_key,
            duration,
            file_size,
            summary_mismatch,
        } => vec![
            ("attemptId".to_owned(), value_of_text(attempt_id.as_str())),
            ("duration".to_owned(), value_of_number(*duration)),
            ("fileSize".to_owned(), value_of_number(*file_size)),
            ("jobId".to_owned(), value_of_text(job_id.as_str())),
            ("replayIntegrity".to_owned(), integrity_value(*summary_mismatch)),
            ("videoKey".to_owned(), value_of_text(video_key.as_str())),
        ],
        WorkerNotice::Error { job_id, attempt_id, error } => vec![
            ("attemptId".to_owned(), value_of_text(attempt_id.as_str())),
            ("error".to_owned(), value_of_text(error.as_str())),
            ("jobId".to_owned(), value_of_text(job_id.as_str())),
        ],
    };
    proof {
        field_names_ascend();
    }
    let r = value_of_record(fields);
    assert(json::value_tree(r)->Record_0 =~= notice_fields(*n));
    r
}

/// What a worker tells can be written.
proof fn notices_are_writable(n: WorkerNotice)
    ensures
        json::writable(notice_event(n), 100),
{
    reveal_with_fuel(json::writable, 5);
    let fields = notice_fields(n);
    assert forall|i: int| 0 <= i < fields.len() implies json::writable(
        (#[trigger] fields[i]).1,
        98,
    ) by {}
    assert(json::writable(JsonView::Record(fields), 99));
}

/// The packet that tells a notice. It is read back as the event that the notice is.
pub fn queue_socket_event(n: &WorkerNotice) -> (r: String)
    ensures
        r@ == notice_packet(*n),
        packet_event(r@) == Some((notice_name(*n), JsonView::Record(notice_fields(*n)))),
{
    let document = value_of_list(vec![value_of_text(n.event_name()), notice_value(n)]);
    proof {
        assert(json::value_tree(document)->List_0 =~= notice_event(*n)->List_0);
        notices_are_writable(*n);
    }
    let body = write_value(&document);
    proof {
        packet_body("42/workers,"@, body@);
    }
    cat("42/workers,", body.as_str())
}

/// Tells how far a job is.
pub fn queue_worker_progress(job: &JobAssignment, progress: u64, step: &str, phase: &str) -> (r:
    WorkerNotice)
    ensures
        r matches WorkerNotice::Progress { job_id, attempt_id, progress: p, current_step, phase: f }
            && job_id@ == job.id@ && attempt_id@ == job.attempt() && p == progress && current_step@
            == step@ && f@ == phase@,
{
    WorkerNotice::Progress {
        job_id: job.id.clone(),
        attempt_id: job.attempt_id().to_owned(),
        progress,
        current_step: step.to_owned(),
        phase: phase.to_owned(),
    }
}

/// Tells that a job still runs.
pub fn queue_worker_heartbeat(job: &JobAssignment) -> (r: WorkerNotice)
    ensures
        r matches WorkerNotice::Heartbeat { job_id, attempt_id } && job_id@ == job.id@ && attempt_id@
            == job.attempt(),
{
    WorkerNotice::Heartbeat { job_id: job.id.clone(), attempt_id: job.attempt_id().to_owned() }
}

/// Tells that a job has failed.
pub fn queue_worker_error(job: &JobAssignment, error: &str) -> (r: WorkerNotice)
    ensures
        r matches WorkerNotice::Error { job_id, attempt_id, error: m } && job_id@ == job.id@
            && attempt_id@ == job.attempt() && m@ == error@,
{
    WorkerNotice::Error {
        job_id: job.id.clone(),
        attempt_id: job.attempt_id().to_owned(),
        error: error.to_owned(),
    }
}

/// A notice tells that a job is done.
pub open spec fn tells_completion(
    r: WorkerNotice,
    job: JobAssignment,
    duration: u64,
    file_size: u64,
    mismatch: Option<bool>,
) -> bool {
    r matches WorkerNotice::Complete {
        job_id,
        attempt_id,
        video_key,
        duration: d,
        file_size: n,
        summary_mismatch,
    } && job_id@ == job.id@ && attempt_id@ == job.attempt() && video_key@ == job.output_storage_key@ && d
        == duration && n == file_size && summary_mismatch == mismatch
}

/// Tells that a job is done, where its video lies and how large it is, and whether the replay and its
/// summary differ, where that is known.
pub fn queue_worker_complete(
    job: &JobAssignment,
    duration: u64,
    file_size: u64,
    mismatch: Option<bool>,
) -> (r: WorkerNotice)
    ensures
        tells_completion(r, *job, duration, file_size, mismatch),
        r matches WorkerNotice::Complete {
            job_id,
            attempt_id,
            video_key,
            duration: d,
            file_size: n,
            summary_mismatch,
        } && job_id@ == job.id@ && attempt_id@ == job.attempt() && video_key@
            == job.output_storage_key@ && d == duration && n == file_size && summary_mismatch
            == mismatch,
{
    WorkerNotice::Complete {
        job_id: job.id.clone(),
        attempt_id: job.attempt_id().to_owned(),
        video_key: job.output_storage_key.clone(),
        duration,
        file_size,
        summary_mismatch: mismatch,
    }
}

/// What becomes of a job that is over.
pub enum JobVerdict {
    /// Tell that it is done.
    Completed,
    /// Say nothing.
    Cancelled,
    /// Tell what went wrong.
    Failed(String),
}

/// What becomes of a job that is over. A cancelled one is not told to the server.
pub fn handle_job(outcome: &AppResult<()>) -> (r: JobVerdict)
    ensures
        match *outcome {
            Ok(_) => r is Completed,
            Err(e) => if e@.shown() == "process error: Render cancelled"@ {
                r is Cancelled
            } else {
                r matches JobVerdict::Failed(m) && m@ == e@.shown()
            },
        },
{
    match outcome {
        Ok(_) => JobVerdict::Completed,
        Err(e) => {
            let message = e.message();
            if same_text(message.as_str(), "process error: Render cancelled") {
                JobVerdict::Cancelled
            } else {
                JobVerdict::Failed(message)
            }
        },
    }
}

/// A render that was cancelled is never told as a failure.
pub proof fn cancelled_renders_are_silent(e: ErrorView)
    requires
        crate::assets::cancelled(e),
    ensures
        e.shown() == "process error: Render cancelled"@,
{
    reveal_strlit("process error: ");
    reveal_strlit("Render cancelled");
    reveal_strlit("process error: Render cancelled");
    assert(e.shown() =~= "process error: Render cancelled"@);
}

/// A packet with an event comes to that event, with what it carries; an event without anything carries null.
pub proof fn events_are_read_from_packets(packet: Seq<char>, name: Seq<char>, payload: JsonView)
    requires
        scan::begins(packet, "42/workers,"@),
    ensures
        json::parsed_text(packet.skip("42/workers,"@.len() as int)) == Some(
            JsonView::List(seq![JsonView::Text(name), payload]),
        ) ==> packet_event(packet) == Some((name, payload)),
        json::parsed_text(packet.skip("42/workers,"@.len() as int)) == Some(
            JsonView::List(seq![JsonView::Text(name)]),
        ) ==> packet_event(packet) == Some((name, JsonView::Null)),
        json::parsed_text(packet.skip("42/workers,"@.len() as int)) is None ==> packet_event(packet) is None,
{
    let a = JsonView::List(seq![JsonView::Text(name), payload]);
    let b = JsonView::List(seq![JsonView::Text(name)]);
    assert(a->List_0[0] == JsonView::Text(name) && a->List_0[1] == payload);
    assert(b->List_0[0] == JsonView::Text(name));
}

/// A notice names its job and its attempt, whatever it is about, and what it is about under its own name.
pub proof fn notices_name_their_job(n: WorkerNotice)
    ensures
        ({
            let f = notice_fields(n);
            match n {
                WorkerNotice::Progress { job_id, attempt_id, progress, current_step, phase } => {
                    &&& f.contains(("jobId"@, JsonView::Text(job_id@)))
                    &&& f.contains(("attemptId"@, JsonView::Text(attempt_id@)))
                    &&& f.contains(("progress"@, JsonView::Unsigned(progress)))
                    &&& f.contains(("currentStep"@, JsonView::Text(current_step@)))
                    &&& f.contains(("phase"@, JsonView::Text(phase@)))
                    &&& f.len() == 5
                    &&& notice_name(n) == "worker:progress"@
                },
                WorkerNotice::Heartbeat { job_id, attempt_id } => {
                    &&& f.contains(("jobId"@, JsonView::Text(job_id@)))
                    &&& f.contains(("attemptId"@, JsonView::Text(attempt_id@)))
                    &&& f.len() == 2
                    &&& notice_name(n) == "worker:heartbeat"@
                },
                WorkerNotice::Complete {
                    job_id,
                    attempt_id,
                    video_key,
                    duration,
                    file_size,
                    summary_mismatch,
                } => {
                    &&& f.contains(("jobId"@, JsonView::Text(job_id@)))
                    &&& f.contains(("attemptId"@, JsonView::Text(attempt_id@)))
                    &&& f.contains(("videoKey"@, JsonView::Text(video_key@)))
                    &&& f.contains(("duration"@, JsonView::Unsigned(duration)))
                    &&& f.contains(("fileSize"@, JsonView::Unsigned(file_size)))
                    &&& summary_mismatch is None ==> f.contains(("replayIntegrity"@, JsonView::Null))
                    &&& summary_mismatch matches Some(b) ==> f.contains(
                        (
                            "replayIntegrity"@,
                            JsonView::Record(seq![("has_summary_mismatch"@, JsonView::Bool(b))]),
                        ),
                    )
                    &&& f.len() == 6
                    &&& notice_name(n) == "worker:complete"@
                },
                WorkerNotice::Error { job_id, attempt_id, error } => {
                    &&& f.contains(("jobId"@, JsonView::Text(job_id@)))
                    &&& f.contains(("attemptId"@, JsonView::Text(attempt_id@)))
                    &&& f.contains(("error"@, JsonView::Text(error@)))
                    &&& f.len() == 3
                    &&& notice_name(n) == "worker:error"@
                },
            }
        }),
{
    let f = notice_fields(n);
    assert(f.contains(f[0]) && f.contains(f[1]));
    match n {
        WorkerNotice::Progress { .. } => {
            assert(f.contains(f[2]) && f.contains(f[3]) && f.contains(f[4]));
        },
        WorkerNotice::Heartbeat { .. } => {},
        WorkerNotice::Complete { .. } => {
            assert(f.contains(f[2]) && f.contains(f[3]) && f.contains(f[4]) && f.contains(f[5]));
        },
        WorkerNotice::Error { .. } => {
            assert(f.contains(f[2]));
        },
    }
}

/// Whoever connects tells the machine, its graphics card, its system, the version that is spoken and a token.
pub proof fn identities_tell_the_machine(
    token: Seq<char>,
    machine_name: Seq<char>,
    gpu: Seq<char>,
    os: Seq<char>,
)
    ensures
        identity(token, machine_name, gpu, os) matches JsonView::Record(f) && f.len() == 5 && f.contains(
            ("token"@, JsonView::Text(token)),
        ) && f.contains(("machineName"@, JsonView::Text(machine_name))) && f.contains(
            ("gpu"@, JsonView::Text(gpu)),
        ) && f.contains(("os"@, JsonView::Text(os))) && f.contains(
            ("protocolVersion"@, JsonView::Unsigned(WORKER_PROTOCOL_VERSION as u64)),
        ),
{
    let f = identity(token, machine_name, gpu, os)->Record_0;
    assert(f.contains(f[0]) && f.contains(f[1]) && f.contains(f[2]) && f.contains(f[3]) && f.contains(f[4]));
}

/// A worker that is idle takes the job that is assigned; one that has a job keeps it until that job ends, and
/// the end of another job does not matter.
pub proof fn jobs_begin_and_end(active: Option<Seq<char>>, id: Seq<char>, other: Seq<char>)
    ensures
        job_after_assign(None, id) == Some(id),
        active is Some ==> job_after_assign(active, id) == active,
        job_after_end(Some(id), id) is None,
        active != Some(other) ==> job_after_end(active, other) == active,
{
}

/// A socket that nobody hears from is given up, one that is closed or shut down is left, and one that fails is
/// told.
pub proof fn sockets_end_for_a_reason(awaited: bool, m: String)
    ensures
        action_after(awaited, SocketEvent::Shutdown) == ActionView::Leave(WorkerSocketExit::Shutdown),
        action_after(awaited, SocketEvent::Closed) == ActionView::Leave(WorkerSocketExit::Closed),
        action_after(awaited, SocketEvent::Idle) is GiveUp,
        action_after(awaited, SocketEvent::Failed(m)) == (ActionView::Fail {
            error: ErrorView::WebSocket(m@),
            notify: None,
        }),
        action_after(awaited, SocketEvent::Other) is Wait,
{
}

/// Jobs are assigned and cancelled by the events of these names, and the job that is cancelled is the one that
/// is told.
pub proof fn job_events_are_told_apart(event: Seq<char>, payload: JsonView, id: Seq<char>)
    ensures
        job_event("job:assigned"@) == JobEvent::Assigned,
        job_event("job:cancel"@) == JobEvent::Cancel,
        event != "job:assigned"@ && event != "job:cancel"@ ==> job_event(event) == JobEvent::Other,
        payload.text_field("jobId"@) == Some(id) ==> job_to_cancel(payload) == id,
        payload.text_field("jobId"@) is None ==> job_to_cancel(payload).len() == 0,
{
    reveal_strlit("job:assigned");
    reveal_strlit("job:cancel");
    assert("job:assigned"@.len() != "job:cancel"@.len());
}

/// A job that is done is told with its own identifier, its attempt, the place of its video, how long it took and
/// how large it is.
pub proof fn completions_name_the_video(
    r: WorkerNotice,
    job: JobAssignment,
    duration: u64,
    file_size: u64,
    mismatch: Option<bool>,
)
    requires
        tells_completion(r, job, duration, file_size, mismatch),
    ensures
        notice_name(r) == "worker:complete"@,
        notice_fields(r).contains(("jobId"@, JsonView::Text(job.id@))),
        notice_fields(r).contains(("attemptId"@, JsonView::Text(job.attempt()))),
        notice_fields(r).contains(("videoKey"@, JsonView::Text(job.output_storage_key@))),
        notice_fields(r).contains(("duration"@, JsonView::Unsigned(duration))),
        notice_fields(r).contains(("fileSize"@, JsonView::Unsigned(file_size))),
{
    notices_name_their_job(r);
}

/// A machine connects under its own name, and tells its card unless that is not known.
pub proof fn machines_connect_under_their_name(name: Seq<char>, gpu: Seq<char>)
    ensures
        !text::is_blank(name) ==> connect_name(name) == name,
        text::is_blank(name) ==> connect_name(name) == "Miru Desktop"@,
        text::is_blank(gpu) ==> told_gpu(gpu) == "Unknown"@,
        text::lower_text(text::trimmed(gpu)) == text::lower_text("unknown"@) ==> told_gpu(gpu) == "Unknown"@,
        !text::is_blank(gpu) && text::lower_text(text::trimmed(gpu)) != text::lower_text("unknown"@)
            ==> told_gpu(gpu) == text::trimmed(gpu),
{
}

/// A worker connects again unless it was shut down.
pub proof fn lost_sockets_connect_again(e: AppError)
    ensures
        connects_again(Ok(WorkerSocketExit::Closed)),
        connects_again(Err(e)),
        !connects_again(Ok(WorkerSocketExit::Shutdown)),
{
}

} // verus!
