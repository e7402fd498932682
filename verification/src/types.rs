//! The data that the client keeps, shows and sends.
use crate::json::Json;
use crate::text;
use vstd::prelude::*;

verus! {

pub const DEFAULT_API_URL: &'static str = "https://app.miru.uno/api/v1";

pub const DEFAULT_FRONTEND_URL: &'static str = "https://app.miru.uno";

// ---------------------------------------------------------------------------------------------
// Numbers with a fraction
// ---------------------------------------------------------------------------------------------

/// A binary floating-point number of double precision, by its sixty-four bits.
#[derive(Clone, Copy, PartialEq, Eq, Structural)]
pub struct Double {
    pub bits: u64,
}

impl Double {
    /// No number at all.
    pub open spec fn is_nan(self) -> bool {
        self.bits % 0x8000_0000_0000_0000 > 0x7ff0_0000_0000_0000
    }

    /// A number that is neither infinite nor no number.
    pub open spec fn is_finite(self) -> bool {
        self.bits % 0x8000_0000_0000_0000 < 0x7ff0_0000_0000_0000
    }

    /// The place of the number among all numbers. Both zeros share one place.
    pub open spec fn rank(self) -> int {
        if self.bits < 0x8000_0000_0000_0000 {
            self.bits as int
        } else {
            0x8000_0000_0000_0000 - self.bits
        }
    }

    /// `self <= other`; nothing compares to what is no number.
    pub open spec fn at_most(self, other: Double) -> bool {
        !self.is_nan() && !other.is_nan() && self.rank() <= other.rank()
    }

    /// Whether the number is none.
    pub fn nan(self) -> (r: bool)
        ensures
            r == self.is_nan(),
    {
        self.bits % 0x8000_0000_0000_0000 > 0x7ff0_0000_0000_0000
    }

    /// Whether the number is finite.
    pub fn finite(self) -> (r: bool)
        ensures
            r == self.is_finite(),
    {
        self.bits % 0x8000_0000_0000_0000 < 0x7ff0_0000_0000_0000
    }

    /// `self <= other`; nothing compares to what is no number.
    pub fn le(self, other: Double) -> (r: bool)
        ensures
            r == self.at_most(other),
    {
        if self.nan() || other.nan() {
            return false;
        }
        let a: i128 = if self.bits < 0x8000_0000_0000_0000 {
            self.bits as i128
        } else {
            0x8000_0000_0000_0000 - self.bits as i128
        };
        let b: i128 = if other.bits < 0x8000_0000_0000_0000 {
            other.bits as i128
        } else {
            0x8000_0000_0000_0000 - other.bits as i128
        };
        a <= b
    }

    /// Zero.
    pub open spec fn zero() -> Double {
        Double { bits: 0 }
    }
}

// ---------------------------------------------------------------------------------------------
// Settings
// ---------------------------------------------------------------------------------------------

#[derive(Clone, Copy, PartialEq, Eq, Structural)]
pub struct DiscordConfig {
    pub enabled: bool,
    pub webhook_set: bool,
}

#[derive(Clone, Copy, PartialEq, Eq, Structural)]
pub enum CountRuleOp {
    Eq,
    Gte,
    Lte,
    Between,
}

/// A condition on a number. A rule that is not enabled holds of every number.
#[derive(Clone, Copy, PartialEq, Eq, Structural)]
pub struct CountRule {
    pub enabled: bool,
    pub op: CountRuleOp,
    pub value: Double,
    pub max_value: Option<Double>,
}

impl CountRule {
    /// The rule that asks nothing.
    pub open spec fn idle() -> CountRule {
        CountRule { enabled: false, op: CountRuleOp::Eq, value: Double::zero(), max_value: None }
    }
}

impl Default for CountRule {
    fn default() -> (r: Self)
        ensures
            r == CountRule::idle(),
    {
        CountRule { enabled: false, op: CountRuleOp::Eq, value: Double { bits: 0 }, max_value: None }
    }
}

/// A condition on the number of each kind of hit.
#[derive(Clone, Copy, PartialEq, Eq, Structural)]
pub struct JudgmentRules {
    pub max: CountRule,
    pub n300: CountRule,
    pub n200: CountRule,
    pub n100: CountRule,
    pub n50: CountRule,
    pub miss: CountRule,
}

impl JudgmentRules {
    /// The rules that ask nothing.
    pub open spec fn idle() -> JudgmentRules {
        JudgmentRules {
            max: CountRule::idle(),
            n300: CountRule::idle(),
            n200: CountRule::idle(),
            n100: CountRule::idle(),
            n50: CountRule::idle(),
            miss: CountRule::idle(),
        }
    }
}

impl Default for JudgmentRules {
    fn default() -> (r: Self)
        ensures
            r == JudgmentRules::idle(),
    {
        JudgmentRules {
            max: CountRule::default(),
            n300: CountRule::default(),
            n200: CountRule::default(),
            n100: CountRule::default(),
            n50: CountRule::default(),
            miss: CountRule::default(),
        }
    }
}

#[derive(Clone, Copy, PartialEq, Eq, Structural)]
pub enum AutoRendererSource {
    OsuStable,
}

/// Which replays are rendered on their own, and how.
pub struct AutoRendererConfig {
    pub source: AutoRendererSource,
    pub osu_stable_path_override: String,
    pub selected_preset_id: Option<String>,
    pub selected_skin_id: String,
    pub key_counts: Vec<u8>,
    pub long_note_rule: CountRule,
    pub normal_note_rule: CountRule,
    pub total_note_rule: CountRule,
    pub max_combo_rule: CountRule,
    pub accuracy_rule: CountRule,
    pub pp_rule: CountRule,
    pub bpm_rule: CountRule,
    pub hp_rule: CountRule,
    pub cs_rule: CountRule,
    pub od_rule: CountRule,
    pub duration_rule: CountRule,
    pub judgment_rules: JudgmentRules,
}

/// What [`AutoRendererConfig`] holds.
pub struct AutoRendererView {
    pub source: AutoRendererSource,
    pub osu_stable_path_override: Seq<char>,
    pub selected_preset_id: Option<Seq<char>>,
    pub selected_skin_id: Seq<char>,
    pub key_counts: Seq<u8>,
    pub long_note_rule: CountRule,
    pub normal_note_rule: CountRule,
    pub total_note_rule: CountRule,
    pub max_combo_rule: CountRule,
    pub accuracy_rule: CountRule,
    pub pp_rule: CountRule,
    pub bpm_rule: CountRule,
    pub hp_rule: CountRule,
    pub cs_rule: CountRule,
    pub od_rule: CountRule,
    pub duration_rule: CountRule,
    pub judgment_rules: JudgmentRules,
}

impl View for AutoRendererConfig {
    type V = AutoRendererView;

    open spec fn view(&self) -> AutoRendererView {
        AutoRendererView {
            source: self.source,
            osu_stable_path_override: self.osu_stable_path_override@,
            selected_preset_id: text::opt_text(self.selected_preset_id),
            selected_skin_id: self.selected_skin_id@,
            key_counts: self.key_counts@,
            long_note_rule: self.long_note_rule,
            normal_note_rule: self.normal_note_rule,
            total_note_rule: self.total_note_rule,
            max_combo_rule: self.max_combo_rule,
            accuracy_rule: self.accuracy_rule,
            pp_rule: self.pp_rule,
            bpm_rule: self.bpm_rule,
            hp_rule: self.hp_rule,
            cs_rule: self.cs_rule,
            od_rule: self.od_rule,
            duration_rule: self.duration_rule,
            judgment_rules: self.judgment_rules,
        }
    }
}

impl AutoRendererView {
    /// Every replay, with the default skin and no preset.
    pub open spec fn initial() -> AutoRendererView {
        AutoRendererView {
            source: AutoRendererSource::OsuStable,
            osu_stable_path_override: Seq::empty(),
            selected_preset_id: None,
            selected_skin_id: "default"@,
            key_counts: Seq::empty(),
            long_note_rule: CountRule::idle(),
            normal_note_rule: CountRule::idle(),
            total_note_rule: CountRule::idle(),
            max_combo_rule: CountRule::idle(),
            accuracy_rule: CountRule::idle(),
            pp_rule: CountRule::idle(),
            bpm_rule: CountRule::idle(),
            hp_rule: CountRule::idle(),
            cs_rule: CountRule::idle(),
            od_rule: CountRule::idle(),
            duration_rule: CountRule::idle(),
            judgment_rules: JudgmentRules::idle(),
        }
    }
}

impl Default for AutoRendererConfig {
    fn default() -> (r: Self)
        ensures
            r@ == AutoRendererView::initial(),
    {
        AutoRendererConfig {
            source: AutoRendererSource::OsuStable,
            osu_stable_path_override: String::new(),
            selected_preset_id: None,
            selected_skin_id: "default".to_owned(),
            key_counts: Vec::new(),
            long_note_rule: CountRule::default(),
            normal_note_rule: CountRule::default(),
            total_note_rule: CountRule::default(),
            max_combo_rule: CountRule::default(),
            accuracy_rule: CountRule::default(),
            pp_rule: CountRule::default(),
            bpm_rule: CountRule::default(),
            hp_rule: CountRule::default(),
            cs_rule: CountRule::default(),
            od_rule: CountRule::default(),
            duration_rule: CountRule::default(),
            judgment_rules: JudgmentRules::default(),
        }
    }
}

#[derive(Clone, Copy, PartialEq, Eq, Structural)]
pub enum Resolution {
    P720,
    P1080,
}

impl Resolution {
    /// Width, height and frames per second.
    pub open spec fn size(self) -> (u32, u32, u32) {
        match self {
            Resolution::P720 => (1280, 720, 60),
            Resolution::P1080 => (1920, 1080, 60),
        }
    }

    /// Width, height and frames per second.
    pub fn dimensions(self) -> (r: (u32, u32, u32))
        ensures
            r == self.size(),
    {
        match self {
            Resolution::P720 => (1280, 720, 60),
            Resolution::P1080 => (1920, 1080, 60),
        }
    }
}

/// The settings of the client and what it remembers of its account and its worker.
pub struct AppConfig {
    pub machine_id: String,
    pub user_id: String,
    pub username: String,
    pub user_avatar_url: String,
    pub user_role: String,
    pub user_plan: String,
    pub discord_linked: bool,
    pub api_url: String,
    pub frontend_url: String,
    pub resolution: Resolution,
    pub auto_renderer: AutoRendererConfig,
    pub discord: DiscordConfig,
    pub is_server: bool,
    pub registered_user_id: String,
    pub server_client_id: String,
    pub server_status: String,
    pub server_name: String,
    pub server_gpu: String,
    pub server_auto_reconnect: bool,
    pub show_discord_renderer_role: bool,
    pub show_gpu_in_status_image: bool,
    pub connect_worker_on_launch: bool,
    pub renderer_override_path: String,
    pub autostart: bool,
    pub start_minimized_to_tray: bool,
    pub close_to_tray_on_exit: bool,
    pub imported_legacy_config: bool,
}

/// What [`AppConfig`] holds.
pub struct ConfigView {
    pub machine_id: Seq<char>,
    pub user_id: Seq<char>,
    pub username: Seq<char>,
    pub user_avatar_url: Seq<char>,
    pub user_role: Seq<char>,
    pub user_plan: Seq<char>,
    pub discord_linked: bool,
    pub api_url: Seq<char>,
    pub frontend_url: Seq<char>,
    pub resolution: Resolution,
    pub auto_renderer: AutoRendererView,
    pub discord: DiscordConfig,
    pub is_server: bool,
    pub registered_user_id: Seq<char>,
    pub server_client_id: Seq<char>,
    pub server_status: Seq<char>,
    pub server_name: Seq<char>,
    pub server_gpu: Seq<char>,
    pub server_auto_reconnect: bool,
    pub show_discord_renderer_role: bool,
    pub show_gpu_in_status_image: bool,
    pub connect_worker_on_launch: bool,
    pub renderer_override_path: Seq<char>,
    pub autostart: bool,
    pub start_minimized_to_tray: bool,
    pub close_to_tray_on_exit: bool,
    pub imported_legacy_config: bool,
}

impl View for AppConfig {
    type V = ConfigView;

    open spec fn view(&self) -> ConfigView {
        ConfigView {
            machine_id: self.machine_id@,
            user_id: self.user_id@,
            username: self.username@,
            user_avatar_url: self.user_avatar_url@,
            user_role: self.user_role@,
            user_plan: self.user_plan@,
            discord_linked: self.discord_linked,
            api_url: self.api_url@,
            frontend_url: self.frontend_url@,
            resolution: self.resolution,
            auto_renderer: self.auto_renderer@,
            discord: self.discord,
            is_server: self.is_server,
            registered_user_id: self.registered_user_id@,
            server_client_id: self.server_client_id@,
            server_status: self.server_status@,
            server_name: self.server_name@,
            server_gpu: self.server_gpu@,
            server_auto_reconnect: self.server_auto_reconnect,
            show_discord_renderer_role: self.show_discord_renderer_role,
            show_gpu_in_status_image: self.show_gpu_in_status_image,
            connect_worker_on_launch: self.connect_worker_on_launch,
            renderer_override_path: self.renderer_override_path@,
            autostart: self.autostart,
            start_minimized_to_tray: self.start_minimized_to_tray,
            close_to_tray_on_exit: self.close_to_tray_on_exit,
            imported_legacy_config: self.imported_legacy_config,
        }
    }
}

impl ConfigView {
    /// The settings of a client that was never set up.
    pub open spec fn initial() -> ConfigView {
        ConfigView {
            machine_id: Seq::empty(),
            user_id: Seq::empty(),
            username: Seq::empty(),
            user_avatar_url: Seq::empty(),
            user_role: Seq::empty(),
            user_plan: Seq::empty(),
            discord_linked: false,
            api_url: DEFAULT_API_URL@,
            frontend_url: DEFAULT_FRONTEND_URL@,
            resolution: Resolution::P720,
            auto_renderer: AutoRendererView::initial(),
            discord: DiscordConfig { enabled: false, webhook_set: false },
            is_server: false,
            registered_user_id: Seq::empty(),
            server_client_id: Seq::empty(),
            server_status: Seq::empty(),
            server_name: Seq::empty(),
            server_gpu: Seq::empty(),
            server_auto_reconnect: false,
            show_discord_renderer_role: true,
            show_gpu_in_status_image: true,
            connect_worker_on_launch: true,
            renderer_override_path: Seq::empty(),
            autostart: false,
            start_minimized_to_tray: false,
            close_to_tray_on_exit: true,
            imported_legacy_config: false,
        }
    }
}

impl Default for AppConfig {
    fn default() -> (r: Self)
        ensures
            r@ == ConfigView::initial(),
    {
        AppConfig {
            machine_id: String::new(),
            username: String::new(),
            user_id: String::new(),
            user_avatar_url: String::new(),
            user_role: String::new(),
            user_plan: String::new(),
            discord_linked: false,
            api_url: DEFAULT_API_URL.to_owned(),
            frontend_url: DEFAULT_FRONTEND_URL.to_owned(),
            resolution: Resolution::P720,
            auto_renderer: AutoRendererConfig::default(),
            discord: DiscordConfig { enabled: false, webhook_set: false },
            is_server: false,
            registered_user_id: String::new(),
            server_client_id: String::new(),
            server_status: String::new(),
            server_name: String::new(),
            server_gpu: String::new(),
            server_auto_reconnect: false,
            show_discord_renderer_role: true,
            show_gpu_in_status_image: true,
            connect_worker_on_launch: true,
            renderer_override_path: String::new(),
            autostart: false,
            start_minimized_to_tray: false,
            close_to_tray_on_exit: true,
            imported_legacy_config: false,
        }
    }
}

// ---------------------------------------------------------------------------------------------
// Status
// ---------------------------------------------------------------------------------------------

#[derive(Clone, Copy, PartialEq, Eq, Structural)]
pub enum WatcherStatus {
    Stopped,
    Starting,
    Running,
    Error,
}

#[derive(Clone, Copy, PartialEq, Eq, Structural)]
pub enum WorkerStatus {
    Disconnected,
    Connecting,
    Connected,
    Error,
}

/// What the auto renderer did last.
pub struct AutoRendererEvent {
    pub replay_name: String,
    pub title: String,
    pub detail: String,
    pub status: String,
}

/// One line of the history that the client shows.
pub struct HistoryEntry {
    pub id: String,
    pub timestamp: String,
    pub kind: String,
    pub title: String,
    pub detail: String,
    pub status: String,
    pub url: Option<String>,
}

/// What [`HistoryEntry`] holds.
#[verifier::ext_equal]
pub struct HistoryView {
    pub id: Seq<char>,
    pub timestamp: Seq<char>,
    pub kind: Seq<char>,
    pub title: Seq<char>,
    pub detail: Seq<char>,
    pub status: Seq<char>,
    pub url: Option<Seq<char>>,
}

impl View for HistoryEntry {
    type V = HistoryView;

    open spec fn view(&self) -> HistoryView {
        HistoryView {
            id: self.id@,
            timestamp: self.timestamp@,
            kind: self.kind@,
            title: self.title@,
            detail: self.detail@,
            status: self.status@,
            url: text::opt_text(self.url),
        }
    }
}

// ---------------------------------------------------------------------------------------------
// Scores
// ---------------------------------------------------------------------------------------------

/// How often each judgment was given.
#[derive(Clone, Copy, PartialEq, Eq, Structural)]
pub struct HitData {
    pub n300: i64,
    pub n100: i64,
    pub n50: i64,
    pub geki: i64,
    pub katu: i64,
    pub miss: i64,
}

/// The beatmap that a score was made on.
pub struct BeatmapData {
    pub id: i64,
    pub set_id: i64,
    pub md5: String,
    pub artist: String,
    pub title: String,
    pub diff: String,
}

/// A score as the server takes it.
pub struct ScoreData {
    pub beatmap: BeatmapData,
    pub score: i64,
    pub combo: i64,
    pub max_combo: i64,
    pub accuracy: Double,
    pub hits: HitData,
    pub mods: String,
    pub passed: bool,
}

// ---------------------------------------------------------------------------------------------
// The library of presets and skins
// ---------------------------------------------------------------------------------------------

pub struct AutoRendererLibraryPreset {
    pub id: String,
    pub name: String,
    pub config: Json,
    pub is_default: bool,
    pub updated_at: Option<String>,
}

pub struct AutoRendererLibrarySkin {
    pub id: String,
    pub name: String,
    pub is_default: bool,
    pub size_bytes: Option<u64>,
    pub created_at: Option<String>,
}

pub struct AutoRendererLibrary {
    pub presets: Vec<AutoRendererLibraryPreset>,
    pub skins: Vec<AutoRendererLibrarySkin>,
}

// ---------------------------------------------------------------------------------------------
// The worker
// ---------------------------------------------------------------------------------------------

/// One item that a benchmark may have to fetch.
pub struct DownloadPlanItem {
    pub name: String,
    pub detail: String,
    pub size_bytes: Option<u64>,
    pub will_download: bool,
    pub status: String,
}

/// All that a benchmark has to fetch.
pub struct BenchmarkDownloadPlan {
    pub install_path: String,
    pub release_url: Option<String>,
    pub items: Vec<DownloadPlanItem>,
    pub total_download_bytes: u64,
}

/// How a benchmark is coming along.
pub struct BenchmarkProgress {
    pub phase: String,
    pub percent: Double,
    pub message: String,
}

/// What a benchmark measured, and the limits that it was held to.
pub struct BenchmarkResult {
    pub render_time_ms: u64,
    pub download_mbps: Double,
    pub upload_mbps: Double,
    pub latency_ms: u64,
    pub speed_test_bytes: u64,
    pub benchmark_source: String,
    pub max_render_ms: u64,
    pub min_mbps: Double,
    pub min_upload_mbps: Double,
    pub gpu_name: String,
}

/// How long a worker was active this week, and how long it has to be.
pub struct WorkerComplianceSummary {
    pub active_seconds_this_week: u64,
    pub required_seconds_per_week: u64,
    pub status: String,
    pub grace_ends_at: Option<String>,
    pub window_started_at: Option<String>,
}

/// What the server knows of a worker.
pub struct WorkerStatsPayload {
    pub registered: bool,
    pub status: String,
    pub is_online: bool,
    pub name: String,
    pub client_id: Option<String>,
    pub jobs_completed: u64,
    pub jobs_failed: u64,
    pub total_render_time_seconds: u64,
    pub slots_available: i64,
    pub slots_total: i64,
    pub compliance: Option<WorkerComplianceSummary>,
}

/// One job in the history of a worker.
pub struct WorkerHistoryEntry {
    pub id: String,
    pub status: String,
    pub replay_name: Option<String>,
    pub title: String,
    pub difficulty: Option<String>,
    pub output_size_bytes: Option<u64>,
    pub queued_at: Option<String>,
    pub started_at: Option<String>,
    pub completed_at: Option<String>,
    pub duration_ms: Option<u64>,
    pub error_code: Option<String>,
    pub error_message: Option<String>,
}

// ---------------------------------------------------------------------------------------------
// Input of users
// ---------------------------------------------------------------------------------------------

/// The settings as a user entered them.
pub struct SaveSettingsInput {
    pub api_url: String,
    pub frontend_url: String,
    pub resolution: Resolution,
    pub auto_renderer: AutoRendererConfig,
    pub discord_enabled: bool,
    pub discord_webhook: Option<String>,
    pub server_name: String,
    pub renderer_override_path: String,
    pub autostart: bool,
    pub start_minimized_to_tray: bool,
    pub show_discord_renderer_role: bool,
    pub show_gpu_in_status_image: bool,
    pub connect_worker_on_launch: bool,
    pub close_to_tray_on_exit: bool,
}

/// The name that a user gives to a worker.
pub struct RegisterServerInput {
    pub name: String,
}

/// Numbers are ordered: each one is at most itself, of two of them one is at most the other, and what is at most
/// something that is at most a third is at most the third. What is no number compares to nothing.
pub proof fn numbers_are_ordered(a: Double, b: Double, c: Double)
    ensures
        !a.is_nan() ==> a.at_most(a),
        !a.is_nan() && !b.is_nan() ==> a.at_most(b) || b.at_most(a),
        a.at_most(b) && b.at_most(c) ==> a.at_most(c),
        a.is_nan() ==> !a.at_most(b) && !b.at_most(a),
        a.is_finite() ==> !a.is_nan(),
{
}

/// The bits of numbers above zero are ordered as the numbers are, those of numbers below zero the other way
/// round; a number below zero is at most any other, and both zeros are equal.
pub proof fn bits_are_ordered(a: Double, b: Double)
    requires
        !a.is_nan(),
        !b.is_nan(),
    ensures
        a.bits < 0x8000_0000_0000_0000 && b.bits < 0x8000_0000_0000_0000 ==> (a.at_most(b) <==> a.bits
            <= b.bits),
        a.bits >= 0x8000_0000_0000_0000 && b.bits >= 0x8000_0000_0000_0000 ==> (a.at_most(b) <==> b.bits
            <= a.bits),
        a.bits >= 0x8000_0000_0000_0000 && b.bits < 0x8000_0000_0000_0000 ==> a.at_most(b),
        a.bits < 0x8000_0000_0000_0000 && b.bits >= 0x8000_0000_0000_0000 ==> (a.at_most(b) <==> a.bits == 0
            && b.bits == 0x8000_0000_0000_0000),
{
}

/// A number is no number, or infinite, where its exponent is full.
pub proof fn full_exponents_are_not_finite(a: Double)
    ensures
        a.is_finite() <==> (a.bits / 0x10_0000_0000_0000) % 0x800 != 0x7ff,
        a.is_nan() <==> (a.bits / 0x10_0000_0000_0000) % 0x800 == 0x7ff && a.bits % 0x10_0000_0000_0000 != 0,
{
}

/// A video of a resolution is as wide and as high as its name says, at sixty frames a second.
pub proof fn resolutions_have_sizes()
    ensures
        Resolution::P720.size() == (1280u32, 720u32, 60u32),
        Resolution::P1080.size() == (1920u32, 1080u32, 60u32),
{
}

} // verus!
