//! The benchmark of a worker: what it fetches, what it measures and what it comes to.
use crate::error;
use crate::error::{invalid, AppError, AppResult, ErrorView};
use crate::releases::RendererDownloadInfo;
use crate::scan;
use crate::scan::show;
use crate::server;
use crate::server::benchmark_meets_requirements;
use crate::text;
use crate::text::{blank, cat, cat3, cat5};
use crate::tools;
use crate::tools::{ffmpeg_requirement_message, FfmpegToolInfo, FfmpegToolsSnapshot};
use crate::types::{
    AppConfig, BenchmarkDownloadPlan, BenchmarkProgress, BenchmarkResult, ConfigView,
    DownloadPlanItem, Double, Resolution,
};
use vstd::pervasive::unreached;
use vstd::prelude::*;

verus! {

/// 20 megabits per second, by the bits of a [`Double`].
pub const DEFAULT_MIN_DOWNLOAD_MBPS: u64 = 0x4034_0000_0000_0000;

/// 15 megabits per second, by the bits of a [`Double`].
pub const DEFAULT_MIN_UPLOAD_MBPS: u64 = 0x402e_0000_0000_0000;

pub const DEFAULT_MAX_RENDER_MS: u64 = 30_000;

pub const DEFAULT_REPLAY_SECONDS: u32 = 30;

pub const MAX_BENCHMARK_REPLAY_SECONDS: u32 = 30;

/// The bytes of a speed test that nobody has set.
pub const SPEED_TEST_BYTES: u64 = 33_554_432;

pub const REPLAY_PATH: &'static str = "/api/v1/servers/benchmark/replay";

pub const MAPSET_PATH: &'static str = "/api/v1/servers/benchmark/mapset";

// ---------------------------------------------------------------------------------------------
// What the server asks for
// ---------------------------------------------------------------------------------------------

/// Where a speed test fetches from, and how much.
pub struct BenchmarkDownloadSource {
    pub label: String,
    pub url: String,
    pub bytes: u64,
}

/// What [`BenchmarkDownloadSource`] holds.
#[verifier::ext_equal]
pub struct SourceView {
    pub label: Seq<char>,
    pub url: Seq<char>,
    pub bytes: u64,
}

impl View for BenchmarkDownloadSource {
    type V = SourceView;

    open spec fn view(&self) -> SourceView {
        SourceView { label: self.label@, url: self.url@, bytes: self.bytes }
    }
}

/// What the sources of a list hold.
pub open spec fn sources_view(v: Seq<BenchmarkDownloadSource>) -> Seq<SourceView> {
    Seq::new(v.len(), |i: int| v[i]@)
}

/// What a benchmark measures, and what it has to reach.
pub struct BenchmarkConfigPayload {
    pub min_download_mbps: Double,
    pub min_upload_mbps: Double,
    pub max_render_ms: u64,
    pub upload_bytes: u64,
    pub download_sources: Vec<BenchmarkDownloadSource>,
    pub upload_url: String,
    pub replay_url: Option<String>,
    pub mapset_url: Option<String>,
    pub replay_seconds: Option<u32>,
}

/// What [`BenchmarkConfigPayload`] holds.
#[verifier::ext_equal]
pub struct BenchmarkView {
    pub min_download_mbps: Double,
    pub min_upload_mbps: Double,
    pub max_render_ms: u64,
    pub upload_bytes: u64,
    pub download_sources: Seq<SourceView>,
    pub upload_url: Seq<char>,
    pub replay_url: Option<Seq<char>>,
    pub mapset_url: Option<Seq<char>>,
    pub replay_seconds: Option<u32>,
}

impl View for BenchmarkConfigPayload {
    type V = BenchmarkView;

    open spec fn view(&self) -> BenchmarkView {
        BenchmarkView {
            min_download_mbps: self.min_download_mbps,
            min_upload_mbps: self.min_upload_mbps,
            max_render_ms: self.max_render_ms,
            upload_bytes: self.upload_bytes,
            download_sources: sources_view(self.download_sources@),
            upload_url: self.upload_url@,
            replay_url: text::opt_text(self.replay_url),
            mapset_url: text::opt_text(self.mapset_url),
            replay_seconds: self.replay_seconds,
        }
    }
}

/// An address, or the usual one where it is missing.
pub open spec fn url_or(url: Option<Seq<char>>, usual: Seq<char>) -> Option<Seq<char>> {
    match url {
        Some(u) => if text::is_blank(u) {
            Some(usual)
        } else {
            Some(u)
        },
        None => Some(usual),
    }
}

/// The source of a speed test that nobody has set.
pub open spec fn usual_source() -> SourceView {
    SourceView {
        label: "Miru API"@,
        url: "/servers/benchmark/speed-test?bytes=33554432"@,
        bytes: SPEED_TEST_BYTES,
    }
}

/// What a benchmark measures, with what the server has left out. The speeds to reach are always the
/// same.
pub open spec fn completed(b: BenchmarkView) -> BenchmarkView {
    BenchmarkView {
        min_download_mbps: Double { bits: DEFAULT_MIN_DOWNLOAD_MBPS },
        min_upload_mbps: Double { bits: DEFAULT_MIN_UPLOAD_MBPS },
        max_render_ms: if b.max_render_ms == 0 {
            DEFAULT_MAX_RENDER_MS
        } else {
            b.max_render_ms
        },
        download_sources: if b.download_sources.len() == 0 {
            seq![usual_source()]
        } else {
            b.download_sources
        },
        replay_url: url_or(b.replay_url, REPLAY_PATH@),
        mapset_url: url_or(b.mapset_url, MAPSET_PATH@),
        ..b
    }
}

fn complete_url(url: &Option<String>, usual: &str) -> (r: Option<String>)
    ensures
        text::opt_text(r) == url_or(text::opt_text(*url), usual@),
{
    match url {
        Some(u) => if blank(u.as_str()) {
            Some(usual.to_owned())
        } else {
            Some(u.clone())
        },
        None => Some(usual.to_owned()),
    }
}

/// The speeds that a benchmark has to reach are always the same.
pub fn apply_benchmark_requirement_overrides(payload: &mut BenchmarkConfigPayload)
    ensures
        final(payload)@ == (BenchmarkView {
            min_download_mbps: Double { bits: DEFAULT_MIN_DOWNLOAD_MBPS },
            min_upload_mbps: Double { bits: DEFAULT_MIN_UPLOAD_MBPS },
            ..old(payload)@
        }),
{
    payload.min_download_mbps = Double { bits: DEFAULT_MIN_DOWNLOAD_MBPS };
    payload.min_upload_mbps = Double { bits: DEFAULT_MIN_UPLOAD_MBPS };
}

/// What a benchmark measures, with what the server has left out.
pub fn get_benchmark_config(payload: BenchmarkConfigPayload) -> (r: BenchmarkConfigPayload)
    ensures
        r@ == completed(payload@),
{
    let mut p = payload;
    assert(sources_view(p.download_sources@).len() == p.download_sources@.len());
    if p.download_sources.len() == 0 {
        p.download_sources.push(
            BenchmarkDownloadSource {
                label: "Miru API".to_owned(),
                url: "/servers/benchmark/speed-test?bytes=33554432".to_owned(),
                bytes: SPEED_TEST_BYTES,
            },
        );
        assert(sources_view(p.download_sources@) =~= seq![usual_source()]);
    }
    apply_benchmark_requirement_overrides(&mut p);
    if p.max_render_ms == 0 {
        p.max_render_ms = DEFAULT_MAX_RENDER_MS;
    }
    p.replay_url = complete_url(&p.replay_url, REPLAY_PATH);
    p.mapset_url = complete_url(&p.mapset_url, MAPSET_PATH);
    p
}

/// What a benchmark measures on a server that does not tell: nothing is sent.
pub open spec fn legacy() -> BenchmarkView {
    BenchmarkView {
        min_download_mbps: Double { bits: DEFAULT_MIN_DOWNLOAD_MBPS },
        min_upload_mbps: Double { bits: DEFAULT_MIN_UPLOAD_MBPS },
        max_render_ms: DEFAULT_MAX_RENDER_MS,
        upload_bytes: 0,
        download_sources: seq![
            SourceView {
                label: "Miru API legacy"@,
                url: "/api/v1/servers/benchmark/speed-test?duration=12"@,
                bytes: SPEED_TEST_BYTES,
            },
        ],
        upload_url: Seq::empty(),
        replay_url: Some(REPLAY_PATH@),
        mapset_url: Some(MAPSET_PATH@),
        replay_seconds: Some(DEFAULT_REPLAY_SECONDS),
    }
}

/// What a benchmark measures on a server that does not tell.
pub fn legacy_benchmark_config() -> (r: BenchmarkConfigPayload)
    ensures
        r@ == legacy(),
{
    let mut sources: Vec<BenchmarkDownloadSource> = Vec::new();
    sources.push(
        BenchmarkDownloadSource {
            label: "Miru API legacy".to_owned(),
            url: "/api/v1/servers/benchmark/speed-test?duration=12".to_owned(),
            bytes: SPEED_TEST_BYTES,
        },
    );
    assert(sources_view(sources@) =~= legacy().download_sources);
    BenchmarkConfigPayload {
        min_download_mbps: Double { bits: DEFAULT_MIN_DOWNLOAD_MBPS },
        min_upload_mbps: Double { bits: DEFAULT_MIN_UPLOAD_MBPS },
        max_render_ms: DEFAULT_MAX_RENDER_MS,
        upload_bytes: 0,
        download_sources: sources,
        upload_url: String::new(),
        replay_url: Some(REPLAY_PATH.to_owned()),
        mapset_url: Some(MAPSET_PATH.to_owned()),
        replay_seconds: Some(DEFAULT_REPLAY_SECONDS),
    }
}

/// Completing what a benchmark measures a second time changes nothing.
pub proof fn completing_is_stable(b: BenchmarkView)
    ensures
        completed(completed(b)) == completed(b),
        completed(b).download_sources.len() > 0,
        completed(b).max_render_ms > 0,
{
    reveal_strlit("/api/v1/servers/benchmark/replay");
    reveal_strlit("/api/v1/servers/benchmark/mapset");
    not_blank(REPLAY_PATH@);
    not_blank(MAPSET_PATH@);
    assert(completed(completed(b)) =~= completed(b));
}

/// A text that begins with a stroke is not blank.
proof fn not_blank(s: Seq<char>)
    requires
        s.len() > 0,
        s[0] == '/',
    ensures
        !text::is_blank(s),
{
    assert(text::drop_front(s, text::space()) == s) by {
        reveal_with_fuel(text::drop_front, 2);
    }
    stroke_stays(s);
}

proof fn stroke_stays(s: Seq<char>)
    requires
        s.len() > 0,
        s[0] == '/',
    ensures
        text::drop_back(s, text::space()).len() > 0,
    decreases s.len(),
{
    if s.len() > 1 {
        stroke_stays(s.drop_last());
    }
}

/// The seconds of the replay that are rendered.
pub open spec fn seconds_of(told: Option<u32>) -> u32 {
    match told {
        Some(n) => if n < 1 {
            1
        } else if n > MAX_BENCHMARK_REPLAY_SECONDS {
            MAX_BENCHMARK_REPLAY_SECONDS
        } else {
            n
        },
        None => DEFAULT_REPLAY_SECONDS,
    }
}

/// The seconds of the replay that are rendered, between one and the most.
pub fn replay_seconds(config: &BenchmarkConfigPayload) -> (r: u32)
    ensures
        1 <= r <= MAX_BENCHMARK_REPLAY_SECONDS,
        r == seconds_of(config.replay_seconds),
{
    match config.replay_seconds {
        Some(n) => if n < 1 {
            1
        } else if n > MAX_BENCHMARK_REPLAY_SECONDS {
            MAX_BENCHMARK_REPLAY_SECONDS
        } else {
            n
        },
        None => DEFAULT_REPLAY_SECONDS,
    }
}

// ---------------------------------------------------------------------------------------------
// How large a file is
// ---------------------------------------------------------------------------------------------

/// A request by which the size of a file is asked for.
#[derive(Clone, Copy, PartialEq, Eq, Structural)]
pub enum Probe {
    /// Its head alone.
    Head,
    /// Its first byte.
    FirstByte,
    /// The whole of it.
    Whole,
}

/// What follows the response to such a request.
#[derive(Clone, Copy, PartialEq, Eq, Structural)]
pub enum ProbeNext {
    Ask(Probe),
    /// Read the size that the response tells.
    ReadSize,
    /// The size, where it is known.
    Size(Option<u64>),
}

/// What follows the response to a request for a size, given its status and the whole size that it tells
/// about a part.
pub fn benchmark_content_length(probe: Probe, status: u16, range_total: Option<u64>) -> (r: ProbeNext)
    ensures
        r == match probe {
            Probe::Head => if status == 405 || status == 404 {
                ProbeNext::Ask(Probe::FirstByte)
            } else {
                ProbeNext::ReadSize
            },
            Probe::FirstByte => if status == 416 {
                ProbeNext::Size(range_total)
            } else {
                ProbeNext::ReadSize
            },
            Probe::Whole => ProbeNext::ReadSize,
        },
{
    match probe {
        Probe::Head => if status == 405 || status == 404 {
            ProbeNext::Ask(Probe::FirstByte)
        } else {
            ProbeNext::ReadSize
        },
        Probe::FirstByte => if status == 416 {
            ProbeNext::Size(range_total)
        } else {
            ProbeNext::ReadSize
        },
        Probe::Whole => ProbeNext::ReadSize,
    }
}

/// What follows once the size that a response tells was read: without one the next request is made.
pub fn after_size(probe: Probe, size: Option<u64>) -> (r: ProbeNext)
    ensures
        r == if size is Some || probe == Probe::Whole {
            ProbeNext::Size(size)
        } else if probe == Probe::Head {
            ProbeNext::Ask(Probe::FirstByte)
        } else {
            ProbeNext::Ask(Probe::Whole)
        },
{
    if size.is_some() {
        return ProbeNext::Size(size);
    }
    match probe {
        Probe::Head => ProbeNext::Ask(Probe::FirstByte),
        Probe::FirstByte => ProbeNext::Ask(Probe::Whole),
        Probe::Whole => ProbeNext::Size(None),
    }
}

// ---------------------------------------------------------------------------------------------
// What is fetched
// ---------------------------------------------------------------------------------------------

/// What an item of a plan holds.
#[verifier::ext_equal]
pub struct ItemView {
    pub name: Seq<char>,
    pub detail: Seq<char>,
    pub size_bytes: Option<u64>,
    pub will_download: bool,
    pub status: Seq<char>,
}

impl View for DownloadPlanItem {
    type V = ItemView;

    open spec fn view(&self) -> ItemView {
        ItemView {
            name: self.name@,
            detail: self.detail@,
            size_bytes: self.size_bytes,
            will_download: self.will_download,
            status: self.status@,
        }
    }
}

/// What the items of a list hold.
pub open spec fn items_view(v: Seq<DownloadPlanItem>) -> Seq<ItemView> {
    Seq::new(v.len(), |i: int| v[i]@)
}

/// An item of a plan.
pub open spec fn item(
    name: Seq<char>,
    detail: Seq<char>,
    size_bytes: Option<u64>,
    will_download: bool,
) -> ItemView {
    ItemView {
        name,
        detail,
        size_bytes,
        will_download,
        status: if will_download {
            "download"@
        } else {
            "local"@
        },
    }
}

/// What is said of the renderer.
pub open spec fn renderer_detail(r: RendererDownloadInfo) -> Seq<char> {
    if r.already_available {
        "Already available at "@ + r.install_path@
    } else {
        "Version "@ + r.version@ + " from GitHub Releases to "@ + r.install_path@
    }
}

/// A size that may be missing, as a number.
pub open spec fn size_or_zero(o: Option<u64>) -> nat {
    match o {
        Some(n) => n as nat,
        None => 0,
    }
}

/// The size of the tools: as they are where both are there, otherwise that of what is fetched.
pub open spec fn tools_size(
    ffmpeg: FfmpegToolInfo,
    ffprobe: FfmpegToolInfo,
    download: Option<u64>,
) -> Option<u64> {
    if ffmpeg.available && ffprobe.available {
        let total = size_or_zero(ffmpeg.size_bytes) + size_or_zero(ffprobe.size_bytes);
        if total > 0 {
            Some(total as u64)
        } else {
            None
        }
    } else {
        download
    }
}

/// The items of the plan.
pub open spec fn plan_items(
    renderer: RendererDownloadInfo,
    snapshot: FfmpegToolsSnapshot,
    ffmpeg: FfmpegToolInfo,
    ffprobe: FfmpegToolInfo,
    tools_download: Option<u64>,
    replay_size: Option<u64>,
    mapset_size: Option<u64>,
) -> Seq<ItemView> {
    seq![
        item(
            "Miru renderer"@,
            renderer_detail(renderer),
            Some(renderer.size_bytes),
            !renderer.already_available,
        ),
        item(
            "FFmpeg / FFprobe"@,
            tools::requirement(snapshot, ffmpeg.available, ffprobe.available),
            tools_size(ffmpeg, ffprobe, tools_download),
            !(ffmpeg.available && ffprobe.available),
        ),
        item(
            "Benchmark replay"@,
            "Temporary .osr replay used only for the benchmark"@,
            replay_size,
            true,
        ),
        item(
            "Benchmark mapset"@,
            "Temporary .osz mapset used only for the benchmark render"@,
            mapset_size,
            true,
        ),
    ]
}

/// The bytes that are fetched: those of the items that are not there, as far as they are known.
pub open spec fn fetched(items: Seq<ItemView>) -> nat
    decreases items.len(),
{
    if items.len() == 0 {
        0
    } else {
        fetched(items.drop_last()) + if items.last().will_download {
            size_or_zero(items.last().size_bytes)
        } else {
            0
        }
    }
}

fn plan_item(name: &str, detail: String, size_bytes: Option<u64>, will_download: bool) -> (r:
    DownloadPlanItem)
    ensures
        r@ == item(name@, detail@, size_bytes, will_download),
{
    DownloadPlanItem {
        name: name.to_owned(),
        detail,
        size_bytes,
        will_download,
        status: if will_download {
            "download".to_owned()
        } else {
            "local".to_owned()
        },
    }
}

fn known_size(
    ffmpeg: &FfmpegToolInfo,
    ffprobe: &FfmpegToolInfo,
    download: Option<u64>,
) -> (r: Option<u64>)
    requires
        size_or_zero(ffmpeg.size_bytes) + size_or_zero(ffprobe.size_bytes) <= u64::MAX,
    ensures
        r == tools_size(*ffmpeg, *ffprobe, download),
{
    if !(ffmpeg.available && ffprobe.available) {
        return download;
    }
    let a: u64 = match ffmpeg.size_bytes {
        Some(n) => n,
        None => 0,
    };
    let b: u64 = match ffprobe.size_bytes {
        Some(n) => n,
        None => 0,
    };
    if a + b > 0 {
        Some(a + b)
    } else {
        None
    }
}

/// The bytes of the items of a plan that are fetched.
fn total_of(items: &Vec<DownloadPlanItem>) -> (r: u64)
    requires
        fetched(items_view(items@)) <= u64::MAX,
    ensures
        r == fetched(items_view(items@)),
{
    let ghost all = items_view(items@);
    let mut total: u64 = 0;
    let mut i: usize = 0;
    assert(all.take(0) =~= Seq::empty());
    while i < items.len()
        invariant
            i <= items@.len(),
            all == items_view(items@),
            fetched(all) <= u64::MAX,
            total == fetched(all.take(i as int)),
        decreases items@.len() - i,
    {
        proof {
            assert(all.take(i + 1).drop_last() =~= all.take(i as int));
            assert(all.take(i + 1).last() == items@[i as int]@);
            fetched_grows(all, i + 1);
        }
        if items[i].will_download {
            if let Some(n) = items[i].size_bytes {
                total = total + n;
            }
        }
        i = i + 1;
    }
    assert(all.take(items@.len() as int) =~= all);
    total
}

proof fn fetched_grows(items: Seq<ItemView>, k: int)
    requires
        0 <= k <= items.len(),
    ensures
        fetched(items.take(k)) <= fetched(items),
    decreases items.len() - k,
{
    if k < items.len() {
        assert(items.take(k + 1).drop_last() =~= items.take(k));
        fetched_grows(items, k + 1);
    } else {
        assert(items.take(k) =~= items);
    }
}

/// All that a benchmark has to fetch, given the sizes that were found.
pub fn get_benchmark_download_plan(
    renderer: &RendererDownloadInfo,
    snapshot: &FfmpegToolsSnapshot,
    ffmpeg: &FfmpegToolInfo,
    ffprobe: &FfmpegToolInfo,
    tools_download: Option<u64>,
    replay_size: Option<u64>,
    mapset_size: Option<u64>,
) -> (r: BenchmarkDownloadPlan)
    requires
        size_or_zero(ffmpeg.size_bytes) + size_or_zero(ffprobe.size_bytes) <= u64::MAX,
        fetched(
            plan_items(
                *renderer,
                *snapshot,
                *ffmpeg,
                *ffprobe,
                tools_download,
                replay_size,
                mapset_size,
            ),
        ) <= u64::MAX,
    ensures
        r.install_path@ == renderer.install_path@,
        text::opt_text(r.release_url) == if text::is_blank(renderer.release_url@) {
            None
        } else {
            Some(renderer.release_url@)
        },
        items_view(r.items@) == plan_items(
            *renderer,
            *snapshot,
            *ffmpeg,
            *ffprobe,
            tools_download,
            replay_size,
            mapset_size,
        ),
        r.total_download_bytes == fetched(items_view(r.items@)),
{
    let detail = if renderer.already_available {
        cat("Already available at ", renderer.install_path.as_str())
    } else {
        let mut s = cat3("Version ", renderer.version.as_str(), " from GitHub Releases to ");
        s.append(renderer.install_path.as_str());
        s
    };
    let mut items: Vec<DownloadPlanItem> = Vec::new();
    items.push(
        plan_item(
            "Miru renderer",
            detail,
            Some(renderer.size_bytes),
            !renderer.already_available,
        ),
    );
    items.push(
        plan_item(
            "FFmpeg / FFprobe",
            ffmpeg_requirement_message(snapshot, ffmpeg.available, ffprobe.available),
            known_size(ffmpeg, ffprobe, tools_download),
            !(ffmpeg.available && ffprobe.available),
        ),
    );
    items.push(
        plan_item(
            "Benchmark replay",
            "Temporary .osr replay used only for the benchmark".to_owned(),
            replay_size,
            true,
        ),
    );
    items.push(
        plan_item(
            "Benchmark mapset",
            "Temporary .osz mapset used only for the benchmark render".to_owned(),
            mapset_size,
            true,
        ),
    );
    assert(items_view(items@) =~= plan_items(
        *renderer,
        *snapshot,
        *ffmpeg,
        *ffprobe,
        tools_download,
        replay_size,
        mapset_size,
    ));
    let total: u64 = total_of(&items);
    let release_url = if blank(renderer.release_url.as_str()) {
        None
    } else {
        Some(renderer.release_url.clone())
    };
    BenchmarkDownloadPlan {
        install_path: renderer.install_path.clone(),
        release_url,
        items,
        total_download_bytes: total,
    }
}

/// Nothing that is there is counted: with the renderer and the tools at hand only the replay and the
/// mapset are fetched.
pub proof fn local_tools_are_not_fetched(
    renderer: RendererDownloadInfo,
    snapshot: FfmpegToolsSnapshot,
    ffmpeg: FfmpegToolInfo,
    ffprobe: FfmpegToolInfo,
    tools_download: Option<u64>,
    replay_size: Option<u64>,
    mapset_size: Option<u64>,
)
    requires
        renderer.already_available,
        ffmpeg.available,
        ffprobe.available,
    ensures
        fetched(
            plan_items(
                renderer,
                snapshot,
                ffmpeg,
                ffprobe,
                tools_download,
                replay_size,
                mapset_size,
            ),
        ) == size_or_zero(replay_size) + size_or_zero(mapset_size),
{
    reveal_with_fuel(fetched, 5);
}

/// The addresses of the replay and the mapset of a benchmark.
pub fn download_benchmark_assets(config: &BenchmarkConfigPayload) -> (r: AppResult<(String, String)>)
    ensures
        match text::opt_text(config.mapset_url) {
            Some(m) => if text::is_blank(m) {
                r is Err
            } else {
                r is Ok && r->Ok_0.1@ == m && r->Ok_0.0@ == match config.replay_url {
                    Some(u) => u@,
                    None => REPLAY_PATH@,
                }
            },
            None => r is Err,
        },
        r matches Err(e) ==> e@ == ErrorView::InvalidInput("benchmark mapset URL is missing"@),
{
    let replay = match &config.replay_url {
        Some(u) => u.clone(),
        None => REPLAY_PATH.to_owned(),
    };
    if let Some(m) = &config.mapset_url {
        if !blank(m.as_str()) {
            return Ok((replay, m.clone()));
        }
    }
    Err(invalid("benchmark mapset URL is missing"))
}

// ---------------------------------------------------------------------------------------------
// The speed
// ---------------------------------------------------------------------------------------------

/// The milliseconds after which a speed test ends.
pub const SPEED_TEST_MS: u64 = 20_000;

/// The first source of a benchmark.
pub fn first_source(config: &BenchmarkConfigPayload) -> (r: AppResult<&BenchmarkDownloadSource>)
    ensures
        match r {
            Ok(s) => config@.download_sources.len() > 0 && s@ == config@.download_sources[0],
            Err(e) => config@.download_sources.len() == 0 && e@ == ErrorView::InvalidInput(
                "benchmark missing download source"@,
            ),
        },
{
    assert(config@.download_sources.len() == config.download_sources@.len());
    if config.download_sources.len() == 0 {
        return Err(invalid("benchmark missing download source"));
    }
    Ok(&config.download_sources[0])
}

/// A speed test that is running: the bytes so far, and when the first of them came.
#[derive(Clone, Copy, PartialEq, Eq, Structural)]
pub struct SpeedTest {
    pub bytes: u64,
    pub first_byte_ms: Option<u64>,
}

impl SpeedTest {
    pub fn new() -> (r: Self)
        ensures
            r.bytes == 0,
            r.first_byte_ms is None,
    {
        SpeedTest { bytes: 0, first_byte_ms: None }
    }

    /// Takes some bytes that came after some time. The test ends once enough of them have come, or
    /// enough time has passed.
    pub fn measure_speed(&mut self, len: u64, elapsed_ms: u64, target: u64) -> (done: bool)
        requires
            old(self).bytes + len <= u64::MAX,
        ensures
            final(self).bytes == old(self).bytes + len,
            final(self).first_byte_ms == match old(self).first_byte_ms {
                Some(ms) => Some(ms),
                None => Some(elapsed_ms),
            },
            done == (final(self).bytes >= target || elapsed_ms >= SPEED_TEST_MS),
    {
        if self.first_byte_ms.is_none() {
            self.first_byte_ms = Some(elapsed_ms);
        }
        self.bytes = self.bytes + len;
        self.bytes >= target || elapsed_ms >= SPEED_TEST_MS
    }

    /// The milliseconds before the first byte, or all of them where none came.
    pub fn latency(self, elapsed_ms: u64) -> (r: u64)
        ensures
            r == match self.first_byte_ms {
                Some(ms) => ms,
                None => elapsed_ms,
            },
    {
        match self.first_byte_ms {
            Some(ms) => ms,
            None => elapsed_ms,
        }
    }
}

/// How many bytes are uploaded to measure the speed, if any are.
pub open spec fn bytes_to_upload(has_address: bool, told: u64) -> Option<u64> {
    if !has_address || told == 0 {
        None
    } else if told < 1_048_576 {
        Some(1_048_576u64)
    } else if told > 134_217_728 {
        Some(134_217_728u64)
    } else {
        Some(told)
    }
}

/// The bytes that are sent to measure the speed: between one and a hundred and twenty-eight mebibytes,
/// or none where the server does not take any.
pub fn measure_upload_speed(config: &BenchmarkConfigPayload) -> (r: Option<u64>)
    ensures
        r == bytes_to_upload(!text::is_blank(config.upload_url@), config.upload_bytes),
        r == if text::is_blank(config.upload_url@) || config.upload_bytes == 0 {
            None
        } else if config.upload_bytes < 1_048_576 {
            Some(1_048_576u64)
        } else if config.upload_bytes > 134_217_728 {
            Some(134_217_728u64)
        } else {
            Some(config.upload_bytes)
        },
{
    if blank(config.upload_url.as_str()) || config.upload_bytes == 0 {
        return None;
    }
    if config.upload_bytes < 1_048_576 {
        Some(1_048_576)
    } else if config.upload_bytes > 134_217_728 {
        Some(134_217_728)
    } else {
        Some(config.upload_bytes)
    }
}

// ---------------------------------------------------------------------------------------------
// The render
// ---------------------------------------------------------------------------------------------

/// The arguments of the renderer.
pub open spec fn render_words(
    replay: Seq<char>,
    mapset: Seq<char>,
    output: Seq<char>,
    songs: Seq<char>,
    resolution: Resolution,
    seconds: u32,
) -> Seq<Seq<char>> {
    seq![
        "--replay"@,
        replay,
        "--mapset"@,
        mapset,
        "--out"@,
        output,
        "--width"@,
        scan::decimal(resolution.size().0 as nat),
        "--height"@,
        scan::decimal(resolution.size().1 as nat),
        "--fps"@,
        scan::decimal(resolution.size().2 as nat),
        "--songs-dir"@,
        songs,
        "--end"@,
        scan::decimal(seconds as nat),
    ]
}

/// The arguments of the renderer.
pub fn render_benchmark(
    replay: &str,
    mapset: &str,
    output: &str,
    songs: &str,
    resolution: Resolution,
    seconds: u32,
) -> (r: Vec<String>)
    ensures
        text::texts(r@) == render_words(replay@, mapset@, output@, songs@, resolution, seconds),
{
    let (width, height, fps) = resolution.dimensions();
    let mut args: Vec<String> = Vec::new();
    args.push("--replay".to_owned());
    args.push(replay.to_owned());
    args.push("--mapset".to_owned());
    args.push(mapset.to_owned());
    args.push("--out".to_owned());
    args.push(output.to_owned());
    args.push("--width".to_owned());
    args.push(show(width as u64));
    args.push("--height".to_owned());
    args.push(show(height as u64));
    args.push("--fps".to_owned());
    args.push(show(fps as u64));
    args.push("--songs-dir".to_owned());
    args.push(songs.to_owned());
    args.push("--end".to_owned());
    args.push(show(seconds as u64));
    assert(text::texts(args@) =~= render_words(
        replay@,
        mapset@,
        output@,
        songs@,
        resolution,
        seconds,
    ));
    args
}

// ---------------------------------------------------------------------------------------------
// The tools
// ---------------------------------------------------------------------------------------------

/// Whether the tools have to be fetched: one of them is missing.
pub fn tools_wanted(ffmpeg: &FfmpegToolInfo, ffprobe: &FfmpegToolInfo) -> (r: bool)
    ensures
        r == !(ffmpeg.available && ffprobe.available),
{
    !(ffmpeg.available && ffprobe.available)
}

/// The outcome of fetching the tools: both of them have to be there.
pub fn ensure_ffmpeg_tools_available(
    snapshot: &FfmpegToolsSnapshot,
    ffmpeg: &FfmpegToolInfo,
    ffprobe: &FfmpegToolInfo,
) -> (r: AppResult<()>)
    ensures
        error::plain(r) == if ffmpeg.available && ffprobe.available {
            Ok(())
        } else {
            Err(
                ErrorView::Process(
                    tools::requirement(*snapshot, ffmpeg.available, ffprobe.available),
                ),
            )
        },
{
    if ffmpeg.available && ffprobe.available {
        Ok(())
    } else {
        Err(
            AppError::Process(
                ffmpeg_requirement_message(snapshot, ffmpeg.available, ffprobe.available),
            ),
        )
    }
}

// ---------------------------------------------------------------------------------------------
// The whole of it
// ---------------------------------------------------------------------------------------------

/// What a speed test has measured. The two speeds are also there as they are shown, with one place
/// behind the point.
pub struct SpeedMeasurement {
    pub download_mbps: Double,
    pub upload_mbps: Double,
    pub latency_ms: u64,
    pub bytes: u64,
    pub source: String,
    pub download_text: String,
    pub upload_text: String,
}

/// What comes back from a step of a benchmark.
pub enum BenchmarkEvent {
    /// Whether somebody is logged in.
    Session(AppResult<bool>),
    /// The places that are free.
    Slots(AppResult<i64>),
    /// Whether the tools are there.
    Tools(AppResult<()>),
    Config(AppResult<BenchmarkConfigPayload>),
    Speed(AppResult<SpeedMeasurement>),
    /// Whether the renderer is there.
    Renderer(AppResult<()>),
    /// Whether the replay and the mapset are there.
    Assets(AppResult<()>),
    /// The milliseconds of the render, and the name of the graphics card.
    Rendered(AppResult<(u64, String)>),
}

/// What a benchmark has come to.
pub struct BenchmarkOutcome {
    pub result: BenchmarkResult,
    pub eligible: bool,
    /// The title, the detail and the status of the entry in the history.
    pub title: String,
    pub detail: String,
    pub status: String,
}

/// What is to be done for a benchmark.
pub enum BenchmarkAction {
    CountSlots,
    PrepareTools,
    FetchConfig,
    MeasureSpeed,
    FetchRenderer,
    FetchAssets,
    /// Render so many seconds of the replay.
    Render(u32),
    Finish(BenchmarkOutcome),
    Fail(AppError),
}

/// How far a benchmark has come: what is awaited of it.
#[derive(Clone, Copy, PartialEq, Eq, Structural)]
pub enum BenchmarkStage {
    Session,
    Slots,
    Tools,
    Config,
    Speed,
    Renderer,
    Assets,
    Render,
    Over,
}

/// A benchmark that is running: what it measures, and what it has measured.
pub struct BenchmarkRun {
    pub stage: BenchmarkStage,
    pub config: Option<BenchmarkConfigPayload>,
    pub speed: Option<SpeedMeasurement>,
}

/// The number of a stage in the order of the stages.
pub open spec fn place(stage: BenchmarkStage) -> int {
    match stage {
        BenchmarkStage::Session => 0,
        BenchmarkStage::Slots => 1,
        BenchmarkStage::Tools => 2,
        BenchmarkStage::Config => 3,
        BenchmarkStage::Speed => 4,
        BenchmarkStage::Renderer => 5,
        BenchmarkStage::Assets => 6,
        BenchmarkStage::Render => 7,
        BenchmarkStage::Over => 8,
    }
}

/// The stage after one that went well.
pub open spec fn next_stage(stage: BenchmarkStage) -> BenchmarkStage {
    match stage {
        BenchmarkStage::Session => BenchmarkStage::Slots,
        BenchmarkStage::Slots => BenchmarkStage::Tools,
        BenchmarkStage::Tools => BenchmarkStage::Config,
        BenchmarkStage::Config => BenchmarkStage::Speed,
        BenchmarkStage::Speed => BenchmarkStage::Renderer,
        BenchmarkStage::Renderer => BenchmarkStage::Assets,
        BenchmarkStage::Assets => BenchmarkStage::Render,
        BenchmarkStage::Render => BenchmarkStage::Over,
        BenchmarkStage::Over => BenchmarkStage::Over,
    }
}

impl BenchmarkEvent {
    /// The stage that awaits an event.
    pub open spec fn stage(self) -> BenchmarkStage {
        match self {
            BenchmarkEvent::Session(_) => BenchmarkStage::Session,
            BenchmarkEvent::Slots(_) => BenchmarkStage::Slots,
            BenchmarkEvent::Tools(_) => BenchmarkStage::Tools,
            BenchmarkEvent::Config(_) => BenchmarkStage::Config,
            BenchmarkEvent::Speed(_) => BenchmarkStage::Speed,
            BenchmarkEvent::Renderer(_) => BenchmarkStage::Renderer,
            BenchmarkEvent::Assets(_) => BenchmarkStage::Assets,
            BenchmarkEvent::Rendered(_) => BenchmarkStage::Render,
        }
    }

    /// What is wrong, if something is: the step has failed, nobody is logged in or no place is free.
    pub open spec fn problem(self) -> Option<ErrorView> {
        match self {
            BenchmarkEvent::Session(Ok(there)) => if there {
                None
            } else {
                Some(ErrorView::Auth("login required to run benchmark"@))
            },
            BenchmarkEvent::Session(Err(e)) => Some(e@),
            BenchmarkEvent::Slots(Ok(n)) => if n <= 0 {
                Some(ErrorView::Process("No public renderer slots are available right now"@))
            } else {
                None
            },
            BenchmarkEvent::Slots(Err(e)) => Some(e@),
            BenchmarkEvent::Tools(Err(e)) => Some(e@),
            BenchmarkEvent::Config(Err(e)) => Some(e@),
            BenchmarkEvent::Speed(Err(e)) => Some(e@),
            BenchmarkEvent::Renderer(Err(e)) => Some(e@),
            BenchmarkEvent::Assets(Err(e)) => Some(e@),
            BenchmarkEvent::Rendered(Err(e)) => Some(e@),
            _ => None,
        }
    }
}

/// A benchmark has come to this: the measurements, held against what the server asks for.
pub open spec fn comes_to(
    out: BenchmarkOutcome,
    config: BenchmarkConfigPayload,
    speed: SpeedMeasurement,
    render_ms: u64,
    gpu: Seq<char>,
) -> bool {
    let b = out.result;
    &&& b.render_time_ms == render_ms
    &&& b.download_mbps == speed.download_mbps
    &&& b.upload_mbps == speed.upload_mbps
    &&& b.latency_ms == speed.latency_ms
    &&& b.speed_test_bytes == speed.bytes
    &&& b.benchmark_source@ == speed.source@
    &&& b.max_render_ms == config.max_render_ms
    &&& b.min_mbps == config.min_download_mbps
    &&& b.min_upload_mbps == config.min_upload_mbps
    &&& b.gpu_name@ == gpu
    &&& out.eligible == server::good_enough(b)
    &&& out.title@ == if out.eligible {
        "Benchmark passed"@
    } else {
        "Benchmark completed but not eligible"@
    }
    &&& out.detail@ == scan::decimal(render_ms as nat) + "ms | "@ + speed.download_text@ + "/"@
        + speed.upload_text@ + " Mbps | "@ + gpu
    &&& out.status@ == if out.eligible {
        "passed"@
    } else {
        "failed"@
    }
}

fn finish_benchmark(
    config: &BenchmarkConfigPayload,
    speed: SpeedMeasurement,
    render_ms: u64,
    gpu: String,
) -> (r: BenchmarkOutcome)
    ensures
        comes_to(r, *config, speed, render_ms, gpu@),
{
    let mut detail = cat5(
        show(render_ms).as_str(),
        "ms | ",
        speed.download_text.as_str(),
        "/",
        speed.upload_text.as_str(),
    );
    detail.append(" Mbps | ");
    detail.append(gpu.as_str());
    let result = BenchmarkResult {
        render_time_ms: render_ms,
        download_mbps: speed.download_mbps,
        upload_mbps: speed.upload_mbps,
        latency_ms: speed.latency_ms,
        speed_test_bytes: speed.bytes,
        benchmark_source: speed.source,
        max_render_ms: config.max_render_ms,
        min_mbps: config.min_download_mbps,
        min_upload_mbps: config.min_upload_mbps,
        gpu_name: gpu,
    };
    let eligible = benchmark_meets_requirements(&result);
    let title = if eligible {
        "Benchmark passed".to_owned()
    } else {
        "Benchmark completed but not eligible".to_owned()
    };
    let status = if eligible {
        "passed".to_owned()
    } else {
        "failed".to_owned()
    };
    BenchmarkOutcome { result, eligible, title, detail, status }
}

impl BenchmarkRun {
    /// What is measured is known from the stage of the speed on, and the speed from that of the
    /// renderer on.
    pub open spec fn wf(self) -> bool {
        &&& place(BenchmarkStage::Speed) <= place(self.stage) < place(BenchmarkStage::Over)
            ==> self.config is Some
        &&& place(BenchmarkStage::Renderer) <= place(self.stage) < place(BenchmarkStage::Over)
            ==> self.speed is Some
    }

    pub fn new() -> (r: Self)
        ensures
            r.wf(),
            r.stage == BenchmarkStage::Session,
            r.config is None,
            r.speed is None,
    {
        BenchmarkRun { stage: BenchmarkStage::Session, config: None, speed: None }
    }

    /// Takes what came back from the last step and says what is to be done next. The steps follow one
    /// another, and the first that fails ends the benchmark.
    pub fn run_benchmark(&mut self, event: BenchmarkEvent) -> (r: BenchmarkAction)
        requires
            old(self).wf(),
            event.stage() == old(self).stage,
        ensures
            final(self).wf(),
            match event.problem() {
                Some(e) => {
                    &&& final(self).stage == BenchmarkStage::Over
                    &&& r matches BenchmarkAction::Fail(f) && f@ == e
                },
                None => {
                    &&& final(self).stage == next_stage(old(self).stage)
                    &&& match event {
                        BenchmarkEvent::Session(_) => r is CountSlots,
                        BenchmarkEvent::Slots(_) => r is PrepareTools,
                        BenchmarkEvent::Tools(_) => r is FetchConfig,
                        BenchmarkEvent::Config(c) => r is MeasureSpeed && final(self).config == Some(
                            c->Ok_0,
                        ),
                        BenchmarkEvent::Speed(s) => r is FetchRenderer && final(self).config
                            == old(self).config && final(self).speed == Some(s->Ok_0),
                        BenchmarkEvent::Renderer(_) => r is FetchAssets && final(self).config
                            == old(self).config && final(self).speed == old(self).speed,
                        BenchmarkEvent::Assets(_) => {
                            &&& final(self).config == old(self).config
                            &&& final(self).speed == old(self).speed
                            &&& r matches BenchmarkAction::Render(n) && n == seconds_of(
                                old(self).config->0.replay_seconds,
                            )
                        },
                        BenchmarkEvent::Rendered(v) => r matches BenchmarkAction::Finish(out)
                            && comes_to(
                            out,
                            old(self).config->0,
                            old(self).speed->0,
                            v->Ok_0.0,
                            v->Ok_0.1@,
                        ),
                    }
                },
            },
    {
        match event {
            BenchmarkEvent::Session(Ok(there)) => {
                if !there {
                    return self.fail(AppError::Auth("login required to run benchmark".to_owned()));
                }
                self.stage = BenchmarkStage::Slots;
                BenchmarkAction::CountSlots
            },
            BenchmarkEvent::Slots(Ok(n)) => {
                if n <= 0 {
                    return self.fail(
                        AppError::Process(
                            "No public renderer slots are available right now".to_owned(),
                        ),
                    );
                }
                self.stage = BenchmarkStage::Tools;
                BenchmarkAction::PrepareTools
            },
            BenchmarkEvent::Tools(Ok(_)) => {
                self.stage = BenchmarkStage::Config;
                BenchmarkAction::FetchConfig
            },
            BenchmarkEvent::Config(Ok(c)) => {
                self.config = Some(c);
                self.stage = BenchmarkStage::Speed;
                BenchmarkAction::MeasureSpeed
            },
            BenchmarkEvent::Speed(Ok(s)) => {
                self.speed = Some(s);
                self.stage = BenchmarkStage::Renderer;
                BenchmarkAction::FetchRenderer
            },
            BenchmarkEvent::Renderer(Ok(_)) => {
                self.stage = BenchmarkStage::Assets;
                BenchmarkAction::FetchAssets
            },
            BenchmarkEvent::Assets(Ok(_)) => {
                self.stage = BenchmarkStage::Render;
                let seconds: u32 = match &self.config {
                    Some(c) => replay_seconds(c),
                    None => DEFAULT_REPLAY_SECONDS,
                };
                BenchmarkAction::Render(seconds)
            },
            BenchmarkEvent::Rendered(Ok((ms, gpu))) => {
                self.stage = BenchmarkStage::Over;
                let config = self.config.take();
                let speed = self.speed.take();
                match (config, speed) {
                    (Some(c), Some(s)) => BenchmarkAction::Finish(finish_benchmark(&c, s, ms, gpu)),
                    _ => unreached(),
                }
            },
            BenchmarkEvent::Session(Err(e)) => self.fail(e),
            BenchmarkEvent::Slots(Err(e)) => self.fail(e),
            BenchmarkEvent::Tools(Err(e)) => self.fail(e),
            BenchmarkEvent::Config(Err(e)) => self.fail(e),
            BenchmarkEvent::Speed(Err(e)) => self.fail(e),
            BenchmarkEvent::Renderer(Err(e)) => self.fail(e),
            BenchmarkEvent::Assets(Err(e)) => self.fail(e),
            BenchmarkEvent::Rendered(Err(e)) => self.fail(e),
        }
    }

    fn fail(&mut self, e: AppError) -> (r: BenchmarkAction)
        ensures
            final(self).wf(),
            final(self).stage == BenchmarkStage::Over,
            r == BenchmarkAction::Fail(e),
    {
        self.stage = BenchmarkStage::Over;
        BenchmarkAction::Fail(e)
    }
}

/// A benchmark that passes allows to register a worker: it meets what the server has asked for.
pub proof fn passed_benchmarks_meet_the_limits(
    out: BenchmarkOutcome,
    config: BenchmarkConfigPayload,
    speed: SpeedMeasurement,
    render_ms: u64,
    gpu: Seq<char>,
)
    requires
        comes_to(out, config, speed, render_ms, gpu),
    ensures
        out.eligible <==> config.min_download_mbps.at_most(speed.download_mbps)
            && config.min_upload_mbps.at_most(speed.upload_mbps) && render_ms
            <= config.max_render_ms,
{
}

/// The worker remembers the graphics card that rendered.
pub fn remember_gpu(config: &mut AppConfig, result: &BenchmarkResult)
    ensures
        final(config)@ == (ConfigView { server_gpu: result.gpu_name@, ..old(config)@ }),
{
    config.server_gpu = result.gpu_name.clone();
}

// ---------------------------------------------------------------------------------------------
// How it is coming along
// ---------------------------------------------------------------------------------------------

/// A moment of a benchmark that is shown.
#[derive(Clone, Copy, PartialEq, Eq, Structural)]
pub enum BenchmarkMoment {
    Speed,
    Upload,
    Tools,
    Replay,
    Mapset,
    Render,
    /// Whether it has passed.
    Done(bool),
}

/// The phase of a moment, its share of the whole in percent by the bits of a [`Double`], and what is
/// said of it.
pub open spec fn moment(m: BenchmarkMoment) -> (Seq<char>, u64, Seq<char>) {
    match m {
        BenchmarkMoment::Speed => (
            "speed"@,
            0x4014_0000_0000_0000,
            "Testing real connection speed"@,
        ),
        BenchmarkMoment::Upload => ("speed"@, 0x4030_0000_0000_0000, "Testing upload speed"@),
        BenchmarkMoment::Tools => (
            "download"@,
            0x4039_0000_0000_0000,
            "Downloading FFmpeg and FFprobe"@,
        ),
        BenchmarkMoment::Replay => (
            "download"@,
            0x4037_0000_0000_0000,
            "Downloading benchmark replay"@,
        ),
        BenchmarkMoment::Mapset => (
            "download"@,
            0x403d_0000_0000_0000,
            "Downloading benchmark mapset"@,
        ),
        BenchmarkMoment::Render => ("render"@, 0x4041_8000_0000_0000, "Running render benchmark"@),
        BenchmarkMoment::Done(passed) => (
            "done"@,
            0x4059_0000_0000_0000,
            if passed {
                "Benchmark passed"@
            } else {
                "Benchmark complete; requirements not met"@
            },
        ),
    }
}

fn progress(phase: &str, bits: u64, message: &str) -> (r: BenchmarkProgress)
    ensures
        r.phase@ == phase@,
        r.percent == (Double { bits }),
        r.message@ == message@,
{
    BenchmarkProgress {
        phase: phase.to_owned(),
        percent: Double { bits },
        message: message.to_owned(),
    }
}

/// How a benchmark is coming along at a moment.
pub fn set_benchmark(m: BenchmarkMoment) -> (r: BenchmarkProgress)
    ensures
        r.phase@ == moment(m).0,
        r.percent == (Double { bits: moment(m).1 }),
        r.message@ == moment(m).2,
{
    match m {
        BenchmarkMoment::Speed => progress(
            "speed",
            0x4014_0000_0000_0000,
            "Testing real connection speed",
        ),
        BenchmarkMoment::Upload => progress("speed", 0x4030_0000_0000_0000, "Testing upload speed"),
        BenchmarkMoment::Tools => progress(
            "download",
            0x4039_0000_0000_0000,
            "Downloading FFmpeg and FFprobe",
        ),
        BenchmarkMoment::Replay => progress(
            "download",
            0x4037_0000_0000_0000,
            "Downloading benchmark replay",
        ),
        BenchmarkMoment::Mapset => progress(
            "download",
            0x403d_0000_0000_0000,
            "Downloading benchmark mapset",
        ),
        BenchmarkMoment::Render => progress(
            "render",
            0x4041_8000_0000_0000,
            "Running render benchmark",
        ),
        BenchmarkMoment::Done(passed) => progress(
            "done",
            0x4059_0000_0000_0000,
            if passed {
                "Benchmark passed"
            } else {
                "Benchmark complete; requirements not met"
            },
        ),
    }
}

/// What is said of the speed before the rest is fetched.
pub fn speed_progress(config: &BenchmarkConfigPayload, speed: &SpeedMeasurement) -> (r:
    BenchmarkProgress)
    ensures
        r.phase@ == "download"@,
        r.percent.bits == 0x4034_0000_0000_0000,
        r.message@ == {
            let said = speed.download_text@ + " Mbps down / "@ + speed.upload_text@ + " Mbps up"@;
            if config.min_download_mbps.at_most(speed.download_mbps)
                && config.min_upload_mbps.at_most(speed.upload_mbps) {
                said
            } else {
                said + "; continuing render test"@
            }
        },
{
    let mut said = cat3(speed.download_text.as_str(), " Mbps down / ", speed.upload_text.as_str());
    said.append(" Mbps up");
    if !(config.min_download_mbps.le(speed.download_mbps) && config.min_upload_mbps.le(
        speed.upload_mbps,
    )) {
        said.append("; continuing render test");
    }
    progress("download", 0x4034_0000_0000_0000, said.as_str())
}

/// What a benchmark is told is kept, but for the speeds, which are those of this client; what it is not told is
/// the usual.
pub proof fn told_benchmarks_are_kept(b: BenchmarkView)
    ensures
        ({
            let c = completed(b);
            &&& b.max_render_ms > 0 ==> c.max_render_ms == b.max_render_ms
            &&& b.download_sources.len() > 0 ==> c.download_sources == b.download_sources
            &&& b.download_sources.len() == 0 ==> c.download_sources.len() == 1
            &&& (b.replay_url matches Some(u) && !text::is_blank(u)) ==> c.replay_url == b.replay_url
            &&& (b.mapset_url matches Some(u) && !text::is_blank(u)) ==> c.mapset_url == b.mapset_url
            &&& c.replay_url is Some && c.mapset_url is Some
            &&& c.upload_url == b.upload_url && c.upload_bytes == b.upload_bytes && c.replay_seconds
                == b.replay_seconds
            &&& c.min_download_mbps == legacy().min_download_mbps && c.min_upload_mbps
                == legacy().min_upload_mbps
            &&& b.max_render_ms == 0 ==> c.max_render_ms == legacy().max_render_ms
        }),
{
}

/// What is fetched is the sum of what has to be.
pub proof fn fetched_sizes_add_up(a: Seq<ItemView>, i: ItemView)
    ensures
        i.will_download ==> fetched(a.push(i)) == fetched(a) + size_or_zero(i.size_bytes),
        !i.will_download ==> fetched(a.push(i)) == fetched(a),
        fetched(Seq::empty()) == 0,
{
    assert(a.push(i).drop_last() =~= a);
}

/// Somewhere in a list a word stands right behind another.
pub open spec fn follows(words: Seq<Seq<char>>, name: Seq<char>, value: Seq<char>) -> bool {
    exists|i: int| 0 <= i && i + 1 < words.len() && #[trigger] words[i] == name && words[i + 1] == value
}

/// The command line of a benchmark tells the replay, the mapset, the songs, the video, its size and its frames,
/// and how many seconds of the replay are rendered.
pub proof fn benchmarks_tell_what_is_rendered(
    replay: Seq<char>,
    mapset: Seq<char>,
    output: Seq<char>,
    songs: Seq<char>,
    resolution: Resolution,
    seconds: u32,
)
    ensures
        ({
            let w = render_words(replay, mapset, output, songs, resolution, seconds);
            &&& w.len() == 16
            &&& follows(w, "--replay"@, replay)
            &&& follows(w, "--mapset"@, mapset)
            &&& follows(w, "--out"@, output)
            &&& follows(w, "--songs-dir"@, songs)
            &&& follows(w, "--end"@, scan::decimal(seconds as nat))
            &&& resolution == Resolution::P720 ==> follows(w, "--width"@, scan::decimal(1280)) && follows(
                w,
                "--height"@,
                scan::decimal(720),
            ) && follows(w, "--fps"@, scan::decimal(60))
            &&& resolution == Resolution::P1080 ==> follows(w, "--width"@, scan::decimal(1920)) && follows(
                w,
                "--height"@,
                scan::decimal(1080),
            ) && follows(w, "--fps"@, scan::decimal(60))
        }),
{
    let w = render_words(replay, mapset, output, songs, resolution, seconds);
    assert(w[0] == "--replay"@ && w[0int + 1] == replay);
    assert(w[2] == "--mapset"@ && w[2int + 1] == mapset);
    assert(w[4] == "--out"@ && w[4int + 1] == output);
    assert(w[6] == "--width"@ && w[6int + 1] == scan::decimal(resolution.size().0 as nat));
    assert(w[8] == "--height"@ && w[8int + 1] == scan::decimal(resolution.size().1 as nat));
    assert(w[10] == "--fps"@ && w[10int + 1] == scan::decimal(resolution.size().2 as nat));
    assert(w[12] == "--songs-dir"@ && w[12int + 1] == songs);
    assert(w[14] == "--end"@ && w[14int + 1] == scan::decimal(seconds as nat));
}

/// The seconds that are rendered are those that are told, at least one of them and at most the most.
pub proof fn told_seconds_are_rendered(n: u32)
    ensures
        1 <= n <= MAX_BENCHMARK_REPLAY_SECONDS ==> seconds_of(Some(n)) == n,
        n > MAX_BENCHMARK_REPLAY_SECONDS ==> seconds_of(Some(n)) == MAX_BENCHMARK_REPLAY_SECONDS,
        n == 0 ==> seconds_of(Some(n)) == 1,
        seconds_of(None) == DEFAULT_REPLAY_SECONDS,
{
}

/// The plan of a benchmark lists the renderer, the tools, the replay and the mapset: what is not there yet is
/// fetched, the replay and the mapset always, and each by its own size.
pub proof fn plans_list_what_is_fetched(
    renderer: RendererDownloadInfo,
    snapshot: FfmpegToolsSnapshot,
    ffmpeg: FfmpegToolInfo,
    ffprobe: FfmpegToolInfo,
    tools_download: Option<u64>,
    replay_size: Option<u64>,
    mapset_size: Option<u64>,
)
    ensures
        ({
            let p = plan_items(
                renderer,
                snapshot,
                ffmpeg,
                ffprobe,
                tools_download,
                replay_size,
                mapset_size,
            );
            &&& p.len() == 4
            &&& p[0].will_download == !renderer.already_available && p[0].size_bytes == Some(
                renderer.size_bytes,
            )
            &&& p[1].will_download == !(ffmpeg.available && ffprobe.available)
            &&& !(ffmpeg.available && ffprobe.available) ==> p[1].size_bytes == tools_download
            &&& p[2].will_download && p[2].size_bytes == replay_size
            &&& p[3].will_download && p[3].size_bytes == mapset_size
            &&& forall|i: int|
                0 <= i < 4 ==> (#[trigger] p[i]).status == if p[i].will_download {
                    "download"@
                } else {
                    "local"@
                }
        }),
{
}

/// What a benchmark fetches is at least the replay and the mapset.
pub proof fn replays_and_mapsets_are_fetched(
    renderer: RendererDownloadInfo,
    snapshot: FfmpegToolsSnapshot,
    ffmpeg: FfmpegToolInfo,
    ffprobe: FfmpegToolInfo,
    tools_download: Option<u64>,
    replay_size: u64,
    mapset_size: u64,
)
    ensures
        ({
            let p = plan_items(
                renderer,
                snapshot,
                ffmpeg,
                ffprobe,
                tools_download,
                Some(replay_size),
                Some(mapset_size),
            );
            let tools = if ffmpeg.available && ffprobe.available {
                0
            } else {
                size_or_zero(tools_download)
            };
            let own = if renderer.already_available {
                0
            } else {
                renderer.size_bytes as nat
            };
            fetched(p) == own + tools + replay_size + mapset_size
        }),
{
    let p = plan_items(
        renderer,
        snapshot,
        ffmpeg,
        ffprobe,
        tools_download,
        Some(replay_size),
        Some(mapset_size),
    );
    let p3 = p.drop_last();
    let p2 = p3.drop_last();
    let p1 = p2.drop_last();
    assert(p1.drop_last() =~= Seq::empty());
    assert(fetched(p1) == fetched(p1.drop_last()) + if p[0].will_download {
        size_or_zero(p[0].size_bytes)
    } else {
        0
    });
    assert(fetched(p2) == fetched(p1) + if p[1].will_download {
        size_or_zero(p[1].size_bytes)
    } else {
        0
    });
    assert(fetched(p3) == fetched(p2) + size_or_zero(p[2].size_bytes));
    assert(fetched(p) == fetched(p3) + size_or_zero(p[3].size_bytes));
}

/// The stages of a benchmark follow one another, each of them once.
pub proof fn stages_follow_one_another(stage: BenchmarkStage, event: BenchmarkEvent)
    ensures
        stage != BenchmarkStage::Over ==> place(next_stage(stage)) == place(stage) + 1,
        next_stage(BenchmarkStage::Render) == BenchmarkStage::Over,
        next_stage(BenchmarkStage::Session) == BenchmarkStage::Slots,
        next_stage(BenchmarkStage::Slots) == BenchmarkStage::Tools,
        next_stage(BenchmarkStage::Tools) == BenchmarkStage::Config,
        next_stage(BenchmarkStage::Config) == BenchmarkStage::Speed,
        next_stage(BenchmarkStage::Speed) == BenchmarkStage::Renderer,
        next_stage(BenchmarkStage::Renderer) == BenchmarkStage::Assets,
        next_stage(BenchmarkStage::Assets) == BenchmarkStage::Render,
        event matches BenchmarkEvent::Session(Ok(there)) ==> (event.problem() is None <==> there),
        event matches BenchmarkEvent::Slots(Ok(n)) ==> (event.problem() is None <==> n > 0),
        event matches BenchmarkEvent::Session(Err(e)) ==> event.problem() == Some(e@),
        event matches BenchmarkEvent::Rendered(Err(e)) ==> event.problem() == Some(e@),
        event matches BenchmarkEvent::Rendered(Ok(_)) ==> event.problem() is None,
        event matches BenchmarkEvent::Speed(Err(e)) ==> event.problem() == Some(e@),
        event matches BenchmarkEvent::Renderer(Err(e)) ==> event.problem() == Some(e@),
        event matches BenchmarkEvent::Assets(Err(e)) ==> event.problem() == Some(e@),
        event matches BenchmarkEvent::Tools(Err(e)) ==> event.problem() == Some(e@),
        event matches BenchmarkEvent::Config(Err(e)) ==> event.problem() == Some(e@),
        event matches BenchmarkEvent::Slots(Err(e)) ==> event.problem() == Some(e@),
{
}

/// The speed is measured with as many bytes as are told, from one mebibyte to a hundred and twenty-eight; without
/// an address or a number it is not measured.
pub proof fn told_bytes_are_uploaded(n: u64)
    ensures
        1_048_576 <= n <= 134_217_728 ==> bytes_to_upload(true, n) == Some(n),
        0 < n < 1_048_576 ==> bytes_to_upload(true, n) == Some(1_048_576u64),
        n > 134_217_728 ==> bytes_to_upload(true, n) == Some(134_217_728u64),
        bytes_to_upload(true, 0) is None,
        bytes_to_upload(false, n) is None,
{
}

/// A service that tells no benchmark is measured by the old way: nothing is uploaded, and the replay and the mapset
/// of this client are rendered.
pub proof fn old_benchmarks_upload_nothing()
    ensures
        legacy().upload_bytes == 0 && legacy().upload_url.len() == 0,
        legacy().download_sources.len() == 1 && legacy().download_sources[0].url
            == "/api/v1/servers/benchmark/speed-test?duration=12"@,
        completed(legacy()).replay_url == legacy().replay_url,
        completed(legacy()).max_render_ms == legacy().max_render_ms,
        completed(legacy()).download_sources == legacy().download_sources,
        bytes_to_upload(false, legacy().upload_bytes) is None,
{
}

} // verus!
