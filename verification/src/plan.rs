//! The steps of a render job and the command line of the renderer.
use crate::error::{AppResult, ErrorView};
use crate::jobs;
use crate::jobs::{
    resolve_file_extension, validate_job_assignment, JobAssignment, WorkerRenderMode,
    BEATMAP_LIMIT_BYTES, MAPSET_LIMIT_BYTES, REPLAY_LIMIT_BYTES, SKIN_LIMIT_BYTES,
};
use crate::scan;
use crate::scan::{show, show_signed};
use crate::text;
use crate::text::{borrow_text, cat};
use crate::types::Double;
use vstd::prelude::*;

verus! {

// ---------------------------------------------------------------------------------------------
// Files
// ---------------------------------------------------------------------------------------------

/// A file or folder of a job.
#[derive(Clone, Copy, PartialEq, Eq, Structural)]
pub enum JobFile {
    Replay,
    Beatmap,
    Mapset,
    Skin,
    HudConfig,
    AutoplayMods,
    IntroUser,
    Report,
    Output,
    /// The folder of the job itself.
    Folder,
}

/// The name of a file in the folder of its job. The files that are fetched keep their extension.
pub fn job_file_name(job: &JobAssignment, file: JobFile) -> (r: String)
    ensures
        match file {
            JobFile::Replay => named(r@, "replay"@, job.replay_extension, ".osr"@),
            JobFile::Beatmap => named(r@, "beatmap"@, job.beatmap_extension, ".osu"@),
            JobFile::Mapset => named(r@, "mapset"@, job.mapset_extension, ".osz"@),
            JobFile::Skin => named(r@, "skin"@, job.skin_extension, ".osk"@),
            JobFile::HudConfig => r@ == "hud-config.json"@,
            JobFile::AutoplayMods => r@ == "autoplay-mods.json"@,
            JobFile::IntroUser => r@ == "intro-user.json"@,
            JobFile::Report => r@ == "render-report.json"@,
            JobFile::Output => r@ == "output.mp4"@,
            JobFile::Folder => r@.len() == 0,
        },
{
    match file {
        JobFile::Replay => name_with("replay", &job.replay_extension, ".osr"),
        JobFile::Beatmap => name_with("beatmap", &job.beatmap_extension, ".osu"),
        JobFile::Mapset => name_with("mapset", &job.mapset_extension, ".osz"),
        JobFile::Skin => name_with("skin", &job.skin_extension, ".osk"),
        JobFile::HudConfig => "hud-config.json".to_owned(),
        JobFile::AutoplayMods => "autoplay-mods.json".to_owned(),
        JobFile::IntroUser => "intro-user.json".to_owned(),
        JobFile::Report => "render-report.json".to_owned(),
        JobFile::Output => "output.mp4".to_owned(),
        JobFile::Folder => String::new(),
    }
}

/// A stem and an extension.
pub open spec fn named(name: Seq<char>, stem: Seq<char>, ext: Option<String>, usual: Seq<char>) -> bool {
    exists|e: Seq<char>|
        #[trigger] jobs::may_have_extension(text::opt_text(ext), usual, e) && name == stem + e
}

fn name_with(stem: &str, ext: &Option<String>, usual: &str) -> (r: String)
    ensures
        named(r@, stem@, *ext, usual@),
{
    let e = resolve_file_extension(borrow_text(ext), usual);
    cat(stem, e.as_str())
}

// ---------------------------------------------------------------------------------------------
// Steps
// ---------------------------------------------------------------------------------------------

/// One step of a job. A step that fails ends the job.
pub enum JobStep {
    /// Have a renderer and the tools for videos.
    EnsureTools,
    /// Have an empty folder for the job.
    MakeFolder,
    /// Tell the server how far the job is.
    Report { progress: u64, step: String, phase: String },
    /// Prepare what the intro shows of the player.
    PrepareIntro,
    /// Fetch a file, of at most so many bytes.
    Fetch { file: JobFile, url: String, limit: u64 },
    /// Prepare and write the settings of the display.
    WriteHudConfig,
    /// Write the mods of a beatmap that plays itself.
    WriteAutoplayMods,
    /// Render; a replay also gets a report.
    Render { with_report: bool },
    /// Read the report. A report that cannot be read is left out.
    ReadReport,
    /// Send the video.
    Upload,
}

/// What [`JobStep`] holds.
pub enum StepView {
    EnsureTools,
    MakeFolder,
    Report { progress: u64, step: Seq<char>, phase: Seq<char> },
    PrepareIntro,
    Fetch { file: JobFile, url: Seq<char>, limit: u64 },
    WriteHudConfig,
    WriteAutoplayMods,
    Render { with_report: bool },
    ReadReport,
    Upload,
}

impl View for JobStep {
    type V = StepView;

    open spec fn view(&self) -> StepView {
        match self {
            JobStep::EnsureTools => StepView::EnsureTools,
            JobStep::MakeFolder => StepView::MakeFolder,
            JobStep::Report { progress, step, phase } => StepView::Report {
                progress: *progress,
                step: step@,
                phase: phase@,
            },
            JobStep::PrepareIntro => StepView::PrepareIntro,
            JobStep::Fetch { file, url, limit } => StepView::Fetch {
                file: *file,
                url: url@,
                limit: *limit,
            },
            JobStep::WriteHudConfig => StepView::WriteHudConfig,
            JobStep::WriteAutoplayMods => StepView::WriteAutoplayMods,
            JobStep::Render { with_report } => StepView::Render { with_report: *with_report },
            JobStep::ReadReport => StepView::ReadReport,
            JobStep::Upload => StepView::Upload,
        }
    }
}

/// What the steps of a list hold.
pub open spec fn steps_view(v: Seq<JobStep>) -> Seq<StepView> {
    Seq::new(v.len(), |i: int| v[i]@)
}

/// One step, where a condition holds.
pub open spec fn when(condition: bool, step: StepView) -> Seq<StepView> {
    if condition {
        seq![step]
    } else {
        seq![]
    }
}

/// Fetching a file, where there is an address for it.
pub open spec fn fetch(url: Option<String>, file: JobFile, limit: u64) -> Seq<StepView> {
    match url {
        Some(u) => seq![StepView::Fetch { file, url: u@, limit }],
        None => seq![],
    }
}

/// The files that are rendered: the mapset alone, or the replay and its mapset, or else its beatmap.
pub open spec fn input_steps(job: JobAssignment) -> Seq<StepView> {
    let mapset = fetch(job.mapset_url, JobFile::Mapset, MAPSET_LIMIT_BYTES);
    match job.render_mode {
        WorkerRenderMode::Autoplay => mapset,
        WorkerRenderMode::Replay => fetch(job.replay_url, JobFile::Replay, REPLAY_LIMIT_BYTES)
            + if job.mapset_url is Some {
            mapset
        } else {
            fetch(job.beatmap_url, JobFile::Beatmap, BEATMAP_LIMIT_BYTES)
        },
    }
}

/// The steps before the render.
pub open spec fn steps_before(job: JobAssignment) -> Seq<StepView> {
    seq![
        StepView::EnsureTools,
        StepView::MakeFolder,
        StepView::Report {
            progress: 0,
            step: "Descargando archivos..."@,
            phase: "input_download"@,
        },
    ] + when(job.render_intro_enabled != Some(false), StepView::PrepareIntro) + input_steps(job)
        + fetch(job.skin_url, JobFile::Skin, SKIN_LIMIT_BYTES) + when(
        job.hud_config is Some,
        StepView::WriteHudConfig,
    ) + when(job.render_mode == WorkerRenderMode::Autoplay, StepView::WriteAutoplayMods) + seq![
        StepView::Report {
            progress: 5,
            step: "Preparando render..."@,
            phase: "input_download"@,
        },
    ]
}

/// The render and the steps after it.
pub open spec fn steps_after(job: JobAssignment) -> Seq<StepView> {
    let replay = job.render_mode == WorkerRenderMode::Replay;
    seq![StepView::Render { with_report: replay }] + when(replay, StepView::ReadReport) + seq![
        StepView::Report { progress: 95, step: "Subiendo video..."@, phase: "output_upload"@ },
        StepView::Upload,
    ]
}

/// All steps of a job.
pub open spec fn job_steps(job: JobAssignment) -> Seq<StepView> {
    steps_before(job) + steps_after(job)
}

fn push_fetch(out: &mut Vec<JobStep>, url: &Option<String>, file: JobFile, limit: u64)
    ensures
        steps_view(final(out)@) == steps_view(old(out)@) + fetch(*url, file, limit),
{
    match url {
        Some(u) => {
            out.push(JobStep::Fetch { file, url: u.clone(), limit });
            assert(steps_view(out@) =~= steps_view(old(out)@) + fetch(*url, file, limit));
        },
        None => {
            assert(steps_view(out@) =~= steps_view(old(out)@) + fetch(*url, file, limit));
        },
    }
}

fn push_when(out: &mut Vec<JobStep>, condition: bool, step: JobStep)
    ensures
        steps_view(final(out)@) == steps_view(old(out)@) + when(condition, step@),
{
    if condition {
        out.push(step);
    }
    assert(steps_view(out@) =~= steps_view(old(out)@) + when(condition, step@));
}

proof fn steps_view_joins(a: Seq<JobStep>, b: Seq<JobStep>)
    ensures
        steps_view(a + b) == steps_view(a) + steps_view(b),
{
    assert(steps_view(a + b) =~= steps_view(a) + steps_view(b));
}

fn list_input_steps(job: &JobAssignment) -> (r: Vec<JobStep>)
    ensures
        steps_view(r@) == input_steps(*job),
{
    let mut out: Vec<JobStep> = Vec::new();
    assert(steps_view(out@) =~= Seq::empty());
    if job.render_mode == WorkerRenderMode::Replay {
        push_fetch(&mut out, &job.replay_url, JobFile::Replay, REPLAY_LIMIT_BYTES);
        if job.mapset_url.is_some() {
            push_fetch(&mut out, &job.mapset_url, JobFile::Mapset, MAPSET_LIMIT_BYTES);
        } else {
            push_fetch(&mut out, &job.beatmap_url, JobFile::Beatmap, BEATMAP_LIMIT_BYTES);
        }
    } else {
        push_fetch(&mut out, &job.mapset_url, JobFile::Mapset, MAPSET_LIMIT_BYTES);
    }
    assert(steps_view(out@) =~= input_steps(*job));
    out
}

fn list_steps_before(job: &JobAssignment) -> (r: Vec<JobStep>)
    ensures
        steps_view(r@) == steps_before(*job),
{
    let mut out: Vec<JobStep> = Vec::new();
    out.push(JobStep::EnsureTools);
    out.push(JobStep::MakeFolder);
    out.push(
        JobStep::Report {
            progress: 0,
            step: "Descargando archivos...".to_owned(),
            phase: "input_download".to_owned(),
        },
    );
    assert(steps_view(out@) =~= seq![
        StepView::EnsureTools,
        StepView::MakeFolder,
        StepView::Report {
            progress: 0,
            step: "Descargando archivos..."@,
            phase: "input_download"@,
        },
    ]);
    let intro = match job.render_intro_enabled {
        Some(enabled) => enabled,
        None => true,
    };
    push_when(&mut out, intro, JobStep::PrepareIntro);
    let mut inputs = list_input_steps(job);
    proof {
        steps_view_joins(out@, inputs@);
    }
    out.append(&mut inputs);
    push_fetch(&mut out, &job.skin_url, JobFile::Skin, SKIN_LIMIT_BYTES);
    push_when(&mut out, job.hud_config.is_some(), JobStep::WriteHudConfig);
    push_when(
        &mut out,
        job.render_mode == WorkerRenderMode::Autoplay,
        JobStep::WriteAutoplayMods,
    );
    let last = JobStep::Report {
        progress: 5,
        step: "Preparando render...".to_owned(),
        phase: "input_download".to_owned(),
    };
    push_last(&mut out, last);
    out
}

fn push_last(out: &mut Vec<JobStep>, step: JobStep)
    ensures
        steps_view(final(out)@) == steps_view(old(out)@) + seq![step@],
{
    out.push(step);
    assert(steps_view(out@) =~= steps_view(old(out)@) + seq![step@]);
}

fn list_steps_after(job: &JobAssignment) -> (r: Vec<JobStep>)
    ensures
        steps_view(r@) == steps_after(*job),
{
    let replay = job.render_mode == WorkerRenderMode::Replay;
    let mut out: Vec<JobStep> = Vec::new();
    out.push(JobStep::Render { with_report: replay });
    assert(steps_view(out@) =~= seq![StepView::Render { with_report: replay }]);
    push_when(&mut out, replay, JobStep::ReadReport);
    out.push(
        JobStep::Report {
            progress: 95,
            step: "Subiendo video...".to_owned(),
            phase: "output_upload".to_owned(),
        },
    );
    out.push(JobStep::Upload);
    assert(steps_view(out@) =~= steps_after(*job));
    out
}

/// The steps of a job; a job that cannot be rendered is refused.
pub fn execute_job(job: &JobAssignment) -> (r: AppResult<Vec<JobStep>>)
    ensures
        match r {
            Ok(steps) => jobs::job_problem(*job) is None && steps_view(steps@) == job_steps(*job),
            Err(e) => jobs::job_outcome(*job) == Err::<(), ErrorView>(e@),
        },
{
    match validate_job_assignment(job) {
        Ok(()) => {},
        Err(e) => {
            return Err(e);
        },
    }
    let mut out = list_steps_before(job);
    let mut rest = list_steps_after(job);
    proof {
        steps_view_joins(out@, rest@);
    }
    out.append(&mut rest);
    Ok(out)
}

// ---------------------------------------------------------------------------------------------
// What a job has prepared
// ---------------------------------------------------------------------------------------------

/// The files that a job has prepared.
#[derive(Clone, Copy, PartialEq, Eq, Structural)]
pub struct PreparedJobPaths {
    pub replay: bool,
    pub beatmap: bool,
    pub mapset: bool,
    pub skin: bool,
    pub hud_config: bool,
    pub autoplay_mods: bool,
    pub intro_user: bool,
}

impl PreparedJobPaths {
    /// No file at all.
    pub open spec fn none() -> PreparedJobPaths {
        PreparedJobPaths {
            replay: false,
            beatmap: false,
            mapset: false,
            skin: false,
            hud_config: false,
            autoplay_mods: false,
            intro_user: false,
        }
    }

    /// The files after one more step. Preparing an intro may come to nothing.
    pub open spec fn step(self, step: StepView, intro_made: bool) -> PreparedJobPaths {
        match step {
            StepView::PrepareIntro => PreparedJobPaths { intro_user: intro_made, ..self },
            StepView::Fetch { file, .. } => match file {
                JobFile::Replay => PreparedJobPaths { replay: true, ..self },
                JobFile::Beatmap => PreparedJobPaths { beatmap: true, ..self },
                JobFile::Mapset => PreparedJobPaths { mapset: true, ..self },
                JobFile::Skin => PreparedJobPaths { skin: true, ..self },
                _ => self,
            },
            StepView::WriteHudConfig => PreparedJobPaths { hud_config: true, ..self },
            StepView::WriteAutoplayMods => PreparedJobPaths { autoplay_mods: true, ..self },
            _ => self,
        }
    }

    /// The files that some steps prepare.
    pub open spec fn steps(steps: Seq<StepView>, intro_made: bool) -> PreparedJobPaths
        decreases steps.len(),
    {
        if steps.len() == 0 {
            Self::none()
        } else {
            Self::steps(steps.drop_last(), intro_made).step(steps.last(), intro_made)
        }
    }

    /// The files without which nothing can be rendered in that mode.
    pub open spec fn enough_for(self, mode: WorkerRenderMode) -> bool {
        match mode {
            WorkerRenderMode::Autoplay => self.mapset && self.autoplay_mods,
            WorkerRenderMode::Replay => self.replay,
        }
    }

    pub fn new() -> (r: Self)
        ensures
            r == Self::none(),
    {
        PreparedJobPaths {
            replay: false,
            beatmap: false,
            mapset: false,
            skin: false,
            hud_config: false,
            autoplay_mods: false,
            intro_user: false,
        }
    }

    /// Notes that a step was taken.
    pub fn done(&mut self, step: &JobStep, intro_made: bool)
        ensures
            *final(self) == old(self).step(step@, intro_made),
    {
        match step {
            JobStep::PrepareIntro => {
                self.intro_user = intro_made;
            },
            JobStep::Fetch { file, .. } => match *file {
                JobFile::Replay => {
                    self.replay = true;
                },
                JobFile::Beatmap => {
                    self.beatmap = true;
                },
                JobFile::Mapset => {
                    self.mapset = true;
                },
                JobFile::Skin => {
                    self.skin = true;
                },
                _ => {},
            },
            JobStep::WriteHudConfig => {
                self.hud_config = true;
            },
            JobStep::WriteAutoplayMods => {
                self.autoplay_mods = true;
            },
            _ => {},
        }
    }
}

proof fn steps_join(a: Seq<StepView>, b: StepView, intro_made: bool)
    ensures
        PreparedJobPaths::steps(a.push(b), intro_made) == PreparedJobPaths::steps(
            a,
            intro_made,
        ).step(b, intro_made),
{
    assert(a.push(b).drop_last() =~= a);
}

proof fn fetch_join(a: Seq<StepView>, url: Option<String>, file: JobFile, limit: u64, intro_made: bool)
    ensures
        PreparedJobPaths::steps(a + fetch(url, file, limit), intro_made) == match url {
            Some(u) => PreparedJobPaths::steps(a, intro_made).step(
                StepView::Fetch { file, url: u@, limit },
                intro_made,
            ),
            None => PreparedJobPaths::steps(a, intro_made),
        },
{
    match url {
        Some(u) => {
            let s = StepView::Fetch { file, url: u@, limit };
            assert(a + fetch(url, file, limit) =~= a.push(s));
            steps_join(a, s, intro_made);
        },
        None => {
            assert(a + fetch(url, file, limit) =~= a);
        },
    }
}

proof fn when_join(a: Seq<StepView>, condition: bool, s: StepView, intro_made: bool)
    ensures
        PreparedJobPaths::steps(a + when(condition, s), intro_made) == if condition {
            PreparedJobPaths::steps(a, intro_made).step(s, intro_made)
        } else {
            PreparedJobPaths::steps(a, intro_made)
        },
{
    if condition {
        assert(a + when(condition, s) =~= a.push(s));
        steps_join(a, s, intro_made);
    } else {
        assert(a + when(condition, s) =~= a);
    }
}

/// The files that a job asks for.
pub open spec fn asked_for(job: JobAssignment, intro_made: bool) -> PreparedJobPaths {
    let autoplay = job.render_mode == WorkerRenderMode::Autoplay;
    PreparedJobPaths {
        replay: !autoplay && job.replay_url is Some,
        beatmap: !autoplay && job.mapset_url is None && job.beatmap_url is Some,
        mapset: job.mapset_url is Some,
        skin: job.skin_url is Some,
        hud_config: job.hud_config is Some,
        autoplay_mods: autoplay,
        intro_user: job.render_intro_enabled != Some(false) && intro_made,
    }
}

proof fn last_join(a: Seq<StepView>, s: StepView, intro_made: bool)
    ensures
        PreparedJobPaths::steps(a + seq![s], intro_made) == PreparedJobPaths::steps(
            a,
            intro_made,
        ).step(s, intro_made),
{
    assert(a + seq![s] =~= a.push(s));
    steps_join(a, s, intro_made);
}

proof fn inputs_join(a: Seq<StepView>, job: JobAssignment, m: bool)
    ensures
        ({
            let before = PreparedJobPaths::steps(a, m);
            let autoplay = job.render_mode == WorkerRenderMode::Autoplay;
            PreparedJobPaths::steps(a + input_steps(job), m) == PreparedJobPaths {
                replay: before.replay || (!autoplay && job.replay_url is Some),
                beatmap: before.beatmap || (!autoplay && job.mapset_url is None && job.beatmap_url
                    is Some),
                mapset: before.mapset || job.mapset_url is Some,
                ..before
            }
        }),
{
    let mapset = fetch(job.mapset_url, JobFile::Mapset, MAPSET_LIMIT_BYTES);
    let beatmap = fetch(job.beatmap_url, JobFile::Beatmap, BEATMAP_LIMIT_BYTES);
    let replay = fetch(job.replay_url, JobFile::Replay, REPLAY_LIMIT_BYTES);
    match job.render_mode {
        WorkerRenderMode::Autoplay => {
            fetch_join(a, job.mapset_url, JobFile::Mapset, MAPSET_LIMIT_BYTES, m);
        },
        WorkerRenderMode::Replay => {
            fetch_join(a, job.replay_url, JobFile::Replay, REPLAY_LIMIT_BYTES, m);
            if job.mapset_url is Some {
                fetch_join(a + replay, job.mapset_url, JobFile::Mapset, MAPSET_LIMIT_BYTES, m);
                assert(a + (replay + mapset) =~= (a + replay) + mapset);
            } else {
                fetch_join(a + replay, job.beatmap_url, JobFile::Beatmap, BEATMAP_LIMIT_BYTES, m);
                assert(a + (replay + beatmap) =~= (a + replay) + beatmap);
            }
        },
    }
}

proof fn first_steps_prepare_nothing(m: bool)
    ensures
        PreparedJobPaths::steps(
            seq![
                StepView::EnsureTools,
                StepView::MakeFolder,
                StepView::Report {
                    progress: 0,
                    step: "Descargando archivos..."@,
                    phase: "input_download"@,
                },
            ],
            m,
        ) == PreparedJobPaths::none(),
{
    let first = StepView::Report {
        progress: 0,
        step: "Descargando archivos..."@,
        phase: "input_download"@,
    };
    let s0 = Seq::<StepView>::empty();
    steps_join(s0, StepView::EnsureTools, m);
    steps_join(s0.push(StepView::EnsureTools), StepView::MakeFolder, m);
    steps_join(s0.push(StepView::EnsureTools).push(StepView::MakeFolder), first, m);
    assert(s0.push(StepView::EnsureTools).push(StepView::MakeFolder).push(first) =~= seq![
        StepView::EnsureTools,
        StepView::MakeFolder,
        first,
    ]);
}

/// When the steps before the render are taken, exactly the files are there that the job asks for.
pub proof fn steps_prepare_what_is_asked(job: JobAssignment, intro_made: bool)
    ensures
        PreparedJobPaths::steps(steps_before(job), intro_made) == asked_for(job, intro_made),
{
    let m = intro_made;
    first_steps_prepare_nothing(m);
    let s3 = seq![
        StepView::EnsureTools,
        StepView::MakeFolder,
        StepView::Report {
            progress: 0,
            step: "Descargando archivos..."@,
            phase: "input_download"@,
        },
    ];
    let intro = job.render_intro_enabled != Some(false);
    let autoplay = job.render_mode == WorkerRenderMode::Autoplay;
    when_join(s3, intro, StepView::PrepareIntro, m);
    let s4 = s3 + when(intro, StepView::PrepareIntro);
    inputs_join(s4, job, m);
    let s6 = s4 + input_steps(job);
    fetch_join(s6, job.skin_url, JobFile::Skin, SKIN_LIMIT_BYTES, m);
    let s7 = s6 + fetch(job.skin_url, JobFile::Skin, SKIN_LIMIT_BYTES);
    when_join(s7, job.hud_config is Some, StepView::WriteHudConfig, m);
    let s8 = s7 + when(job.hud_config is Some, StepView::WriteHudConfig);
    when_join(s8, autoplay, StepView::WriteAutoplayMods, m);
    let s9 = s8 + when(autoplay, StepView::WriteAutoplayMods);
    last_join(
        s9,
        StepView::Report {
            progress: 5,
            step: "Preparando render..."@,
            phase: "input_download"@,
        },
        m,
    );
}

/// A job that was taken has prepared all that its render needs.
pub proof fn taken_jobs_can_render(job: JobAssignment, intro_made: bool)
    requires
        jobs::job_problem(job) is None,
    ensures
        PreparedJobPaths::steps(steps_before(job), intro_made).enough_for(job.render_mode),
{
    steps_prepare_what_is_asked(job, intro_made);
}

// ---------------------------------------------------------------------------------------------
// The command line
// ---------------------------------------------------------------------------------------------

/// An argument of the renderer: a text, the path of a file, or a number as it is or rounded.
pub enum RenderArg {
    Text(String),
    File(JobFile),
    Number(Double),
    Rounded(Double),
}

/// What [`RenderArg`] holds.
pub enum ArgView {
    Text(Seq<char>),
    File(JobFile),
    Number(Double),
    Rounded(Double),
}

impl View for RenderArg {
    type V = ArgView;

    open spec fn view(&self) -> ArgView {
        match self {
            RenderArg::Text(s) => ArgView::Text(s@),
            RenderArg::File(f) => ArgView::File(*f),
            RenderArg::Number(n) => ArgView::Number(*n),
            RenderArg::Rounded(n) => ArgView::Rounded(*n),
        }
    }
}

/// What the arguments of a list hold.
pub open spec fn args_view(v: Seq<RenderArg>) -> Seq<ArgView> {
    Seq::new(v.len(), |i: int| v[i]@)
}

/// A hundred.
pub const HUNDRED: u64 = 0x4059_0000_0000_0000;

/// Sixty.
pub const SIXTY: u64 = 0x404e_0000_0000_0000;

/// One.
pub const ONE: u64 = 0x3ff0_0000_0000_0000;

/// A number, drawn into a range; a number that is not finite counts as none.
pub open spec fn clamped(value: Option<Double>, min: Double, max: Double) -> Option<Double> {
    match value {
        Some(v) => if !v.is_finite() {
            None
        } else if !min.at_most(v) {
            Some(min)
        } else if !v.at_most(max) {
            Some(max)
        } else {
            Some(v)
        },
        None => None,
    }
}

/// A number, drawn into a range.
pub fn clamp_optional(value: Option<Double>, min: Double, max: Double) -> (r: Option<Double>)
    ensures
        r == clamped(value, min, max),
{
    match value {
        Some(v) => if !v.finite() {
            None
        } else if !min.le(v) {
            Some(min)
        } else if !v.le(max) {
            Some(max)
        } else {
            Some(v)
        },
        None => None,
    }
}

/// What is drawn into a range lies in it.
pub proof fn clamped_lies_in_range(value: Option<Double>, min: Double, max: Double)
    requires
        min.at_most(max),
    ensures
        clamped(value, min, max) matches Some(v) ==> min.at_most(v) && v.at_most(max),
{
}

/// An option with a text after it.
pub open spec fn option_text(name: Seq<char>, value: Seq<char>) -> Seq<ArgView> {
    seq![ArgView::Text(name), ArgView::Text(value)]
}

/// An option with the path of a file after it.
pub open spec fn option_file(name: Seq<char>, file: JobFile) -> Seq<ArgView> {
    seq![ArgView::Text(name), ArgView::File(file)]
}

/// An option with the path of a file after it, where there is the file.
pub open spec fn file_if(condition: bool, name: Seq<char>, file: JobFile) -> Seq<ArgView> {
    if condition {
        option_file(name, file)
    } else {
        seq![]
    }
}

/// An option that stands alone, where a setting is switched off.
pub open spec fn flag_if_off(setting: Option<bool>, name: Seq<char>) -> Seq<ArgView> {
    if setting == Some(false) {
        seq![ArgView::Text(name)]
    } else {
        seq![]
    }
}

/// An option with a number from a range, where the job tells one.
pub open spec fn number_if(value: Option<Double>, min: u64, max: u64, name: Seq<char>) -> Seq<ArgView> {
    match clamped(value, Double { bits: min }, Double { bits: max }) {
        Some(v) => seq![ArgView::Text(name), ArgView::Number(v)],
        None => seq![],
    }
}

/// An option with a percentage above zero, rounded, where the job tells one.
pub open spec fn percent_if(value: Option<Double>, name: Seq<char>) -> Seq<ArgView> {
    match clamped(value, Double { bits: 0 }, Double { bits: HUNDRED }) {
        Some(v) => if !v.at_most(Double { bits: 0 }) {
            seq![ArgView::Text(name), ArgView::Rounded(v)]
        } else {
            seq![]
        },
        None => seq![],
    }
}

/// The difficulty as it is written; the first one where none is told.
pub open spec fn difficulty_text(job: JobAssignment) -> Seq<char> {
    match job.difficulty_index {
        Some(i) => scan::signed_decimal(i as int),
        None => scan::signed_decimal(0),
    }
}

/// What is rendered.
pub open spec fn input_args(job: JobAssignment, p: PreparedJobPaths) -> Seq<ArgView> {
    match job.render_mode {
        WorkerRenderMode::Autoplay => option_file("--mapset"@, JobFile::Mapset) + option_text(
            "--diff-index"@,
            difficulty_text(job),
        ) + option_file("--autoplay-mods-config"@, JobFile::AutoplayMods),
        WorkerRenderMode::Replay => option_file("--replay"@, JobFile::Replay) + if p.mapset {
            option_file("--mapset"@, JobFile::Mapset) + option_text(
                "--diff-index"@,
                difficulty_text(job),
            )
        } else {
            seq![]
        },
    }
}

/// The size of the video, and where it goes.
pub open spec fn output_args(job: JobAssignment) -> Seq<ArgView> {
    option_text("--width"@, scan::decimal(job.resolution.width as nat)) + option_text(
        "--height"@,
        scan::decimal(job.resolution.height as nat),
    ) + option_text("--fps"@, scan::decimal(job.resolution.fps as nat)) + option_file(
        "--out"@,
        JobFile::Output,
    ) + option_file("--songs-dir"@, JobFile::Folder)
}

/// How the video looks and sounds.
pub open spec fn style_args(job: JobAssignment, p: PreparedJobPaths) -> Seq<ArgView> {
    file_if(p.skin, "--skin"@, JobFile::Skin) + file_if(
        p.hud_config,
        "--hud-config"@,
        JobFile::HudConfig,
    ) + file_if(p.intro_user, "--intro-user-json"@, JobFile::IntroUser) + flag_if_off(
        job.render_intro_enabled,
        "--no-intro"@,
    ) + number_if(job.bg_opacity, 0, HUNDRED, "--bg-opacity"@) + number_if(
        job.scroll_speed,
        ONE,
        SIXTY,
        "--ss"@,
    ) + percent_if(job.motion_blur_percent, "--motion-blur"@) + percent_if(
        job.background_blur_percent,
        "--bg-blur"@,
    ) + flag_if_off(job.background_video_enabled, "--no-bg-video"@) + flag_if_off(
        job.storyboard_enabled,
        "--no-storyboard"@,
    ) + flag_if_off(job.skin_animations_enabled, "--no-skin-animations"@) + flag_if_off(
        job.combo_images_enabled,
        "--no-combo-burst"@,
    ) + number_if(job.music_volume, 0, HUNDRED, "--music-volume"@) + number_if(
        job.hitsound_volume,
        0,
        HUNDRED,
        "--hitsound-volume"@,
    )
}

/// The command line of the renderer.
pub open spec fn render_args(job: JobAssignment, p: PreparedJobPaths, report: bool) -> Seq<ArgView> {
    input_args(job, p) + output_args(job) + style_args(job, p) + file_if(
        p.beatmap,
        "--osu"@,
        JobFile::Beatmap,
    ) + file_if(report, "--report-out"@, JobFile::Report)
}

fn push_text(out: &mut Vec<RenderArg>, name: &str, value: &str)
    ensures
        args_view(final(out)@) == args_view(old(out)@) + option_text(name@, value@),
{
    out.push(RenderArg::Text(name.to_owned()));
    out.push(RenderArg::Text(value.to_owned()));
    assert(args_view(out@) =~= args_view(old(out)@) + option_text(name@, value@));
}

fn push_file(out: &mut Vec<RenderArg>, condition: bool, name: &str, file: JobFile)
    ensures
        args_view(final(out)@) == args_view(old(out)@) + file_if(condition, name@, file),
{
    if condition {
        out.push(RenderArg::Text(name.to_owned()));
        out.push(RenderArg::File(file));
    }
    assert(args_view(out@) =~= args_view(old(out)@) + file_if(condition, name@, file));
}

fn push_flag(out: &mut Vec<RenderArg>, setting: Option<bool>, name: &str)
    ensures
        args_view(final(out)@) == args_view(old(out)@) + flag_if_off(setting, name@),
{
    let off = match setting {
        Some(on) => !on,
        None => false,
    };
    if off {
        out.push(RenderArg::Text(name.to_owned()));
    }
    assert(args_view(out@) =~= args_view(old(out)@) + flag_if_off(setting, name@));
}

fn push_number(out: &mut Vec<RenderArg>, value: Option<Double>, min: u64, max: u64, name: &str)
    ensures
        args_view(final(out)@) == args_view(old(out)@) + number_if(value, min, max, name@),
{
    if let Some(v) = clamp_optional(value, Double { bits: min }, Double { bits: max }) {
        out.push(RenderArg::Text(name.to_owned()));
        out.push(RenderArg::Number(v));
    }
    assert(args_view(out@) =~= args_view(old(out)@) + number_if(value, min, max, name@));
}

fn push_percent(out: &mut Vec<RenderArg>, value: Option<Double>, name: &str)
    ensures
        args_view(final(out)@) == args_view(old(out)@) + percent_if(value, name@),
{
    if let Some(v) = clamp_optional(value, Double { bits: 0 }, Double { bits: HUNDRED }) {
        if !v.le(Double { bits: 0 }) {
            out.push(RenderArg::Text(name.to_owned()));
            out.push(RenderArg::Rounded(v));
        }
    }
    assert(args_view(out@) =~= args_view(old(out)@) + percent_if(value, name@));
}

fn list_input_args(job: &JobAssignment, p: &PreparedJobPaths) -> (r: Vec<RenderArg>)
    ensures
        args_view(r@) == input_args(*job, *p),
{
    let mut out: Vec<RenderArg> = Vec::new();
    let difficulty = match job.difficulty_index {
        Some(i) => show_signed(i),
        None => show_signed(0),
    };
    match job.render_mode {
        WorkerRenderMode::Autoplay => {
            push_file(&mut out, true, "--mapset", JobFile::Mapset);
            push_text(&mut out, "--diff-index", difficulty.as_str());
            push_file(&mut out, true, "--autoplay-mods-config", JobFile::AutoplayMods);
        },
        WorkerRenderMode::Replay => {
            push_file(&mut out, true, "--replay", JobFile::Replay);
            if p.mapset {
                push_file(&mut out, true, "--mapset", JobFile::Mapset);
                push_text(&mut out, "--diff-index", difficulty.as_str());
            }
        },
    }
    assert(args_view(out@) =~= input_args(*job, *p));
    out
}

fn list_output_args(job: &JobAssignment) -> (r: Vec<RenderArg>)
    ensures
        args_view(r@) == output_args(*job),
{
    let mut out: Vec<RenderArg> = Vec::new();
    push_text(&mut out, "--width", show(job.resolution.width as u64).as_str());
    push_text(&mut out, "--height", show(job.resolution.height as u64).as_str());
    push_text(&mut out, "--fps", show(job.resolution.fps as u64).as_str());
    push_file(&mut out, true, "--out", JobFile::Output);
    push_file(&mut out, true, "--songs-dir", JobFile::Folder);
    assert(args_view(out@) =~= output_args(*job));
    out
}

fn list_style_args(job: &JobAssignment, p: &PreparedJobPaths) -> (r: Vec<RenderArg>)
    ensures
        args_view(r@) == style_args(*job, *p),
{
    let mut out: Vec<RenderArg> = Vec::new();
    push_file(&mut out, p.skin, "--skin", JobFile::Skin);
    assert(args_view(out@) =~= file_if(p.skin, "--skin"@, JobFile::Skin));
    push_file(&mut out, p.hud_config, "--hud-config", JobFile::HudConfig);
    push_file(&mut out, p.intro_user, "--intro-user-json", JobFile::IntroUser);
    push_flag(&mut out, job.render_intro_enabled, "--no-intro");
    push_number(&mut out, job.bg_opacity, 0, HUNDRED, "--bg-opacity");
    push_number(&mut out, job.scroll_speed, ONE, SIXTY, "--ss");
    push_percent(&mut out, job.motion_blur_percent, "--motion-blur");
    push_percent(&mut out, job.background_blur_percent, "--bg-blur");
    push_flag(&mut out, job.background_video_enabled, "--no-bg-video");
    push_flag(&mut out, job.storyboard_enabled, "--no-storyboard");
    push_flag(&mut out, job.skin_animations_enabled, "--no-skin-animations");
    push_flag(&mut out, job.combo_images_enabled, "--no-combo-burst");
    push_number(&mut out, job.music_volume, 0, HUNDRED, "--music-volume");
    push_number(&mut out, job.hitsound_volume, 0, HUNDRED, "--hitsound-volume");
    out
}

proof fn args_view_joins(a: Seq<RenderArg>, b: Seq<RenderArg>)
    ensures
        args_view(a + b) == args_view(a) + args_view(b),
{
    assert(args_view(a + b) =~= args_view(a) + args_view(b));
}

/// The command line of the renderer.
pub fn build_render_cli_args(job: &JobAssignment, paths: &PreparedJobPaths, with_report: bool) -> (r:
    Vec<RenderArg>)
    requires
        paths.enough_for(job.render_mode),
    ensures
        args_view(r@) == render_args(*job, *paths, with_report),
{
    let mut out = list_input_args(job, paths);
    let mut output = list_output_args(job);
    let mut style = list_style_args(job, paths);
    proof {
        args_view_joins(out@, output@);
        args_view_joins(out@ + output@, style@);
    }
    out.append(&mut output);
    out.append(&mut style);
    push_file(&mut out, paths.beatmap, "--osu", JobFile::Beatmap);
    push_file(&mut out, with_report, "--report-out", JobFile::Report);
    out
}

// ---------------------------------------------------------------------------------------------
// What the command line tells
// ---------------------------------------------------------------------------------------------

/// Somewhere in a command line an option stands with a value right behind it.
pub open spec fn tells(args: Seq<ArgView>, name: Seq<char>, value: ArgView) -> bool {
    exists|i: int|
        0 <= i && i + 1 < args.len() && #[trigger] args[i] == ArgView::Text(name) && args[i + 1] == value
}

/// An option tells a number: the number itself where it lies in the range, else the end of the range that
/// is next to it.
pub open spec fn tells_number(
    args: Seq<ArgView>,
    name: Seq<char>,
    told: Option<Double>,
    min: Double,
    max: Double,
) -> bool {
    told matches Some(v) ==> v.is_finite() ==> {
        &&& min.at_most(v) && v.at_most(max) ==> tells(args, name, ArgView::Number(v))
        &&& !min.at_most(v) ==> tells(args, name, ArgView::Number(min))
        &&& !v.at_most(max) ==> tells(args, name, ArgView::Number(max))
    }
}

/// An option tells a percentage above zero, a hundred where it is more than that.
pub open spec fn tells_percent(args: Seq<ArgView>, name: Seq<char>, told: Option<Double>) -> bool {
    told matches Some(v) ==> v.is_finite() && !v.at_most(Double { bits: 0 }) ==> {
        &&& v.at_most(Double { bits: 0x4059_0000_0000_0000 }) ==> tells(args, name, ArgView::Rounded(v))
        &&& !v.at_most(Double { bits: 0x4059_0000_0000_0000 }) ==> tells(
            args,
            name,
            ArgView::Rounded(Double { bits: 0x4059_0000_0000_0000 }),
        )
    }
}

proof fn joined_tell(a: Seq<ArgView>, b: Seq<ArgView>, name: Seq<char>, value: ArgView)
    ensures
        tells(a, name, value) || tells(b, name, value) ==> tells(a + b, name, value),
        a.contains(ArgView::Text(name)) || b.contains(ArgView::Text(name)) ==> (a + b).contains(
            ArgView::Text(name),
        ),
{
    let text = ArgView::Text(name);
    if tells(a, name, value) {
        let i = choose|i: int|
            0 <= i && i + 1 < a.len() && #[trigger] a[i] == ArgView::Text(name) && a[i + 1] == value;
        assert((a + b)[i] == a[i] && (a + b)[i + 1] == a[i + 1]);
    }
    if tells(b, name, value) {
        let i = choose|i: int|
            0 <= i && i + 1 < b.len() && #[trigger] b[i] == ArgView::Text(name) && b[i + 1] == value;
        assert((a + b)[a.len() + i] == b[i] && (a + b)[a.len() + i + 1] == b[i + 1]);
    }
    if a.contains(text) {
        let i = choose|i: int| 0 <= i < a.len() && a[i] == text;
        assert((a + b)[i] == text);
    }
    if b.contains(text) {
        let i = choose|i: int| 0 <= i < b.len() && b[i] == text;
        assert((a + b)[a.len() + i] == text);
    }
}

proof fn pairs_tell(name: Seq<char>, value: ArgView)
    ensures
        tells(seq![ArgView::Text(name), value], name, value),
        seq![ArgView::Text(name)].contains(ArgView::Text(name)),
{
    let pair = seq![ArgView::Text(name), value];
    assert(pair[0] == ArgView::Text(name) && pair[0int + 1] == value);
    assert(seq![ArgView::Text(name)][0] == ArgView::Text(name));
}

proof fn style_tells(job: JobAssignment, p: PreparedJobPaths, name: Seq<char>, value: ArgView)
    ensures
        tells(file_if(p.skin, "--skin"@, JobFile::Skin), name, value) ==> tells(style_args(job, p), name, value),
        tells(file_if(p.hud_config, "--hud-config"@, JobFile::HudConfig), name, value) ==> tells(style_args(job, p), name, value),
        tells(file_if(p.intro_user, "--intro-user-json"@, JobFile::IntroUser), name, value) ==> tells(style_args(job, p), name, value),
        tells(flag_if_off(job.render_intro_enabled, "--no-intro"@), name, value) ==> tells(style_args(job, p), name, value),
        tells(number_if(job.bg_opacity, 0, HUNDRED, "--bg-opacity"@), name, value) ==> tells(style_args(job, p), name, value),
        tells(number_if(job.scroll_speed, ONE, SIXTY, "--ss"@), name, value) ==> tells(style_args(job, p), name, value),
        tells(percent_if(job.motion_blur_percent, "--motion-blur"@), name, value) ==> tells(style_args(job, p), name, value),
        tells(percent_if(job.background_blur_percent, "--bg-blur"@), name, value) ==> tells(style_args(job, p), name, value),
        tells(flag_if_off(job.background_video_enabled, "--no-bg-video"@), name, value) ==> tells(style_args(job, p), name, value),
        tells(flag_if_off(job.storyboard_enabled, "--no-storyboard"@), name, value) ==> tells(style_args(job, p), name, value),
        tells(flag_if_off(job.skin_animations_enabled, "--no-skin-animations"@), name, value) ==> tells(style_args(job, p), name, value),
        tells(flag_if_off(job.combo_images_enabled, "--no-combo-burst"@), name, value) ==> tells(style_args(job, p), name, value),
        tells(number_if(job.music_volume, 0, HUNDRED, "--music-volume"@), name, value) ==> tells(style_args(job, p), name, value),
        tells(number_if(job.hitsound_volume, 0, HUNDRED, "--hitsound-volume"@), name, value) ==> tells(style_args(job, p), name, value),
        flag_if_off(job.render_intro_enabled, "--no-intro"@).contains(ArgView::Text(name)) ==> style_args(job, p).contains(ArgView::Text(name)),
        flag_if_off(job.background_video_enabled, "--no-bg-video"@).contains(ArgView::Text(name)) ==> style_args(job, p).contains(ArgView::Text(name)),
        flag_if_off(job.storyboard_enabled, "--no-storyboard"@).contains(ArgView::Text(name)) ==> style_args(job, p).contains(ArgView::Text(name)),
        flag_if_off(job.skin_animations_enabled, "--no-skin-animations"@).contains(ArgView::Text(name)) ==> style_args(job, p).contains(ArgView::Text(name)),
        flag_if_off(job.combo_images_enabled, "--no-combo-burst"@).contains(ArgView::Text(name)) ==> style_args(job, p).contains(ArgView::Text(name)),
{
    let f0 = file_if(p.skin, "--skin"@, JobFile::Skin);
    let f1 = file_if(p.hud_config, "--hud-config"@, JobFile::HudConfig);
    let f2 = file_if(p.intro_user, "--intro-user-json"@, JobFile::IntroUser);
    let f3 = flag_if_off(job.render_intro_enabled, "--no-intro"@);
    let f4 = number_if(job.bg_opacity, 0, HUNDRED, "--bg-opacity"@);
    let f5 = number_if(job.scroll_speed, ONE, SIXTY, "--ss"@);
    let f6 = percent_if(job.motion_blur_percent, "--motion-blur"@);
    let f7 = percent_if(job.background_blur_percent, "--bg-blur"@);
    let f8 = flag_if_off(job.background_video_enabled, "--no-bg-video"@);
    let f9 = flag_if_off(job.storyboard_enabled, "--no-storyboard"@);
    let f10 = flag_if_off(job.skin_animations_enabled, "--no-skin-animations"@);
    let f11 = flag_if_off(job.combo_images_enabled, "--no-combo-burst"@);
    let f12 = number_if(job.music_volume, 0, HUNDRED, "--music-volume"@);
    let f13 = number_if(job.hitsound_volume, 0, HUNDRED, "--hitsound-volume"@);
    let s1 = f0 + f1;
    joined_tell(f0, f1, name, value);
    let s2 = s1 + f2;
    joined_tell(s1, f2, name, value);
    let s3 = s2 + f3;
    joined_tell(s2, f3, name, value);
    let s4 = s3 + f4;
    joined_tell(s3, f4, name, value);
    let s5 = s4 + f5;
    joined_tell(s4, f5, name, value);
    let s6 = s5 + f6;
    joined_tell(s5, f6, name, value);
    let s7 = s6 + f7;
    joined_tell(s6, f7, name, value);
    let s8 = s7 + f8;
    joined_tell(s7, f8, name, value);
    let s9 = s8 + f9;
    joined_tell(s8, f9, name, value);
    let s10 = s9 + f10;
    joined_tell(s9, f10, name, value);
    let s11 = s10 + f11;
    joined_tell(s10, f11, name, value);
    let s12 = s11 + f12;
    joined_tell(s11, f12, name, value);
    let s13 = s12 + f13;
    joined_tell(s12, f13, name, value);
    assert(style_args(job, p) == s13);
}

proof fn command_tells(
    job: JobAssignment,
    p: PreparedJobPaths,
    report: bool,
    name: Seq<char>,
    value: ArgView,
)
    ensures
        tells(input_args(job, p), name, value) ==> tells(render_args(job, p, report), name, value),
        tells(output_args(job), name, value) ==> tells(render_args(job, p, report), name, value),
        tells(style_args(job, p), name, value) ==> tells(render_args(job, p, report), name, value),
        style_args(job, p).contains(ArgView::Text(name)) ==> render_args(job, p, report).contains(
            ArgView::Text(name),
        ),
        tells(file_if(p.beatmap, "--osu"@, JobFile::Beatmap), name, value) ==> tells(
            render_args(job, p, report),
            name,
            value,
        ),
        tells(file_if(report, "--report-out"@, JobFile::Report), name, value) ==> tells(
            render_args(job, p, report),
            name,
            value,
        ),
{
    let a = input_args(job, p);
    let b = output_args(job);
    let c = style_args(job, p);
    let d = file_if(p.beatmap, "--osu"@, JobFile::Beatmap);
    let e = file_if(report, "--report-out"@, JobFile::Report);
    joined_tell(a, b, name, value);
    joined_tell(a + b, c, name, value);
    joined_tell(a + b + c, d, name, value);
    joined_tell(a + b + c + d, e, name, value);
}

proof fn number_is_told(
    job: JobAssignment,
    p: PreparedJobPaths,
    report: bool,
    told: Option<Double>,
    min: u64,
    max: u64,
    name: Seq<char>,
)
    requires
        forall|value: ArgView|
            tells(number_if(told, min, max, name), name, value) ==> #[trigger] tells(
                style_args(job, p),
                name,
                value,
            ),
        (Double { bits: min }).at_most((Double { bits: max })),
    ensures
        tells_number(
            render_args(job, p, report),
            name,
            told,
            (Double { bits: min }),
            (Double { bits: max }),
        ),
{
    if let Some(v) = clamped(told, Double { bits: min }, Double { bits: max }) {
        pairs_tell(name, ArgView::Number(v));
        assert(tells(style_args(job, p), name, ArgView::Number(v)));
        command_tells(job, p, report, name, ArgView::Number(v));
    }
}

proof fn percent_is_told(
    job: JobAssignment,
    p: PreparedJobPaths,
    report: bool,
    told: Option<Double>,
    name: Seq<char>,
)
    requires
        forall|value: ArgView|
            tells(percent_if(told, name), name, value) ==> #[trigger] tells(
                style_args(job, p),
                name,
                value,
            ),
    ensures
        tells_percent(render_args(job, p, report), name, told),
{
    if let Some(v) = clamped(told, Double { bits: 0 }, Double { bits: HUNDRED }) {
        if !v.at_most(Double { bits: 0 }) {
            pairs_tell(name, ArgView::Rounded(v));
            assert(tells(style_args(job, p), name, ArgView::Rounded(v)));
            command_tells(job, p, report, name, ArgView::Rounded(v));
        }
    }
}

/// Every number that a job tells of the style, and that is finite, stands in the command line right behind
/// the option of its name, drawn into its range: the opacity of the background and the two volumes from
/// zero to a hundred, the scroll speed from one to sixty.
pub proof fn numbers_of_the_style_are_told(job: JobAssignment, p: PreparedJobPaths, report: bool)
    ensures
        tells_number(
            render_args(job, p, report),
            "--bg-opacity"@,
            job.bg_opacity,
            Double { bits: 0 },
            Double { bits: 0x4059_0000_0000_0000 },
        ),
        tells_number(
            render_args(job, p, report),
            "--ss"@,
            job.scroll_speed,
            Double { bits: 0x3ff0_0000_0000_0000 },
            Double { bits: 0x404e_0000_0000_0000 },
        ),
        tells_number(
            render_args(job, p, report),
            "--music-volume"@,
            job.music_volume,
            Double { bits: 0 },
            Double { bits: 0x4059_0000_0000_0000 },
        ),
        tells_number(
            render_args(job, p, report),
            "--hitsound-volume"@,
            job.hitsound_volume,
            Double { bits: 0 },
            Double { bits: 0x4059_0000_0000_0000 },
        ),
{
    assert forall|value: ArgView|
        tells(number_if(job.bg_opacity, 0, HUNDRED, "--bg-opacity"@), "--bg-opacity"@, value) implies #[trigger] tells(
        style_args(job, p),
        "--bg-opacity"@,
        value,
    ) by {
        style_tells(job, p, "--bg-opacity"@, value);
    }
    number_is_told(job, p, report, job.bg_opacity, 0, HUNDRED, "--bg-opacity"@);
    assert forall|value: ArgView|
        tells(number_if(job.scroll_speed, ONE, SIXTY, "--ss"@), "--ss"@, value) implies #[trigger] tells(
        style_args(job, p),
        "--ss"@,
        value,
    ) by {
        style_tells(job, p, "--ss"@, value);
    }
    number_is_told(job, p, report, job.scroll_speed, ONE, SIXTY, "--ss"@);
    assert forall|value: ArgView|
        tells(number_if(job.music_volume, 0, HUNDRED, "--music-volume"@), "--music-volume"@, value) implies #[trigger] tells(
        style_args(job, p),
        "--music-volume"@,
        value,
    ) by {
        style_tells(job, p, "--music-volume"@, value);
    }
    number_is_told(job, p, report, job.music_volume, 0, HUNDRED, "--music-volume"@);
    assert forall|value: ArgView|
        tells(number_if(job.hitsound_volume, 0, HUNDRED, "--hitsound-volume"@), "--hitsound-volume"@, value) implies #[trigger] tells(
        style_args(job, p),
        "--hitsound-volume"@,
        value,
    ) by {
        style_tells(job, p, "--hitsound-volume"@, value);
    }
    number_is_told(job, p, report, job.hitsound_volume, 0, HUNDRED, "--hitsound-volume"@);
}

/// Every blur above zero that a job tells stands in the command line right behind the option of its name,
/// at most a hundred.
pub proof fn blurs_are_told(job: JobAssignment, p: PreparedJobPaths, report: bool)
    ensures
        tells_percent(render_args(job, p, report), "--motion-blur"@, job.motion_blur_percent),
        tells_percent(render_args(job, p, report), "--bg-blur"@, job.background_blur_percent),
{
    assert forall|value: ArgView|
        tells(percent_if(job.motion_blur_percent, "--motion-blur"@), "--motion-blur"@, value) implies #[trigger] tells(
        style_args(job, p),
        "--motion-blur"@,
        value,
    ) by {
        style_tells(job, p, "--motion-blur"@, value);
    }
    percent_is_told(job, p, report, job.motion_blur_percent, "--motion-blur"@);
    assert forall|value: ArgView|
        tells(percent_if(job.background_blur_percent, "--bg-blur"@), "--bg-blur"@, value) implies #[trigger] tells(
        style_args(job, p),
        "--bg-blur"@,
        value,
    ) by {
        style_tells(job, p, "--bg-blur"@, value);
    }
    percent_is_told(job, p, report, job.background_blur_percent, "--bg-blur"@);
}

/// Everything that a job switches off is switched off in the command line, by the option of its name.
pub proof fn switches_are_told(job: JobAssignment, p: PreparedJobPaths, report: bool)
    ensures
        job.render_intro_enabled == Some(false) ==> render_args(job, p, report).contains(
            ArgView::Text("--no-intro"@),
        ),
        job.background_video_enabled == Some(false) ==> render_args(job, p, report).contains(
            ArgView::Text("--no-bg-video"@),
        ),
        job.storyboard_enabled == Some(false) ==> render_args(job, p, report).contains(
            ArgView::Text("--no-storyboard"@),
        ),
        job.skin_animations_enabled == Some(false) ==> render_args(job, p, report).contains(
            ArgView::Text("--no-skin-animations"@),
        ),
        job.combo_images_enabled == Some(false) ==> render_args(job, p, report).contains(
            ArgView::Text("--no-combo-burst"@),
        ),
{
    pairs_tell("--no-intro"@, ArgView::Text("--no-intro"@));
    style_tells(job, p, "--no-intro"@, ArgView::Text("--no-intro"@));
    command_tells(job, p, report, "--no-intro"@, ArgView::Text("--no-intro"@));
    pairs_tell("--no-bg-video"@, ArgView::Text("--no-bg-video"@));
    style_tells(job, p, "--no-bg-video"@, ArgView::Text("--no-bg-video"@));
    command_tells(job, p, report, "--no-bg-video"@, ArgView::Text("--no-bg-video"@));
    pairs_tell("--no-storyboard"@, ArgView::Text("--no-storyboard"@));
    style_tells(job, p, "--no-storyboard"@, ArgView::Text("--no-storyboard"@));
    command_tells(job, p, report, "--no-storyboard"@, ArgView::Text("--no-storyboard"@));
    pairs_tell("--no-skin-animations"@, ArgView::Text("--no-skin-animations"@));
    style_tells(job, p, "--no-skin-animations"@, ArgView::Text("--no-skin-animations"@));
    command_tells(job, p, report, "--no-skin-animations"@, ArgView::Text("--no-skin-animations"@));
    pairs_tell("--no-combo-burst"@, ArgView::Text("--no-combo-burst"@));
    style_tells(job, p, "--no-combo-burst"@, ArgView::Text("--no-combo-burst"@));
    command_tells(job, p, report, "--no-combo-burst"@, ArgView::Text("--no-combo-burst"@));
}

proof fn input_and_output_tell(job: JobAssignment, p: PreparedJobPaths)
    ensures
        tells(output_args(job), "--out"@, ArgView::File(JobFile::Output)),
        tells(output_args(job), "--songs-dir"@, ArgView::File(JobFile::Folder)),
        tells(
            output_args(job),
            "--width"@,
            ArgView::Text(scan::decimal(job.resolution.width as nat)),
        ),
        tells(
            output_args(job),
            "--height"@,
            ArgView::Text(scan::decimal(job.resolution.height as nat)),
        ),
        tells(
            output_args(job),
            "--fps"@,
            ArgView::Text(scan::decimal(job.resolution.fps as nat)),
        ),
        job.render_mode == WorkerRenderMode::Replay ==> tells(input_args(job, p), "--replay"@, ArgView::File(JobFile::Replay)),
        job.render_mode == WorkerRenderMode::Autoplay ==> tells(input_args(job, p), "--mapset"@, ArgView::File(JobFile::Mapset)),
        job.render_mode == WorkerRenderMode::Autoplay ==> tells(input_args(job, p), "--autoplay-mods-config"@, ArgView::File(JobFile::AutoplayMods)),
        job.render_mode == WorkerRenderMode::Replay && p.mapset ==> tells(input_args(job, p), "--mapset"@, ArgView::File(JobFile::Mapset)),
        job.render_mode == WorkerRenderMode::Autoplay || p.mapset ==> tells(
            input_args(job, p),
            "--diff-index"@,
            ArgView::Text(
                scan::signed_decimal(
                    match job.difficulty_index {
                        Some(i) => i as int,
                        None => 0,
                    },
                ),
            ),
        ),
{
    let o = output_args(job);
    assert(o[0] == ArgView::Text("--width"@) && o[0int + 1] == ArgView::Text(
        scan::decimal(job.resolution.width as nat),
    ));
    assert(o[2] == ArgView::Text("--height"@) && o[2int + 1] == ArgView::Text(
        scan::decimal(job.resolution.height as nat),
    ));
    assert(o[4] == ArgView::Text("--fps"@) && o[4int + 1] == ArgView::Text(
        scan::decimal(job.resolution.fps as nat),
    ));
    assert(o[6] == ArgView::Text("--out"@) && o[6int + 1] == ArgView::File(JobFile::Output));
    assert(o[8] == ArgView::Text("--songs-dir"@) && o[8int + 1] == ArgView::File(JobFile::Folder));
    let i = input_args(job, p);
    match job.render_mode {
        WorkerRenderMode::Autoplay => {
            assert(i[0] == ArgView::Text("--mapset"@) && i[0int + 1] == ArgView::File(JobFile::Mapset));
            assert(i[2] == ArgView::Text("--diff-index"@) && i[2int + 1] == ArgView::Text(
                difficulty_text(job),
            ));
            assert(i[4] == ArgView::Text("--autoplay-mods-config"@) && i[4int + 1] == ArgView::File(
                JobFile::AutoplayMods,
            ));
        },
        WorkerRenderMode::Replay => {
            assert(i[0] == ArgView::Text("--replay"@) && i[0int + 1] == ArgView::File(JobFile::Replay));
            if p.mapset {
                assert(i[2] == ArgView::Text("--mapset"@) && i[2int + 1] == ArgView::File(
                    JobFile::Mapset,
                ));
                assert(i[4] == ArgView::Text("--diff-index"@) && i[4int + 1] == ArgView::Text(
                    difficulty_text(job),
                ));
            }
        },
    }
}

/// Every file that was prepared stands in the command line right behind the option of its name, and the
/// video always has a place to go to.
pub proof fn files_are_told(job: JobAssignment, p: PreparedJobPaths, report: bool)
    ensures
        p.skin ==> tells(
            render_args(job, p, report),
            "--skin"@,
            ArgView::File(JobFile::Skin),
        ),
        p.hud_config ==> tells(
            render_args(job, p, report),
            "--hud-config"@,
            ArgView::File(JobFile::HudConfig),
        ),
        p.intro_user ==> tells(
            render_args(job, p, report),
            "--intro-user-json"@,
            ArgView::File(JobFile::IntroUser),
        ),
        p.beatmap ==> tells(
            render_args(job, p, report),
            "--osu"@,
            ArgView::File(JobFile::Beatmap),
        ),
        report ==> tells(
            render_args(job, p, report),
            "--report-out"@,
            ArgView::File(JobFile::Report),
        ),
        tells(
            render_args(job, p, report),
            "--out"@,
            ArgView::File(JobFile::Output),
        ),
        tells(
            render_args(job, p, report),
            "--songs-dir"@,
            ArgView::File(JobFile::Folder),
        ),
        job.render_mode == WorkerRenderMode::Replay ==> tells(
            render_args(job, p, report),
            "--replay"@,
            ArgView::File(JobFile::Replay),
        ),
        job.render_mode == WorkerRenderMode::Autoplay ==> tells(
            render_args(job, p, report),
            "--mapset"@,
            ArgView::File(JobFile::Mapset),
        ),
        job.render_mode == WorkerRenderMode::Autoplay ==> tells(
            render_args(job, p, report),
            "--autoplay-mods-config"@,
            ArgView::File(JobFile::AutoplayMods),
        ),
        job.render_mode == WorkerRenderMode::Replay && p.mapset ==> tells(
            render_args(job, p, report),
            "--mapset"@,
            ArgView::File(JobFile::Mapset),
        ),
{
    input_and_output_tell(job, p);
    pairs_tell("--skin"@, ArgView::File(JobFile::Skin));
    style_tells(job, p, "--skin"@, ArgView::File(JobFile::Skin));
    command_tells(job, p, report, "--skin"@, ArgView::File(JobFile::Skin));
    pairs_tell("--hud-config"@, ArgView::File(JobFile::HudConfig));
    style_tells(job, p, "--hud-config"@, ArgView::File(JobFile::HudConfig));
    command_tells(job, p, report, "--hud-config"@, ArgView::File(JobFile::HudConfig));
    pairs_tell("--intro-user-json"@, ArgView::File(JobFile::IntroUser));
    style_tells(job, p, "--intro-user-json"@, ArgView::File(JobFile::IntroUser));
    command_tells(job, p, report, "--intro-user-json"@, ArgView::File(JobFile::IntroUser));
    pairs_tell("--osu"@, ArgView::File(JobFile::Beatmap));
    style_tells(job, p, "--osu"@, ArgView::File(JobFile::Beatmap));
    command_tells(job, p, report, "--osu"@, ArgView::File(JobFile::Beatmap));
    pairs_tell("--report-out"@, ArgView::File(JobFile::Report));
    style_tells(job, p, "--report-out"@, ArgView::File(JobFile::Report));
    command_tells(job, p, report, "--report-out"@, ArgView::File(JobFile::Report));
    pairs_tell("--out"@, ArgView::File(JobFile::Output));
    style_tells(job, p, "--out"@, ArgView::File(JobFile::Output));
    command_tells(job, p, report, "--out"@, ArgView::File(JobFile::Output));
    pairs_tell("--songs-dir"@, ArgView::File(JobFile::Folder));
    style_tells(job, p, "--songs-dir"@, ArgView::File(JobFile::Folder));
    command_tells(job, p, report, "--songs-dir"@, ArgView::File(JobFile::Folder));
    pairs_tell("--replay"@, ArgView::File(JobFile::Replay));
    style_tells(job, p, "--replay"@, ArgView::File(JobFile::Replay));
    command_tells(job, p, report, "--replay"@, ArgView::File(JobFile::Replay));
    pairs_tell("--mapset"@, ArgView::File(JobFile::Mapset));
    style_tells(job, p, "--mapset"@, ArgView::File(JobFile::Mapset));
    command_tells(job, p, report, "--mapset"@, ArgView::File(JobFile::Mapset));
    pairs_tell("--autoplay-mods-config"@, ArgView::File(JobFile::AutoplayMods));
    style_tells(job, p, "--autoplay-mods-config"@, ArgView::File(JobFile::AutoplayMods));
    command_tells(job, p, report, "--autoplay-mods-config"@, ArgView::File(JobFile::AutoplayMods));
}

/// The size of the video and its frames are told as the job has them, and so is the difficulty wherever
/// the beatmaps come in a set.
pub proof fn sizes_are_told(job: JobAssignment, p: PreparedJobPaths, report: bool)
    ensures
        tells(
            render_args(job, p, report),
            "--width"@,
            ArgView::Text(scan::decimal(job.resolution.width as nat)),
        ),
        tells(
            render_args(job, p, report),
            "--height"@,
            ArgView::Text(scan::decimal(job.resolution.height as nat)),
        ),
        tells(
            render_args(job, p, report),
            "--fps"@,
            ArgView::Text(scan::decimal(job.resolution.fps as nat)),
        ),
        job.render_mode == WorkerRenderMode::Autoplay || p.mapset ==> tells(
            render_args(job, p, report),
            "--diff-index"@,
            ArgView::Text(
                scan::signed_decimal(
                    match job.difficulty_index {
                        Some(i) => i as int,
                        None => 0,
                    },
                ),
            ),
        ),
{
    input_and_output_tell(job, p);
    command_tells(
        job,
        p,
        report,
        "--width"@,
        ArgView::Text(scan::decimal(job.resolution.width as nat)),
    );
    command_tells(
        job,
        p,
        report,
        "--height"@,
        ArgView::Text(scan::decimal(job.resolution.height as nat)),
    );
    command_tells(
        job,
        p,
        report,
        "--fps"@,
        ArgView::Text(scan::decimal(job.resolution.fps as nat)),
    );
    command_tells(
        job,
        p,
        report,
        "--diff-index"@,
        ArgView::Text(
            scan::signed_decimal(
                match job.difficulty_index {
                    Some(i) => i as int,
                    None => 0,
                },
            ),
        ),
    );
}

/// As many arguments as a list of conditions adds.
#[verifier::opaque]
pub open spec fn words(condition: bool, count: int) -> int {
    if condition {
        count
    } else {
        0
    }
}

proof fn file_words(condition: bool, name: Seq<char>, file: JobFile)
    ensures
        file_if(condition, name, file).len() == words(condition, 2),
{
    reveal(words);
}

proof fn flag_words(setting: Option<bool>, name: Seq<char>)
    ensures
        flag_if_off(setting, name).len() == words(setting == Some(false), 1),
{
    reveal(words);
}

proof fn number_words(value: Option<Double>, min: u64, max: u64, name: Seq<char>)
    ensures
        number_if(value, min, max, name).len() == words(value matches Some(v) && v.is_finite(), 2),
{
    reveal(words);
}

proof fn percent_words(value: Option<Double>, name: Seq<char>)
    ensures
        percent_if(value, name).len() == words(
            value matches Some(v) && v.is_finite() && !v.at_most(Double { bits: 0 }),
            2,
        ),
{
    reveal(words);
}

proof fn input_words(job: JobAssignment, p: PreparedJobPaths)
    ensures
        input_args(job, p).len() == words(job.render_mode == WorkerRenderMode::Autoplay, 6) + words(
            job.render_mode == WorkerRenderMode::Replay,
            2,
        ) + words(job.render_mode == WorkerRenderMode::Replay && p.mapset, 4),
        output_args(job).len() == 10,
{
    reveal(words);
}

proof fn joined_words(
    f0: Seq<ArgView>,
    f1: Seq<ArgView>,
    f2: Seq<ArgView>,
    f3: Seq<ArgView>,
    f4: Seq<ArgView>,
    f5: Seq<ArgView>,
    f6: Seq<ArgView>,
    f7: Seq<ArgView>,
    f8: Seq<ArgView>,
    f9: Seq<ArgView>,
    f10: Seq<ArgView>,
    f11: Seq<ArgView>,
    f12: Seq<ArgView>,
    f13: Seq<ArgView>,
)
    ensures
        (f0 + f1 + f2 + f3 + f4 + f5 + f6 + f7 + f8 + f9 + f10 + f11 + f12 + f13).len() == f0.len() + f1.len() + f2.len() + f3.len() + f4.len() + f5.len() + f6.len() + f7.len() + f8.len() + f9.len() + f10.len() + f11.len() + f12.len() + f13.len(),
{
}

proof fn style_words(job: JobAssignment, p: PreparedJobPaths)
    ensures
        style_args(job, p).len() == words(p.skin, 2) + words(p.hud_config, 2) + words(p.intro_user, 2) + words(job.render_intro_enabled == Some(false), 1) + words(job.bg_opacity matches Some(v) && v.is_finite(), 2) + words(job.scroll_speed matches Some(v) && v.is_finite(), 2) + words(job.motion_blur_percent matches Some(v) && v.is_finite() && !v.at_most(Double { bits: 0 }), 2) + words(job.background_blur_percent matches Some(v) && v.is_finite() && !v.at_most(Double { bits: 0 }), 2) + words(job.background_video_enabled == Some(false), 1) + words(job.storyboard_enabled == Some(false), 1) + words(job.skin_animations_enabled == Some(false), 1) + words(job.combo_images_enabled == Some(false), 1) + words(job.music_volume matches Some(v) && v.is_finite(), 2) + words(job.hitsound_volume matches Some(v) && v.is_finite(), 2),
{
    file_words(p.skin, "--skin"@, JobFile::Skin);
    file_words(p.hud_config, "--hud-config"@, JobFile::HudConfig);
    file_words(p.intro_user, "--intro-user-json"@, JobFile::IntroUser);
    flag_words(job.render_intro_enabled, "--no-intro"@);
    number_words(job.bg_opacity, 0, HUNDRED, "--bg-opacity"@);
    number_words(job.scroll_speed, ONE, SIXTY, "--ss"@);
    percent_words(job.motion_blur_percent, "--motion-blur"@);
    percent_words(job.background_blur_percent, "--bg-blur"@);
    flag_words(job.background_video_enabled, "--no-bg-video"@);
    flag_words(job.storyboard_enabled, "--no-storyboard"@);
    flag_words(job.skin_animations_enabled, "--no-skin-animations"@);
    flag_words(job.combo_images_enabled, "--no-combo-burst"@);
    number_words(job.music_volume, 0, HUNDRED, "--music-volume"@);
    number_words(job.hitsound_volume, 0, HUNDRED, "--hitsound-volume"@);
    joined_words(
        file_if(p.skin, "--skin"@, JobFile::Skin),
        file_if(p.hud_config, "--hud-config"@, JobFile::HudConfig),
        file_if(p.intro_user, "--intro-user-json"@, JobFile::IntroUser),
        flag_if_off(job.render_intro_enabled, "--no-intro"@),
        number_if(job.bg_opacity, 0, HUNDRED, "--bg-opacity"@),
        number_if(job.scroll_speed, ONE, SIXTY, "--ss"@),
        percent_if(job.motion_blur_percent, "--motion-blur"@),
        percent_if(job.background_blur_percent, "--bg-blur"@),
        flag_if_off(job.background_video_enabled, "--no-bg-video"@),
        flag_if_off(job.storyboard_enabled, "--no-storyboard"@),
        flag_if_off(job.skin_animations_enabled, "--no-skin-animations"@),
        flag_if_off(job.combo_images_enabled, "--no-combo-burst"@),
        number_if(job.music_volume, 0, HUNDRED, "--music-volume"@),
        number_if(job.hitsound_volume, 0, HUNDRED, "--hitsound-volume"@),
    );
}

/// Nothing but what the job tells stands in the command line: two words for every file, number and size,
/// one for every switch.
pub proof fn nothing_else_is_told(job: JobAssignment, p: PreparedJobPaths, report: bool)
    ensures
        render_args(job, p, report).len() == words(job.render_mode == WorkerRenderMode::Autoplay, 6)
            + words(job.render_mode == WorkerRenderMode::Replay, 2) + words(
            job.render_mode == WorkerRenderMode::Replay && p.mapset,
            4,
        ) + 10 + words(p.skin, 2) + words(p.hud_config, 2) + words(p.intro_user, 2) + words(p.beatmap, 2)
            + words(report, 2) + words(job.render_intro_enabled == Some(false), 1) + words(
            job.background_video_enabled == Some(false),
            1,
        ) + words(job.storyboard_enabled == Some(false), 1) + words(
            job.skin_animations_enabled == Some(false),
            1,
        ) + words(job.combo_images_enabled == Some(false), 1) + words(
            job.bg_opacity matches Some(v) && v.is_finite(),
            2,
        ) + words(job.scroll_speed matches Some(v) && v.is_finite(), 2) + words(
            job.music_volume matches Some(v) && v.is_finite(),
            2,
        ) + words(job.hitsound_volume matches Some(v) && v.is_finite(), 2) + words(
            job.motion_blur_percent matches Some(v) && v.is_finite() && !v.at_most(Double { bits: 0 }),
            2,
        ) + words(
            job.background_blur_percent matches Some(v) && v.is_finite() && !v.at_most(
                Double { bits: 0 },
            ),
            2,
        ),
{
    input_words(job, p);
    style_words(job, p);
    file_words(p.beatmap, "--osu"@, JobFile::Beatmap);
    file_words(report, "--report-out"@, JobFile::Report);
}

// ---------------------------------------------------------------------------------------------
// What the steps of a job do
// ---------------------------------------------------------------------------------------------

proof fn joined_steps_stand(a: Seq<StepView>, b: Seq<StepView>, x: StepView)
    ensures
        a.contains(x) || b.contains(x) ==> (a + b).contains(x),
{
    if a.contains(x) {
        let i = choose|i: int| 0 <= i < a.len() && a[i] == x;
        assert((a + b)[i] == x);
    }
    if b.contains(x) {
        let i = choose|i: int| 0 <= i < b.len() && b[i] == x;
        assert((a + b)[a.len() + i] == x);
    }
}

proof fn fetched_file_stands(url: Option<String>, file: JobFile, limit: u64)
    ensures
        url matches Some(u) ==> fetch(url, file, limit).contains(StepView::Fetch { file, url: u@, limit }),
{
    if let Some(u) = url {
        assert(fetch(url, file, limit)[0] == (StepView::Fetch { file, url: u@, limit }));
    }
}

proof fn steps_stand_before(job: JobAssignment, x: StepView)
    ensures
        input_steps(job).contains(x) ==> steps_before(job).contains(x),
        fetch(job.skin_url, JobFile::Skin, SKIN_LIMIT_BYTES).contains(x) ==> steps_before(job).contains(x),
{
    let begin = seq![
        StepView::EnsureTools,
        StepView::MakeFolder,
        StepView::Report {
            progress: 0,
            step: "Descargando archivos..."@,
            phase: "input_download"@,
        },
    ];
    let intro = when(job.render_intro_enabled != Some(false), StepView::PrepareIntro);
    let input = input_steps(job);
    let skin = fetch(job.skin_url, JobFile::Skin, SKIN_LIMIT_BYTES);
    let hud = when(job.hud_config is Some, StepView::WriteHudConfig);
    let mods = when(job.render_mode == WorkerRenderMode::Autoplay, StepView::WriteAutoplayMods);
    let end = seq![
        StepView::Report {
            progress: 5,
            step: "Preparando render..."@,
            phase: "input_download"@,
        },
    ];
    let s1 = begin + intro;
    let s2 = s1 + input;
    let s3 = s2 + skin;
    let s4 = s3 + hud;
    let s5 = s4 + mods;
    joined_steps_stand(s1, input, x);
    joined_steps_stand(s2, skin, x);
    joined_steps_stand(s3, hud, x);
    joined_steps_stand(s4, mods, x);
    joined_steps_stand(s5, end, x);
    assert(steps_before(job) == s5 + end);
}

/// Every file that a job has an address for is fetched from it before the render, within the limit for it: a
/// replay within sixty-four mebibytes, a mapset within five hundred and twelve, a beatmap within sixteen and a
/// skin within a hundred and twenty-eight. A beatmap is fetched only where there is no mapset.
pub proof fn told_files_are_fetched(job: JobAssignment)
    ensures
        job.render_mode == WorkerRenderMode::Replay ==> (job.replay_url matches Some(u) ==> steps_before(
            job,
        ).contains(StepView::Fetch { file: JobFile::Replay, url: u@, limit: 67_108_864 })),
        job.mapset_url matches Some(u) ==> steps_before(job).contains(
            StepView::Fetch { file: JobFile::Mapset, url: u@, limit: 536_870_912 },
        ),
        job.render_mode == WorkerRenderMode::Replay && job.mapset_url is None ==> (
        job.beatmap_url matches Some(u) ==> steps_before(job).contains(
            StepView::Fetch { file: JobFile::Beatmap, url: u@, limit: 16_777_216 },
        )),
        job.skin_url matches Some(u) ==> steps_before(job).contains(
            StepView::Fetch { file: JobFile::Skin, url: u@, limit: 134_217_728 },
        ),
{
    fetched_file_stands(job.replay_url, JobFile::Replay, REPLAY_LIMIT_BYTES);
    fetched_file_stands(job.mapset_url, JobFile::Mapset, MAPSET_LIMIT_BYTES);
    fetched_file_stands(job.beatmap_url, JobFile::Beatmap, BEATMAP_LIMIT_BYTES);
    fetched_file_stands(job.skin_url, JobFile::Skin, SKIN_LIMIT_BYTES);
    let replay = fetch(job.replay_url, JobFile::Replay, REPLAY_LIMIT_BYTES);
    let mapset = fetch(job.mapset_url, JobFile::Mapset, MAPSET_LIMIT_BYTES);
    let beatmap = fetch(job.beatmap_url, JobFile::Beatmap, BEATMAP_LIMIT_BYTES);
    if let Some(u) = job.skin_url {
        let x = StepView::Fetch { file: JobFile::Skin, url: u@, limit: SKIN_LIMIT_BYTES };
        steps_stand_before(job, x);
    }
    if let Some(u) = job.replay_url {
        let x = StepView::Fetch { file: JobFile::Replay, url: u@, limit: REPLAY_LIMIT_BYTES };
        joined_steps_stand(replay, mapset, x);
        joined_steps_stand(replay, beatmap, x);
        steps_stand_before(job, x);
    }
    if let Some(u) = job.mapset_url {
        let x = StepView::Fetch { file: JobFile::Mapset, url: u@, limit: MAPSET_LIMIT_BYTES };
        joined_steps_stand(replay, mapset, x);
        steps_stand_before(job, x);
    }
    if let Some(u) = job.beatmap_url {
        let x = StepView::Fetch { file: JobFile::Beatmap, url: u@, limit: BEATMAP_LIMIT_BYTES };
        joined_steps_stand(replay, beatmap, x);
        steps_stand_before(job, x);
    }
}

/// A job begins with the tools and its folder; it is rendered after everything was prepared, the report of a
/// replay is read after the render, and the video is uploaded last.
pub proof fn steps_come_in_order(job: JobAssignment)
    ensures
        job_steps(job)[0] == StepView::EnsureTools,
        job_steps(job)[1] == StepView::MakeFolder,
        job_steps(job).len() > 2,
        job_steps(job).last() == StepView::Upload,
        job_steps(job)[steps_before(job).len() as int] == (StepView::Render {
            with_report: job.render_mode == WorkerRenderMode::Replay,
        }),
        job.render_mode == WorkerRenderMode::Replay ==> job_steps(job)[steps_before(job).len() as int + 1]
            == StepView::ReadReport,
        job.hud_config is Some ==> steps_before(job).contains(StepView::WriteHudConfig),
        job.render_mode == WorkerRenderMode::Autoplay ==> steps_before(job).contains(
            StepView::WriteAutoplayMods,
        ),
        job.render_intro_enabled != Some(false) ==> steps_before(job).contains(StepView::PrepareIntro),
{
    let s = steps_before(job);
    let n = s.len() as int;
    if job.render_intro_enabled != Some(false) {
        assert(s[3] == StepView::PrepareIntro);
    }
    if job.render_mode == WorkerRenderMode::Autoplay {
        assert(s[n - 2] == StepView::WriteAutoplayMods);
        if job.hud_config is Some {
            assert(s[n - 3] == StepView::WriteHudConfig);
        }
    } else if job.hud_config is Some {
        assert(s[n - 2] == StepView::WriteHudConfig);
    }
}

/// A file of a job is named by what it is, with an extension behind that; without one that is told, with the usual
/// one and no other.
pub proof fn files_are_named_by_what_they_are(
    name: Seq<char>,
    stem: Seq<char>,
    ext: Option<String>,
    usual: Seq<char>,
)
    ensures
        named(name, stem, ext, usual) ==> scan::begins(name, stem),
        named(name, stem, None, usual) <==> name == stem + usual,
{
    if named(name, stem, ext, usual) {
        let e = choose|e: Seq<char>|
            #[trigger] jobs::may_have_extension(text::opt_text(ext), usual, e) && name == stem + e;
        assert(name.subrange(0, stem.len() as int) =~= stem);
    }
    if named(name, stem, None, usual) {
        let e = choose|e: Seq<char>|
            #[trigger] jobs::may_have_extension(text::opt_text(None), usual, e) && name == stem + e;
        assert(e == usual);
    }
    if name == stem + usual {
        assert(jobs::may_be_extension_of(None, None) && usual == jobs::file_extension(None, None, usual));
        assert(jobs::may_have_extension(text::opt_text(None), usual, usual));
    }
}

} // verus!
