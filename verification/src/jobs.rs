//! Render jobs: what a worker is told to render, and the steps that it takes.
use crate::error;
use crate::error::{invalid, AppError, AppResult, ErrorView};
use crate::json::Json;
use crate::paths;
use crate::paths::path_extension;
use crate::scan;
use crate::scan::show;
use crate::text;
use crate::text::{blank, borrow_text, cat, cat3, chars_of, filled_text, lowercase};
use crate::types::Double;
use vstd::prelude::*;

verus! {

pub const REPLAY_LIMIT_BYTES: u64 = 67_108_864;

pub const BEATMAP_LIMIT_BYTES: u64 = 16_777_216;

pub const MAPSET_LIMIT_BYTES: u64 = 536_870_912;

pub const SKIN_LIMIT_BYTES: u64 = 134_217_728;

pub const INTRO_ASSET_LIMIT_BYTES: u64 = 16_777_216;

pub const HUD_ASSET_LIMIT_BYTES: u64 = 67_108_864;

pub const HUD_FONT_LIMIT_BYTES: u64 = 16_777_216;

pub const TOTAL_JOB_LIMIT_BYTES: u64 = 805_306_368;

pub const JSON_LIMIT_BYTES: u64 = 524_288;

pub const HUD_CONFIG_JSON_LIMIT_BYTES: u64 = 33_554_432;

pub const DEFAULT_JOB_MAX_RENDER_MS: u64 = 600_000;

/// What is rendered: a replay, or a beatmap that plays itself.
#[derive(Clone, Copy, PartialEq, Eq, Structural)]
pub enum WorkerRenderMode {
    Replay,
    Autoplay,
}

#[derive(Clone, Copy, PartialEq, Eq, Structural)]
pub struct WorkerResolution {
    pub width: u32,
    pub height: u32,
    pub fps: u32,
}

/// What the intro of a video shows of the player.
pub struct IntroUserAssignment {
    pub avatar_url: Option<String>,
    pub country_code: Option<String>,
    pub flag_url: Option<String>,
    pub team_badge_url: Option<String>,
}

/// A job as the server assigns it.
pub struct JobAssignment {
    pub id: String,
    pub attempt_id: Option<String>,
    pub attempt_number: Option<u32>,
    pub render_mode: WorkerRenderMode,
    pub replay_url: Option<String>,
    pub replay_extension: Option<String>,
    pub beatmap_url: Option<String>,
    pub beatmap_extension: Option<String>,
    pub mapset_url: Option<String>,
    pub mapset_extension: Option<String>,
    pub difficulty_index: Option<i64>,
    pub skin_url: Option<String>,
    pub skin_extension: Option<String>,
    pub output_upload_url: String,
    pub output_storage_key: String,
    pub max_output_size_bytes: u64,
    pub max_render_duration_ms: Option<u64>,
    pub hud_config: Option<Json>,
    pub bg_opacity: Option<Double>,
    pub scroll_speed: Option<Double>,
    pub motion_blur_percent: Option<Double>,
    pub background_blur_percent: Option<Double>,
    pub background_video_enabled: Option<bool>,
    pub render_intro_enabled: Option<bool>,
    pub storyboard_enabled: Option<bool>,
    pub skin_animations_enabled: Option<bool>,
    pub combo_images_enabled: Option<bool>,
    pub music_volume: Option<Double>,
    pub hitsound_volume: Option<Double>,
    pub intro_user: Option<IntroUserAssignment>,
    pub resolution: WorkerResolution,
}

impl JobAssignment {
    /// The attempt at the job; a job without one is its own attempt.
    pub open spec fn attempt(self) -> Seq<char> {
        match self.attempt_id {
            Some(a) => if text::is_blank(a@) {
                self.id@
            } else {
                a@
            },
            None => self.id@,
        }
    }

    /// The attempt at the job; a job without one is its own attempt.
    pub fn attempt_id(&self) -> (r: &str)
        ensures
            r@ == self.attempt(),
    {
        match &self.attempt_id {
            Some(a) => if blank(a.as_str()) {
                self.id.as_str()
            } else {
                a.as_str()
            },
            None => self.id.as_str(),
        }
    }
}

// ---------------------------------------------------------------------------------------------
// Which jobs are taken
// ---------------------------------------------------------------------------------------------

/// The two sizes that are rendered, at sixty frames per second.
pub open spec fn allowed_resolution(r: WorkerResolution) -> bool {
    &&& (r.width == 1280 && r.height == 720) || (r.width == 1920 && r.height == 1080)
    &&& r.fps == 60
}

/// A resolution that is not rendered, as the message names it.
pub open spec fn resolution_problem(r: WorkerResolution) -> Seq<char> {
    "unexpected render resolution requested: "@ + scan::decimal(r.width as nat) + "x"@
        + scan::decimal(r.height as nat) + "@"@ + scan::decimal(r.fps as nat)
}

/// Refuses a resolution that is not rendered.
pub fn assert_allowed_resolution(resolution: &WorkerResolution) -> (r: AppResult<()>)
    ensures
        error::plain(r) == if allowed_resolution(*resolution) {
            Ok(())
        } else {
            Err(ErrorView::InvalidInput(resolution_problem(*resolution)))
        },
{
    let size_ok = (resolution.width == 1280 && resolution.height == 720) || (resolution.width
        == 1920 && resolution.height == 1080);
    if size_ok && resolution.fps == 60 {
        return Ok(());
    }
    let mut message = cat3(
        "unexpected render resolution requested: ",
        show(resolution.width as u64).as_str(),
        "x",
    );
    message.append(show(resolution.height as u64).as_str());
    message.append("@");
    message.append(show(resolution.fps as u64).as_str());
    Err(AppError::InvalidInput(message))
}

/// An optional text that is missing or blank.
pub open spec fn lacking(o: Option<String>) -> bool {
    match o {
        Some(s) => text::is_blank(s@),
        None => true,
    }
}

fn lacks(o: &Option<String>) -> (r: bool)
    ensures
        r == lacking(*o),
{
    match o {
        Some(s) => blank(s.as_str()),
        None => true,
    }
}

/// A difficulty is told.
pub open spec fn has_difficulty(job: JobAssignment) -> bool {
    job.difficulty_index matches Some(i) && i >= 0
}

/// The first thing that is wrong with a job, if anything is.
pub open spec fn job_problem(job: JobAssignment) -> Option<Seq<char>> {
    if text::is_blank(job.id@) {
        Some("job missing id"@)
    } else if job.attempt_number == Some(0u32) {
        Some("job declared invalid attempt number"@)
    } else if !allowed_resolution(job.resolution) {
        Some(resolution_problem(job.resolution))
    } else if text::is_blank(job.output_upload_url@) {
        Some("job missing output upload URL"@)
    } else if text::is_blank(job.output_storage_key@) {
        Some("job missing output storage key"@)
    } else if job.max_output_size_bytes == 0 {
        Some("job declared invalid max output size"@)
    } else {
        match job.render_mode {
            WorkerRenderMode::Autoplay => if lacking(job.mapset_url) || !has_difficulty(job) {
                Some("autoplay job missing valid mapset URL or difficulty index"@)
            } else {
                None
            },
            WorkerRenderMode::Replay => if lacking(job.replay_url) {
                Some("replay job missing replay URL"@)
            } else if job.mapset_url is None && job.beatmap_url is None {
                Some("replay job missing resolved mapset or beatmap URL"@)
            } else if job.mapset_url is Some && !has_difficulty(job) {
                Some("replay job missing valid difficulty index for mapset"@)
            } else {
                None
            },
        }
    }
}

/// What becomes of a job with that problem.
pub open spec fn job_outcome(job: JobAssignment) -> Result<(), ErrorView> {
    match job_problem(job) {
        Some(p) => Err(ErrorView::InvalidInput(p)),
        None => Ok(()),
    }
}

/// Refuses a job that cannot be rendered.
pub fn validate_job_assignment(job: &JobAssignment) -> (r: AppResult<()>)
    ensures
        error::plain(r) == job_outcome(*job),
{
    if blank(job.id.as_str()) {
        return Err(invalid("job missing id"));
    }
    if let Some(n) = job.attempt_number {
        if n == 0 {
            return Err(invalid("job declared invalid attempt number"));
        }
    }
    match assert_allowed_resolution(&job.resolution) {
        Ok(()) => {},
        Err(e) => {
            return Err(e);
        },
    }
    if blank(job.output_upload_url.as_str()) {
        return Err(invalid("job missing output upload URL"));
    }
    if blank(job.output_storage_key.as_str()) {
        return Err(invalid("job missing output storage key"));
    }
    if job.max_output_size_bytes == 0 {
        return Err(invalid("job declared invalid max output size"));
    }
    let difficulty = match job.difficulty_index {
        Some(i) => i >= 0,
        None => false,
    };
    match job.render_mode {
        WorkerRenderMode::Autoplay => {
            if lacks(&job.mapset_url) || !difficulty {
                return Err(invalid("autoplay job missing valid mapset URL or difficulty index"));
            }
        },
        WorkerRenderMode::Replay => {
            if lacks(&job.replay_url) {
                return Err(invalid("replay job missing replay URL"));
            }
            if job.mapset_url.is_none() && job.beatmap_url.is_none() {
                return Err(invalid("replay job missing resolved mapset or beatmap URL"));
            }
            if job.mapset_url.is_some() && !difficulty {
                return Err(invalid("replay job missing valid difficulty index for mapset"));
            }
        },
    }
    Ok(())
}

/// How long a render may take, in milliseconds.
pub open spec fn render_limit(told: Option<u64>) -> u64 {
    match told {
        Some(ms) => if ms == 0 {
            DEFAULT_JOB_MAX_RENDER_MS
        } else if ms < 1000 {
            1000
        } else {
            ms
        },
        None => DEFAULT_JOB_MAX_RENDER_MS,
    }
}

/// The milliseconds that a render may take: what the job tells, or ten minutes, but a second at
/// least.
pub fn render_timeout_for_job(job: &JobAssignment) -> (r: u64)
    ensures
        r == render_limit(job.max_render_duration_ms),
        r == match job.max_render_duration_ms {
            Some(ms) => if ms == 0 {
                DEFAULT_JOB_MAX_RENDER_MS
            } else if ms < 1000 {
                1000
            } else {
                ms
            },
            None => DEFAULT_JOB_MAX_RENDER_MS,
        },
{
    match job.max_render_duration_ms {
        Some(ms) => if ms == 0 {
            DEFAULT_JOB_MAX_RENDER_MS
        } else if ms < 1000 {
            1000
        } else {
            ms
        },
        None => DEFAULT_JOB_MAX_RENDER_MS,
    }
}

// ---------------------------------------------------------------------------------------------
// Names of files
// ---------------------------------------------------------------------------------------------

/// Letters, digits, the hyphen and the underscore.
pub open spec fn is_name_char(c: char) -> bool {
    text::is_alnum(c) || c == '-' || c == '_'
}

/// A character of a name, or an underscore in its place.
pub open spec fn name_char(c: char) -> char {
    if is_name_char(c) {
        c
    } else {
        '_'
    }
}

fn to_name_char(c: char) -> (r: char)
    ensures
        r == name_char(c),
{
    if text::alnum(c) || c == '-' || c == '_' {
        c
    } else {
        '_'
    }
}

/// The first characters of a text, each one of a name or an underscore in its place.
pub open spec fn name_of(s: Seq<char>, most: nat) -> Seq<char> {
    Seq::new(
        if s.len() < most {
            s.len()
        } else {
            most
        },
        |i: int| name_char(s[i]),
    )
}

fn make_name(s: &str, most: usize) -> (r: String)
    ensures
        r@ == name_of(s@, most as nat),
{
    let v = chars_of(s);
    let mut out = String::new();
    let mut i: usize = 0;
    while i < v.len() && i < most
        invariant
            i <= v@.len(),
            i <= most,
            v@ == s@,
            out@ == name_of(s@, i as nat),
        decreases v@.len() - i,
    {
        out.push(to_name_char(v[i]));
        i = i + 1;
        assert(out@ =~= name_of(s@, i as nat));
    }
    assert(out@ =~= name_of(s@, most as nat));
    out
}

/// The name of the folder of a job: at most ninety-six characters that a name can hold, or the other
/// name where that leaves nothing.
pub open spec fn path_component(s: Seq<char>, other: Seq<char>) -> Seq<char> {
    if s.len() == 0 {
        other
    } else {
        name_of(s, 96)
    }
}

/// The name of the folder of a job.
pub fn safe_path_component(value: &str, other: &str) -> (r: String)
    ensures
        r@ == path_component(value@, other@),
{
    if value.is_empty() {
        other.to_owned()
    } else {
        make_name(value, 96)
    }
}

/// The folder of a job is one folder: its name holds no separator and no dot, and is not long.
pub proof fn job_folder_is_plain(s: Seq<char>, other: Seq<char>)
    requires
        s.len() > 0,
    ensures
        0 < path_component(s, other).len() <= 96,
        forall|i: int|
            0 <= i < path_component(s, other).len() ==> is_name_char(
                #[trigger] path_component(s, other)[i],
            ),
{
}

/// The name of an asset: the characters of a name, without underscores at either end; the other name
/// where that leaves nothing.
pub open spec fn asset_name(value: Option<Seq<char>>, other: Seq<char>) -> Seq<char> {
    let raw = match text::filled(value) {
        Some(s) => s,
        None => other,
    };
    let all = Seq::new(raw.len(), |i: int| name_char(raw[i]));
    let safe = text::drop_back(text::drop_front(all, text::only('_')), text::only('_'));
    if safe.len() == 0 {
        other
    } else {
        safe
    }
}

/// The name of an asset.
pub fn safe_hud_asset_component(value: Option<&str>, other: &str) -> (r: String)
    ensures
        r@ == asset_name(text::opt_str(value), other@),
{
    let raw = match filled_text(value) {
        Some(s) => s,
        None => other.to_owned(),
    };
    let v = chars_of(raw.as_str());
    let all = make_name(raw.as_str(), v.len());
    assert(all@ =~= Seq::new(raw@.len(), |i: int| name_char(raw@[i])));
    let safe = text::trim_end_of(text::trim_start_of(all.as_str(), '_').as_str(), '_');
    if safe.as_str().is_empty() {
        other.to_owned()
    } else {
        safe
    }
}

/// One to twelve letters and digits.
pub open spec fn is_extension(s: Seq<char>) -> bool {
    0 < s.len() <= 12 && forall|i: int| 0 <= i < s.len() ==> text::is_alnum(#[trigger] s[i])
}

/// One to twelve letters and digits.
pub fn is_safe_extension(value: &str) -> (r: bool)
    ensures
        r == is_extension(value@),
{
    let v = chars_of(value);
    if v.len() == 0 || v.len() > 12 {
        return false;
    }
    let mut i: usize = 0;
    while i < v.len()
        invariant
            i <= v@.len(),
            v@ == value@,
            forall|j: int| 0 <= j < i ==> text::is_alnum(#[trigger] v@[j]),
        decreases v@.len() - i,
    {
        if !text::alnum(v[i]) {
            assert(!text::is_alnum(value@[i as int]));
            return false;
        }
        i = i + 1;
    }
    true
}

/// The extension of a file: the text itself where it is one with its dot, otherwise the extension of
/// the path that the text is; the usual one where that is none.
pub open spec fn file_extension(
    raw: Option<Seq<char>>,
    of_path: Option<Seq<char>>,
    usual: Seq<char>,
) -> Seq<char> {
    match text::filled(raw) {
        None => usual,
        Some(s) => if scan::begins(s, "."@) && is_extension(s.skip(1)) {
            text::lower_text(s)
        } else {
            match of_path {
                Some(e) => if is_extension(e) {
                    "."@ + text::lower_text(e)
                } else {
                    usual
                },
                None => usual,
            }
        },
    }
}

/// The extension of a file, given that of the path that the text is.
pub fn choose_extension(raw: Option<&str>, of_path: Option<&str>, usual: &str) -> (r: String)
    ensures
        r@ == file_extension(text::opt_str(raw), text::opt_str(of_path), usual@),
{
    let s = match filled_text(raw) {
        Some(s) => s,
        None => {
            return usual.to_owned();
        },
    };
    proof {
        reveal_strlit(".");
    }
    if let Some(rest) = scan::strip_prefix(s.as_str(), ".") {
        if is_safe_extension(rest.as_str()) {
            return lowercase(s.as_str());
        }
    }
    match of_path {
        Some(e) => if is_safe_extension(e) {
            cat(".", lowercase(e).as_str())
        } else {
            usual.to_owned()
        },
        None => usual.to_owned(),
    }
}

/// What a system may take for the extension of the path that a text is.
pub open spec fn may_be_extension_of(raw: Option<Seq<char>>, of_path: Option<Seq<char>>) -> bool {
    match text::filled(raw) {
        Some(s) => paths::may_extend(s, of_path),
        None => of_path is None,
    }
}

/// What may be the extension of a file that a text names.
pub open spec fn may_have_extension(raw: Option<Seq<char>>, usual: Seq<char>, ext: Seq<char>) -> bool {
    exists|of_path: Option<Seq<char>>|
        may_be_extension_of(raw, of_path) && ext == #[trigger] file_extension(raw, of_path, usual)
}

/// The extension of a file that a text names.
pub fn resolve_file_extension(raw: Option<&str>, usual: &str) -> (r: String)
    ensures
        may_have_extension(text::opt_str(raw), usual@, r@),
{
    let of_path = match filled_text(raw) {
        Some(s) => path_extension(s.as_str()),
        None => None,
    };
    let r = choose_extension(raw, borrow_text(&of_path), usual);
    assert(may_be_extension_of(text::opt_str(raw), text::opt_text(of_path)));
    assert(r@ == file_extension(text::opt_str(raw), text::opt_text(of_path), usual@));
    r
}

/// An extension is the usual one, or a dot and up to twelve letters and digits in lower case.
pub proof fn extension_is_safe(raw: Option<Seq<char>>, of_path: Option<Seq<char>>, usual: Seq<char>)
    ensures
        ({
            let e = file_extension(raw, of_path, usual);
            e == usual || (e.len() <= 13 && e[0] == '.' && is_extension(e.skip(1)) && e
                == text::lower_text(e))
        }),
{
    reveal_strlit(".");
    let e = file_extension(raw, of_path, usual);
    match text::filled(raw) {
        Some(s) => {
            if scan::begins(s, "."@) && is_extension(s.skip(1)) {
                assert(s.subrange(0, 1)[0] == s[0]);
                assert(e == text::lower_text(s));
                assert forall|i: int| 0 <= i < e.skip(1).len() implies text::is_alnum(
                    #[trigger] e.skip(1)[i],
                ) by {
                    assert(text::is_alnum(s.skip(1)[i]));
                }
                assert(text::lower_text(e) =~= e);
            } else if of_path is Some && is_extension(of_path->0) {
                let x = of_path->0;
                assert(e == "."@ + text::lower_text(x));
                assert(e.skip(1) =~= text::lower_text(x));
                assert forall|i: int| 0 <= i < e.skip(1).len() implies text::is_alnum(
                    #[trigger] e.skip(1)[i],
                ) by {
                    assert(text::is_alnum(x[i]));
                }
                assert(text::lower_text(e) =~= e);
            }
        },
        None => {},
    }
}

/// A job is taken only where it has everything that a render needs: an identifier, a size that is rendered,
/// somewhere to put the video, a limit for it, and the files of its mode; and where it has all that it is
/// taken.
pub proof fn taken_jobs_are_complete(job: JobAssignment)
    ensures
        job_outcome(job) is Ok <==> {
            &&& !text::is_blank(job.id@)
            &&& job.attempt_number != Some(0u32)
            &&& job.resolution.fps == 60
            &&& job.resolution.width == 1280 && job.resolution.height == 720 || job.resolution.width == 1920
                && job.resolution.height == 1080
            &&& !text::is_blank(job.output_upload_url@) && !text::is_blank(job.output_storage_key@)
            &&& job.max_output_size_bytes > 0
            &&& job.render_mode == WorkerRenderMode::Autoplay ==> (job.mapset_url matches Some(u)
                && !text::is_blank(u@))
            &&& job.render_mode == WorkerRenderMode::Autoplay || job.mapset_url is Some ==> (
            job.difficulty_index matches Some(i) && i >= 0)
            &&& job.render_mode == WorkerRenderMode::Replay ==> (job.replay_url matches Some(u)
                && !text::is_blank(u@)) && (job.mapset_url is Some || job.beatmap_url is Some)
        },
        job_outcome(job) matches Err(e) ==> e is InvalidInput,
{
}

/// The parts of a path that is made from a name are as long as the name, at most ninety-six characters, and
/// hold its letters, digits, hyphens and low lines in their places, and a low line for anything else.
pub proof fn names_stay_recognizable(s: Seq<char>, other: Seq<char>, i: int)
    requires
        s.len() > 0,
    ensures
        s.len() <= 96 ==> path_component(s, other).len() == s.len(),
        s.len() > 96 ==> path_component(s, other).len() == 96,
        0 <= i < path_component(s, other).len() && ('a' <= s[i] <= 'z' || 'A' <= s[i] <= 'Z' || '0' <= s[i]
            <= '9' || s[i] == '-' || s[i] == '_') ==> path_component(s, other)[i] == s[i],
        0 <= i < path_component(s, other).len() && !('a' <= s[i] <= 'z' || 'A' <= s[i] <= 'Z' || '0' <= s[i]
            <= '9' || s[i] == '-' || s[i] == '_') ==> path_component(s, other)[i] == '_',
        path_component(Seq::empty(), other) == other,
{
}

/// The attempt at a job is the one that is told; a job that tells none, or a blank one, is its own attempt.
pub proof fn jobs_are_their_own_attempt(job: JobAssignment)
    ensures
        job.attempt_id is None ==> job.attempt() == job.id@,
        (job.attempt_id matches Some(a) && text::is_blank(a@)) ==> job.attempt() == job.id@,
        (job.attempt_id matches Some(a) && !text::is_blank(a@)) ==> job.attempt() == job.attempt_id->0@,
{
}

/// A render may take as long as the job says, a second at least, and ten minutes where it says nothing.
pub proof fn renders_take_as_long_as_told(ms: u64)
    ensures
        ms >= 1000 ==> render_limit(Some(ms)) == ms,
        0 < ms < 1000 ==> render_limit(Some(ms)) == 1000,
        render_limit(Some(0)) == 600_000,
        render_limit(None) == 600_000,
{
}

/// An asset is named by its identifier, without low lines at its ends, and by another name where it has none.
pub proof fn assets_are_named_by_their_identifier(id: Seq<char>, other: Seq<char>)
    requires
        text::trimmed(id) == id,
        id.len() > 0,
        forall|i: int|
            0 <= i < id.len() ==> text::is_alnum(#[trigger] id[i]) || id[i] == '-' || id[i] == '_',
        id[0] != '_',
        id.last() != '_',
    ensures
        asset_name(Some(id), other) == id,
{
    let all = Seq::new(id.len(), |i: int| name_char(id[i]));
    assert(all =~= id);
    assert(text::drop_front(id, text::only('_')) == id);
    assert(text::drop_back(id, text::only('_')) == id);
}

/// An extension that is told is used in lower case; one that is none gives way to that of the path, and that to
/// the usual one.
pub proof fn told_extensions_are_used(ext: Seq<char>, of_path: Option<Seq<char>>, usual: Seq<char>)
    requires
        text::trimmed(seq!['.'] + ext) == seq!['.'] + ext,
    ensures
        is_extension(ext) ==> file_extension(Some(seq!['.'] + ext), of_path, usual) == text::lower_text(
            seq!['.'] + ext,
        ),
        !is_extension(ext) && (of_path matches Some(e) && is_extension(e)) ==> file_extension(
            Some(seq!['.'] + ext),
            of_path,
            usual,
        ) == "."@ + text::lower_text(of_path->0),
        !is_extension(ext) && of_path is None ==> file_extension(Some(seq!['.'] + ext), of_path, usual)
            == usual,
        file_extension(None, of_path, usual) == usual,
{
    let s = seq!['.'] + ext;
    reveal_strlit(".");
    assert("."@ =~= seq!['.']);
    assert(s.subrange(0, 1) =~= seq!['.']);
    assert(s.skip(1) =~= ext);
}

/// A job that is not taken is refused for the first thing that it lacks.
pub proof fn refusals_tell_what_is_missing(job: JobAssignment)
    ensures
        text::is_blank(job.id@) ==> job_problem(job) == Some("job missing id"@),
        !text::is_blank(job.id@) && job.attempt_number == Some(0u32) ==> job_problem(job) == Some(
            "job declared invalid attempt number"@,
        ),
        !text::is_blank(job.id@) && job.attempt_number != Some(0u32) && !allowed_resolution(job.resolution)
            ==> job_problem(job) == Some(resolution_problem(job.resolution)),
        !text::is_blank(job.id@) && job.attempt_number != Some(0u32) && allowed_resolution(job.resolution)
            && text::is_blank(job.output_upload_url@) ==> job_problem(job) == Some(
            "job missing output upload URL"@,
        ),
        !text::is_blank(job.id@) && job.attempt_number != Some(0u32) && allowed_resolution(job.resolution)
            && !text::is_blank(job.output_upload_url@) && text::is_blank(job.output_storage_key@)
            ==> job_problem(job) == Some("job missing output storage key"@),
        !text::is_blank(job.id@) && job.attempt_number != Some(0u32) && allowed_resolution(job.resolution)
            && !text::is_blank(job.output_upload_url@) && !text::is_blank(job.output_storage_key@)
            && job.max_output_size_bytes == 0 ==> job_problem(job) == Some(
            "job declared invalid max output size"@,
        ),
{
}

} // verus!
