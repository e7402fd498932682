//! The osu!stable installation: its folders and its beatmaps.
use crate::cache;
use crate::cache::{get_cached_beatmap, put_cached_beatmap, BeatmapCache, CachedView};
use crate::codec;
use crate::codec::md5_hex;
use crate::error;
use crate::error::{invalid, AppError, AppResult, ErrorView};
use crate::osudb::OsuDbBeatmapIndex;
use crate::paths;
use crate::paths::{path_extension, path_file_name};
use crate::scan;
use crate::text;
use crate::text::{cat, chars_of, text_of, trim};
use crate::types::Double;
use vstd::prelude::*;

verus! {

/// A beatmap that was found, with the path of its file.
#[derive(Clone)]
pub struct ResolvedBeatmap {
    pub beatmap_id: i64,
    pub beatmap_set_id: i64,
    pub beatmap_hash: String,
    pub artist: String,
    pub title: String,
    pub difficulty_name: String,
    pub key_count: u8,
    pub long_note_count: u32,
    pub normal_note_count: u32,
    pub hp: Double,
    pub cs: Double,
    pub od: Double,
    pub bpm: Double,
    pub duration_ms: u32,
    pub osu_path: String,
}

/// What [`ResolvedBeatmap`] holds.
#[verifier::ext_equal]
pub struct ResolvedView {
    pub beatmap_id: i64,
    pub beatmap_set_id: i64,
    pub beatmap_hash: Seq<char>,
    pub artist: Seq<char>,
    pub title: Seq<char>,
    pub difficulty_name: Seq<char>,
    pub key_count: u8,
    pub long_note_count: u32,
    pub normal_note_count: u32,
    pub hp: Double,
    pub cs: Double,
    pub od: Double,
    pub bpm: Double,
    pub duration_ms: u32,
    pub osu_path: Seq<char>,
}

impl View for ResolvedBeatmap {
    type V = ResolvedView;

    open spec fn view(&self) -> ResolvedView {
        ResolvedView {
            beatmap_id: self.beatmap_id,
            beatmap_set_id: self.beatmap_set_id,
            beatmap_hash: self.beatmap_hash@,
            artist: self.artist@,
            title: self.title@,
            difficulty_name: self.difficulty_name@,
            key_count: self.key_count,
            long_note_count: self.long_note_count,
            normal_note_count: self.normal_note_count,
            hp: self.hp,
            cs: self.cs,
            od: self.od,
            bpm: self.bpm,
            duration_ms: self.duration_ms,
            osu_path: self.osu_path@,
        }
    }
}

// ---------------------------------------------------------------------------------------------
// Folders
// ---------------------------------------------------------------------------------------------

/// Which folders of osu!stable there are.
pub struct OsuStablePathsStatus {
    pub osu_stable_detected: bool,
    pub replay_dir_ready: bool,
    pub stable_replay_dir_ready: bool,
    pub songs_dir_ready: bool,
    pub osu_stable_root: Option<String>,
    pub replay_dir: Option<String>,
    pub stable_replay_dir: Option<String>,
    pub songs_dir: Option<String>,
}

/// The folders of osu!stable.
pub struct ResolvedOsuStablePaths {
    pub root: String,
    pub replay_dir: String,
    pub stable_replay_dir: Option<String>,
    pub songs_dir: String,
}

impl ResolvedOsuStablePaths {
    /// The folders in which new replays turn up.
    pub fn replay_dirs(&self) -> (r: Vec<String>)
        ensures
            text::texts(r@) == match self.stable_replay_dir {
                Some(dir) => seq![self.replay_dir@, dir@],
                None => seq![self.replay_dir@],
            },
    {
        let mut dirs = vec![self.replay_dir.clone()];
        if let Some(dir) = &self.stable_replay_dir {
            dirs.push(dir.clone());
        }
        assert(text::texts(dirs@) =~= match self.stable_replay_dir {
            Some(dir) => seq![self.replay_dir@, dir@],
            None => seq![self.replay_dir@],
        });
        dirs
    }
}

/// Replays are found where either of the folders for them is.
pub open spec fn replays_ready(kept: bool, saved: bool) -> bool {
    kept || saved
}

/// Sums up which of the folders were found. New replays can be seen where there is one of the two
/// folders of replays.
pub fn inspect_osu_stable_paths(
    root: Option<String>,
    replay_dir: Option<String>,
    stable_replay_dir: Option<String>,
    songs_dir: Option<String>,
) -> (r: OsuStablePathsStatus)
    ensures
        r.replay_dir_ready == replays_ready(replay_dir is Some, stable_replay_dir is Some),
        r.osu_stable_detected == root is Some,
        r.replay_dir_ready == (replay_dir is Some || stable_replay_dir is Some),
        r.stable_replay_dir_ready == stable_replay_dir is Some,
        r.songs_dir_ready == songs_dir is Some,
        r.osu_stable_root == root,
        r.replay_dir == replay_dir,
        r.stable_replay_dir == stable_replay_dir,
        r.songs_dir == songs_dir,
{
    OsuStablePathsStatus {
        osu_stable_detected: root.is_some(),
        replay_dir_ready: replay_dir.is_some() || stable_replay_dir.is_some(),
        stable_replay_dir_ready: stable_replay_dir.is_some(),
        songs_dir_ready: songs_dir.is_some(),
        osu_stable_root: root,
        replay_dir,
        stable_replay_dir,
        songs_dir,
    }
}

/// The folder of the game: the one that was entered, or else the usual one.
pub open spec fn root_of(entered: Seq<char>, usual: Option<Seq<char>>) -> Option<Seq<char>> {
    if text::is_blank(entered) {
        usual
    } else {
        Some(text::trimmed(entered))
    }
}

/// The folder that the user has set; otherwise the usual one, where there is one.
pub fn detect_osu_stable_root(override_path: &str, usual: Option<&str>) -> (r: Option<String>)
    ensures
        text::opt_text(r) == root_of(override_path@, text::opt_str(usual)),
        text::opt_text(r) == if text::is_blank(override_path@) {
            text::opt_str(usual)
        } else {
            Some(text::trimmed(override_path@))
        },
{
    if text::blank(override_path) {
        match usual {
            Some(p) => Some(p.to_owned()),
            None => None,
        }
    } else {
        Some(trim(override_path))
    }
}

/// The folder of osu!stable, or the error where none is known.
pub fn require_osu_stable_root(root: Option<String>) -> (r: AppResult<String>)
    ensures
        error::outcome(r) == match root {
            Some(p) => Ok::<Seq<char>, ErrorView>(p@),
            None => Err(
                ErrorView::Config(
                    "could not detect osu!stable. Set an osu!stable path override in Settings"@,
                ),
            ),
        },
{
    match root {
        Some(p) => Ok(p),
        None => Err(
            AppError::Config(
                "could not detect osu!stable. Set an osu!stable path override in Settings".to_owned(),
            ),
        ),
    }
}

/// A folder and whether it lies inside the folder of osu!stable.
pub struct SubFolder {
    pub path: String,
    pub inside: bool,
}

/// The folders of osu!stable, all of which have to lie inside it.
pub fn resolve_osu_stable_paths(
    root: String,
    replay_dir: SubFolder,
    stable_replay_dir: Option<SubFolder>,
    songs_dir: SubFolder,
) -> (r: AppResult<ResolvedOsuStablePaths>)
    ensures
        match r {
            Ok(p) => {
                &&& replay_dir.inside && songs_dir.inside
                &&& stable_replay_dir matches Some(d) ==> d.inside
                &&& p.root == root
                &&& p.replay_dir == replay_dir.path
                &&& p.songs_dir == songs_dir.path
                &&& p.stable_replay_dir == match stable_replay_dir {
                    Some(d) => Some(d.path),
                    None => None,
                }
            },
            Err(e) => {
                &&& !(replay_dir.inside && songs_dir.inside && (stable_replay_dir matches Some(d)
                    ==> d.inside))
                &&& e@ == ErrorView::Config(
                    "osu!stable directories must stay inside the selected osu!stable root"@,
                )
            },
        },
{
    let stable_inside = match &stable_replay_dir {
        Some(d) => d.inside,
        None => true,
    };
    if !replay_dir.inside || !stable_inside || !songs_dir.inside {
        return Err(
            AppError::Config(
                "osu!stable directories must stay inside the selected osu!stable root".to_owned(),
            ),
        );
    }
    Ok(
        ResolvedOsuStablePaths {
            root,
            replay_dir: replay_dir.path,
            stable_replay_dir: match stable_replay_dir {
                Some(d) => Some(d.path),
                None => None,
            },
            songs_dir: songs_dir.path,
        },
    )
}

/// A path that leads to another machine.
pub open spec fn is_network_path(path: Seq<char>) -> bool {
    let p = scan::replaced(path, '/', "\\"@);
    ||| scan::begins(p, "\\\\?\\UNC\\"@)
    ||| scan::begins(p, "\\\\.\\UNC\\"@)
    ||| {
        &&& scan::begins(p, "\\\\"@)
        &&& !scan::begins(p, "\\\\?\\"@)
        &&& !scan::begins(p, "\\\\.\\"@)
    }
}

/// A path that leads to another machine. Only Windows has such paths.
pub fn is_disallowed_network_path(value: &str, windows: bool) -> (r: bool)
    ensures
        r == (windows && is_network_path(value@)),
{
    if !windows {
        return false;
    }
    let p = scan::replace(value, '/', "\\");
    let s = p.as_str();
    if scan::starts_with(s, "\\\\?\\UNC\\") || scan::starts_with(s, "\\\\.\\UNC\\") {
        return true;
    }
    if scan::starts_with(s, "\\\\?\\") || scan::starts_with(s, "\\\\.\\") {
        return false;
    }
    scan::starts_with(s, "\\\\")
}

/// A path without the prefix of extended paths, unless it leads to another machine.
pub open spec fn plain_path(path: Seq<char>) -> Seq<char> {
    let prefix = "\\\\?\\"@;
    if scan::begins(path, prefix) && !scan::begins(path.skip(prefix.len() as int), "UNC\\"@) {
        path.skip(prefix.len() as int)
    } else {
        path
    }
}

/// A path without the prefix of extended paths, unless it leads to another machine. Only Windows has
/// that prefix.
pub fn normalize_local_path(path: &str, windows: bool) -> (r: String)
    ensures
        r@ == if windows {
            plain_path(path@)
        } else {
            path@
        },
{
    if !windows {
        return path.to_owned();
    }
    match scan::strip_prefix(path, "\\\\?\\") {
        Some(rest) => if scan::starts_with(rest.as_str(), "UNC\\") {
            path.to_owned()
        } else {
            rest
        },
        None => path.to_owned(),
    }
}

/// What is wrong with the path of a folder, by how it is written.
pub open spec fn local_dir_outcome(
    path: Seq<char>,
    absolute: bool,
    climbs: bool,
    windows: bool,
) -> Result<(), ErrorView> {
    if path.len() == 0 {
        Err(ErrorView::InvalidInput("path cannot be empty"@))
    } else if !absolute {
        Err(ErrorView::InvalidInput("path override must be an absolute local directory"@))
    } else if climbs {
        Err(ErrorView::InvalidInput("path override cannot contain parent-directory segments"@))
    } else if windows && is_network_path(path) {
        Err(ErrorView::InvalidInput("network paths are not allowed for osu!stable override"@))
    } else {
        Ok(())
    }
}

/// Whether a path that a user gave may be looked at: it is absolute, does not climb up, and leads to
/// no other machine.
pub fn check_local_dir(path: &str, absolute: bool, climbs: bool, windows: bool) -> (r: AppResult<()>)
    ensures
        error::plain(r) == local_dir_outcome(path@, absolute, climbs, windows),
        error::plain(r) == if path@.len() == 0 {
            Err(ErrorView::InvalidInput("path cannot be empty"@))
        } else if !absolute {
            Err(ErrorView::InvalidInput("path override must be an absolute local directory"@))
        } else if climbs {
            Err(ErrorView::InvalidInput("path override cannot contain parent-directory segments"@))
        } else if windows && is_network_path(path@) {
            Err(ErrorView::InvalidInput("network paths are not allowed for osu!stable override"@))
        } else {
            Ok(())
        },
{
    if path.is_empty() {
        return Err(invalid("path cannot be empty"));
    }
    if !absolute {
        return Err(invalid("path override must be an absolute local directory"));
    }
    if climbs {
        return Err(invalid("path override cannot contain parent-directory segments"));
    }
    if is_disallowed_network_path(path, windows) {
        return Err(invalid("network paths are not allowed for osu!stable override"));
    }
    Ok(())
}

/// What a path that a user gave leads to: the folder, or why there is none.
pub fn local_dir_result(found: Result<(String, bool), String>) -> (r: AppResult<String>)
    ensures
        error::outcome(r) == match found {
            Ok((path, is_dir)) => if is_dir {
                Ok::<Seq<char>, ErrorView>(path@)
            } else {
                Err(ErrorView::InvalidInput("path override must point to a directory"@))
            },
            Err(why) => Err(
                ErrorView::InvalidInput("path override could not be resolved: "@ + why@),
            ),
        },
{
    match found {
        Ok((path, is_dir)) => {
            if !is_dir {
                return Err(invalid("path override must point to a directory"));
            }
            Ok(path)
        },
        Err(why) => Err(invalid(cat("path override could not be resolved: ", why.as_str()).as_str())),
    }
}

/// What a folder holds that is to be the folder of osu!stable.
pub struct RootContents {
    pub has_database: bool,
    pub has_songs: bool,
    pub has_replays: bool,
}

/// A folder of the game that was entered, as it is kept, or what is wrong with it.
pub open spec fn override_outcome(
    value: Seq<char>,
    canonical: Result<Seq<char>, ErrorView>,
    contents: RootContents,
) -> Result<Seq<char>, ErrorView> {
    if text::is_blank(value) {
        Ok(Seq::empty())
    } else if canonical is Err {
        canonical
    } else if !contents.has_database {
        Err(ErrorView::InvalidInput("osu!stable root must contain osu!.db"@))
    } else if !contents.has_songs {
        Err(ErrorView::InvalidInput("osu!stable root must contain a Songs folder"@))
    } else if !contents.has_replays {
        Err(
            ErrorView::InvalidInput("osu!stable root must contain Data\\r for auto-saved replays"@),
        )
    } else {
        canonical
    }
}

/// The folder of osu!stable that a user has set: none, or one with all that belongs into it.
pub fn validate_osu_stable_override(
    value: &str,
    canonical: AppResult<String>,
    contents: RootContents,
) -> (r: AppResult<String>)
    ensures
        error::outcome(r) == override_outcome(value@, error::outcome(canonical), contents),
        error::outcome(r) == if text::is_blank(value@) {
            Ok(Seq::empty())
        } else if canonical is Err {
            error::outcome(canonical)
        } else if !contents.has_database {
            Err(ErrorView::InvalidInput("osu!stable root must contain osu!.db"@))
        } else if !contents.has_songs {
            Err(ErrorView::InvalidInput("osu!stable root must contain a Songs folder"@))
        } else if !contents.has_replays {
            Err(
                ErrorView::InvalidInput(
                    "osu!stable root must contain Data\\r for auto-saved replays"@,
                ),
            )
        } else {
            error::outcome(canonical)
        },
{
    if text::blank(value) {
        return Ok(String::new());
    }
    let path = match canonical {
        Ok(p) => p,
        Err(e) => {
            return Err(e);
        },
    };
    if !contents.has_database {
        return Err(invalid("osu!stable root must contain osu!.db"));
    }
    if !contents.has_songs {
        return Err(invalid("osu!stable root must contain a Songs folder"));
    }
    if !contents.has_replays {
        return Err(invalid("osu!stable root must contain Data\\r for auto-saved replays"));
    }
    Ok(path)
}

// ---------------------------------------------------------------------------------------------
// Looking a beatmap up
// ---------------------------------------------------------------------------------------------

/// Where a beatmap is looked for.
#[derive(Clone, Copy, PartialEq, Eq, Structural)]
pub enum LookupStage {
    /// The file that was found before; it counts while it still has the hash.
    Cached,
    /// The place that the database in memory tells.
    Indexed,
    /// The database on disk.
    Database,
    /// All files below the folder of songs.
    Songs,
}

/// The stages that are tried, in order. The database on disk is read where none is in memory, and
/// all songs are gone through only where that is allowed.
pub open spec fn lookup_stages(in_cache: bool, in_index: bool, has_index: bool, scan: bool) -> Seq<
    LookupStage,
> {
    (if in_cache {
        seq![LookupStage::Cached]
    } else {
        seq![]
    }) + (if in_index {
        seq![LookupStage::Indexed]
    } else {
        seq![]
    }) + (if has_index {
        seq![]
    } else {
        seq![LookupStage::Database]
    }) + (if scan {
        seq![LookupStage::Songs]
    } else {
        seq![]
    })
}

/// The database in memory tells a place for the hash.
pub open spec fn indexed(index: Option<&OsuDbBeatmapIndex>, hash: Seq<char>) -> bool {
    index matches Some(i) && i@.contains_key(cache::hash_key(hash))
}

/// Plans how a beatmap is looked up by its hash.
pub fn resolve_beatmap_by_hash(
    cache: &BeatmapCache,
    index: Option<&OsuDbBeatmapIndex>,
    beatmap_hash: &str,
    allow_songs_scan: bool,
) -> (r: Vec<LookupStage>)
    requires
        cache.wf(),
    ensures
        r@ == lookup_stages(
            cache@.contains_key(cache::hash_key(beatmap_hash@)),
            indexed(index, beatmap_hash@),
            index is Some,
            allow_songs_scan,
        ),
{
    let mut stages: Vec<LookupStage> = Vec::new();
    let cached = get_cached_beatmap(cache, beatmap_hash).is_some();
    let in_index = match index {
        Some(i) => i.get(beatmap_hash).is_some(),
        None => false,
    };
    if cached {
        stages.push(LookupStage::Cached);
    }
    if in_index {
        stages.push(LookupStage::Indexed);
    }
    if index.is_none() {
        stages.push(LookupStage::Database);
    }
    if allow_songs_scan {
        stages.push(LookupStage::Songs);
    }
    assert(stages@ =~= lookup_stages(cached, in_index, index is Some, allow_songs_scan));
    stages
}

/// What a stage has come to: no file there, or a file with a digest.
pub fn stage_accepts(is_file: bool, inside_songs: bool, stage: LookupStage, digest: &str, beatmap_hash: &str) -> (r: bool)
    ensures
        r == (is_file && (stage == LookupStage::Cached || inside_songs)
            && text::same_ignoring_case(digest@, beatmap_hash@)),
{
    is_file && (stage == LookupStage::Cached || inside_songs) && text::eq_ignore_case(
        digest,
        beatmap_hash,
    )
}

/// The digest of a file that a stage takes for the beatmap with a hash: the file lies where the stage
/// may look, and its bytes have that hash.
pub open spec fn found_digest(
    stage: LookupStage,
    is_file: bool,
    inside_songs: bool,
    bytes: Seq<u8>,
    hash: Seq<char>,
) -> Option<Seq<char>> {
    let digest = codec::hex_text(codec::md5(bytes));
    if is_file && (stage == LookupStage::Cached || inside_songs) && text::same_ignoring_case(
        digest,
        hash,
    ) {
        Some(digest)
    } else {
        None
    }
}

/// The digest of a file, where a stage takes it for the beatmap with a hash.
pub fn stage_digest(
    stage: LookupStage,
    is_file: bool,
    inside_songs: bool,
    bytes: &[u8],
    beatmap_hash: &str,
) -> (r: Option<String>)
    ensures
        text::opt_text(r) == found_digest(stage, is_file, inside_songs, bytes@, beatmap_hash@),
        r matches Some(digest) ==> digest@ == text::lower_text(beatmap_hash@),
{
    let digest = md5_hex(bytes);
    if stage_accepts(is_file, inside_songs, stage, digest.as_str(), beatmap_hash) {
        proof {
            codec::hex_text_is_lower(codec::md5(bytes@));
        }
        Some(digest)
    } else {
        None
    }
}

/// A beatmap that is found has the hash that was asked for, in lower case, and so have the bytes of its
/// file.
pub proof fn found_beatmaps_have_their_hash(
    stage: LookupStage,
    is_file: bool,
    inside_songs: bool,
    bytes: Seq<u8>,
    hash: Seq<char>,
)
    requires
        found_digest(stage, is_file, inside_songs, bytes, hash) is Some,
    ensures
        found_digest(stage, is_file, inside_songs, bytes, hash) == Some(text::lower_text(hash)),
        codec::hex_text(codec::md5(bytes)) == text::lower_text(hash),
        is_file,
        stage == LookupStage::Cached || inside_songs,
{
    codec::hex_text_is_lower(codec::md5(bytes));
}

/// The beatmap that the cache tells for a hash, where the file of the entry still has that hash.
pub fn resolve_from_cache(
    cache: &BeatmapCache,
    beatmap_hash: &str,
    is_file: bool,
    bytes: &[u8],
) -> (r: Option<ResolvedBeatmap>)
    requires
        cache.wf(),
    ensures
        ({
            let key = cache::hash_key(beatmap_hash@);
            let digest = found_digest(
                LookupStage::Cached,
                is_file,
                false,
                bytes@,
                beatmap_hash@,
            );
            match r {
                Some(m) => cache@.contains_key(key) && (digest matches Some(d) && m@
                    == cache@[key].resolved(d)),
                None => !cache@.contains_key(key) || digest is None,
            }
        }),
{
    let entry = match get_cached_beatmap(cache, beatmap_hash) {
        Some(entry) => entry,
        None => {
            return None;
        },
    };
    match stage_digest(LookupStage::Cached, is_file, false, bytes, beatmap_hash) {
        Some(digest) => Some(entry.to_resolved(digest.as_str())),
        None => None,
    }
}

/// The cache after a stage: a beatmap is kept for the next time unless it was found in the cache.
pub open spec fn cache_after_stage(
    cache: Map<Seq<char>, CachedView>,
    stage: LookupStage,
    found: Option<ResolvedView>,
    now: Seq<char>,
) -> Map<Seq<char>, CachedView> {
    match found {
        Some(m) => if stage == LookupStage::Cached {
            cache
        } else {
            cache.insert(cache::hash_key(m.beatmap_hash), cache::entry_for(m, now))
        },
        None => cache,
    }
}

/// What a beatmap that may be there holds.
pub open spec fn opt_resolved(found: Option<&ResolvedBeatmap>) -> Option<ResolvedView> {
    match found {
        Some(m) => Some(m@),
        None => None,
    }
}

/// Takes what a stage has found into the cache, and tells whether the lookup is over.
pub fn conclude_stage(
    cache: &mut BeatmapCache,
    stage: LookupStage,
    found: Option<&ResolvedBeatmap>,
    now: &str,
) -> (over: bool)
    requires
        old(cache).wf(),
    ensures
        over == (found is Some),
        final(cache).wf(),
        final(cache)@ == cache_after_stage(old(cache)@, stage, opt_resolved(found), now@),
        found is None ==> *final(cache) == *old(cache),
{
    match found {
        Some(m) => {
            if stage != LookupStage::Cached {
                put_cached_beatmap(cache, m, now);
            }
            true
        },
        None => false,
    }
}

/// The cache after the stages of a lookup. What each of them has found stands beside it; none is tried
/// after one that has found something.
pub open spec fn cache_after_lookup(
    cache: Map<Seq<char>, CachedView>,
    stages: Seq<LookupStage>,
    found: Seq<Option<ResolvedView>>,
    now: Seq<char>,
) -> Map<Seq<char>, CachedView>
    decreases stages.len(),
{
    if stages.len() == 0 || found.len() == 0 {
        cache
    } else if found[0] is Some {
        cache_after_stage(cache, stages[0], found[0], now)
    } else {
        cache_after_lookup(cache, stages.drop_first(), found.drop_first(), now)
    }
}

/// A lookup that finds nothing leaves the cache as it was, and so does one that ends with a problem,
/// since only stages that found nothing came before it.
pub proof fn fruitless_lookups_keep_the_cache(
    cache: Map<Seq<char>, CachedView>,
    stages: Seq<LookupStage>,
    found: Seq<Option<ResolvedView>>,
    now: Seq<char>,
)
    requires
        forall|i: int| 0 <= i < found.len() ==> #[trigger] found[i] is None,
    ensures
        cache_after_lookup(cache, stages, found, now) == cache,
    decreases stages.len(),
{
    if stages.len() > 0 && found.len() > 0 {
        assert(found[0] is None);
        assert forall|i: int| 0 <= i < found.drop_first().len() implies #[trigger] found.drop_first()[i] is None by {
            assert(found.drop_first()[i] == found[i + 1]);
        }
        fruitless_lookups_keep_the_cache(cache, stages.drop_first(), found.drop_first(), now);
    }
}

/// The cheap stages come before the dear ones, and no stage comes twice.
pub proof fn stages_in_order(in_cache: bool, in_index: bool, has_index: bool, scan: bool, i: int, j: int)
    requires
        0 <= i < j < lookup_stages(in_cache, in_index, has_index, scan).len(),
    ensures
        ({
            let s = lookup_stages(in_cache, in_index, has_index, scan);
            &&& s[i] != s[j]
            &&& s[j] != LookupStage::Cached
            &&& s[i] != LookupStage::Songs
        }),
{
}

/// An extension is that of beatmaps.
pub open spec fn extends_beatmaps(extension: Option<Seq<char>>) -> bool {
    extension matches Some(e) && text::same_ignoring_case(e, "osu"@)
}

/// Whether a file is a beatmap, by its extension.
pub fn is_beatmap_extension(extension: Option<&str>) -> (r: bool)
    ensures
        r == extends_beatmaps(text::opt_str(extension)),
{
    match extension {
        Some(e) => text::eq_ignore_case(e, "osu"),
        None => false,
    }
}

/// Whether a file is a beatmap, by its path.
pub fn is_beatmap_path(path: &str) -> (r: bool)
    ensures
        exists|extension: Option<Seq<char>>|
            #[trigger] paths::may_extend(path@, extension) && r == extends_beatmaps(extension),
{
    let extension = path_extension(path);
    assert(paths::may_extend(path@, text::opt_text(extension)));
    is_beatmap_extension(text::borrow_text(&extension))
}

/// The form in which the paths of known beatmaps are compared.
pub open spec fn cache_path(path: Seq<char>) -> Seq<char> {
    text::lower_text(scan::replaced(path, '/', "\\"@))
}

/// The form in which the paths of known beatmaps are compared.
pub fn normalize_cache_path(path: &str) -> (r: String)
    ensures
        r@ == cache_path(path@),
{
    text::lowercase(scan::replace(path, '/', "\\").as_str())
}

/// A cache holds a beatmap from that path.
pub open spec fn knows_path(cache: Map<Seq<char>, CachedView>, path: Seq<char>) -> bool {
    exists|k: Seq<char>| #[trigger]
        cache.contains_key(k) && cache_path(cache[k].osu_path) == cache_path(path)
}

/// Whether a beatmap file is already known by its path.
pub fn is_known_path(cache: &BeatmapCache, path: &str) -> (r: bool)
    requires
        cache.wf(),
    ensures
        r == knows_path(cache@, path@),
{
    let wanted = normalize_cache_path(path);
    let mut i: usize = 0;
    while i < cache.entries.len()
        invariant
            i <= cache.entries@.len(),
            cache.wf(),
            wanted@ == cache_path(path@),
            forall|j: int|
                0 <= j < i ==> cache_path((#[trigger] cache.entries@[j]).1.osu_path@) != wanted@,
        decreases cache.entries@.len() - i,
    {
        let known = normalize_cache_path(cache.entries[i].1.osu_path.as_str());
        if text::same_text(known.as_str(), wanted.as_str()) {
            proof {
                let k = cache.entries@[i as int].0@;
                assert(cache.places@.contains_key(k) && cache.places@[k] == i);
                assert(cache@.contains_key(k));
                assert(cache@[k] == cache.entries@[i as int].1@);
            }
            return true;
        }
        i = i + 1;
    }
    proof {
        assert forall|k: Seq<char>| #[trigger] cache@.contains_key(k) implies cache_path(
            cache@[k].osu_path,
        ) != cache_path(path@) by {
            assert(cache.places@.contains_key(k));
            let j = cache.places@[k] as int;
            assert(cache@[k] == cache.entries@[j].1@);
        }
    }
    false
}

// ---------------------------------------------------------------------------------------------
// Filling the cache
// ---------------------------------------------------------------------------------------------

/// A beatmap file below the folder of songs: its path, the beatmap in it, where it can be read, and the
/// time at which that happens.
pub struct SongFile {
    pub path: Seq<char>,
    pub beatmap: Option<ResolvedView>,
    pub now: Seq<char>,
}

/// A cache after one more file, given whether its path was known when the songs were begun to be gone
/// through. A hash that the cache holds keeps its entry.
pub open spec fn warmed_by(
    cache: Map<Seq<char>, CachedView>,
    known: bool,
    beatmap: Option<ResolvedView>,
    now: Seq<char>,
) -> Map<Seq<char>, CachedView> {
    match beatmap {
        Some(m) => if known || cache.contains_key(cache::hash_key(m.beatmap_hash)) {
            cache
        } else {
            cache.insert(cache::hash_key(m.beatmap_hash), cache::entry_for(m, now))
        },
        None => cache,
    }
}

/// A cache after some files.
pub open spec fn warmed(cache: Map<Seq<char>, CachedView>, files: Seq<SongFile>) -> Map<
    Seq<char>,
    CachedView,
>
    decreases files.len(),
{
    if files.len() == 0 {
        cache
    } else {
        let f = files.last();
        warmed_by(warmed(cache, files.drop_last()), knows_path(cache, f.path), f.beatmap, f.now)
    }
}

/// A file adds an entry to a cache.
pub open spec fn adds(
    cache: Map<Seq<char>, CachedView>,
    known: bool,
    beatmap: Option<ResolvedView>,
) -> bool {
    beatmap matches Some(m) && !known && !cache.contains_key(cache::hash_key(m.beatmap_hash))
}

/// How many of some files add an entry to a cache.
pub open spec fn added_by(cache: Map<Seq<char>, CachedView>, files: Seq<SongFile>) -> nat
    decreases files.len(),
{
    if files.len() == 0 {
        0
    } else {
        let f = files.last();
        let before = added_by(cache, files.drop_last());
        if adds(warmed(cache, files.drop_last()), knows_path(cache, f.path), f.beatmap) {
            before + 1
        } else {
            before
        }
    }
}

/// Takes a beatmap file into the cache, unless its path is known or its hash is held, and counts it with
/// those that were added before, as far as can be counted.
pub fn warm_beatmap_cache_from_songs(
    cache: &mut BeatmapCache,
    added: usize,
    known: bool,
    beatmap: Option<&ResolvedBeatmap>,
    now: &str,
) -> (r: usize)
    requires
        old(cache).wf(),
    ensures
        final(cache).wf(),
        final(cache)@ == warmed_by(old(cache)@, known, opt_resolved(beatmap), now@),
        r == if adds(old(cache)@, known, opt_resolved(beatmap)) && added < usize::MAX {
            added + 1
        } else {
            added as int
        },
        !adds(old(cache)@, known, opt_resolved(beatmap)) ==> *final(cache) == *old(cache),
{
    match beatmap {
        Some(m) => {
            if known || get_cached_beatmap(cache, m.beatmap_hash.as_str()).is_some() {
                return added;
            }
            put_cached_beatmap(cache, m, now);
            added.saturating_add(1)
        },
        None => added,
    }
}

/// Going through the songs makes the cache larger by as many entries as files are counted.
pub proof fn warming_counts_what_it_adds(cache: Map<Seq<char>, CachedView>, files: Seq<SongFile>)
    requires
        cache.dom().finite(),
    ensures
        warmed(cache, files).dom().finite(),
        warmed(cache, files).dom().len() == cache.dom().len() + added_by(cache, files),
    decreases files.len(),
{
    if files.len() > 0 {
        warming_counts_what_it_adds(cache, files.drop_last());
        let before = warmed(cache, files.drop_last());
        let f = files.last();
        if adds(before, knows_path(cache, f.path), f.beatmap) {
            let m = f.beatmap->Some_0;
            let key = cache::hash_key(m.beatmap_hash);
            assert(warmed(cache, files).dom() =~= before.dom().insert(key));
        }
    }
}

/// Going through the songs leaves what the cache held as it was.
pub proof fn warming_keeps_old_entries(
    cache: Map<Seq<char>, CachedView>,
    files: Seq<SongFile>,
    key: Seq<char>,
)
    requires
        cache.contains_key(key),
    ensures
        warmed(cache, files).contains_key(key),
        warmed(cache, files)[key] == cache[key],
    decreases files.len(),
{
    if files.len() > 0 {
        warming_keeps_old_entries(cache, files.drop_last(), key);
    }
}

/// A file that could be read is in the cache afterwards, by its path or by its hash.
proof fn warmed_files_are_held(cache: Map<Seq<char>, CachedView>, files: Seq<SongFile>, i: int)
    requires
        0 <= i < files.len(),
        files[i].beatmap is Some,
    ensures
        knows_path(cache, files[i].path) || warmed(cache, files).contains_key(
            cache::hash_key(files[i].beatmap->Some_0.beatmap_hash),
        ),
    decreases files.len(),
{
    if i < files.len() - 1 {
        assert(files.drop_last()[i] == files[i]);
        warmed_files_are_held(cache, files.drop_last(), i);
    }
}

/// Going through the same files once more adds nothing.
pub proof fn warming_twice_adds_nothing(
    cache: Map<Seq<char>, CachedView>,
    files: Seq<SongFile>,
    again: Seq<SongFile>,
)
    requires
        forall|i: int|
            0 <= i < again.len() ==> exists|j: int|
                0 <= j < files.len() && (#[trigger] again[i]).path == (#[trigger] files[j]).path
                    && again[i].beatmap == files[j].beatmap,
    ensures
        warmed(warmed(cache, files), again) == warmed(cache, files),
        added_by(warmed(cache, files), again) == 0,
    decreases again.len(),
{
    let full = warmed(cache, files);
    if again.len() > 0 {
        assert forall|i: int| 0 <= i < again.drop_last().len() implies exists|j: int|
            0 <= j < files.len() && (#[trigger] again.drop_last()[i]).path == (
            #[trigger] files[j]).path && again.drop_last()[i].beatmap == files[j].beatmap by {
            assert(again.drop_last()[i] == again[i]);
        }
        warming_twice_adds_nothing(cache, files, again.drop_last());
        let f = again.last();
        assert(again[again.len() - 1] == f);
        if f.beatmap is Some {
            let j = choose|j: int|
                0 <= j < files.len() && f.path == (#[trigger] files[j]).path && f.beatmap
                    == files[j].beatmap;
            warmed_files_are_held(cache, files, j);
            if knows_path(cache, f.path) {
                let k = choose|k: Seq<char>| #[trigger]
                    cache.contains_key(k) && cache_path(cache[k].osu_path) == cache_path(f.path);
                warming_keeps_old_entries(cache, files, k);
                assert(knows_path(full, f.path));
            }
        }
    }
}

// ---------------------------------------------------------------------------------------------
// Names of songs
// ---------------------------------------------------------------------------------------------

/// The letters and digits of a text in lower case, with one space for each run of other characters
/// that follows them; and whether nothing but such a run has come last.
pub open spec fn folded(s: Seq<char>) -> (Seq<char>, bool)
    decreases s.len(),
{
    if s.len() == 0 {
        (Seq::empty(), true)
    } else {
        let (out, gap) = folded(s.drop_last());
        let c = s.last();
        if text::alphanumeric(c) {
            (out + text::lowercase_forms(c), false)
        } else if !gap {
            (out.push(' '), true)
        } else {
            (out, true)
        }
    }
}

/// The form in which names of songs are compared.
pub open spec fn lookup_text(s: Seq<char>) -> Seq<char> {
    text::trimmed(folded(s).0)
}

/// A text of ASCII characters alone.
pub open spec fn is_ascii_text(s: Seq<char>) -> bool {
    forall|i: int| 0 <= i < s.len() ==> (#[trigger] s[i]) < '\u{80}'
}

/// The runs of ASCII letters and digits in a text, in lower case; and whether the text ends with one.
pub open spec fn runs(s: Seq<char>) -> (Seq<Seq<char>>, bool)
    decreases s.len(),
{
    if s.len() == 0 {
        (Seq::empty(), false)
    } else {
        let (words, open) = runs(s.drop_last());
        let c = s.last();
        if !text::is_alnum(c) {
            (words, false)
        } else if open {
            (words.drop_last().push(words.last().push(text::lower(c))), true)
        } else {
            (words.push(seq![text::lower(c)]), true)
        }
    }
}

/// The words of a text: its runs of ASCII letters and digits, in lower case.
pub open spec fn words(s: Seq<char>) -> Seq<Seq<char>> {
    runs(s).0
}

/// A word: ASCII letters in lower case and digits, at least one of them.
pub open spec fn is_word(w: Seq<char>) -> bool {
    &&& w.len() > 0
    &&& forall|i: int| 0 <= i < w.len() ==> text::is_digit(#[trigger] w[i]) || text::is_lower(w[i])
}

/// Words and nothing else.
pub open spec fn are_words(ws: Seq<Seq<char>>) -> bool {
    forall|i: int| 0 <= i < ws.len() ==> is_word(#[trigger] ws[i])
}

/// The ASCII letters and digits of a text, in lower case.
pub open spec fn letters(s: Seq<char>) -> Seq<char>
    decreases s.len(),
{
    if s.len() == 0 {
        Seq::empty()
    } else if text::is_alnum(s.last()) {
        letters(s.drop_last()).push(text::lower(s.last()))
    } else {
        letters(s.drop_last())
    }
}

/// The words of a text are words, and an open run is the last of them.
proof fn runs_are_words(s: Seq<char>)
    ensures
        are_words(runs(s).0),
        runs(s).1 ==> runs(s).0.len() > 0,
    decreases s.len(),
{
    if s.len() > 0 {
        runs_are_words(s.drop_last());
        let (ws, open) = runs(s.drop_last());
        let c = s.last();
        if text::is_alnum(c) {
            let l = text::lower(c);
            assert(text::is_digit(l) || text::is_lower(l));
            if open {
                assert(is_word(ws[ws.len() - 1]));
                assert(is_word(ws.last().push(l)));
            } else {
                assert(is_word(seq![l]));
            }
        }
    }
}

/// One more word.
proof fn joined_push(ws: Seq<Seq<char>>, w: Seq<char>, sep: Seq<char>)
    ensures
        scan::joined(ws.push(w), sep) == if ws.len() == 0 {
            w
        } else {
            scan::joined(ws, sep) + sep + w
        },
{
    assert(ws.push(w).drop_last() =~= ws);
}

/// One more letter of the last word.
proof fn joined_grow(ws: Seq<Seq<char>>, c: char, sep: Seq<char>)
    requires
        ws.len() > 0,
    ensures
        scan::joined(ws.drop_last().push(ws.last().push(c)), sep) == scan::joined(ws, sep).push(c),
{
    joined_push(ws.drop_last(), ws.last().push(c), sep);
    joined_push(ws.drop_last(), ws.last(), sep);
    assert(ws.drop_last().push(ws.last()) =~= ws);
    if ws.len() > 1 {
        assert(scan::joined(ws.drop_last(), sep) + sep + ws.last().push(c) =~= (scan::joined(
            ws.drop_last(),
            sep,
        ) + sep + ws.last()).push(c));
    }
}

/// Some words with spaces between them begin and end with a letter or a digit.
proof fn joined_words_have_ends(ws: Seq<Seq<char>>)
    requires
        are_words(ws),
        ws.len() > 0,
    ensures
        scan::joined(ws, seq![' ']).len() > 0,
        !text::is_white_space(scan::joined(ws, seq![' '])[0]),
        !text::is_white_space(scan::joined(ws, seq![' ']).last()),
    decreases ws.len(),
{
    let last = ws.last();
    assert(is_word(ws[ws.len() - 1]));
    assert(text::is_digit(last[0]) || text::is_lower(last[0]));
    assert(text::is_digit(last[last.len() - 1]) || text::is_lower(last[last.len() - 1]));
    if ws.len() > 1 {
        assert forall|i: int| 0 <= i < ws.drop_last().len() implies is_word(
            #[trigger] ws.drop_last()[i],
        ) by {
            assert(ws.drop_last()[i] == ws[i]);
        }
        joined_words_have_ends(ws.drop_last());
    }
}

/// Words with spaces between them, and a space behind them, are trimmed to the words.
proof fn words_are_trimmed(ws: Seq<Seq<char>>, gap: bool)
    requires
        are_words(ws),
    ensures
        text::trimmed(
            if gap && ws.len() > 0 {
                scan::joined(ws, seq![' ']).push(' ')
            } else {
                scan::joined(ws, seq![' '])
            },
        ) == scan::joined(ws, seq![' ']),
{
    let t = scan::joined(ws, seq![' ']);
    if ws.len() > 0 {
        joined_words_have_ends(ws);
        text::trimmed_is(t);
        if gap {
            let u = t.push(' ');
            assert(u.drop_last() =~= t);
            assert(u[0] == t[0]);
            assert(text::drop_front(u, text::space()) == u);
            assert(text::is_white_space(u.last()));
            assert(text::drop_back(u, text::space()) == text::drop_back(t, text::space()));
            assert(text::drop_front(t, text::space()) == t);
        }
    } else {
        text::trimmed_is(t);
    }
}

/// The form in which names of songs are compared. Of an ASCII text it is the words, with one space
/// between two of them.
pub fn normalize_lookup_text(value: &str) -> (r: String)
    ensures
        r@ == lookup_text(value@),
        is_ascii_text(value@) ==> r@ == scan::joined(words(value@), seq![' ']),
{
    let v = chars_of(value);
    let mut out = String::new();
    let mut gap = true;
    let mut i: usize = 0;
    assert(v@.take(0) =~= Seq::empty());
    while i < v.len()
        invariant
            v@ == value@,
            i <= v@.len(),
            folded(v@.take(i as int)) == (out@, gap),
            is_ascii_text(v@) ==> {
                let (ws, open) = runs(v@.take(i as int));
                &&& open == !gap
                &&& out@ == if gap && ws.len() > 0 {
                    scan::joined(ws, seq![' ']).push(' ')
                } else {
                    scan::joined(ws, seq![' '])
                }
            },
        decreases v@.len() - i,
    {
        let ghost (ws, open) = runs(v@.take(i as int));
        proof {
            assert(v@.take(i + 1).drop_last() =~= v@.take(i as int));
            assert(v@.take(i + 1).last() == v@[i as int]);
            runs_are_words(v@.take(i as int));
            joined_push(ws, seq![text::lower(v@[i as int])], seq![' ']);
            if ws.len() > 0 {
                joined_grow(ws, text::lower(v@[i as int]), seq![' ']);
            }
        }
        let ghost before = out@;
        let c = v[i];
        if text::is_alphanumeric(c) {
            let forms = text::to_lowercase(c);
            out.append(text_of(forms.as_slice()).as_str());
            proof {
                if is_ascii_text(v@) {
                    assert(v@[i as int] < '\u{80}');
                    assert(out@ =~= before.push(text::lower(c)));
                    if gap && ws.len() > 0 {
                        assert(out@ =~= scan::joined(ws, seq![' ']) + seq![' '] + seq![text::lower(c)]);
                    }
                    if gap && ws.len() == 0 {
                        assert(out@ =~= seq![text::lower(c)]);
                    }
                }
            }
            gap = false;
        } else if !gap {
            out.push(' ');
            gap = true;
        }
        proof {
            if is_ascii_text(v@) {
                assert(v@[i as int] < '\u{80}');
            }
        }
        i = i + 1;
    }
    proof {
        assert(v@.take(v@.len() as int) =~= v@);
        runs_are_words(v@);
        words_are_trimmed(words(v@), gap);
    }
    trim(out.as_str())
}

/// Some words with spaces between them have those words.
proof fn joined_words_are_read_back(ws: Seq<Seq<char>>)
    requires
        are_words(ws),
        ws.len() > 0,
    ensures
        runs(scan::joined(ws, seq![' '])) == (ws, true),
    decreases ws.len(), ws.last().len(),
{
    let sep = seq![' '];
    let w = ws.last();
    assert(is_word(ws[ws.len() - 1]));
    let c = w.last();
    assert(c == w[w.len() - 1]);
    assert(text::is_alnum(c) && text::lower(c) == c);
    assert forall|i: int| 0 <= i < ws.drop_last().len() implies is_word(
        #[trigger] ws.drop_last()[i],
    ) by {
        assert(ws.drop_last()[i] == ws[i]);
    }
    let t = scan::joined(ws, sep);
    if w.len() > 1 {
        let shorter = ws.drop_last().push(w.drop_last());
        assert(is_word(w.drop_last()));
        assert(shorter.last() == w.drop_last());
        joined_words_are_read_back(shorter);
        joined_grow(shorter, c, sep);
        assert(shorter.drop_last() =~= ws.drop_last());
        assert(w.drop_last().push(c) =~= w);
        assert(shorter.drop_last().push(shorter.last().push(c)) =~= ws);
        assert(t.drop_last() =~= scan::joined(shorter, sep));
        assert(t.last() == c);
    } else {
        assert(w =~= seq![c]);
        let fewer = ws.drop_last();
        assert(fewer.push(w) =~= ws);
        joined_push(fewer, w, sep);
        if fewer.len() == 0 {
            assert(t =~= seq![c]);
            assert(t.drop_last() =~= Seq::<char>::empty());
            assert(runs(t.drop_last()).0 =~= fewer);
            assert(t.last() == c);
            assert(runs(t) == (fewer.push(seq![c]), true));
        } else {
            joined_words_are_read_back(fewer);
            let spaced = scan::joined(fewer, sep).push(' ');
            assert(t =~= spaced.push(c));
            assert(t.drop_last() =~= spaced);
            assert(spaced.drop_last() =~= scan::joined(fewer, sep));
            assert(runs(spaced) == (fewer, false));
        }
    }
}

/// Words with spaces between them are ASCII characters.
proof fn joined_words_are_ascii(ws: Seq<Seq<char>>)
    requires
        are_words(ws),
    ensures
        is_ascii_text(scan::joined(ws, seq![' '])),
    decreases ws.len(),
{
    if ws.len() > 0 {
        assert(is_word(ws[ws.len() - 1]));
        assert forall|i: int| 0 <= i < ws.drop_last().len() implies is_word(
            #[trigger] ws.drop_last()[i],
        ) by {
            assert(ws.drop_last()[i] == ws[i]);
        }
        joined_words_are_ascii(ws.drop_last());
    }
}

/// The form in which an ASCII name is compared is made of words of small letters and digits, with one
/// space between two of them; it holds the letters and digits of the name in their order; and it is its
/// own form.
pub proof fn ascii_names_are_words(name: Seq<char>)
    ensures
        are_words(words(name)),
        scan::joined(words(name), seq![]) == letters(name),
        is_ascii_text(scan::joined(words(name), seq![' '])),
        words(scan::joined(words(name), seq![' '])) == words(name),
{
    runs_are_words(name);
    letters_stay(name);
    joined_words_are_ascii(words(name));
    if words(name).len() > 0 {
        joined_words_are_read_back(words(name));
    } else {
        assert(scan::joined(words(name), seq![' ']) =~= Seq::empty());
        assert(words(name) =~= Seq::empty());
    }
}

/// The words of a text hold its letters and digits.
proof fn letters_stay(s: Seq<char>)
    ensures
        scan::joined(runs(s).0, seq![]) == letters(s),
    decreases s.len(),
{
    if s.len() > 0 {
        letters_stay(s.drop_last());
        runs_are_words(s.drop_last());
        let (ws, open) = runs(s.drop_last());
        let l = text::lower(s.last());
        if text::is_alnum(s.last()) {
            if open {
                joined_grow(ws, l, seq![]);
            } else {
                joined_push(ws, seq![l], seq![]);
                assert(scan::joined(ws, seq![]) + seq![] + seq![l] =~= scan::joined(ws, seq![]).push(
                    l,
                ));
                assert(ws.len() == 0 ==> seq![l] =~= scan::joined(ws, seq![]).push(l));
            }
        }
    }
}

/// Digits and white space.
pub open spec fn number_or_space() -> spec_fn(char) -> bool {
    |c: char| text::is_digit(c) || text::is_white_space(c)
}

/// The name of a folder of a song without the number in front of it, as names are compared.
pub fn normalize_song_folder_lookup(value: &str) -> (r: String)
    ensures
        r@ == lookup_text(text::drop_front(value@, number_or_space())),
{
    let v = chars_of(value);
    let rest = text::cut_front(
        v.as_slice(),
        |c: char| -> (b: bool)
            ensures b == (text::is_digit(c) || text::is_white_space(c))
            { text::digit(c) || text::white_space(c) },
        Ghost(number_or_space()),
    );
    normalize_lookup_text(text_of(rest.as_slice()).as_str())
}

/// A name is long enough to be looked for.
pub open spec fn telling(lookup: Seq<char>) -> bool {
    text::byte_len(lookup) >= 6
}

/// Whether the name of a replay is long enough to look for its song by it.
pub fn replay_name_tells(replay_name: &str) -> (r: Option<String>)
    ensures
        text::opt_text(r) == if telling(lookup_text(replay_name@)) {
            Some(lookup_text(replay_name@))
        } else {
            None
        },
{
    let lookup = normalize_lookup_text(replay_name);
    if text::bytes_in(lookup.as_str()) >= 6 {
        Some(lookup)
    } else {
        None
    }
}

/// Whether a folder may hold the song of a replay, by their names.
pub fn folder_may_hold(folder_name: &str, replay_lookup: &str) -> (r: bool)
    ensures
        r == {
            let folder = lookup_text(text::drop_front(folder_name@, number_or_space()));
            telling(folder) && scan::has(replay_lookup@, folder)
        },
{
    let folder = normalize_song_folder_lookup(folder_name);
    text::bytes_in(folder.as_str()) >= 6 && scan::contains(replay_lookup, folder.as_str())
}

/// The name under which a replay is shown: the beatmap, or else the name of its file.
pub open spec fn shown_name(file_name: Option<Seq<char>>, beatmap: Option<&ResolvedBeatmap>) -> Seq<char> {
    match beatmap {
        Some(m) => m.artist@ + " - "@ + m.title@ + " ["@ + m.difficulty_name@ + "]"@,
        None => match file_name {
            Some(n) => n,
            None => "Replay"@,
        },
    }
}

/// The name under which a replay is shown, given what the system takes for the name of its file.
pub fn display_name(file_name: Option<&str>, beatmap: Option<&ResolvedBeatmap>) -> (r: String)
    ensures
        r@ == shown_name(text::opt_str(file_name), beatmap),
{
    match beatmap {
        Some(m) => {
            let mut s = text::cat5(
                m.artist.as_str(),
                " - ",
                m.title.as_str(),
                " [",
                m.difficulty_name.as_str(),
            );
            s.append("]");
            s
        },
        None => match file_name {
            Some(n) => n.to_owned(),
            None => "Replay".to_owned(),
        },
    }
}

/// The name under which a replay is shown.
pub fn replay_display_name(path: &str, beatmap: Option<&ResolvedBeatmap>) -> (r: String)
    ensures
        exists|name: Option<Seq<char>>|
            #[trigger] paths::may_name(path@, name) && r@ == shown_name(name, beatmap),
{
    let name = path_file_name(path);
    assert(paths::may_name(path@, text::opt_text(name)));
    display_name(text::borrow_text(&name), beatmap)
}

/// The prefix of a long path is dropped, except from one of the network; a path without it stays as it is.
pub proof fn plain_prefixes_are_dropped(path: Seq<char>)
    ensures
        !scan::begins(path, "UNC\\"@) ==> plain_path("\\\\?\\"@ + path) == path,
        !scan::begins(path, "\\\\?\\"@) ==> plain_path(path) == path,
{
    let prefix = "\\\\?\\"@;
    let s = prefix + path;
    assert(s.subrange(0, prefix.len() as int) =~= prefix);
    assert(s.skip(prefix.len() as int) =~= path);
}

/// A beatmap that was found is kept in the cache, under its own hash and with everything that is known of it;
/// where it came from the cache, nothing changes.
pub proof fn found_beatmaps_are_kept(
    cache: Map<Seq<char>, CachedView>,
    stage: LookupStage,
    m: ResolvedView,
    now: Seq<char>,
)
    ensures
        stage != LookupStage::Cached ==> ({
            let after = cache_after_stage(cache, stage, Some(m), now);
            let key = text::lower_text(text::trimmed(m.beatmap_hash));
            after.contains_key(key) && after[key].resolved(m.beatmap_hash) == m && forall|k: Seq<char>|
                k != key ==> (after.contains_key(k) <==> cache.contains_key(k)) && (cache.contains_key(k)
                    ==> #[trigger] after[k] == cache[k])
        }),
        stage == LookupStage::Cached ==> cache_after_stage(cache, stage, Some(m), now) == cache,
        cache_after_stage(cache, stage, None, now) == cache,
{
}

/// A file is the beatmap of a hash only where it is a file, lies below the songs unless the cache knew it, and
/// has that hash.
pub proof fn only_the_right_file_is_found(
    stage: LookupStage,
    is_file: bool,
    inside_songs: bool,
    bytes: Seq<u8>,
    hash: Seq<char>,
)
    ensures
        found_digest(stage, is_file, inside_songs, bytes, hash) is Some <==> is_file && (stage
            == LookupStage::Cached || inside_songs) && text::lower_text(codec::hex_text(codec::md5(bytes)))
            == text::lower_text(hash),
{
}

/// A replay is shown by its beatmap, or else by the name of its file.
pub proof fn replays_are_shown_by_name(name: Seq<char>)
    ensures
        shown_name(Some(name), None) == name,
        shown_name(None, None) == "Replay"@,
{
}

/// A folder of the game is accepted exactly where it can be found and holds the database, the songs and the
/// replays; none is accepted as well, and stands for the usual one.
pub proof fn whole_folders_are_accepted(
    value: Seq<char>,
    canonical: Result<Seq<char>, ErrorView>,
    contents: RootContents,
)
    ensures
        text::is_blank(value) ==> override_outcome(value, canonical, contents) == Ok::<Seq<char>, ErrorView>(
            Seq::empty(),
        ),
        !text::is_blank(value) ==> (override_outcome(value, canonical, contents) is Ok <==> canonical is Ok
            && contents.has_database && contents.has_songs && contents.has_replays),
        !text::is_blank(value) && override_outcome(value, canonical, contents) is Ok ==> override_outcome(
            value,
            canonical,
            contents,
        ) == canonical,
{
}

/// The path of a folder is accepted exactly where it is written, absolute, does not climb, and on Windows does not
/// lead into the network.
pub proof fn local_folders_are_accepted(path: Seq<char>, absolute: bool, climbs: bool, windows: bool)
    ensures
        local_dir_outcome(path, absolute, climbs, windows) is Ok <==> path.len() > 0 && absolute && !climbs
            && !(windows && is_network_path(path)),
{
}

/// The folder that was entered counts before the usual one.
pub proof fn entered_folders_count(entered: Seq<char>, usual: Option<Seq<char>>)
    ensures
        !text::is_blank(entered) ==> root_of(entered, usual) == Some(text::trimmed(entered)),
        text::is_blank(entered) ==> root_of(entered, usual) == usual,
        replays_ready(true, false) && replays_ready(false, true) && !replays_ready(false, false),
{
}

/// A beatmap has the extension of one, in whatever case.
pub proof fn beatmaps_have_their_extension(e: Seq<char>)
    ensures
        extends_beatmaps(Some(e)) <==> text::lower_text(e) == text::lower_text("osu"@),
        !extends_beatmaps(None),
{
}

/// The number in front of the name of a folder, and the space behind it, is left out where the folder is looked
/// for.
pub proof fn numbers_of_folders_are_left_out(c: char, name: Seq<char>)
    ensures
        '0' <= c <= '9' || c == ' ' ==> text::drop_front(seq![c] + name, number_or_space()) == text::drop_front(
            name,
            number_or_space(),
        ),
        name.len() > 0 && 'a' <= name[0] <= 'z' ==> text::drop_front(name, number_or_space()) == name,
        name.len() > 0 && 'A' <= name[0] <= 'Z' ==> text::drop_front(name, number_or_space()) == name,
{
    let s = seq![c] + name;
    assert(s.drop_first() =~= name);
}

/// A name is looked for by its letters and digits alone: each other run of characters is one space, and there is
/// none at either end.
pub proof fn names_are_folded(s: Seq<char>, c: char)
    ensures
        text::alphanumeric(c) ==> folded(s.push(c)).0 == folded(s).0 + text::lowercase_forms(c),
        text::alphanumeric(c) ==> !folded(s.push(c)).1,
        !text::alphanumeric(c) && folded(s).1 ==> folded(s.push(c)) == folded(s),
        !text::alphanumeric(c) && !folded(s).1 ==> folded(s.push(c)).0 == folded(s).0.push(' '),
        !text::alphanumeric(c) ==> folded(s.push(c)).1,
        folded(Seq::empty()) == (Seq::<char>::empty(), true),
        lookup_text(s) == text::trimmed(folded(s).0),
{
    assert(s.push(c).drop_last() =~= s);
}

/// A name tells something from six bytes on.
pub proof fn short_names_tell_nothing(s: Seq<char>)
    ensures
        telling(s) <==> text::byte_len(s) >= 6,
{
}

} // verus!
