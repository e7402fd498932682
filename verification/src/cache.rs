//! The beatmaps that were found before, by their hash.
use crate::osu::{ResolvedBeatmap, ResolvedView};
use crate::text;
use crate::text::{lowercase, trim};
use crate::types::Double;
use vstd::hash_map::StringHashMap;
use vstd::prelude::*;

verus! {

/// The form of a hash under which a beatmap is kept: without space around it, in lower case.
pub open spec fn hash_key(s: Seq<char>) -> Seq<char> {
    text::lower_text(text::trimmed(s))
}

/// The form of a hash under which a beatmap is kept.
pub fn normalize_hash(value: &str) -> (r: String)
    ensures
        r@ == hash_key(value@),
{
    lowercase(trim(value).as_str())
}

/// A beatmap that was found before.
#[derive(Clone)]
pub struct CachedBeatmapEntry {
    pub osu_path: String,
    pub beatmap_id: i64,
    pub beatmap_set_id: i64,
    pub artist: String,
    pub title: String,
    pub difficulty_name: String,
    pub key_count: u8,
    pub long_note_count: u32,
    pub normal_note_count: u32,
    pub hp: Double,
    pub cs: Double,
    pub od: Double,
    pub bpm: Double,
    pub duration_ms: u32,
    pub last_verified_at: String,
}

/// What [`CachedBeatmapEntry`] holds.
#[verifier::ext_equal]
pub struct CachedView {
    pub osu_path: Seq<char>,
    pub beatmap_id: i64,
    pub beatmap_set_id: i64,
    pub artist: Seq<char>,
    pub title: Seq<char>,
    pub difficulty_name: Seq<char>,
    pub key_count: u8,
    pub long_note_count: u32,
    pub normal_note_count: u32,
    pub hp: Double,
    pub cs: Double,
    pub od: Double,
    pub bpm: Double,
    pub duration_ms: u32,
    pub last_verified_at: Seq<char>,
}

impl View for CachedBeatmapEntry {
    type V = CachedView;

    open spec fn view(&self) -> CachedView {
        CachedView {
            osu_path: self.osu_path@,
            beatmap_id: self.beatmap_id,
            beatmap_set_id: self.beatmap_set_id,
            artist: self.artist@,
            title: self.title@,
            difficulty_name: self.difficulty_name@,
            key_count: self.key_count,
            long_note_count: self.long_note_count,
            normal_note_count: self.normal_note_count,
            hp: self.hp,
            cs: self.cs,
            od: self.od,
            bpm: self.bpm,
            duration_ms: self.duration_ms,
            last_verified_at: self.last_verified_at@,
        }
    }
}

impl CachedView {
    /// The beatmap that an entry tells, under the given hash.
    pub open spec fn resolved(self, hash: Seq<char>) -> ResolvedView {
        ResolvedView {
            beatmap_id: self.beatmap_id,
            beatmap_set_id: self.beatmap_set_id,
            beatmap_hash: hash,
            artist: self.artist,
            title: self.title,
            difficulty_name: self.difficulty_name,
            key_count: self.key_count,
            long_note_count: self.long_note_count,
            normal_note_count: self.normal_note_count,
            hp: self.hp,
            cs: self.cs,
            od: self.od,
            bpm: self.bpm,
            duration_ms: self.duration_ms,
            osu_path: self.osu_path,
        }
    }
}

/// The entry that a beatmap gets at the given time.
pub open spec fn entry_for(m: ResolvedView, now: Seq<char>) -> CachedView {
    CachedView {
        osu_path: m.osu_path,
        beatmap_id: m.beatmap_id,
        beatmap_set_id: m.beatmap_set_id,
        artist: m.artist,
        title: m.title,
        difficulty_name: m.difficulty_name,
        key_count: m.key_count,
        long_note_count: m.long_note_count,
        normal_note_count: m.normal_note_count,
        hp: m.hp,
        cs: m.cs,
        od: m.od,
        bpm: m.bpm,
        duration_ms: m.duration_ms,
        last_verified_at: now,
    }
}

impl CachedBeatmapEntry {
    /// The beatmap that the entry tells, under the given hash.
    pub fn to_resolved(&self, beatmap_hash: &str) -> (r: ResolvedBeatmap)
        ensures
            r@ == self@.resolved(beatmap_hash@),
    {
        ResolvedBeatmap {
            beatmap_id: self.beatmap_id,
            beatmap_set_id: self.beatmap_set_id,
            beatmap_hash: beatmap_hash.to_owned(),
            artist: self.artist.clone(),
            title: self.title.clone(),
            difficulty_name: self.difficulty_name.clone(),
            key_count: self.key_count,
            long_note_count: self.long_note_count,
            normal_note_count: self.normal_note_count,
            hp: self.hp,
            cs: self.cs,
            od: self.od,
            bpm: self.bpm,
            duration_ms: self.duration_ms,
            osu_path: self.osu_path.clone(),
        }
    }
}

/// The beatmaps that were found before. The entries stand in the order in which their hashes came;
/// `places` tells where.
pub struct BeatmapCache {
    pub entries: Vec<(String, CachedBeatmapEntry)>,
    pub places: StringHashMap<usize>,
}

impl BeatmapCache {
    /// Each hash stands in one place, and `places` tells it.
    pub open spec fn wf(self) -> bool {
        &&& forall|i: int|
            0 <= i < self.entries@.len() ==> {
                let k = (#[trigger] self.entries@[i]).0@;
                self.places@.contains_key(k) && self.places@[k] == i
            }
        &&& forall|k: Seq<char>| #[trigger]
            self.places@.contains_key(k) ==> {
                let i = self.places@[k] as int;
                i < self.entries@.len() && self.entries@[i].0@ == k
            }
    }
}

impl View for BeatmapCache {
    type V = Map<Seq<char>, CachedView>;

    open spec fn view(&self) -> Map<Seq<char>, CachedView> {
        self.places@.map_values(|i: usize| self.entries@[i as int].1@)
    }
}

impl BeatmapCache {
    /// A cache without beatmaps.
    pub fn new() -> (r: Self)
        ensures
            r.wf(),
            r@ == Map::<Seq<char>, CachedView>::empty(),
    {
        let r = BeatmapCache { entries: Vec::new(), places: StringHashMap::new() };
        assert(r@ =~= Map::empty());
        r
    }

    /// Puts an entry under a hash, in place of the one that was there.
    pub fn insert(&mut self, key: String, entry: CachedBeatmapEntry)
        requires
            old(self).wf(),
        ensures
            final(self).wf(),
            final(self)@ == old(self)@.insert(key@, entry@),
    {
        let ghost before = *self;
        let ghost k = key@;
        let ghost e = entry@;
        let place: Option<usize> = match self.places.get(key.as_str()) {
            Some(i) => Some(*i),
            None => None,
        };
        match place {
            Some(i) => {
                self.entries.set(i, (key, entry));
                assert(self.wf());
                assert(self@ =~= before@.insert(k, e)) by {
                    assert forall|x: Seq<char>| self@.contains_key(x) implies self@[x]
                        == before@.insert(k, e)[x] by {
                        if x != k {
                            assert(before.places@.contains_key(x));
                        }
                    }
                }
            },
            None => {
                let n: usize = self.entries.len();
                let name = key.clone();
                self.entries.push((key, entry));
                self.places.insert(name, n);
                assert(self.wf()) by {
                    assert forall|x: Seq<char>| #[trigger] self.places@.contains_key(x) implies ({
                        let i = self.places@[x] as int;
                        i < self.entries@.len() && self.entries@[i].0@ == x
                    }) by {
                        if x != k {
                            assert(before.places@.contains_key(x));
                        }
                    }
                }
                assert(self@ =~= before@.insert(k, e)) by {
                    assert forall|x: Seq<char>| self@.contains_key(x) implies self@[x]
                        == before@.insert(k, e)[x] by {
                        if x != k {
                            assert(before.places@.contains_key(x));
                        }
                    }
                }
            },
        }
    }

    /// The entry under a hash, written as it is kept.
    pub fn find(&self, key: &str) -> (r: Option<&CachedBeatmapEntry>)
        requires
            self.wf(),
        ensures
            match r {
                Some(e) => self@.contains_key(key@) && e@ == self@[key@],
                None => !self@.contains_key(key@),
            },
    {
        match self.places.get(key) {
            Some(i) => Some(&self.entries[*i].1),
            None => None,
        }
    }
}

/// Two caches in one, in which the entries of the first go before those of the second.
pub open spec fn merged(
    first: Map<Seq<char>, CachedView>,
    second: Map<Seq<char>, CachedView>,
) -> Map<Seq<char>, CachedView> {
    second.union_prefer_right(first)
}

impl BeatmapCache {
    /// Takes the entries of another cache for the hashes that this one does not hold.
    pub fn merge_missing(&mut self, other: BeatmapCache)
        requires
            old(self).wf(),
            other.wf(),
        ensures
            final(self).wf(),
            final(self)@ == merged(old(self)@, other@),
    {
        let ghost before = self@;
        let ghost all = other;
        let mut rest = other.entries;
        let ghost wanted = merged(before, all@);
        while rest.len() > 0
            invariant
                self.wf(),
                all.wf(),
                wanted == merged(before, all@),
                rest@ == all.entries@.take(rest@.len() as int),
                rest@.len() <= all.entries@.len(),
                forall|k: Seq<char>|
                    #![trigger self@.contains_key(k)]
                    self@.contains_key(k) ==> wanted.contains_key(k) && self@[k] == wanted[k],
                forall|k: Seq<char>|
                    #![trigger before.contains_key(k)]
                    before.contains_key(k) ==> self@.contains_key(k),
                forall|i: int|
                    rest@.len() <= i < all.entries@.len() ==> self@.contains_key(
                        (#[trigger] all.entries@[i]).0@,
                    ),
            decreases rest@.len(),
        {
            let ghost n = rest@.len() - 1;
            let (key, entry) = match rest.pop() {
                Some(pair) => pair,
                None => {
                    return ;
                },
            };
            let ghost k = key@;
            proof {
                assert((key, entry) == all.entries@[n as int]);
                assert(all.places@.contains_key(k) && all.places@[k] == n);
                assert(all@.contains_key(k) && all@[k] == entry@);
            }
            if self.find(key.as_str()).is_none() {
                self.insert(key, entry);
            }
        }
        proof {
            assert forall|k: Seq<char>| wanted.contains_key(k) implies self@.contains_key(k) by {
                if !before.contains_key(k) {
                    let i = all.places@[k] as int;
                    assert(all.places@.contains_key(k));
                    assert(all.entries@[i].0@ == k);
                }
            }
            assert(self@ =~= wanted);
        }
    }
}

/// The entry of a beatmap. The case of its hash and space around it do not matter.
pub fn get_cached_beatmap<'a>(cache: &'a BeatmapCache, beatmap_hash: &str) -> (r: Option<
    &'a CachedBeatmapEntry,
>)
    requires
        cache.wf(),
    ensures
        match r {
            Some(e) => cache@.contains_key(hash_key(beatmap_hash@)) && e@ == cache@[hash_key(
                beatmap_hash@,
            )],
            None => !cache@.contains_key(hash_key(beatmap_hash@)),
        },
{
    let key = normalize_hash(beatmap_hash);
    cache.find(key.as_str())
}

/// Keeps a beatmap under its hash, with the time at which that happens.
pub fn put_cached_beatmap(cache: &mut BeatmapCache, beatmap: &ResolvedBeatmap, now: &str)
    requires
        old(cache).wf(),
    ensures
        final(cache).wf(),
        final(cache)@ == old(cache)@.insert(
            hash_key(beatmap.beatmap_hash@),
            entry_for(beatmap@, now@),
        ),
{
    let key = normalize_hash(beatmap.beatmap_hash.as_str());
    let entry = CachedBeatmapEntry {
        osu_path: beatmap.osu_path.clone(),
        beatmap_id: beatmap.beatmap_id,
        beatmap_set_id: beatmap.beatmap_set_id,
        artist: beatmap.artist.clone(),
        title: beatmap.title.clone(),
        difficulty_name: beatmap.difficulty_name.clone(),
        key_count: beatmap.key_count,
        long_note_count: beatmap.long_note_count,
        normal_note_count: beatmap.normal_note_count,
        hp: beatmap.hp,
        cs: beatmap.cs,
        od: beatmap.od,
        bpm: beatmap.bpm,
        duration_ms: beatmap.duration_ms,
        last_verified_at: now.to_owned(),
    };
    cache.insert(key, entry);
}

// ---------------------------------------------------------------------------------------------
// Laws
// ---------------------------------------------------------------------------------------------

/// Normalizing a hash twice is the same as doing so once.
pub proof fn hash_key_idempotent(s: Seq<char>)
    ensures
        hash_key(hash_key(s)) == hash_key(s),
{
    let t = text::trimmed(s);
    text::trimmed_ends(s);
    let l = text::lower_text(t);
    assert forall|c: char| text::is_white_space(#[trigger] text::lower(c)) == text::is_white_space(
        c,
    ) by {}
    text::trimmed_is(l);
    assert(text::lower_text(l) =~= l);
}

/// A beatmap that was kept is found under each hash that differs from its own in case and in space
/// around it alone, and comes back as it was.
pub proof fn kept_beatmap_is_found(
    cache: Map<Seq<char>, CachedView>,
    m: ResolvedView,
    now: Seq<char>,
    hash: Seq<char>,
)
    requires
        hash_key(hash) == hash_key(m.beatmap_hash),
    ensures
        ({
            let after = cache.insert(hash_key(m.beatmap_hash), entry_for(m, now));
            after.contains_key(hash_key(hash)) && after[hash_key(hash)].resolved(m.beatmap_hash) == m
        }),
{
}

/// Keeping a beatmap leaves the entries under other hashes as they are.
pub proof fn keeping_leaves_others(
    cache: Map<Seq<char>, CachedView>,
    m: ResolvedView,
    now: Seq<char>,
    hash: Seq<char>,
)
    requires
        hash_key(hash) != hash_key(m.beatmap_hash),
    ensures
        ({
            let after = cache.insert(hash_key(m.beatmap_hash), entry_for(m, now));
            &&& after.contains_key(hash_key(hash)) == cache.contains_key(hash_key(hash))
            &&& cache.contains_key(hash_key(hash)) ==> after[hash_key(hash)] == cache[hash_key(
                hash,
            )]
        }),
{
}

/// Of two caches that are merged nothing is lost, and where both know a beatmap the first one counts.
pub proof fn merging_loses_nothing(
    first: Map<Seq<char>, CachedView>,
    second: Map<Seq<char>, CachedView>,
    key: Seq<char>,
)
    ensures
        first.contains_key(key) ==> merged(first, second).contains_key(key) && merged(first, second)[key]
            == first[key],
        second.contains_key(key) && !first.contains_key(key) ==> merged(first, second).contains_key(key)
            && merged(first, second)[key] == second[key],
        !first.contains_key(key) && !second.contains_key(key) ==> !merged(first, second).contains_key(key),
{
}

/// A beatmap comes back from the cache with every number and text that it was kept with.
pub proof fn kept_beatmaps_come_back(m: ResolvedView, now: Seq<char>)
    ensures
        entry_for(m, now).resolved(m.beatmap_hash) == m,
        entry_for(m, now).last_verified_at == now,
{
}

} // verus!
