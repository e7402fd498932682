//! The database of beatmaps that osu!stable keeps.
use crate::bytes;
use crate::bytes::{i32_at, Part, Reader, Source};
use crate::cache;
use crate::cache::normalize_hash;
use crate::error;
use crate::error::{AppError, AppResult, ErrorView};
use crate::replay::{block_in, text_in};
use vstd::hash_map::StringHashMap;
use vstd::prelude::*;

verus! {

pub const MAX_OSU_DB_BYTES: u64 = 268_435_456;

/// The size of the database and when it was last written, in nanoseconds of Unix time.
#[derive(Clone, Copy, PartialEq, Eq, Structural)]
pub struct OsuDbIndexMetadata {
    pub len: u64,
    pub modified: Option<i128>,
}

/// Where the file of a beatmap lies below the folder of songs.
pub struct OsuDbBeatmapEntry {
    pub osu_file_name: String,
    pub folder_name: String,
}

/// What [`OsuDbBeatmapEntry`] holds.
#[verifier::ext_equal]
pub struct EntryView {
    pub osu_file_name: Seq<char>,
    pub folder_name: Seq<char>,
}

impl View for OsuDbBeatmapEntry {
    type V = EntryView;

    open spec fn view(&self) -> EntryView {
        EntryView { osu_file_name: self.osu_file_name@, folder_name: self.folder_name@ }
    }
}

/// The beatmaps of the database by their hash, and the state of the file that they were read from.
pub struct OsuDbBeatmapIndex {
    pub entries: StringHashMap<OsuDbBeatmapEntry>,
    pub metadata: OsuDbIndexMetadata,
}

impl View for OsuDbBeatmapIndex {
    type V = Map<Seq<char>, EntryView>;

    open spec fn view(&self) -> Map<Seq<char>, EntryView> {
        self.entries@.map_values(|e: OsuDbBeatmapEntry| e@)
    }
}

impl OsuDbBeatmapIndex {
    /// The number of beatmaps.
    pub fn len(&self) -> (r: usize)
        ensures
            r == self@.dom().len(),
    {
        assert(self@.dom() =~= self.entries@.dom());
        self.entries.len()
    }

    /// Where the beatmap of that hash lies. The case of the hash and space around it do not matter.
    pub fn get(&self, beatmap_hash: &str) -> (r: Option<&OsuDbBeatmapEntry>)
        ensures
            match r {
                Some(e) => self@.contains_key(cache::hash_key(beatmap_hash@)) && e@
                    == self@[cache::hash_key(beatmap_hash@)],
                None => !self@.contains_key(cache::hash_key(beatmap_hash@)),
            },
    {
        let key = normalize_hash(beatmap_hash);
        self.entries.get(key.as_str())
    }

    /// The file has not changed since it was read.
    pub fn matches_metadata(&self, metadata: OsuDbIndexMetadata) -> (r: bool)
        ensures
            r == (self.metadata == metadata),
    {
        self.metadata == metadata
    }
}

// ---------------------------------------------------------------------------------------------
// One beatmap
// ---------------------------------------------------------------------------------------------

/// A database of that version begins each beatmap with its size.
pub open spec fn sized(version: int) -> bool {
    version < 20191106
}

/// A database of that version lists star ratings.
pub open spec fn rated(version: int) -> bool {
    version >= 20140609
}

/// The bytes of one star rating.
pub open spec fn rating_width(version: int) -> int {
    if version >= 20250107 {
        10
    } else {
        14
    }
}

/// The texts of a beatmap, of which the eighth is its hash and the ninth the name of its file, and
/// the numbers after them.
pub open spec fn head_parts() -> Seq<Part> {
    seq![
        Part::Text,
        Part::Text,
        Part::Text,
        Part::Text,
        Part::Text,
        Part::Text,
        Part::Text,
        Part::Text,
        Part::Text,
        Part::Block(39),
    ]
}

/// The rest of a beatmap: its timing points and numbers, its texts, of which the fourth is the name
/// of its folder, and what follows that.
pub open spec fn tail_parts(version: int, points: int) -> Seq<Part> {
    seq![
        Part::Block((17 * points + 23) as usize),
        Part::Text,
        Part::Text,
        Part::Block(2),
        Part::Text,
        Part::Block(10),
        Part::Text,
        Part::Block(
            if rated(version) {
                18
            } else {
                20
            },
        ),
    ]
}

/// The end of a list of star ratings: a count, then so many ratings.
pub open spec fn ratings_end(b: Seq<u8>, at: int, version: int) -> Result<int, ErrorView> {
    match bytes::block_at(b, at, 4, Source::OsuDb) {
        Err(e) => Err(e),
        Ok((count, next)) => {
            let n = bytes::le_i32(count);
            if 0 <= n <= 10_000 {
                match bytes::block_at(b, next, (n * rating_width(version)) as nat, Source::OsuDb) {
                    Err(e) => Err(e),
                    Ok((_, end)) => Ok(end),
                }
            } else {
                Err(ErrorView::Process("osu!.db star rating count is invalid"@))
            }
        },
    }
}

/// The end of so many lists of star ratings.
pub open spec fn lists_end(b: Seq<u8>, at: int, version: int, lists: nat) -> Result<int, ErrorView>
    decreases lists,
{
    if lists == 0 {
        Ok(at)
    } else {
        match lists_end(b, at, version, (lists - 1) as nat) {
            Ok(mid) => ratings_end(b, mid, version),
            Err(e) => Err(e),
        }
    }
}

/// The hash of a beatmap and where it lies.
pub type Found = (Seq<char>, EntryView);

/// The hash of the beatmap that the database tells at that position, where it lies, and the position
/// of the next one.
pub open spec fn entry_at(b: Seq<u8>, at: int, version: int) -> Result<(Found, int), ErrorView> {
    let src = Source::OsuDb;
    match bytes::block_at(
        b,
        at,
        if sized(version) {
            4
        } else {
            0
        },
        src,
    ) {
        Err(e) => Err(e),
        Ok((_, start)) => match bytes::pieces_at(b, start, head_parts(), src) {
            Err(e) => Err(e),
            Ok((head, rest)) => match lists_end(
                b,
                rest,
                version,
                if rated(version) {
                    4
                } else {
                    0
                },
            ) {
                Err(e) => Err(e),
                Ok(times) => match bytes::block_at(b, times, 16, src) {
                    Err(e) => Err(e),
                    Ok((block, next)) => {
                        let points = bytes::le_i32(block.subrange(12, 16));
                        if 0 <= points <= 100_000 {
                            match bytes::pieces_at(b, next, tail_parts(version, points), src) {
                                Err(e) => Err(e),
                                Ok((tail, end)) => Ok(
                                    (
                                        (
                                            head[7]->Text_0,
                                            EntryView {
                                                osu_file_name: head[8]->Text_0,
                                                folder_name: tail[6]->Text_0,
                                            },
                                        ),
                                        end,
                                    ),
                                ),
                            }
                        } else {
                            Err(ErrorView::Process("osu!.db timing point count is invalid"@))
                        }
                    },
                },
            },
        },
    }
}

// ---------------------------------------------------------------------------------------------
// All beatmaps
// ---------------------------------------------------------------------------------------------

/// The beatmaps so far and one more. A beatmap without a hash is left out; of two beatmaps with one
/// hash the later one counts.
pub open spec fn with_entry(map: Map<Seq<char>, EntryView>, found: Found) -> Map<
    Seq<char>,
    EntryView,
> {
    let key = cache::hash_key(found.0);
    if key.len() == 0 {
        map
    } else {
        map.insert(key, found.1)
    }
}

/// So many beatmaps, from that position on.
pub open spec fn entries_at(b: Seq<u8>, at: int, version: int, n: nat) -> Result<
    (Map<Seq<char>, EntryView>, int),
    ErrorView,
>
    decreases n,
{
    if n == 0 {
        Ok((Map::empty(), at))
    } else {
        match entries_at(b, at, version, (n - 1) as nat) {
            Ok((map, mid)) => match entry_at(b, mid, version) {
                Ok((found, end)) => Ok((with_entry(map, found), end)),
                Err(e) => Err(e),
            },
            Err(e) => Err(e),
        }
    }
}

/// What stands before the beatmaps: the version and other numbers, the player, and the number of
/// beatmaps.
pub open spec fn database_parts() -> Seq<Part> {
    seq![Part::Block(17), Part::Text, Part::Block(4)]
}

/// The beatmaps of a database.
pub open spec fn database_of(b: Seq<u8>) -> Result<Map<Seq<char>, EntryView>, ErrorView> {
    match bytes::pieces_at(b, 0, database_parts(), Source::OsuDb) {
        Err(e) => Err(e),
        Ok((ps, at)) => {
            let version = bytes::le_i32(ps[0]->Block_0.subrange(0, 4));
            let count = bytes::le_i32(ps[2]->Block_0);
            if 0 <= count <= 500_000 {
                match entries_at(b, at, version, count as nat) {
                    Err(e) => Err(e),
                    Ok((map, _)) => Ok(map),
                }
            } else {
                Err(ErrorView::Process("osu!.db beatmap count is invalid"@))
            }
        },
    }
}

/// A beatmap of the database, with its hash.
pub struct OsuDbEntry {
    pub beatmap_hash: String,
    pub entry: OsuDbBeatmapEntry,
}

/// A reader of the database.
pub struct OsuDbReader<'a> {
    pub reader: Reader<'a>,
}

impl<'a> OsuDbReader<'a> {
    /// The position lies in the database or at its end.
    pub open spec fn ok(self) -> bool {
        self.reader.ok() && self.reader.source == Source::OsuDb
    }

    /// The bytes of the database.
    pub open spec fn all(self) -> Seq<u8> {
        self.reader.bytes@
    }

    /// The position in the database.
    pub open spec fn at(self) -> int {
        self.reader.offset as int
    }

    pub fn new(b: &'a [u8]) -> (r: Self)
        ensures
            r.ok(),
            r.all() == b@,
            r.at() == 0,
    {
        OsuDbReader { reader: Reader::new(b, Source::OsuDb) }
    }

    /// Moves past a list of star ratings.
    pub fn skip_star_rating_pairs(&mut self, version: i32) -> (r: AppResult<()>)
        requires
            old(self).ok(),
        ensures
            final(self).ok(),
            final(self).all() == old(self).all(),
            match ratings_end(old(self).all(), old(self).at(), version as int) {
                Ok(end) => r is Ok && final(self).at() == end,
                Err(e) => r matches Err(err) && err@ == e,
            },
    {
        let block = match self.reader.read_exact(4) {
            Ok(block) => block,
            Err(e) => {
                return Err(e);
            },
        };
        assert(block@.subrange(0, 4) =~= block@);
        let count: i32 = i32_at(block.as_slice(), 0);
        if count < 0 || count > 10_000 {
            return Err(AppError::Process("osu!.db star rating count is invalid".to_owned()));
        }
        let width: usize = if version >= 20250107 {
            10
        } else {
            14
        };
        assert(0 <= count * width <= 140_000) by (nonlinear_arith)
            requires
                0 <= count <= 10_000,
                0 <= width <= 14,
        ;
        self.reader.skip(count as usize * width)
    }

    /// Moves past so many lists of star ratings.
    fn skip_lists(&mut self, version: i32, lists: u8) -> (r: AppResult<()>)
        requires
            old(self).ok(),
        ensures
            final(self).ok(),
            final(self).all() == old(self).all(),
            match lists_end(old(self).all(), old(self).at(), version as int, lists as nat) {
                Ok(end) => r is Ok && final(self).at() == end,
                Err(e) => r matches Err(err) && err@ == e,
            },
        decreases lists,
    {
        if lists == 0 {
            return Ok(());
        }
        match self.skip_lists(version, lists - 1) {
            Ok(()) => self.skip_star_rating_pairs(version),
            Err(e) => Err(e),
        }
    }

    /// Reads one beatmap.
    pub fn read_beatmap_entry(&mut self, version: i32) -> (r: AppResult<OsuDbEntry>)
        requires
            old(self).ok(),
        ensures
            final(self).ok(),
            final(self).all() == old(self).all(),
            match entry_at(old(self).all(), old(self).at(), version as int) {
                Ok((found, end)) => {
                    &&& r matches Ok(v) && v.beatmap_hash@ == found.0 && v.entry@ == found.1
                    &&& final(self).at() == end
                },
                Err(e) => r matches Err(err) && err@ == e,
            },
    {
        let lead: usize = if version < 20191106 {
            4
        } else {
            0
        };
        match self.reader.skip(lead) {
            Ok(()) => {},
            Err(e) => {
                return Err(e);
            },
        }
        let head_list = vec![
            Part::Text,
            Part::Text,
            Part::Text,
            Part::Text,
            Part::Text,
            Part::Text,
            Part::Text,
            Part::Text,
            Part::Text,
            Part::Block(39),
        ];
        assert(head_list@ =~= head_parts());
        proof {
            bytes::pieces_shape(self.all(), self.at(), head_parts(), Source::OsuDb);
        }
        let head = match self.reader.read_pieces(head_list.as_slice()) {
            Ok(ps) => ps,
            Err(e) => {
                return Err(e);
            },
        };
        assert(bytes::pieces_view(head@)[7] == head@[7]@);
        assert(bytes::pieces_view(head@)[8] == head@[8]@);
        let lists: u8 = if version >= 20140609 {
            4
        } else {
            0
        };
        match self.skip_lists(version, lists) {
            Ok(()) => {},
            Err(e) => {
                return Err(e);
            },
        }
        let times = match self.reader.read_exact(16) {
            Ok(block) => block,
            Err(e) => {
                return Err(e);
            },
        };
        let points: i32 = i32_at(times.as_slice(), 12);
        if points < 0 || points > 100_000 {
            return Err(AppError::Process("osu!.db timing point count is invalid".to_owned()));
        }
        let tail_list = vec![
            Part::Block(17 * points as usize + 23),
            Part::Text,
            Part::Text,
            Part::Block(2),
            Part::Text,
            Part::Block(10),
            Part::Text,
            Part::Block(
                if version >= 20140609 {
                    18
                } else {
                    20
                },
            ),
        ];
        assert(tail_list@ =~= tail_parts(version as int, points as int));
        proof {
            bytes::pieces_shape(
                self.all(),
                self.at(),
                tail_parts(version as int, points as int),
                Source::OsuDb,
            );
        }
        let tail = match self.reader.read_pieces(tail_list.as_slice()) {
            Ok(ps) => ps,
            Err(e) => {
                return Err(e);
            },
        };
        assert(bytes::pieces_view(tail@)[6] == tail@[6]@);
        Ok(
            OsuDbEntry {
                beatmap_hash: text_in(&head, 7),
                entry: OsuDbBeatmapEntry {
                    osu_file_name: text_in(&head, 8),
                    folder_name: text_in(&tail, 6),
                },
            },
        )
    }
}

/// Lists of star ratings end as far behind some more bytes as they ended without them.
proof fn lists_further(x: Seq<u8>, b: Seq<u8>, at: int, older: int, newer: int, lists: nat)
    requires
        0 <= at,
        rating_width(older) == rating_width(newer),
    ensures
        lists_end(x + b, at + x.len(), older, lists) == match lists_end(b, at, newer, lists) {
            Ok(end) => Ok::<int, ErrorView>(end + x.len()),
            Err(e) => Err(e),
        },
        lists_end(b, at, newer, lists) matches Ok(end) ==> at <= end,
    decreases lists,
{
    if lists > 0 {
        lists_further(x, b, at, older, newer, (lists - 1) as nat);
        if let Ok(mid) = lists_end(b, at, newer, (lists - 1) as nat) {
            bytes::block_further(x, b, mid, 4, Source::OsuDb);
            if let Ok((count, next)) = bytes::block_at(b, mid, 4, Source::OsuDb) {
                let n = bytes::le_i32(count);
                if 0 <= n <= 10_000 {
                    bytes::block_further(
                        x,
                        b,
                        next,
                        (n * rating_width(newer)) as nat,
                        Source::OsuDb,
                    );
                }
            }
        }
    }
}

/// A beatmap of an older database is its size in four bytes, whatever they are, and then what a newer
/// database writes: the same beatmap is read, or the same problem is met, and the next one stands four
/// bytes further on. The versions lie on the two sides of the one that has dropped the size, and of no
/// other change.
pub proof fn older_entries_have_a_size_in_front(x: Seq<u8>, b: Seq<u8>, older: int, newer: int)
    requires
        x.len() == 4,
        20140609 <= older < 20191106,
        20191106 <= newer < 20250107,
    ensures
        entry_at(x + b, 0, older) == bytes::further(entry_at(b, 0, newer), 4),
{
    let src = Source::OsuDb;
    bytes::pieces_further(x, b, 0, head_parts(), src);
    if let Ok((head, rest)) = bytes::pieces_at(b, 0, head_parts(), src) {
        lists_further(x, b, rest, older, newer, 4);
        if let Ok(times) = lists_end(b, rest, newer, 4) {
            bytes::block_further(x, b, times, 16, src);
            if let Ok((block, next)) = bytes::block_at(b, times, 16, src) {
                let points = bytes::le_i32(block.subrange(12, 16));
                bytes::pieces_further(x, b, next, tail_parts(newer, points), src);
            }
        }
    }
}

proof fn entries_fail(b: Seq<u8>, at: int, version: int, k: nat, n: nat, e: ErrorView)
    requires
        k <= n,
        entries_at(b, at, version, k) == Err::<(Map<Seq<char>, EntryView>, int), _>(e),
    ensures
        entries_at(b, at, version, n) == Err::<(Map<Seq<char>, EntryView>, int), _>(e),
    decreases n - k,
{
    if k < n {
        entries_fail(b, at, version, k + 1, n, e);
    }
}

/// Reads the beatmaps of a database.
pub fn read_osu_db_beatmap_index(b: &[u8], metadata: OsuDbIndexMetadata) -> (r: AppResult<
    OsuDbBeatmapIndex,
>)
    ensures
        error::outcome(r) == database_of(b@),
        r matches Ok(index) ==> index.metadata == metadata,
{
    let mut reader = OsuDbReader::new(b);
    let parts = vec![Part::Block(17), Part::Text, Part::Block(4)];
    assert(parts@ =~= database_parts());
    proof {
        bytes::pieces_shape(b@, 0, database_parts(), Source::OsuDb);
    }
    let ps = match reader.reader.read_pieces(parts.as_slice()) {
        Ok(ps) => ps,
        Err(e) => {
            return Err(e);
        },
    };
    assert(bytes::pieces_view(ps@)[0] == ps@[0]@);
    assert(bytes::pieces_view(ps@)[2] == ps@[2]@);
    let first = block_in(&ps, 0);
    let last = block_in(&ps, 2);
    let version: i32 = i32_at(first.as_slice(), 0);
    assert(last@.subrange(0, 4) =~= last@);
    let count: i32 = i32_at(last.as_slice(), 0);
    if count < 0 || count > 500_000 {
        return Err(AppError::Process("osu!.db beatmap count is invalid".to_owned()));
    }
    let mut entries: StringHashMap<OsuDbBeatmapEntry> = StringHashMap::new();
    let mut i: i32 = 0;
    let ghost start = reader.at();
    assert(entries@.map_values(|e: OsuDbBeatmapEntry| e@) =~= Map::empty());
    while i < count
        invariant
            0 <= i <= count,
            reader.ok(),
            reader.all() == b@,
            entries_at(b@, start, version as int, i as nat) == Ok::<_, ErrorView>(
                (entries@.map_values(|e: OsuDbBeatmapEntry| e@), reader.at()),
            ),
            database_of(b@) == match entries_at(b@, start, version as int, count as nat) {
                Err(e) => Err::<Map<Seq<char>, EntryView>, _>(e),
                Ok((map, _)) => Ok(map),
            },
        decreases count - i,
    {
        let ghost before = entries@.map_values(|e: OsuDbBeatmapEntry| e@);
        let next = match reader.read_beatmap_entry(version) {
            Ok(next) => next,
            Err(e) => {
                proof {
                    entries_fail(b@, start, version as int, (i + 1) as nat, count as nat, e@);
                }
                return Err(e);
            },
        };
        let key = normalize_hash(next.beatmap_hash.as_str());
        if !key.as_str().is_empty() {
            let entry = next.entry;
            let ghost e = entry@;
            let ghost k = key@;
            entries.insert(key, entry);
            assert(entries@.map_values(|e: OsuDbBeatmapEntry| e@) =~= before.insert(k, e));
        }
        i = i + 1;
    }
    Ok(OsuDbBeatmapIndex { entries, metadata })
}

/// Whether a database file is read at all, and the state of it then.
pub fn osu_db_index_metadata(is_file: bool, len: u64, modified: Option<i128>) -> (r: Option<
    OsuDbIndexMetadata,
>)
    ensures
        r == if !is_file || len == 0 || len > MAX_OSU_DB_BYTES {
            None
        } else {
            Some(OsuDbIndexMetadata { len, modified })
        },
{
    if !is_file || len == 0 || len > MAX_OSU_DB_BYTES {
        None
    } else {
        Some(OsuDbIndexMetadata { len, modified })
    }
}

/// What becomes of the beatmaps in memory when the database is looked at again.
#[derive(Clone, Copy, PartialEq, Eq, Structural)]
pub enum IndexRefresh {
    /// There is no database any more: forget the beatmaps, if there are any.
    Drop,
    /// Nothing has changed.
    Keep,
    /// The database is another one: read it.
    Reload,
}

/// What is done with the beatmaps that were read from a database once it is looked at again.
pub open spec fn refresh_for(
    current: Option<OsuDbIndexMetadata>,
    found: Option<OsuDbIndexMetadata>,
) -> IndexRefresh {
    if found is None {
        IndexRefresh::Drop
    } else if current == found {
        IndexRefresh::Keep
    } else {
        IndexRefresh::Reload
    }
}

/// Compares the beatmaps in memory to the database file as it is now.
pub fn refresh_decision(current: Option<OsuDbIndexMetadata>, found: Option<OsuDbIndexMetadata>) -> (r:
    IndexRefresh)
    ensures
        r == refresh_for(current, found),
        r == if found is None {
            IndexRefresh::Drop
        } else if current == found {
            IndexRefresh::Keep
        } else {
            IndexRefresh::Reload
        },
{
    match found {
        None => IndexRefresh::Drop,
        Some(f) => match current {
            Some(c) => if c == f {
                IndexRefresh::Keep
            } else {
                IndexRefresh::Reload
            },
            None => IndexRefresh::Reload,
        },
    }
}

/// Every beatmap of a database is kept under a hash in lower case that is not empty.
pub proof fn database_keys_are_normal(b: Seq<u8>, key: Seq<char>)
    requires
        database_of(b) matches Ok(map) && map.contains_key(key),
    ensures
        key.len() > 0,
        cache::hash_key(key) == key,
{
    let (ps, at) = bytes::pieces_at(b, 0, database_parts(), Source::OsuDb)->Ok_0;
    let version = bytes::le_i32(ps[0]->Block_0.subrange(0, 4));
    let count = bytes::le_i32(ps[2]->Block_0);
    keys_are_normal(b, at, version, count as nat, key);
}

proof fn keys_are_normal(b: Seq<u8>, at: int, version: int, n: nat, key: Seq<char>)
    requires
        entries_at(b, at, version, n) matches Ok((map, _)) && map.contains_key(key),
    ensures
        key.len() > 0,
        cache::hash_key(key) == key,
    decreases n,
{
    if n > 0 {
        let (before, mid) = entries_at(b, at, version, (n - 1) as nat)->Ok_0;
        if before.contains_key(key) {
            keys_are_normal(b, at, version, (n - 1) as nat, key);
        } else {
            let (found, _) = entry_at(b, mid, version)->Ok_0;
            cache::hash_key_idempotent(found.0);
        }
    }
}

/// Reads a database and finds where the beatmap of a hash lies.
pub fn find_beatmap_entry_in_osu_db(
    b: &[u8],
    metadata: OsuDbIndexMetadata,
    beatmap_hash: &str,
) -> (r: AppResult<Option<OsuDbBeatmapEntry>>)
    ensures
        match database_of(b@) {
            Ok(map) => match r {
                Ok(Some(e)) => map.contains_key(cache::hash_key(beatmap_hash@)) && e@
                    == map[cache::hash_key(beatmap_hash@)],
                Ok(None) => !map.contains_key(cache::hash_key(beatmap_hash@)),
                Err(_) => false,
            },
            Err(e) => r matches Err(f) && f@ == e,
        },
{
    match read_osu_db_beatmap_index(b, metadata) {
        Ok(index) => match index.get(beatmap_hash) {
            Some(e) => Ok(
                Some(
                    OsuDbBeatmapEntry {
                        osu_file_name: e.osu_file_name.clone(),
                        folder_name: e.folder_name.clone(),
                    },
                ),
            ),
            None => Ok(None),
        },
        Err(e) => Err(e),
    }
}

// ---------------------------------------------------------------------------------------------
// Written databases
// ---------------------------------------------------------------------------------------------

/// What a beatmap is written from in a database. Its other texts and numbers are not read.
pub struct Listed {
    pub size: Seq<u8>,
    pub texts: Seq<Seq<u8>>,
    pub hash: Seq<u8>,
    pub file_name: Seq<u8>,
    pub numbers: Seq<u8>,
    pub ratings: Seq<Seq<u8>>,
    pub rating_counts: Seq<int>,
    pub times: Seq<u8>,
    pub point_count: int,
    pub points: Seq<u8>,
    pub source: Seq<u8>,
    pub tags: Seq<u8>,
    pub offset: Seq<u8>,
    pub font: Seq<u8>,
    pub played: Seq<u8>,
    pub folder: Seq<u8>,
    pub rest: Seq<u8>,
}

/// A text is short enough to have a length.
pub open spec fn short(t: Seq<u8>) -> bool {
    t.len() < 0x8000_0000_0000_0000
}

/// A beatmap can be written for a database of that version: what has a fixed size has it, and lists are as
/// long as they say.
#[verifier::opaque]
pub open spec fn writable(e: Listed, version: int) -> bool {
    &&& version < 20191106 ==> e.size.len() == 4
    &&& version >= 20191106 ==> e.size.len() == 0
    &&& e.texts.len() == 7 && forall|i: int| 0 <= i < 7 ==> short(#[trigger] e.texts[i])
    &&& short(e.hash) && short(e.file_name) && short(e.source) && short(e.tags) && short(e.font)
        && short(e.folder)
    &&& e.numbers.len() == 39
    &&& e.ratings.len() == e.rating_counts.len()
    &&& e.ratings.len() == if version >= 20140609 {
        4int
    } else {
        0
    }
    &&& forall|i: int|
        0 <= i < e.ratings.len() ==> 0 <= #[trigger] e.rating_counts[i] <= 10_000 && e.ratings[i].len()
            == e.rating_counts[i] * (if version >= 20250107 {
            10int
        } else {
            14
        })
    &&& e.times.len() == 12
    &&& 0 <= e.point_count <= 100_000
    &&& e.points.len() == 17 * e.point_count + 23
    &&& e.offset.len() == 2 && e.played.len() == 10
    &&& e.rest.len() == if version >= 20140609 {
        18int
    } else {
        20
    }
}

/// Lists of star ratings as they are written, each with its count in front.
pub open spec fn written_ratings(counts: Seq<int>, ratings: Seq<Seq<u8>>) -> Seq<u8>
    decreases counts.len(),
{
    if counts.len() == 0 {
        Seq::empty()
    } else {
        written_ratings(counts.drop_last(), ratings.drop_last()) + (bytes::written_number(counts.last(), 4)
            + ratings.last())
    }
}

/// Texts as they are written, one after the other.
pub open spec fn written_texts(texts: Seq<Seq<u8>>) -> Seq<u8>
    decreases texts.len(),
{
    if texts.len() == 0 {
        Seq::empty()
    } else {
        written_texts(texts.drop_last()) + bytes::written_text(texts.last())
    }
}

/// A beatmap as it is written in a database.
pub open spec fn written_entry(e: Listed) -> Seq<u8> {
    e.size + (written_texts(e.texts) + bytes::written_text(e.hash) + bytes::written_text(e.file_name)
        + e.numbers) + written_ratings(e.rating_counts, e.ratings) + (e.times + bytes::written_number(
        e.point_count,
        4,
    )) + (e.points + bytes::written_text(e.source) + bytes::written_text(e.tags) + e.offset
        + bytes::written_text(e.font) + e.played + bytes::written_text(e.folder) + e.rest)
}

/// What a database tells of a beatmap: its hash, and where its file lies.
pub open spec fn told_entry(e: Listed) -> Found {
    (
        crate::codec::lossy(e.hash),
        EntryView {
            osu_file_name: crate::codec::lossy(e.file_name),
            folder_name: crate::codec::lossy(e.folder),
        },
    )
}

spec fn head_contents(e: Listed) -> Seq<Seq<u8>> {
    e.texts + seq![e.hash, e.file_name, e.numbers]
}

spec fn tail_contents(e: Listed) -> Seq<Seq<u8>> {
    seq![e.points, e.source, e.tags, e.offset, e.font, e.played, e.folder, e.rest]
}

proof fn texts_are_parts(parts: Seq<Part>, texts: Seq<Seq<u8>>)
    requires
        parts.len() == texts.len(),
        forall|i: int| 0 <= i < parts.len() ==> #[trigger] parts[i] == Part::Text,
    ensures
        bytes::written_pieces(parts, texts) == written_texts(texts),
    decreases parts.len(),
{
    if parts.len() > 0 {
        texts_are_parts(parts.drop_last(), texts.drop_last());
        assert(parts[parts.len() - 1] == Part::Text);
    }
}

proof fn one_more_part(parts: Seq<Part>, contents: Seq<Seq<u8>>, i: int)
    requires
        parts.len() == contents.len(),
        0 <= i < parts.len(),
    ensures
        bytes::written_pieces(parts.take(i + 1), contents.take(i + 1)) == bytes::written_pieces(
            parts.take(i),
            contents.take(i),
        ) + bytes::written_piece(parts[i], contents[i]),
{
    assert(parts.take(i + 1).drop_last() =~= parts.take(i));
    assert(contents.take(i + 1).drop_last() =~= contents.take(i));
}

proof fn head_is_its_parts(e: Listed)
    requires
        e.texts.len() == 7,
    ensures
        bytes::written_pieces(head_parts(), head_contents(e)) == written_texts(e.texts)
            + bytes::written_text(e.hash) + bytes::written_text(e.file_name) + e.numbers,
{
    let parts = head_parts();
    let cs = head_contents(e);
    texts_are_parts(parts.take(7), cs.take(7));
    assert(cs.take(7) =~= e.texts);
    one_more_part(parts, cs, 7);
    one_more_part(parts, cs, 8);
    one_more_part(parts, cs, 9);
    assert(parts.take(10) =~= parts);
    assert(cs.take(10) =~= cs);
}

proof fn tail_is_its_parts(e: Listed, version: int)
    ensures
        bytes::written_pieces(tail_parts(version, e.point_count), tail_contents(e)) == e.points
            + bytes::written_text(e.source) + bytes::written_text(e.tags) + e.offset
            + bytes::written_text(e.font) + e.played + bytes::written_text(e.folder) + e.rest,
{
    let parts = tail_parts(version, e.point_count);
    let cs = tail_contents(e);
    assert(parts.take(0) =~= Seq::empty());
    one_more_part(parts, cs, 0);
    one_more_part(parts, cs, 1);
    one_more_part(parts, cs, 2);
    one_more_part(parts, cs, 3);
    one_more_part(parts, cs, 4);
    one_more_part(parts, cs, 5);
    one_more_part(parts, cs, 6);
    one_more_part(parts, cs, 7);
    assert(Seq::<u8>::empty() + e.points =~= e.points);
    assert(parts.take(8) =~= parts);
    assert(cs.take(8) =~= cs);
}

proof fn within(b: Seq<u8>, at: int, x: Seq<u8>, y: Seq<u8>)
    requires
        bytes::stands(b, at, x + y),
    ensures
        bytes::stands(b, at, x),
        bytes::stands(b, at + x.len(), y),
{
    let all = b.subrange(at, at + (x + y).len());
    let k = x.len() as int;
    assert(all.subrange(0, k) =~= x);
    assert(b.subrange(at, at + k) =~= all.subrange(0, k));
    assert(all.subrange(k, k + y.len()) =~= y);
    assert(b.subrange(at + k, at + k + y.len()) =~= all.subrange(k, k + y.len()));
}

proof fn ratings_are_passed(b: Seq<u8>, at: int, version: int, counts: Seq<int>, ratings: Seq<Seq<u8>>)
    requires
        counts.len() == ratings.len(),
        bytes::stands(b, at, written_ratings(counts, ratings)),
        forall|i: int|
            0 <= i < ratings.len() ==> 0 <= #[trigger] counts[i] <= 10_000 && ratings[i].len() == counts[i]
                * rating_width(version),
    ensures
        lists_end(b, at, version, counts.len()) == Ok::<int, ErrorView>(
            at + written_ratings(counts, ratings).len(),
        ),
    decreases counts.len(),
{
    if counts.len() > 0 {
        let n: int = counts.len() - 1;
        let c0 = counts.drop_last();
        let r0 = ratings.drop_last();
        let w0 = written_ratings(c0, r0);
        let number = bytes::written_number(counts[n], 4);
        within(b, at, w0, number + ratings[n]);
        assert forall|i: int| 0 <= i < r0.len() implies 0 <= #[trigger] c0[i] <= 10_000 && r0[i].len()
            == c0[i] * rating_width(version) by {
            assert(counts[i] == c0[i]);
        }
        ratings_are_passed(b, at, version, c0, r0);
        let mid = at + w0.len();
        within(b, mid, number, ratings[n]);
        bytes::numbers_take_their_bytes(counts[n], 4);
        bytes::numbers_are_read_back(counts[n]);
        assert(0 <= counts[n] <= 10_000);
        assert((number + ratings[n]).len() == 4 + counts[n] * rating_width(version));
        assert(0 <= counts[n] * rating_width(version)) by (nonlinear_arith)
            requires
                0 <= counts[n],
                0 <= rating_width(version),
        ;
    }
}

/// A beatmap is read back from where it was written, in a database of any version: its hash, the name of its
/// file and its folder. The reader then stands behind it.
pub proof fn written_entries_are_read_back(b: Seq<u8>, at: int, e: Listed, version: int)
    requires
        writable(e, version),
        bytes::stands(b, at, written_entry(e)),
    ensures
        entry_at(b, at, version) == Ok::<(Found, int), ErrorView>(
            (told_entry(e), at + written_entry(e).len()),
        ),
{
    reveal(writable);
    let src = Source::OsuDb;
    let head = written_texts(e.texts) + bytes::written_text(e.hash) + bytes::written_text(e.file_name)
        + e.numbers;
    let ratings = written_ratings(e.rating_counts, e.ratings);
    let times = e.times + bytes::written_number(e.point_count, 4);
    let tail = e.points + bytes::written_text(e.source) + bytes::written_text(e.tags) + e.offset
        + bytes::written_text(e.font) + e.played + bytes::written_text(e.folder) + e.rest;
    let w1 = e.size + head;
    let w2 = w1 + ratings;
    let w3 = w2 + times;
    assert(written_entry(e) == w3 + tail);
    within(b, at, w3, tail);
    within(b, at, w2, times);
    within(b, at, w1, ratings);
    within(b, at, e.size, head);
    let start = at + e.size.len();
    head_is_its_parts(e);
    let hp = head_parts();
    let hc = head_contents(e);
    assert forall|i: int| 0 <= i < hp.len() implies bytes::fits(#[trigger] hp[i], hc[i]) by {
        if i < 7 {
            assert(hc[i] == e.texts[i]);
            assert(short(e.texts[i]));
        }
    }
    bytes::records_are_read_back(b, start, hp, hc, src);
    let hr = Seq::new(hp.len(), |i: int| bytes::read_piece(hp[i], hc[i]));
    assert(hr[7] == bytes::PieceView::Text(crate::codec::lossy(e.hash)));
    assert(hr[8] == bytes::PieceView::Text(crate::codec::lossy(e.file_name)));
    let rest = at + w1.len();
    ratings_are_passed(b, rest, version, e.rating_counts, e.ratings);
    let then = at + w2.len();
    bytes::numbers_take_their_bytes(e.point_count, 4);
    bytes::numbers_are_read_back(e.point_count);
    assert(times.subrange(12, 16) =~= bytes::written_number(e.point_count, 4));
    let next = at + w3.len();
    tail_is_its_parts(e, version);
    let tp = tail_parts(version, e.point_count);
    let tc = tail_contents(e);
    assert forall|i: int| 0 <= i < tp.len() implies bytes::fits(#[trigger] tp[i], tc[i]) by {}
    bytes::records_are_read_back(b, next, tp, tc, src);
    let tr = Seq::new(tp.len(), |i: int| bytes::read_piece(tp[i], tc[i]));
    assert(tr[6] == bytes::PieceView::Text(crate::codec::lossy(e.folder)));
}

/// Beatmaps as they are written in a database, one after the other.
pub open spec fn written_entries(es: Seq<Listed>) -> Seq<u8>
    decreases es.len(),
{
    if es.len() == 0 {
        Seq::empty()
    } else {
        written_entries(es.drop_last()) + written_entry(es.last())
    }
}

/// The beatmap is the last one with its hash, and has one.
pub open spec fn counts_for(es: Seq<Listed>, i: int, key: Seq<char>) -> bool {
    &&& 0 <= i < es.len()
    &&& key.len() > 0
    &&& cache::hash_key(told_entry(es[i]).0) == key
    &&& forall|j: int| i < j < es.len() ==> cache::hash_key(told_entry(#[trigger] es[j]).0) != key
}

/// The beatmaps of a list by their hashes.
pub open spec fn tells_entries(map: Map<Seq<char>, EntryView>, es: Seq<Listed>) -> bool {
    &&& forall|i: int, key: Seq<char>| #[trigger]
        counts_for(es, i, key) ==> map.contains_key(key) && map[key] == told_entry(es[i]).1
    &&& forall|key: Seq<char>| #[trigger]
        map.contains_key(key) ==> exists|i: int| #[trigger] counts_for(es, i, key)
}

proof fn one_more_is_told(map: Map<Seq<char>, EntryView>, less: Seq<Listed>, es: Seq<Listed>)
    requires
        es.len() > 0,
        less == es.drop_last(),
        tells_entries(map, less),
    ensures
        tells_entries(with_entry(map, told_entry(es.last())), es),
{
    let e = es.last();
    let n: int = es.len() - 1;
    let all = with_entry(map, told_entry(e));
    let last = cache::hash_key(told_entry(e).0);
    assert forall|i: int, key: Seq<char>| #[trigger] counts_for(es, i, key) implies all.contains_key(key)
        && all[key] == told_entry(es[i]).1 by {
        if i < n {
            assert(cache::hash_key(told_entry(es[n]).0) != key);
            assert(less[i] == es[i]);
            assert forall|j: int| i < j < less.len() implies cache::hash_key(
                told_entry(#[trigger] less[j]).0,
            ) != key by {
                assert(less[j] == es[j]);
            }
            assert(counts_for(less, i, key));
        }
    }
    assert forall|key: Seq<char>| #[trigger] all.contains_key(key) implies exists|i: int| #[trigger]
        counts_for(es, i, key) by {
        if key == last && key.len() > 0 {
            assert(counts_for(es, n, key));
        } else {
            assert(map.contains_key(key));
            let i = choose|i: int| #[trigger] counts_for(less, i, key);
            assert(es[i] == less[i]);
            assert forall|j: int| i < j < es.len() implies cache::hash_key(
                told_entry(#[trigger] es[j]).0,
            ) != key by {
                if j < n {
                    assert(less[j] == es[j]);
                }
            }
            assert(counts_for(es, i, key));
        }
    }
}

proof fn entries_are_read(b: Seq<u8>, at: int, es: Seq<Listed>, version: int)
    requires
        forall|i: int| 0 <= i < es.len() ==> writable(#[trigger] es[i], version),
        bytes::stands(b, at, written_entries(es)),
    ensures
        entries_at(b, at, version, es.len()) matches Ok((map, end)) && end == at + written_entries(es).len()
            && tells_entries(map, es),
    decreases es.len(),
{
    if es.len() > 0 {
        let less = es.drop_last();
        let n: int = es.len() - 1;
        within(b, at, written_entries(less), written_entry(es[n]));
        assert forall|i: int| 0 <= i < less.len() implies writable(#[trigger] less[i], version) by {
            assert(writable(es[i], version));
        }
        entries_are_read(b, at, less, version);
        assert(writable(es[n], version));
        written_entries_are_read_back(b, at + written_entries(less).len(), es[n], version);
        one_more_is_told(entries_at(b, at, version, less.len())->Ok_0.0, less, es);
    }
}

/// A database as it is written: its version, some numbers, the player, the number of its beatmaps, and the
/// beatmaps.
pub open spec fn written_database(
    version: int,
    numbers: Seq<u8>,
    player: Seq<u8>,
    es: Seq<Listed>,
) -> Seq<u8> {
    bytes::written_number(version, 4) + numbers + bytes::written_text(player) + bytes::written_number(
        es.len() as int,
        4,
    ) + written_entries(es)
}

/// A database that was written is read back: every beatmap in it is found by its hash, of two with one hash
/// the later one, and no other beatmap is. What follows the beatmaps does not matter.
pub proof fn written_databases_are_read_back(
    version: int,
    numbers: Seq<u8>,
    player: Seq<u8>,
    es: Seq<Listed>,
    more: Seq<u8>,
)
    requires
        -0x8000_0000 <= version < 0x8000_0000,
        numbers.len() == 13,
        player.len() < 0x8000_0000_0000_0000,
        es.len() <= 500_000,
        forall|i: int| 0 <= i < es.len() ==> writable(#[trigger] es[i], version),
    ensures
        database_of(written_database(version, numbers, player, es) + more) matches Ok(map) && tells_entries(
            map,
            es,
        ),
{
    let v = bytes::written_number(version, 4);
    let n = bytes::written_number(es.len() as int, 4);
    let first = v + numbers;
    let parts = database_parts();
    let cs = seq![first, player, n];
    let w = bytes::written_pieces(parts, cs);
    let b = written_database(version, numbers, player, es) + more;
    bytes::numbers_take_their_bytes(version, 4);
    bytes::numbers_take_their_bytes(es.len() as int, 4);
    bytes::numbers_are_read_back(version);
    bytes::numbers_are_read_back(es.len() as int);
    assert(parts.take(0) =~= Seq::empty());
    one_more_part(parts, cs, 0);
    one_more_part(parts, cs, 1);
    one_more_part(parts, cs, 2);
    assert(parts.take(3) =~= parts);
    assert(cs.take(3) =~= cs);
    assert(w =~= first + bytes::written_text(player) + n);
    assert(b =~= w + (written_entries(es) + more));
    assert(b.subrange(0, w.len() as int) =~= w);
    assert forall|i: int| 0 <= i < parts.len() implies bytes::fits(#[trigger] parts[i], cs[i]) by {}
    bytes::records_are_read_back(b, 0, parts, cs, Source::OsuDb);
    let read = Seq::new(parts.len(), |i: int| bytes::read_piece(parts[i], cs[i]));
    assert(read[0] == bytes::PieceView::Block(first));
    assert(read[2] == bytes::PieceView::Block(n));
    assert(first.subrange(0, 4) =~= v);
    let at = w.len() as int;
    assert(b.subrange(at, at + written_entries(es).len()) =~= written_entries(es));
    entries_are_read(b, at, es, version);
}

/// A database is read again where its size or its time is another one, or where it was not read yet; where it is
/// gone, what was read from it goes too.
pub proof fn changed_databases_are_read_again(a: OsuDbIndexMetadata, b: OsuDbIndexMetadata)
    ensures
        refresh_for(Some(a), Some(a)) == IndexRefresh::Keep,
        a.len != b.len || a.modified != b.modified ==> refresh_for(Some(a), Some(b)) == IndexRefresh::Reload,
        refresh_for(None, Some(b)) == IndexRefresh::Reload,
        refresh_for(Some(a), None) == IndexRefresh::Drop,
        refresh_for(None, None) == IndexRefresh::Drop,
{
}

} // verus!
