//! Beatmap files: what the client reads from the text of one.
use crate::codec;
use crate::codec::text_from_bytes;
use crate::osu::{ResolvedBeatmap, ResolvedView};
use crate::scan;
use crate::scan::{parse_i64, parse_u32, split_at_char, split_once, starts_with};
use crate::text;
use crate::text::{chars_of, lowercase, same_text, text_of, trim};
use crate::types::Double;
use vstd::prelude::*;

verus! {

/// What the text of a beatmap says. The numbers with a fraction are kept as they are written.
pub struct BeatmapText {
    /// The section that the last line stands in.
    pub section: String,
    pub beatmap_id: i64,
    pub beatmap_set_id: i64,
    pub artist: String,
    pub title: String,
    pub difficulty_name: String,
    pub circle_size: Option<String>,
    pub hp_drain_rate: Option<String>,
    pub overall_difficulty: Option<String>,
    /// The lengths of a beat at the timing points that set one.
    pub beat_lengths: Vec<String>,
    pub total_notes: u32,
    pub long_notes: u32,
    pub duration_ms: u32,
}

/// What [`BeatmapText`] holds.
#[verifier::ext_equal]
pub struct BeatmapView {
    pub section: Seq<char>,
    pub beatmap_id: i64,
    pub beatmap_set_id: i64,
    pub artist: Seq<char>,
    pub title: Seq<char>,
    pub difficulty_name: Seq<char>,
    pub circle_size: Option<Seq<char>>,
    pub hp_drain_rate: Option<Seq<char>>,
    pub overall_difficulty: Option<Seq<char>>,
    pub beat_lengths: Seq<Seq<char>>,
    pub total_notes: u32,
    pub long_notes: u32,
    pub duration_ms: u32,
}

impl View for BeatmapText {
    type V = BeatmapView;

    open spec fn view(&self) -> BeatmapView {
        BeatmapView {
            section: self.section@,
            beatmap_id: self.beatmap_id,
            beatmap_set_id: self.beatmap_set_id,
            artist: self.artist@,
            title: self.title@,
            difficulty_name: self.difficulty_name@,
            circle_size: text::opt_text(self.circle_size),
            hp_drain_rate: text::opt_text(self.hp_drain_rate),
            overall_difficulty: text::opt_text(self.overall_difficulty),
            beat_lengths: text::texts(self.beat_lengths@),
            total_notes: self.total_notes,
            long_notes: self.long_notes,
            duration_ms: self.duration_ms,
        }
    }
}

// ---------------------------------------------------------------------------------------------
// What a line adds
// ---------------------------------------------------------------------------------------------

/// A beatmap before its first line.
pub open spec fn nothing() -> BeatmapView {
    BeatmapView {
        section: Seq::empty(),
        beatmap_id: 0,
        beatmap_set_id: 0,
        artist: Seq::empty(),
        title: Seq::empty(),
        difficulty_name: Seq::empty(),
        circle_size: None,
        hp_drain_rate: None,
        overall_difficulty: None,
        beat_lengths: Seq::empty(),
        total_notes: 0,
        long_notes: 0,
        duration_ms: 0,
    }
}

/// A whole number, or zero.
pub open spec fn whole_or_zero(s: Seq<char>) -> i64 {
    match scan::signed_value(s) {
        Some(n) => n as i64,
        None => 0,
    }
}

/// A count in one of the columns, or the other value where the column is missing or no count.
pub open spec fn count_or(s: Option<Seq<char>>, other: u32) -> u32 {
    match s {
        Some(t) => match scan::unsigned_value(t, u32::MAX as nat) {
            Some(n) => n as u32,
            None => other,
        },
        None => other,
    }
}

/// The text of a column, if the line has so many.
pub open spec fn column(columns: Seq<Seq<char>>, i: int) -> Option<Seq<char>> {
    if i < columns.len() {
        Some(columns[i])
    } else {
        None
    }
}

/// The same, without white space around it.
pub open spec fn trimmed_column(columns: Seq<Seq<char>>, i: int) -> Option<Seq<char>> {
    if i < columns.len() {
        Some(text::trimmed(columns[i]))
    } else {
        None
    }
}

/// One more, as far as an `u32` can count.
pub open spec fn one_more(n: u32) -> u32 {
    if n < u32::MAX {
        (n + 1) as u32
    } else {
        n
    }
}

/// A line of metadata: a name and a value.
pub open spec fn after_metadata(m: BeatmapView, key: Seq<char>, value: Seq<char>) -> BeatmapView {
    if key == "BeatmapID"@ {
        BeatmapView { beatmap_id: whole_or_zero(value), ..m }
    } else if key == "BeatmapSetID"@ {
        BeatmapView { beatmap_set_id: whole_or_zero(value), ..m }
    } else if key == "Artist"@ {
        BeatmapView { artist: value, ..m }
    } else if key == "Title"@ {
        BeatmapView { title: value, ..m }
    } else if key == "Version"@ {
        BeatmapView { difficulty_name: value, ..m }
    } else {
        m
    }
}

/// A line about the difficulty: a name and a value.
pub open spec fn after_difficulty(m: BeatmapView, key: Seq<char>, value: Seq<char>) -> BeatmapView {
    if key == "CircleSize"@ {
        BeatmapView { circle_size: Some(value), ..m }
    } else if key == "HPDrainRate"@ {
        BeatmapView { hp_drain_rate: Some(value), ..m }
    } else if key == "OverallDifficulty"@ {
        BeatmapView { overall_difficulty: Some(value), ..m }
    } else {
        m
    }
}

/// A timing point. The second column is the length of a beat; a zero in the seventh says that the
/// point does not set one.
pub open spec fn after_timing_point(m: BeatmapView, columns: Seq<Seq<char>>) -> BeatmapView {
    if columns.len() < 2 || trimmed_column(columns, 6) == Some("0"@) {
        m
    } else {
        BeatmapView { beat_lengths: m.beat_lengths.push(text::trimmed(columns[1])), ..m }
    }
}

/// The kind in the fourth column says that a note is held.
pub open spec fn held(columns: Seq<Seq<char>>) -> bool {
    (count_or(column(columns, 3), 0) / 128) % 2 == 1
}

/// When the object of a line begins.
pub open spec fn begin_time(columns: Seq<Seq<char>>) -> u32 {
    count_or(trimmed_column(columns, 2), 0)
}

/// When the object of a line is over: a held note ends at the time before the first colon of the
/// sixth column, and any other note where it begins.
pub open spec fn end_time(columns: Seq<Seq<char>>) -> u32 {
    let time = begin_time(columns);
    if held(columns) {
        match column(columns, 5) {
            Some(s) => count_or(Some(text::trimmed(scan::split(s, text::only(':'))[0])), time),
            None => time,
        }
    } else {
        time
    }
}

/// An object that is hit.
pub open spec fn after_object(m: BeatmapView, columns: Seq<Seq<char>>) -> BeatmapView {
    let end = end_time(columns);
    BeatmapView {
        total_notes: one_more(m.total_notes),
        long_notes: if held(columns) {
            one_more(m.long_notes)
        } else {
            m.long_notes
        },
        duration_ms: if end > m.duration_ms {
            end
        } else {
            m.duration_ms
        },
        ..m
    }
}

/// The name in square brackets of a line that begins a section.
pub open spec fn section_name(line: Seq<char>) -> Option<Seq<char>> {
    if line.len() >= 2 && line[0] == '[' && line.last() == ']' {
        Some(line.subrange(1, line.len() - 1))
    } else {
        None
    }
}

/// A beatmap and one more line of it.
pub open spec fn after_line(m: BeatmapView, raw: Seq<char>) -> BeatmapView {
    let line = text::trimmed(raw);
    if line.len() == 0 || scan::begins(line, "//"@) {
        m
    } else if section_name(line) is Some {
        BeatmapView { section: section_name(line)->0, ..m }
    } else if m.section == "Metadata"@ {
        match scan::cut_once(line, ':') {
            Some((k, v)) => after_metadata(m, text::trimmed(k), text::trimmed(v)),
            None => m,
        }
    } else if m.section == "Difficulty"@ {
        match scan::cut_once(line, ':') {
            Some((k, v)) => after_difficulty(m, text::trimmed(k), text::trimmed(v)),
            None => m,
        }
    } else if m.section == "TimingPoints"@ {
        after_timing_point(m, scan::split(line, text::only(',')))
    } else if m.section == "HitObjects"@ {
        after_object(m, scan::split(line, text::only(',')))
    } else {
        m
    }
}

/// A beatmap from its lines.
pub open spec fn after_lines(lines: Seq<Seq<char>>) -> BeatmapView
    decreases lines.len(),
{
    if lines.len() == 0 {
        nothing()
    } else {
        after_line(after_lines(lines.drop_last()), lines.last())
    }
}

/// What the text of a beatmap says.
pub open spec fn read_beatmap(raw: Seq<char>) -> BeatmapView {
    after_lines(scan::split(raw, text::only('\n')))
}

// ---------------------------------------------------------------------------------------------
// Reading
// ---------------------------------------------------------------------------------------------

fn whole(s: &str) -> (r: i64)
    ensures
        r == whole_or_zero(s@),
{
    match parse_i64(s) {
        Some(n) => n,
        None => 0,
    }
}

fn count(s: &str, other: u32) -> (r: u32)
    ensures
        r == count_or(Some(s@), other),
{
    match parse_u32(s) {
        Some(n) => n,
        None => other,
    }
}

impl BeatmapText {
    pub fn new() -> (r: Self)
        ensures
            r@ == nothing(),
    {
        let r = BeatmapText {
            section: String::new(),
            beatmap_id: 0,
            beatmap_set_id: 0,
            artist: String::new(),
            title: String::new(),
            difficulty_name: String::new(),
            circle_size: None,
            hp_drain_rate: None,
            overall_difficulty: None,
            beat_lengths: Vec::new(),
            total_notes: 0,
            long_notes: 0,
            duration_ms: 0,
        };
        assert(r@ =~= nothing());
        r
    }

    fn add_metadata(&mut self, key: &str, value: String)
        ensures
            final(self)@ == after_metadata(old(self)@, key@, value@),
    {
        if same_text(key, "BeatmapID") {
            self.beatmap_id = whole(value.as_str());
        } else if same_text(key, "BeatmapSetID") {
            self.beatmap_set_id = whole(value.as_str());
        } else if same_text(key, "Artist") {
            self.artist = value;
        } else if same_text(key, "Title") {
            self.title = value;
        } else if same_text(key, "Version") {
            self.difficulty_name = value;
        }
    }

    fn add_difficulty(&mut self, key: &str, value: String)
        ensures
            final(self)@ == after_difficulty(old(self)@, key@, value@),
    {
        if same_text(key, "CircleSize") {
            self.circle_size = Some(value);
        } else if same_text(key, "HPDrainRate") {
            self.hp_drain_rate = Some(value);
        } else if same_text(key, "OverallDifficulty") {
            self.overall_difficulty = Some(value);
        }
    }

    fn add_timing_point(&mut self, columns: &Vec<String>)
        ensures
            final(self)@ == after_timing_point(old(self)@, text::texts(columns@)),
    {
        if columns.len() < 2 {
            return;
        }
        if columns.len() > 6 && same_text(trim(columns[6].as_str()).as_str(), "0") {
            return;
        }
        let length = trim(columns[1].as_str());
        let ghost before = text::texts(self.beat_lengths@);
        self.beat_lengths.push(length);
        assert(text::texts(self.beat_lengths@) =~= before.push(
            text::trimmed(text::texts(columns@)[1]),
        ));
    }

    fn add_object(&mut self, columns: &Vec<String>)
        ensures
            final(self)@ == after_object(old(self)@, text::texts(columns@)),
    {
        let ghost cols = text::texts(columns@);
        let time: u32 = if columns.len() > 2 {
            count(trim(columns[2].as_str()).as_str(), 0)
        } else {
            0
        };
        assert(time == begin_time(cols));
        let kind: u32 = if columns.len() > 3 {
            count(columns[3].as_str(), 0)
        } else {
            0
        };
        let mut end: u32 = time;
        if self.total_notes < u32::MAX {
            self.total_notes = self.total_notes + 1;
        }
        if (kind / 128) % 2 == 1 {
            if self.long_notes < u32::MAX {
                self.long_notes = self.long_notes + 1;
            }
            if columns.len() > 5 {
                let parts = split_at_char(columns[5].as_str(), ':');
                assert(text::texts(parts@)[0] == parts@[0]@);
                end = count(trim(parts[0].as_str()).as_str(), time);
            }
        }
        assert(end == end_time(cols));
        if end > self.duration_ms {
            self.duration_ms = end;
        }
    }

    /// Reads one more line.
    pub fn add_line(&mut self, raw: &str)
        ensures
            final(self)@ == after_line(old(self)@, raw@),
    {
        let line = trim(raw);
        if line.as_str().is_empty() || starts_with(line.as_str(), "//") {
            return;
        }
        let v = chars_of(line.as_str());
        let n: usize = v.len();
        if n >= 2 && v[0] == '[' && v[n - 1] == ']' {
            let name = text_of(vstd::slice::slice_subrange(v.as_slice(), 1, n - 1));
            self.section = name;
            return;
        }
        assert(section_name(line@) is None);
        if same_text(self.section.as_str(), "Metadata") {
            match split_once(line.as_str(), ':') {
                Some((k, v)) => self.add_metadata(trim(k.as_str()).as_str(), trim(v.as_str())),
                None => {},
            }
        } else if same_text(self.section.as_str(), "Difficulty") {
            match split_once(line.as_str(), ':') {
                Some((k, v)) => self.add_difficulty(trim(k.as_str()).as_str(), trim(v.as_str())),
                None => {},
            }
        } else if same_text(self.section.as_str(), "TimingPoints") {
            let columns = split_at_char(line.as_str(), ',');
            self.add_timing_point(&columns);
        } else if same_text(self.section.as_str(), "HitObjects") {
            let columns = split_at_char(line.as_str(), ',');
            self.add_object(&columns);
        }
    }
}

/// Reads the text of a beatmap.
pub fn parse_beatmap_text(raw: &str) -> (r: BeatmapText)
    ensures
        r@ == read_beatmap(raw@),
{
    let lines = split_at_char(raw, '\n');
    let ghost all = text::texts(lines@);
    let mut m = BeatmapText::new();
    let mut i: usize = 0;
    assert(all.take(0) =~= Seq::empty());
    while i < lines.len()
        invariant
            i <= lines@.len(),
            all == text::texts(lines@),
            m@ == after_lines(all.take(i as int)),
        decreases lines@.len() - i,
    {
        proof {
            assert(all.take(i + 1).drop_last() =~= all.take(i as int));
            assert(all.take(i + 1).last() == lines@[i as int]@);
        }
        m.add_line(lines[i].as_str());
        i = i + 1;
    }
    assert(all.take(all.len() as int) =~= all);
    m
}

/// Reads the file of a beatmap.
pub fn parse_beatmap_file(bytes: &[u8]) -> (r: BeatmapText)
    ensures
        r@ == read_beatmap(codec::lossy(bytes@)),
{
    let raw = text_from_bytes(bytes);
    parse_beatmap_text(raw.as_str())
}

/// The values of the numbers with a fraction in a beatmap.
#[derive(Clone, Copy, PartialEq, Eq, Structural)]
pub struct BeatmapNumbers {
    pub key_count: u8,
    pub hp: Double,
    pub cs: Double,
    pub od: Double,
    pub bpm: Double,
}

/// The beatmap that a text tells, with its hash, its numbers and the path of its file.
pub open spec fn resolved(m: BeatmapView, hash: Seq<char>, n: BeatmapNumbers, path: Seq<char>) -> ResolvedView {
    ResolvedView {
        beatmap_id: m.beatmap_id,
        beatmap_set_id: m.beatmap_set_id,
        beatmap_hash: text::lower_text(hash),
        artist: m.artist,
        title: m.title,
        difficulty_name: m.difficulty_name,
        key_count: n.key_count,
        long_note_count: m.long_notes,
        normal_note_count: if m.long_notes <= m.total_notes {
            (m.total_notes - m.long_notes) as u32
        } else {
            0
        },
        hp: n.hp,
        cs: n.cs,
        od: n.od,
        bpm: n.bpm,
        duration_ms: m.duration_ms,
        osu_path: path,
    }
}

/// The beatmap that a text tells, with its hash, its numbers and the path of its file.
pub fn resolve_beatmap_text(m: BeatmapText, hash: &str, n: BeatmapNumbers, path: &str) -> (r:
    ResolvedBeatmap)
    ensures
        r@ == resolved(m@, hash@, n, path@),
{
    ResolvedBeatmap {
        beatmap_id: m.beatmap_id,
        beatmap_set_id: m.beatmap_set_id,
        beatmap_hash: lowercase(hash),
        artist: m.artist,
        title: m.title,
        difficulty_name: m.difficulty_name,
        key_count: n.key_count,
        long_note_count: m.long_notes,
        normal_note_count: m.total_notes.saturating_sub(m.long_notes),
        hp: n.hp,
        cs: n.cs,
        od: n.od,
        bpm: n.bpm,
        duration_ms: m.duration_ms,
        osu_path: path.to_owned(),
    }
}

// ---------------------------------------------------------------------------------------------
// Laws
// ---------------------------------------------------------------------------------------------

/// No beatmap has more held notes than notes.
pub proof fn held_notes_are_notes(raw: Seq<char>)
    ensures
        read_beatmap(raw).long_notes <= read_beatmap(raw).total_notes,
{
    held_among_lines(scan::split(raw, text::only('\n')));
}

proof fn held_among_lines(lines: Seq<Seq<char>>)
    ensures
        after_lines(lines).long_notes <= after_lines(lines).total_notes,
    decreases lines.len(),
{
    if lines.len() > 0 {
        held_among_lines(lines.drop_last());
    }
}

/// More lines make a beatmap no shorter and take no note away.
pub proof fn lines_only_add(lines: Seq<Seq<char>>, more: Seq<Seq<char>>)
    ensures
        after_lines(lines).duration_ms <= after_lines(lines + more).duration_ms,
        after_lines(lines).total_notes <= after_lines(lines + more).total_notes,
        after_lines(lines).long_notes <= after_lines(lines + more).long_notes,
    decreases more.len(),
{
    if more.len() == 0 {
        assert(lines + more =~= lines);
    } else {
        lines_only_add(lines, more.drop_last());
        assert((lines + more).drop_last() =~= lines + more.drop_last());
    }
}

// ---------------------------------------------------------------------------------------------
// What the lines of a section say
// ---------------------------------------------------------------------------------------------

/// A line says something: it is neither blank nor a remark nor the name of a section.
pub open spec fn says_something(raw: Seq<char>) -> bool {
    let line = text::trimmed(raw);
    &&& line.len() > 0
    &&& !(line.len() >= 2 && line[0] == '/' && line[1] == '/')
    &&& !(line.len() >= 2 && line[0] == '[' && line[line.len() - 1] == ']')
}

/// A line that says something stands in a section of that name.
pub open spec fn stands_in(lines: Seq<Seq<char>>, i: int, section: Seq<char>) -> bool {
    0 <= i < lines.len() && says_something(lines[i]) && after_lines(lines.take(i)).section == section
}

/// What stands between the commas of a line.
pub open spec fn columns_of(raw: Seq<char>) -> Seq<Seq<char>> {
    scan::split(text::trimmed(raw), text::only(','))
}

/// A line tells a number in one of its columns, white space around it or not.
pub open spec fn tells_time(raw: Seq<char>, i: int, t: int) -> bool {
    i < columns_of(raw).len() && scan::unsigned_value(text::trimmed(columns_of(raw)[i]), 0xffff_ffff)
        == Some(t as nat) && t >= 0
}

/// The object of a line is held: the eighth bit of the number in the fourth column is set.
pub open spec fn tells_hold(raw: Seq<char>) -> bool {
    &&& columns_of(raw).len() > 3
    &&& scan::unsigned_value(columns_of(raw)[3], 0xffff_ffff) matches Some(k) && ((k as u32) & 128u32) != 0
}

/// A line tells in front of the first colon of the sixth column when its object ends.
pub open spec fn tells_end(raw: Seq<char>, t: int) -> bool {
    columns_of(raw).len() > 5 && scan::unsigned_value(
        text::trimmed(scan::split(columns_of(raw)[5], text::only(':'))[0]),
        0xffff_ffff,
    ) == Some(t as nat) && t >= 0
}

proof fn remarks_begin_with_two_strokes(line: Seq<char>)
    ensures
        scan::begins(line, "//"@) <==> line.len() >= 2 && line[0] == '/' && line[1] == '/',
{
    reveal_strlit("//");
    if line.len() >= 2 {
        assert(line.subrange(0, 2)[0] == line[0] && line.subrange(0, 2)[1] == line[1]);
        if line[0] == '/' && line[1] == '/' {
            assert(line.subrange(0, 2) =~= "//"@);
        }
    }
}

proof fn sections_have_names()
    ensures
        "Metadata"@ != "Difficulty"@,
        "Metadata"@ != "TimingPoints"@,
        "Metadata"@ != "HitObjects"@,
        "Difficulty"@ != "TimingPoints"@,
        "Difficulty"@ != "HitObjects"@,
        "TimingPoints"@ != "HitObjects"@,
{
    reveal_strlit("Metadata");
    reveal_strlit("Difficulty");
    reveal_strlit("TimingPoints");
    reveal_strlit("HitObjects");
    assert("Metadata"@.len() == 8 && "TimingPoints"@.len() == 12);
    assert("Difficulty"@.len() == 10 && "HitObjects"@.len() == 10);
    assert("Difficulty"@[0] == 'D');
    assert("HitObjects"@[0] == 'H');
}

proof fn eighth_bit(k: u32)
    ensures
        (k & 128u32) != 0 <==> (k / 128) % 2 == 1,
{
    assert((k & 128u32) != 0 <==> (k / 128) % 2 == 1) by (bit_vector);
}

proof fn held_is_told(raw: Seq<char>)
    ensures
        held(columns_of(raw)) <==> tells_hold(raw),
{
    let columns = columns_of(raw);
    if columns.len() > 3 {
        if let Some(k) = scan::unsigned_value(columns[3], 0xffff_ffff) {
            eighth_bit(k as u32);
        }
    }
}

proof fn object_lines_are_added(m: BeatmapView, raw: Seq<char>)
    ensures
        says_something(raw) && m.section == "HitObjects"@ ==> after_line(m, raw) == after_object(
            m,
            columns_of(raw),
        ),
        !(says_something(raw) && m.section == "HitObjects"@) ==> after_line(m, raw).duration_ms
            == m.duration_ms && after_line(m, raw).total_notes == m.total_notes && after_line(
            m,
            raw,
        ).long_notes == m.long_notes,
{
    remarks_begin_with_two_strokes(text::trimmed(raw));
    sections_have_names();
}

/// A beatmap lasts at least until every object in it: until the time in the third column of its line, or,
/// of an object that is held, until the end in the sixth; where no end can be read there, until the time
/// again.
pub proof fn beatmaps_last_until_every_object(lines: Seq<Seq<char>>, i: int, t: int)
    requires
        stands_in(lines, i, "HitObjects"@),
    ensures
        !tells_hold(lines[i]) && tells_time(lines[i], 2, t) ==> after_lines(lines).duration_ms >= t,
        tells_hold(lines[i]) && tells_end(lines[i], t) ==> after_lines(lines).duration_ms >= t,
        tells_hold(lines[i]) && (forall|e: int| !tells_end(lines[i], e)) && tells_time(lines[i], 2, t)
            ==> after_lines(lines).duration_ms >= t,
{
    let upto = lines.take(i + 1);
    let m = after_lines(lines.take(i));
    let columns = columns_of(lines[i]);
    assert(upto.drop_last() =~= lines.take(i));
    assert(upto.last() == lines[i]);
    object_lines_are_added(m, lines[i]);
    held_is_told(lines[i]);
    assert(after_lines(upto) == after_object(m, columns));
    assert(lines =~= upto + lines.skip(i + 1));
    lines_only_add(upto, lines.skip(i + 1));
    if columns.len() > 5 {
        let s = text::trimmed(scan::split(columns[5], text::only(':'))[0]);
        if let Some(e) = scan::unsigned_value(s, 0xffff_ffff) {
            assert(tells_end(lines[i], e as int));
        }
    }
}

/// An object of the beatmap reaches a time: it begins then, or it is held until then.
pub open spec fn reaches(lines: Seq<Seq<char>>, i: int, t: int) -> bool {
    stands_in(lines, i, "HitObjects"@) && (tells_time(lines[i], 2, t) || (tells_hold(lines[i])
        && tells_end(lines[i], t)))
}

/// A beatmap lasts no longer than one of its objects: it lasts no time at all, or an object reaches its end.
pub proof fn beatmaps_end_with_an_object(lines: Seq<Seq<char>>)
    ensures
        after_lines(lines).duration_ms == 0 || exists|i: int| reaches(
            lines,
            i,
            after_lines(lines).duration_ms as int,
        ),
    decreases lines.len(),
{
    if lines.len() > 0 {
        let before = lines.drop_last();
        let m = after_lines(before);
        let n: int = lines.len() - 1;
        beatmaps_end_with_an_object(before);
        object_lines_are_added(m, lines.last());
        held_is_told(lines.last());
        assert(lines.take(n) =~= before);
        assert(lines.last() == lines[n]);
        let d = after_lines(lines).duration_ms;
        if d == m.duration_ms {
            if d != 0 {
                let i = choose|i: int| reaches(before, i, d as int);
                assert(before.take(i) =~= lines.take(i));
                assert(reaches(lines, i, d as int));
            }
        } else {
            let columns = columns_of(lines[n]);
            assert(d == end_time(columns));
            assert(reaches(lines, n, d as int));
        }
    }
}

/// The number of objects among some lines, and of those that are held.
pub open spec fn objects(lines: Seq<Seq<char>>, held_only: bool) -> nat
    decreases lines.len(),
{
    if lines.len() == 0 {
        0
    } else {
        objects(lines.drop_last(), held_only) + if stands_in(lines, lines.len() - 1, "HitObjects"@) && (
        held_only ==> tells_hold(lines.last())) {
            1nat
        } else {
            0nat
        }
    }
}

/// Every object counts as one note, and every held one as one held note, as far as an `u32` counts.
pub proof fn every_object_is_counted(lines: Seq<Seq<char>>)
    ensures
        objects(lines, false) <= 0xffff_ffff ==> after_lines(lines).total_notes == objects(lines, false),
        objects(lines, true) <= 0xffff_ffff ==> after_lines(lines).long_notes == objects(lines, true),
        objects(lines, false) > 0xffff_ffff ==> after_lines(lines).total_notes == 0xffff_ffff,
        objects(lines, true) > 0xffff_ffff ==> after_lines(lines).long_notes == 0xffff_ffff,
    decreases lines.len(),
{
    if lines.len() > 0 {
        every_object_is_counted(lines.drop_last());
        object_lines_are_added(after_lines(lines.drop_last()), lines.last());
        held_is_told(lines.last());
        assert(lines.take(lines.len() - 1) =~= lines.drop_last());
    }
}

/// A name in square brackets begins a section, and no other line does.
pub proof fn names_in_brackets_begin_sections(m: BeatmapView, raw: Seq<char>, name: Seq<char>)
    ensures
        text::trimmed(raw) == seq!['['] + name + seq![']'] ==> after_line(m, raw) == (BeatmapView {
            section: name,
            ..m
        }),
        (forall|n: Seq<char>| text::trimmed(raw) != #[trigger] (seq!['['] + n) + seq![']']) ==> after_line(
            m,
            raw,
        ).section == m.section,
{
    let line = text::trimmed(raw);
    remarks_begin_with_two_strokes(line);
    if line == seq!['['] + name + seq![']'] {
        assert(line.subrange(1, line.len() - 1) =~= name);
    }
    if section_name(line) is Some {
        assert(line =~= (seq!['['] + line.subrange(1, line.len() - 1)) + seq![']']);
    }
}

/// A line that says nothing changes nothing.
pub proof fn blank_lines_and_remarks_say_nothing(m: BeatmapView, raw: Seq<char>)
    ensures
        text::is_blank(raw) ==> after_line(m, raw) == m,
        text::trimmed(raw).len() >= 2 && text::trimmed(raw)[0] == '/' && text::trimmed(raw)[1] == '/'
            ==> after_line(m, raw) == m,
{
    remarks_begin_with_two_strokes(text::trimmed(raw));
}

/// A line tells a value under a name.
pub open spec fn tells_value(raw: Seq<char>, name: Seq<char>, value: Seq<char>) -> bool {
    &&& says_something(raw)
    &&& scan::cut_once(text::trimmed(raw), ':') matches Some((k, v)) && text::trimmed(k) == name
        && text::trimmed(v) == value
}

proof fn values_have_names()
    ensures
        "BeatmapID"@.len() == 9 && "BeatmapSetID"@.len() == 12 && "Artist"@.len() == 6 && "Title"@.len()
            == 5 && "Version"@.len() == 7,
        "CircleSize"@.len() == 10 && "HPDrainRate"@.len() == 11 && "OverallDifficulty"@.len() == 17,
{
    reveal_strlit("BeatmapID");
    reveal_strlit("BeatmapSetID");
    reveal_strlit("Artist");
    reveal_strlit("Title");
    reveal_strlit("Version");
    reveal_strlit("CircleSize");
    reveal_strlit("HPDrainRate");
    reveal_strlit("OverallDifficulty");
}

/// A line of the metadata is kept under its own name, whatever was kept there before: the beatmap and its
/// set by their numbers, zero where no number is told, the artist, the title and the difficulty as they
/// are written. Everything else stays.
pub proof fn metadata_is_kept(m: BeatmapView, raw: Seq<char>, value: Seq<char>)
    requires
        m.section == "Metadata"@,
    ensures
        tells_value(raw, "Artist"@, value) ==> after_line(m, raw) == (BeatmapView { artist: value, ..m }),
        tells_value(raw, "Title"@, value) ==> after_line(m, raw) == (BeatmapView { title: value, ..m }),
        tells_value(raw, "Version"@, value) ==> after_line(m, raw) == (BeatmapView {
            difficulty_name: value,
            ..m
        }),
        tells_value(raw, "BeatmapID"@, value) ==> after_line(m, raw) == (BeatmapView {
            beatmap_id: after_line(m, raw).beatmap_id,
            ..m
        }),
        tells_value(raw, "BeatmapID"@, value) && scan::signed_value(value) is Some ==> after_line(
            m,
            raw,
        ).beatmap_id == scan::signed_value(value)->0,
        tells_value(raw, "BeatmapID"@, value) && scan::signed_value(value) is None ==> after_line(
            m,
            raw,
        ).beatmap_id == 0,
        tells_value(raw, "BeatmapSetID"@, value) ==> after_line(m, raw) == (BeatmapView {
            beatmap_set_id: after_line(m, raw).beatmap_set_id,
            ..m
        }),
        tells_value(raw, "BeatmapSetID"@, value) && scan::signed_value(value) is Some ==> after_line(
            m,
            raw,
        ).beatmap_set_id == scan::signed_value(value)->0,
        tells_value(raw, "BeatmapSetID"@, value) && scan::signed_value(value) is None ==> after_line(
            m,
            raw,
        ).beatmap_set_id == 0,
{
    remarks_begin_with_two_strokes(text::trimmed(raw));
    values_have_names();
}

/// A line about the difficulty is kept as it is written, under its own name. Everything else stays.
pub proof fn difficulty_is_kept(m: BeatmapView, raw: Seq<char>, value: Seq<char>)
    requires
        m.section == "Difficulty"@,
    ensures
        tells_value(raw, "CircleSize"@, value) ==> after_line(m, raw) == (BeatmapView {
            circle_size: Some(value),
            ..m
        }),
        tells_value(raw, "HPDrainRate"@, value) ==> after_line(m, raw) == (BeatmapView {
            hp_drain_rate: Some(value),
            ..m
        }),
        tells_value(raw, "OverallDifficulty"@, value) ==> after_line(m, raw) == (BeatmapView {
            overall_difficulty: Some(value),
            ..m
        }),
{
    remarks_begin_with_two_strokes(text::trimmed(raw));
    values_have_names();
    sections_have_names();
}

/// What a line changes stands in the section for it, under its own name.
pub proof fn lines_change_only_what_they_tell(m: BeatmapView, raw: Seq<char>)
    ensures
        after_line(m, raw).artist != m.artist ==> m.section == "Metadata"@ && tells_value(
            raw,
            "Artist"@,
            after_line(m, raw).artist,
        ),
        after_line(m, raw).title != m.title ==> m.section == "Metadata"@ && tells_value(
            raw,
            "Title"@,
            after_line(m, raw).title,
        ),
        after_line(m, raw).difficulty_name != m.difficulty_name ==> m.section == "Metadata"@
            && tells_value(raw, "Version"@, after_line(m, raw).difficulty_name),
        after_line(m, raw).beatmap_id != m.beatmap_id ==> m.section == "Metadata"@ && exists|v: Seq<char>|
            tells_value(raw, "BeatmapID"@, v),
        after_line(m, raw).beatmap_set_id != m.beatmap_set_id ==> m.section == "Metadata"@ && exists|
            v: Seq<char>,
        | tells_value(raw, "BeatmapSetID"@, v),
        after_line(m, raw).circle_size != m.circle_size ==> m.section == "Difficulty"@ && exists|
            v: Seq<char>,
        | tells_value(raw, "CircleSize"@, v),
        after_line(m, raw).hp_drain_rate != m.hp_drain_rate ==> m.section == "Difficulty"@ && exists|
            v: Seq<char>,
        | tells_value(raw, "HPDrainRate"@, v),
        after_line(m, raw).overall_difficulty != m.overall_difficulty ==> m.section == "Difficulty"@
            && exists|v: Seq<char>| tells_value(raw, "OverallDifficulty"@, v),
        after_line(m, raw).beat_lengths != m.beat_lengths ==> m.section == "TimingPoints"@
            && says_something(raw),
{
    let line = text::trimmed(raw);
    remarks_begin_with_two_strokes(line);
    if let Some((k, v)) = scan::cut_once(line, ':') {
        let name = text::trimmed(k);
        let value = text::trimmed(v);
        if says_something(raw) {
            assert(tells_value(raw, name, value));
        }
    }
}

/// A timing point tells the length of a beat in its second column, unless its seventh is a zero.
pub proof fn timing_points_tell_beats(m: BeatmapView, raw: Seq<char>)
    requires
        m.section == "TimingPoints"@,
        says_something(raw),
    ensures
        columns_of(raw).len() >= 2 && !(columns_of(raw).len() >= 7 && text::trimmed(columns_of(raw)[6])
            == seq!['0']) ==> after_line(m, raw) == (BeatmapView {
            beat_lengths: m.beat_lengths.push(text::trimmed(columns_of(raw)[1])),
            ..m
        }),
        columns_of(raw).len() < 2 || (columns_of(raw).len() >= 7 && text::trimmed(columns_of(raw)[6])
            == seq!['0']) ==> after_line(m, raw) == m,
{
    remarks_begin_with_two_strokes(text::trimmed(raw));
    sections_have_names();
    reveal_strlit("0");
    assert("0"@ =~= seq!['0']);
}

/// Lines that are written one after the other, with a line feed between them, are the lines of the beatmap.
pub proof fn written_lines_are_read(lines: Seq<Seq<char>>)
    requires
        lines.len() > 0,
        forall|i: int| 0 <= i < lines.len() ==> !scan::has_char(#[trigger] lines[i], '\n'),
    ensures
        read_beatmap(scan::joined(lines, seq!['\n'])) == after_lines(lines),
{
    scan::joined_texts_are_cut_again(lines, '\n');
}

/// What is known of a beatmap is what its file says, under the same names: the notes that are not held are
/// all the others, and the hash is kept in lower case.
pub proof fn files_say_what_is_known(m: BeatmapView, hash: Seq<char>, n: BeatmapNumbers, path: Seq<char>)
    ensures
        ({
            let r = resolved(m, hash, n, path);
            &&& r.beatmap_id == m.beatmap_id && r.beatmap_set_id == m.beatmap_set_id
            &&& r.artist == m.artist && r.title == m.title && r.difficulty_name == m.difficulty_name
            &&& r.duration_ms == m.duration_ms && r.osu_path == path
            &&& r.beatmap_hash == text::lower_text(hash)
            &&& r.long_note_count == m.long_notes
            &&& m.long_notes <= m.total_notes ==> r.long_note_count + r.normal_note_count == m.total_notes
            &&& m.long_notes > m.total_notes ==> r.normal_note_count == 0
            &&& r.key_count == n.key_count && r.hp == n.hp && r.cs == n.cs && r.od == n.od && r.bpm == n.bpm
        }),
{
}

} // verus!
