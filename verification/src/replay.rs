//! Replay files: the header of a replay, its mods and its score.
use crate::bytes;
use crate::bytes::{i16_at, i32_at, i64_at, u32_at, Part, Piece, Reader, Source};
use crate::error;
use crate::error::{AppError, AppResult, ErrorView};
use crate::osu::ResolvedBeatmap;
use crate::text;
use crate::types::{BeatmapData, Double, HitData, ScoreData};
use vstd::prelude::*;

verus! {

pub const MAX_REPLAY_FILE_BYTES: u64 = 8_388_608;

/// What stands at the beginning of a replay.
pub struct ReplayHeader {
    pub beatmap_hash: String,
    pub username: String,
    pub score: i64,
    pub max_combo: i64,
    pub hits: HitData,
    pub mods_bits: u32,
    pub online_score_id: Option<i64>,
}

/// What [`ReplayHeader`] holds.
#[verifier::ext_equal]
pub struct HeaderView {
    pub beatmap_hash: Seq<char>,
    pub username: Seq<char>,
    pub score: i64,
    pub max_combo: i64,
    pub hits: HitData,
    pub mods_bits: u32,
    pub online_score_id: Option<i64>,
}

impl View for ReplayHeader {
    type V = HeaderView;

    open spec fn view(&self) -> HeaderView {
        HeaderView {
            beatmap_hash: self.beatmap_hash@,
            username: self.username@,
            score: self.score,
            max_combo: self.max_combo,
            hits: self.hits,
            mods_bits: self.mods_bits,
            online_score_id: self.online_score_id,
        }
    }
}

// ---------------------------------------------------------------------------------------------
// The header
// ---------------------------------------------------------------------------------------------

/// The parts of a replay between its mode and its input data: the version; the hash of the beatmap,
/// the player and the hash of the replay; the counts, the score, the combo, a flag and the mods; the
/// life bar; the time, and the length of the input data.
pub open spec fn header_parts() -> Seq<Part> {
    seq![
        Part::Block(4),
        Part::Text,
        Part::Text,
        Part::Text,
        Part::Block(23),
        Part::Text,
        Part::Block(12),
    ]
}

fn parts_of_header() -> (r: Vec<Part>)
    ensures
        r@ == header_parts(),
{
    let r = vec![
        Part::Block(4),
        Part::Text,
        Part::Text,
        Part::Text,
        Part::Block(23),
        Part::Text,
        Part::Block(12),
    ];
    assert(r@ =~= header_parts());
    r
}

/// Two bytes of a block, as a signed number.
pub open spec fn short_in(block: Seq<u8>, i: int) -> i64 {
    bytes::le_i16(block.subrange(i, i + 2)) as i64
}

/// Four bytes of a block, as a signed number.
pub open spec fn word_in(block: Seq<u8>, i: int) -> i64 {
    bytes::le_i32(block.subrange(i, i + 4)) as i64
}

/// The header that the parts of a replay say, with the number under which the score is kept online,
/// if one follows the input data.
pub open spec fn header_from(ps: Seq<bytes::PieceView>, online: Option<i64>) -> HeaderView {
    let counts = ps[4]->Block_0;
    HeaderView {
        beatmap_hash: ps[1]->Text_0,
        username: ps[2]->Text_0,
        score: word_in(counts, 12),
        max_combo: short_in(counts, 16),
        hits: HitData {
            n300: short_in(counts, 0),
            n100: short_in(counts, 2),
            n50: short_in(counts, 4),
            geki: short_in(counts, 6),
            katu: short_in(counts, 8),
            miss: short_in(counts, 10),
        },
        mods_bits: bytes::le(counts.subrange(19, 23)) as u32,
        online_score_id: online,
    }
}

/// The number under which the score is kept online, at the end of a replay.
pub open spec fn online_id_at(b: Seq<u8>, at: int) -> Option<i64> {
    if at + 8 <= b.len() {
        Some(bytes::le_i64(b.subrange(at, at + 8)) as i64)
    } else {
        None
    }
}

/// The header of an osu!mania replay; a replay of another mode, a short one and one that names no
/// beatmap are refused.
pub open spec fn header_of(b: Seq<u8>) -> Result<HeaderView, ErrorView> {
    let src = Source::Replay;
    if b.len() == 0 {
        Err(src.ended())
    } else if b[0] != 3 {
        Err(ErrorView::Process("only osu!mania replays are supported in Auto Renderer v1"@))
    } else {
        match bytes::pieces_at(b, 1, header_parts(), src) {
            Err(e) => Err(e),
            Ok((ps, at)) => {
                let length = bytes::le_i32(ps[6]->Block_0.subrange(8, 12));
                let data = if length > 0 {
                    length
                } else {
                    0
                };
                if at + data > b.len() {
                    Err(src.ended())
                } else if text::is_blank(ps[1]->Text_0) {
                    Err(ErrorView::Process("replay beatmap hash is missing"@))
                } else {
                    Ok(header_from(ps, online_id_at(b, at + data)))
                }
            },
        }
    }
}

/// The text in a piece that is one.
pub fn text_in(ps: &Vec<Piece>, i: usize) -> (r: String)
    requires
        i < ps@.len(),
        ps@[i as int] is Text,
    ensures
        r@ == ps@[i as int]@->Text_0,
{
    match &ps[i] {
        Piece::Text(s) => s.clone(),
        Piece::Block(_) => String::new(),
    }
}

/// The bytes in a piece that is a block.
pub fn block_in(ps: &Vec<Piece>, i: usize) -> (r: Vec<u8>)
    requires
        i < ps@.len(),
        ps@[i as int] is Block,
    ensures
        r@ == ps@[i as int]@->Block_0,
{
    match &ps[i] {
        Piece::Block(b) => vstd::slice::slice_to_vec(b.as_slice()),
        Piece::Text(_) => Vec::new(),
    }
}

/// Reads the header of a replay.
pub fn parse_replay_header_bytes(b: &[u8]) -> (r: AppResult<ReplayHeader>)
    ensures
        error::outcome(r) == header_of(b@),
{
    let mut reader = Reader::new(b, Source::Replay);
    let mode = match reader.read_u8() {
        Ok(m) => m,
        Err(e) => {
            return Err(e);
        },
    };
    if mode != 3 {
        return Err(
            AppError::Process(
                "only osu!mania replays are supported in Auto Renderer v1".to_owned(),
            ),
        );
    }
    let parts = parts_of_header();
    proof {
        bytes::pieces_shape(b@, 1, header_parts(), Source::Replay);
    }
    let ps = match reader.read_pieces(parts.as_slice()) {
        Ok(ps) => ps,
        Err(e) => {
            return Err(e);
        },
    };
    let ghost seen = bytes::pieces_view(ps@);
    proof {
        assert(seen[1] == ps@[1]@ && seen[2] == ps@[2]@ && seen[4] == ps@[4]@ && seen[6] == ps@[6]@);
    }
    let counts = block_in(&ps, 4);
    let tail = block_in(&ps, 6);
    let length: i32 = i32_at(tail.as_slice(), 8);
    if length > 0 {
        match reader.skip(length as usize) {
            Ok(()) => {},
            Err(e) => {
                return Err(e);
            },
        }
    }
    let online_score_id: Option<i64> = if b.len() - reader.offset >= 8 {
        Some(i64_at(b, reader.offset))
    } else {
        None
    };
    let beatmap_hash = text_in(&ps, 1);
    if text::blank(beatmap_hash.as_str()) {
        return Err(AppError::Process("replay beatmap hash is missing".to_owned()));
    }
    let c = counts.as_slice();
    Ok(
        ReplayHeader {
            beatmap_hash,
            username: text_in(&ps, 2),
            score: i32_at(c, 12) as i64,
            max_combo: i16_at(c, 16) as i64,
            hits: HitData {
                n300: i16_at(c, 0) as i64,
                n100: i16_at(c, 2) as i64,
                n50: i16_at(c, 4) as i64,
                geki: i16_at(c, 6) as i64,
                katu: i16_at(c, 8) as i64,
                miss: i16_at(c, 10) as i64,
            },
            mods_bits: u32_at(c, 19),
            online_score_id,
        },
    )
}

/// Whether a replay file of that many bytes may be read at all.
pub fn check_replay_size(len: u64) -> (r: AppResult<()>)
    ensures
        error::plain(r) == if len == 0 {
            Err(ErrorView::Process("replay file is empty"@))
        } else if len > MAX_REPLAY_FILE_BYTES {
            Err(ErrorView::Process("replay file exceeds 8 MiB safety limit"@))
        } else {
            Ok(())
        },
{
    if len == 0 {
        return Err(AppError::Process("replay file is empty".to_owned()));
    }
    if len > MAX_REPLAY_FILE_BYTES {
        return Err(AppError::Process("replay file exceeds 8 MiB safety limit".to_owned()));
    }
    Ok(())
}

/// A header is read from no replay of another mode, and names a beatmap.
pub proof fn header_names_a_beatmap(b: Seq<u8>)
    ensures
        header_of(b) matches Ok(h) ==> b[0] == 3 && !text::is_blank(h.beatmap_hash),
{
}

/// Bytes that follow the online number of a replay change nothing in its header.
pub proof fn header_ignores_trailing_bytes(b: Seq<u8>, more: Seq<u8>)
    requires
        header_of(b) matches Ok(h) && h.online_score_id is Some,
    ensures
        header_of(b + more) == header_of(b),
{
    let parts = header_parts();
    let all = b + more;
    bytes::pieces_shape(b, 1, parts, Source::Replay);
    bytes::pieces_extend(b, more, 1, parts, Source::Replay);
    assert(all[0] == b[0]);
    if let Ok((ps, at)) = bytes::pieces_at(b, 1, parts, Source::Replay) {
        let length = bytes::le_i32(ps[6]->Block_0.subrange(8, 12));
        let end = at + if length > 0 {
            length
        } else {
            0
        };
        assert(all.subrange(end, end + 8) =~= b.subrange(end, end + 8));
    }
}

// ---------------------------------------------------------------------------------------------
// Mods
// ---------------------------------------------------------------------------------------------

/// The mods by their bits, in the order in which they are written.
pub open spec fn mod_table() -> Seq<(u32, Seq<char>)> {
    seq![
        (1u32, "NF"@),
        (2u32, "EZ"@),
        (8u32, "HD"@),
        (16u32, "HR"@),
        (32u32, "SD"@),
        (64u32, "DT"@),
        (256u32, "HT"@),
        (512u32, "NC"@),
        (1024u32, "FL"@),
        (16384u32, "PF"@),
        (32768u32, "4K"@),
        (65536u32, "5K"@),
        (131072u32, "6K"@),
        (262144u32, "7K"@),
        (524288u32, "8K"@),
        (1048576u32, "FI"@),
        (2097152u32, "RD"@),
        (16777216u32, "9K"@),
        (33554432u32, "CO"@),
        (67108864u32, "1K"@),
        (134217728u32, "3K"@),
        (268435456u32, "2K"@),
        (536870912u32, "V2"@),
        (1073741824u32, "MR"@),
    ]
}

/// The given power of two is among the bits.
pub open spec fn bit_set(bits: u32, bit: u32) -> bool {
    (bits / bit) % 2 == 1
}

/// A mod is written when its bit is set, except that NC gives way to DT and PF to SD.
pub open spec fn mod_shown(bits: u32, bit: u32) -> bool {
    &&& bit_set(bits, bit)
    &&& !(bit == 512 && bit_set(bits, 64))
    &&& !(bit == 16384 && bit_set(bits, 32))
}

/// The labels of the mods of a table that are written, one after the other.
pub open spec fn mod_labels(bits: u32, table: Seq<(u32, Seq<char>)>) -> Seq<char>
    decreases table.len(),
{
    if table.len() == 0 {
        Seq::empty()
    } else {
        let before = mod_labels(bits, table.drop_last());
        if mod_shown(bits, table.last().0) {
            before + table.last().1
        } else {
            before
        }
    }
}

/// The mods as they are written; "NM" where there is none.
pub open spec fn mods_text(bits: u32) -> Seq<char> {
    let all = mod_labels(bits, mod_table());
    if all.len() == 0 {
        "NM"@
    } else {
        all
    }
}

fn mod_list() -> (r: Vec<(u32, &'static str)>)
    ensures
        r@.len() == mod_table().len(),
        forall|i: int|
            0 <= i < r@.len() ==> (#[trigger] r@[i]).0 == mod_table()[i].0 && r@[i].1@
                == mod_table()[i].1,
{
    let r: Vec<(u32, &'static str)> = vec![
        (1, "NF"),
        (2, "EZ"),
        (8, "HD"),
        (16, "HR"),
        (32, "SD"),
        (64, "DT"),
        (256, "HT"),
        (512, "NC"),
        (1024, "FL"),
        (16384, "PF"),
        (32768, "4K"),
        (65536, "5K"),
        (131072, "6K"),
        (262144, "7K"),
        (524288, "8K"),
        (1048576, "FI"),
        (2097152, "RD"),
        (16777216, "9K"),
        (33554432, "CO"),
        (67108864, "1K"),
        (134217728, "3K"),
        (268435456, "2K"),
        (536870912, "V2"),
        (1073741824, "MR"),
    ];
    r
}

/// The mods of a replay as they are written.
pub fn stable_mods_string(bits: u32) -> (r: String)
    ensures
        r@ == mods_text(bits),
{
    let list = mod_list();
    let mut out = String::new();
    let mut i: usize = 0;
    let ghost table = mod_table();
    assert(table.take(0) =~= Seq::empty());
    while i < list.len()
        invariant
            i <= list@.len(),
            table == mod_table(),
            list@.len() == table.len(),
            forall|i: int|
                0 <= i < list@.len() ==> (#[trigger] list@[i]).0 == table[i].0 && list@[i].1@
                    == table[i].1,
            forall|i: int| 0 <= i < table.len() ==> (#[trigger] table[i]).0 > 0,
            out@ == mod_labels(bits, table.take(i as int)),
        decreases list@.len() - i,
    {
        proof {
            assert(table.take(i + 1).drop_last() =~= table.take(i as int));
            assert(table.take(i + 1).last() == table[i as int]);
        }
        let bit: u32 = list[i].0;
        assert(bit == table[i as int].0);
        let gives_way = (bit == 512 && (bits / 64) % 2 == 1) || (bit == 16384 && (bits / 32) % 2
            == 1);
        if (bits / bit) % 2 == 1 && !gives_way {
            out.append(list[i].1);
        }
        i = i + 1;
    }
    assert(table.take(table.len() as int) =~= table);
    if out.as_str().is_empty() {
        "NM".to_owned()
    } else {
        out
    }
}

/// The bits that stand for no mod with a label.
pub const UNLABELLED_MODS: u32 = 0x80c0_3884;

/// The mods are listed by their bits, from the lowest to the highest, each with a label of two
/// characters that is not the one for no mods.
pub proof fn labels_come_in_order()
    ensures
        forall|i: int, j: int|
            0 <= i < j < mod_table().len() ==> (#[trigger] mod_table()[i]).0 < (
            #[trigger] mod_table()[j]).0,
        forall|i: int|
            0 <= i < mod_table().len() ==> (#[trigger] mod_table()[i]).1.len() == 2
                && mod_table()[i].1 != "NM"@ && mod_table()[i].0 > 0,
        "NM"@.len() == 2,
{
    reveal_strlit("NF");
    reveal_strlit("EZ");
    reveal_strlit("HD");
    reveal_strlit("HR");
    reveal_strlit("SD");
    reveal_strlit("DT");
    reveal_strlit("HT");
    reveal_strlit("NC");
    reveal_strlit("FL");
    reveal_strlit("PF");
    reveal_strlit("4K");
    reveal_strlit("5K");
    reveal_strlit("6K");
    reveal_strlit("7K");
    reveal_strlit("8K");
    reveal_strlit("FI");
    reveal_strlit("RD");
    reveal_strlit("9K");
    reveal_strlit("CO");
    reveal_strlit("1K");
    reveal_strlit("3K");
    reveal_strlit("2K");
    reveal_strlit("V2");
    reveal_strlit("MR");
    reveal_strlit("NM");
    assert forall|i: int| 0 <= i < mod_table().len() implies (#[trigger] mod_table()[i]).1.len() == 2
        && mod_table()[i].1 != "NM"@ by {
        let label = mod_table()[i].1;
        assert(label[0] != 'N' || label[1] != 'M');
    }
}

/// Bits that agree on the mods of a table are written alike.
proof fn agreeing_bits_are_written_alike(a: u32, b: u32, table: Seq<(u32, Seq<char>)>)
    requires
        bit_set(a, 32) == bit_set(b, 32),
        bit_set(a, 64) == bit_set(b, 64),
        forall|i: int|
            0 <= i < table.len() ==> bit_set(a, (#[trigger] table[i]).0) == bit_set(b, table[i].0),
    ensures
        mod_labels(a, table) == mod_labels(b, table),
    decreases table.len(),
{
    if table.len() > 0 {
        assert(table.last() == table[table.len() - 1]);
        assert forall|i: int| 0 <= i < table.drop_last().len() implies bit_set(
            a,
            (#[trigger] table.drop_last()[i]).0,
        ) == bit_set(b, table.drop_last()[i].0) by {
            assert(table.drop_last()[i] == table[i]);
        }
        agreeing_bits_are_written_alike(a, b, table.drop_last());
    }
}

/// What is written of a table of labels of two characters: nothing where no mod of it is shown, and one
/// label where two characters are written.
proof fn labels_tell_their_number(bits: u32, table: Seq<(u32, Seq<char>)>)
    requires
        forall|i: int| 0 <= i < table.len() ==> (#[trigger] table[i]).1.len() == 2,
    ensures
        mod_labels(bits, table).len() != 1,
        mod_labels(bits, table).len() == 0 <==> forall|i: int|
            0 <= i < table.len() ==> !mod_shown(bits, (#[trigger] table[i]).0),
        mod_labels(bits, table).len() == 2 ==> exists|i: int|
            0 <= i < table.len() && mod_labels(bits, table) == (#[trigger] table[i]).1,
    decreases table.len(),
{
    if table.len() > 0 {
        let fewer = table.drop_last();
        assert(table.last() == table[table.len() - 1]);
        assert forall|i: int| 0 <= i < fewer.len() implies (#[trigger] fewer[i]).1.len() == 2 by {
            assert(fewer[i] == table[i]);
        }
        labels_tell_their_number(bits, fewer);
        assert forall|i: int| 0 <= i < fewer.len() implies #[trigger] fewer[i] == table[i] by {}
        let before = mod_labels(bits, fewer);
        if mod_shown(bits, table.last().0) {
            if before.len() == 0 {
                assert(before + table.last().1 =~= table.last().1);
            }
        } else if before.len() == 2 {
            let i = choose|i: int| 0 <= i < fewer.len() && before == (#[trigger] fewer[i]).1;
            assert(before == table[i].1);
        }
        if before.len() == 0 && !mod_shown(bits, table.last().0) {
            assert forall|i: int| 0 <= i < table.len() implies !mod_shown(
                bits,
                (#[trigger] table[i]).0,
            ) by {
                if i < fewer.len() {
                    assert(fewer[i] == table[i]);
                }
            }
        }
        if before.len() != 0 {
            let i = choose|i: int| 0 <= i < fewer.len() && mod_shown(bits, (#[trigger] fewer[i]).0);
            assert(mod_shown(bits, table[i].0));
        }
    }
}

/// Setting the bits without a label leaves the others alone.
proof fn setting_leaves_labelled_bits(bits: u32)
    by (bit_vector)
    ensures
        ((bits | 0x80c0_3884u32) / 1u32) % 2 == (bits / 1u32) % 2,
        ((bits | 0x80c0_3884u32) / 2u32) % 2 == (bits / 2u32) % 2,
        ((bits | 0x80c0_3884u32) / 8u32) % 2 == (bits / 8u32) % 2,
        ((bits | 0x80c0_3884u32) / 16u32) % 2 == (bits / 16u32) % 2,
        ((bits | 0x80c0_3884u32) / 32u32) % 2 == (bits / 32u32) % 2,
        ((bits | 0x80c0_3884u32) / 64u32) % 2 == (bits / 64u32) % 2,
        ((bits | 0x80c0_3884u32) / 256u32) % 2 == (bits / 256u32) % 2,
        ((bits | 0x80c0_3884u32) / 512u32) % 2 == (bits / 512u32) % 2,
        ((bits | 0x80c0_3884u32) / 1024u32) % 2 == (bits / 1024u32) % 2,
        ((bits | 0x80c0_3884u32) / 16384u32) % 2 == (bits / 16384u32) % 2,
        ((bits | 0x80c0_3884u32) / 32768u32) % 2 == (bits / 32768u32) % 2,
        ((bits | 0x80c0_3884u32) / 65536u32) % 2 == (bits / 65536u32) % 2,
        ((bits | 0x80c0_3884u32) / 131072u32) % 2 == (bits / 131072u32) % 2,
        ((bits | 0x80c0_3884u32) / 262144u32) % 2 == (bits / 262144u32) % 2,
        ((bits | 0x80c0_3884u32) / 524288u32) % 2 == (bits / 524288u32) % 2,
        ((bits | 0x80c0_3884u32) / 1048576u32) % 2 == (bits / 1048576u32) % 2,
        ((bits | 0x80c0_3884u32) / 2097152u32) % 2 == (bits / 2097152u32) % 2,
        ((bits | 0x80c0_3884u32) / 16777216u32) % 2 == (bits / 16777216u32) % 2,
        ((bits | 0x80c0_3884u32) / 33554432u32) % 2 == (bits / 33554432u32) % 2,
        ((bits | 0x80c0_3884u32) / 67108864u32) % 2 == (bits / 67108864u32) % 2,
        ((bits | 0x80c0_3884u32) / 134217728u32) % 2 == (bits / 134217728u32) % 2,
        ((bits | 0x80c0_3884u32) / 268435456u32) % 2 == (bits / 268435456u32) % 2,
        ((bits | 0x80c0_3884u32) / 536870912u32) % 2 == (bits / 536870912u32) % 2,
        ((bits | 0x80c0_3884u32) / 1073741824u32) % 2 == (bits / 1073741824u32) % 2,
{
}

/// Taking the bits without a label out leaves the others alone.
proof fn taking_out_leaves_labelled_bits(bits: u32)
    by (bit_vector)
    ensures
        ((bits & !0x80c0_3884u32) / 1u32) % 2 == (bits / 1u32) % 2,
        ((bits & !0x80c0_3884u32) / 2u32) % 2 == (bits / 2u32) % 2,
        ((bits & !0x80c0_3884u32) / 8u32) % 2 == (bits / 8u32) % 2,
        ((bits & !0x80c0_3884u32) / 16u32) % 2 == (bits / 16u32) % 2,
        ((bits & !0x80c0_3884u32) / 32u32) % 2 == (bits / 32u32) % 2,
        ((bits & !0x80c0_3884u32) / 64u32) % 2 == (bits / 64u32) % 2,
        ((bits & !0x80c0_3884u32) / 256u32) % 2 == (bits / 256u32) % 2,
        ((bits & !0x80c0_3884u32) / 512u32) % 2 == (bits / 512u32) % 2,
        ((bits & !0x80c0_3884u32) / 1024u32) % 2 == (bits / 1024u32) % 2,
        ((bits & !0x80c0_3884u32) / 16384u32) % 2 == (bits / 16384u32) % 2,
        ((bits & !0x80c0_3884u32) / 32768u32) % 2 == (bits / 32768u32) % 2,
        ((bits & !0x80c0_3884u32) / 65536u32) % 2 == (bits / 65536u32) % 2,
        ((bits & !0x80c0_3884u32) / 131072u32) % 2 == (bits / 131072u32) % 2,
        ((bits & !0x80c0_3884u32) / 262144u32) % 2 == (bits / 262144u32) % 2,
        ((bits & !0x80c0_3884u32) / 524288u32) % 2 == (bits / 524288u32) % 2,
        ((bits & !0x80c0_3884u32) / 1048576u32) % 2 == (bits / 1048576u32) % 2,
        ((bits & !0x80c0_3884u32) / 2097152u32) % 2 == (bits / 2097152u32) % 2,
        ((bits & !0x80c0_3884u32) / 16777216u32) % 2 == (bits / 16777216u32) % 2,
        ((bits & !0x80c0_3884u32) / 33554432u32) % 2 == (bits / 33554432u32) % 2,
        ((bits & !0x80c0_3884u32) / 67108864u32) % 2 == (bits / 67108864u32) % 2,
        ((bits & !0x80c0_3884u32) / 134217728u32) % 2 == (bits / 134217728u32) % 2,
        ((bits & !0x80c0_3884u32) / 268435456u32) % 2 == (bits / 268435456u32) % 2,
        ((bits & !0x80c0_3884u32) / 536870912u32) % 2 == (bits / 536870912u32) % 2,
        ((bits & !0x80c0_3884u32) / 1073741824u32) % 2 == (bits / 1073741824u32) % 2,
{
}

/// Where bits are left once those without a label are gone, one with a label is set.
proof fn what_is_left_is_labelled(bits: u32)
    by (bit_vector)
    ensures
        bits & !0x80c0_3884u32 == 0 <==> !((bits / 1u32) % 2 == 1
            || (bits / 2u32) % 2 == 1
            || (bits / 8u32) % 2 == 1
            || (bits / 16u32) % 2 == 1
            || (bits / 32u32) % 2 == 1
            || (bits / 64u32) % 2 == 1
            || (bits / 256u32) % 2 == 1
            || (bits / 512u32) % 2 == 1
            || (bits / 1024u32) % 2 == 1
            || (bits / 16384u32) % 2 == 1
            || (bits / 32768u32) % 2 == 1
            || (bits / 65536u32) % 2 == 1
            || (bits / 131072u32) % 2 == 1
            || (bits / 262144u32) % 2 == 1
            || (bits / 524288u32) % 2 == 1
            || (bits / 1048576u32) % 2 == 1
            || (bits / 2097152u32) % 2 == 1
            || (bits / 16777216u32) % 2 == 1
            || (bits / 33554432u32) % 2 == 1
            || (bits / 67108864u32) % 2 == 1
            || (bits / 134217728u32) % 2 == 1
            || (bits / 268435456u32) % 2 == 1
            || (bits / 536870912u32) % 2 == 1
            || (bits / 1073741824u32) % 2 == 1),
{
}

/// Two masks agree on a bit.
#[verifier::opaque]
spec fn same_bit(a: u32, b: u32, bit: u32) -> bool {
    bit_set(a, bit) == bit_set(b, bit)
}

/// Two masks agree on the bits with a label.
spec fn labelled_alike(a: u32, b: u32) -> bool {
    forall|i: int| 0 <= i < mod_table().len() ==> same_bit(a, b, (#[trigger] mod_table()[i]).0)
}

/// The bits with a label are these.
proof fn labelled_bits_are_these(a: u32, b: u32)
    requires
        same_bit(a, b, 1),
        same_bit(a, b, 2),
        same_bit(a, b, 8),
        same_bit(a, b, 16),
        same_bit(a, b, 32),
        same_bit(a, b, 64),
        same_bit(a, b, 256),
        same_bit(a, b, 512),
        same_bit(a, b, 1024),
        same_bit(a, b, 16384),
        same_bit(a, b, 32768),
        same_bit(a, b, 65536),
        same_bit(a, b, 131072),
        same_bit(a, b, 262144),
        same_bit(a, b, 524288),
        same_bit(a, b, 1048576),
        same_bit(a, b, 2097152),
        same_bit(a, b, 16777216),
        same_bit(a, b, 33554432),
        same_bit(a, b, 67108864),
        same_bit(a, b, 134217728),
        same_bit(a, b, 268435456),
        same_bit(a, b, 536870912),
        same_bit(a, b, 1073741824),
    ensures
        labelled_alike(a, b),
{
}

proof fn set_bits_are_no_mods(bits: u32)
    ensures
        labelled_alike(bits | UNLABELLED_MODS, bits),
{
    setting_leaves_labelled_bits(bits);
    reveal(same_bit);
    labelled_bits_are_these(bits | UNLABELLED_MODS, bits);
}

proof fn cleared_bits_are_no_mods(bits: u32)
    ensures
        labelled_alike(bits & !UNLABELLED_MODS, bits),
{
    taking_out_leaves_labelled_bits(bits);
    reveal(same_bit);
    labelled_bits_are_these(bits & !UNLABELLED_MODS, bits);
}

/// Bits that are the same but for those without a label are written alike.
proof fn labelled_bits_are_written(a: u32, b: u32)
    requires
        labelled_alike(a, b),
    ensures
        mods_text(a) == mods_text(b),
{
    let table = mod_table();
    assert(table[4].0 == 32 && table[5].0 == 64);
    reveal(same_bit);
    agreeing_bits_are_written_alike(a, b, table);
}

/// A bit with a label is set where bits are left once those without one are gone.
proof fn some_label_is_set(bits: u32)
    ensures
        bits & !UNLABELLED_MODS == 0 <==> forall|i: int|
            0 <= i < mod_table().len() ==> !bit_set(bits, (#[trigger] mod_table()[i]).0),
{
    what_is_left_is_labelled(bits);
    let table = mod_table();
    if bits & !UNLABELLED_MODS != 0 {
        assert(table[0].0 == 1);
        assert(table[1].0 == 2);
        assert(table[2].0 == 8);
        assert(table[3].0 == 16);
        assert(table[4].0 == 32);
        assert(table[5].0 == 64);
        assert(table[6].0 == 256);
        assert(table[7].0 == 512);
        assert(table[8].0 == 1024);
        assert(table[9].0 == 16384);
        assert(table[10].0 == 32768);
        assert(table[11].0 == 65536);
        assert(table[12].0 == 131072);
        assert(table[13].0 == 262144);
        assert(table[14].0 == 524288);
        assert(table[15].0 == 1048576);
        assert(table[16].0 == 2097152);
        assert(table[17].0 == 16777216);
        assert(table[18].0 == 33554432);
        assert(table[19].0 == 67108864);
        assert(table[20].0 == 134217728);
        assert(table[21].0 == 268435456);
        assert(table[22].0 == 536870912);
        assert(table[23].0 == 1073741824);
    }
}

/// Bits without a label change nothing, and "NM" is written exactly where no bit with a label is set.
pub proof fn unlabelled_bits_change_nothing(bits: u32)
    ensures
        mods_text(bits | UNLABELLED_MODS) == mods_text(bits),
        mods_text(bits & !UNLABELLED_MODS) == mods_text(bits),
        mods_text(bits) == "NM"@ <==> bits & !UNLABELLED_MODS == 0,
{
    let table = mod_table();
    set_bits_are_no_mods(bits);
    cleared_bits_are_no_mods(bits);
    labelled_bits_are_written(bits | UNLABELLED_MODS, bits);
    labelled_bits_are_written(bits & !UNLABELLED_MODS, bits);
    labels_come_in_order();
    labels_tell_their_number(bits, table);
    some_label_is_set(bits);
    if bits & !UNLABELLED_MODS != 0 {
        let i = choose|i: int| 0 <= i < table.len() && bit_set(bits, (#[trigger] table[i]).0);
        assert(table[4].0 == 32 && table[5].0 == 64);
        assert(mod_shown(bits, table[i].0) || mod_shown(bits, table[4].0) || mod_shown(
            bits,
            table[5].0,
        ));
    }
}

/// Where DT is set, NC is not written; where SD is set, PF is not. DT and SD are written whenever they are
/// set.
pub proof fn nightcore_and_perfect_give_way(bits: u32)
    ensures
        bit_set(bits, 64) ==> !mod_shown(bits, 512),
        bit_set(bits, 32) ==> !mod_shown(bits, 16384),
        mod_shown(bits, 64) == bit_set(bits, 64),
        mod_shown(bits, 32) == bit_set(bits, 32),
{
}

// ---------------------------------------------------------------------------------------------
// Scores
// ---------------------------------------------------------------------------------------------

/// A count that is at least zero and that an `u32` holds.
pub open spec fn hit_count(value: i64) -> int {
    if value < 0 {
        0
    } else if value > u32::MAX {
        u32::MAX as int
    } else {
        value as int
    }
}

/// A count that is at least zero and that an `u32` holds.
pub fn nonnegative_hit_count(value: i64) -> (r: u32)
    ensures
        r == hit_count(value),
{
    if value < 0 {
        0
    } else if value > u32::MAX as i64 {
        u32::MAX
    } else {
        value as u32
    }
}

/// All judgments of a play.
pub open spec fn judged(hits: HitData) -> int {
    hits.n300 + hits.n100 + hits.n50 + hits.geki + hits.katu + hits.miss
}

/// The points of a play: fifty, a hundred, two hundred or three hundred for each judgment.
pub open spec fn points(hits: HitData) -> int {
    hits.n50 * 50 + hits.n100 * 100 + hits.katu * 200 + (hits.n300 + hits.geki) * 300
}

/// The accuracy of a play is the share of the points of a play in which all judgments are worth
/// three hundred: the points and those full points; nothing was judged where there is none.
pub fn mania_accuracy_from_hits(hits: &HitData) -> (r: Option<(i128, i128)>)
    ensures
        r == if judged(*hits) <= 0 {
            None
        } else {
            Some((points(*hits) as i128, (judged(*hits) * 300) as i128))
        },
{
    let total: i128 = hits.n300 as i128 + hits.n100 as i128 + hits.n50 as i128 + hits.geki as i128
        + hits.katu as i128 + hits.miss as i128;
    if total <= 0 {
        return None;
    }
    let weighted: i128 = hits.n50 as i128 * 50 + hits.n100 as i128 * 100 + hits.katu as i128 * 200
        + (hits.n300 as i128 + hits.geki as i128) * 300;
    Some((weighted, total * 300))
}

/// A play without a negative count has an accuracy from nothing to all.
pub proof fn accuracy_is_a_share(hits: HitData)
    requires
        hits.n300 >= 0 && hits.n100 >= 0 && hits.n50 >= 0,
        hits.geki >= 0 && hits.katu >= 0 && hits.miss >= 0,
    ensures
        0 <= points(hits) <= judged(hits) * 300,
{
}

/// A score is that of a replay on a beatmap, with an accuracy.
pub open spec fn scored(
    r: ScoreData,
    header: HeaderView,
    beatmap: ResolvedBeatmap,
    accuracy: Double,
) -> bool {
    &&& r.beatmap.id == beatmap.beatmap_id
    &&& r.beatmap.set_id == beatmap.beatmap_set_id
    &&& r.beatmap.md5@ == beatmap.beatmap_hash@
    &&& r.beatmap.artist@ == beatmap.artist@
    &&& r.beatmap.title@ == beatmap.title@
    &&& r.beatmap.diff@ == beatmap.difficulty_name@
    &&& r.score == header.score
    &&& r.combo == header.max_combo
    &&& r.max_combo == header.max_combo
    &&& r.accuracy == accuracy
    &&& r.hits == header.hits
    &&& r.mods@ == mods_text(header.mods_bits)
    &&& r.passed
}

/// The score that the server is told of a replay, with its accuracy.
pub fn build_score_data(header: &ReplayHeader, beatmap: &ResolvedBeatmap, accuracy: Double) -> (r:
    ScoreData)
    ensures
        scored(r, header@, *beatmap, accuracy),
        r.beatmap.id == beatmap.beatmap_id,
        r.beatmap.set_id == beatmap.beatmap_set_id,
        r.beatmap.md5@ == beatmap.beatmap_hash@,
        r.beatmap.artist@ == beatmap.artist@,
        r.beatmap.title@ == beatmap.title@,
        r.beatmap.diff@ == beatmap.difficulty_name@,
        r.score == header.score,
        r.combo == header.max_combo,
        r.max_combo == header.max_combo,
        r.accuracy == accuracy,
        r.hits == header.hits,
        r.mods@ == mods_text(header.mods_bits),
        r.passed,
{
    ScoreData {
        beatmap: BeatmapData {
            id: beatmap.beatmap_id,
            set_id: beatmap.beatmap_set_id,
            md5: beatmap.beatmap_hash.clone(),
            artist: beatmap.artist.clone(),
            title: beatmap.title.clone(),
            diff: beatmap.difficulty_name.clone(),
        },
        score: header.score,
        combo: header.max_combo,
        max_combo: header.max_combo,
        accuracy,
        hits: header.hits,
        mods: stable_mods_string(header.mods_bits),
        passed: true,
    }
}

/// The counts from which the points of a play are computed, the best judgment first.
pub open spec fn counts_for_points(hits: HitData) -> (int, int, int, int, int, int) {
    (
        hit_count(hits.geki),
        hit_count(hits.n300),
        hit_count(hits.katu),
        hit_count(hits.n100),
        hit_count(hits.n50),
        hit_count(hits.miss),
    )
}

/// How often each judgment was given, as counts from zero up: the best one first, the misses last.
pub fn pp_counts(hits: &HitData) -> (r: (u32, u32, u32, u32, u32, u32))
    ensures
        (r.0 as int, r.1 as int, r.2 as int, r.3 as int, r.4 as int, r.5 as int) == counts_for_points(*hits),
        r.0 == hit_count(hits.geki),
        r.1 == hit_count(hits.n300),
        r.2 == hit_count(hits.katu),
        r.3 == hit_count(hits.n100),
        r.4 == hit_count(hits.n50),
        r.5 == hit_count(hits.miss),
{
    (
        nonnegative_hit_count(hits.geki),
        nonnegative_hit_count(hits.n300),
        nonnegative_hit_count(hits.katu),
        nonnegative_hit_count(hits.n100),
        nonnegative_hit_count(hits.n50),
        nonnegative_hit_count(hits.miss),
    )
}

/// What computing the points of a play has come to.
pub enum PpOutcome {
    /// The beatmap could not be read.
    Unreadable(String),
    /// The beatmap is not one that is computed.
    Suspicious(String),
    Failed(String),
    Points(Double),
}

/// The points of a play, or why there are none.
pub fn calculate_replay_pp(outcome: PpOutcome) -> (r: AppResult<Double>)
    ensures
        error::plain(r) == match outcome {
            PpOutcome::Unreadable(e) => Err(
                ErrorView::Process(
                    "PP unavailable: failed to parse beatmap for rosu-pp ("@ + e@ + ")"@,
                ),
            ),
            PpOutcome::Suspicious(e) => Err(
                ErrorView::Process(
                    "PP unavailable: beatmap is too suspicious for rosu-pp ("@ + e@ + ")"@,
                ),
            ),
            PpOutcome::Failed(e) => Err(ErrorView::Process("PP unavailable: "@ + e@)),
            PpOutcome::Points(p) => Ok(p),
        },
{
    match outcome {
        PpOutcome::Unreadable(e) => Err(
            AppError::Process(
                text::cat3(
                    "PP unavailable: failed to parse beatmap for rosu-pp (",
                    e.as_str(),
                    ")",
                ),
            ),
        ),
        PpOutcome::Suspicious(e) => Err(
            AppError::Process(
                text::cat3(
                    "PP unavailable: beatmap is too suspicious for rosu-pp (",
                    e.as_str(),
                    ")",
                ),
            ),
        ),
        PpOutcome::Failed(e) => Err(AppError::Process(text::cat("PP unavailable: ", e.as_str()))),
        PpOutcome::Points(p) => Ok(p),
    }
}

// ---------------------------------------------------------------------------------------------
// Written replays
// ---------------------------------------------------------------------------------------------

/// What a replay is written from.
pub struct Played {
    pub version: Seq<u8>,
    pub beatmap_hash: Seq<u8>,
    pub player: Seq<u8>,
    pub replay_hash: Seq<u8>,
    pub n300: i16,
    pub n100: i16,
    pub n50: i16,
    pub geki: i16,
    pub katu: i16,
    pub miss: i16,
    pub score: i32,
    pub max_combo: i16,
    pub perfect: u8,
    pub mods: u32,
    pub life: Seq<u8>,
    pub time: Seq<u8>,
    pub data_length: i32,
}

/// A replay can be written: what has a fixed size has it, and a text has a length.
pub open spec fn writable(p: Played) -> bool {
    &&& p.version.len() == 4
    &&& p.time.len() == 8
    &&& p.beatmap_hash.len() < 0x8000_0000_0000_0000
    &&& p.player.len() < 0x8000_0000_0000_0000
    &&& p.replay_hash.len() < 0x8000_0000_0000_0000
    &&& p.life.len() < 0x8000_0000_0000_0000
}

/// The numbers of a play as they are written.
pub open spec fn written_counts(p: Played) -> Seq<u8> {
    bytes::written_number(p.n300 as int, 2) + bytes::written_number(p.n100 as int, 2)
        + bytes::written_number(p.n50 as int, 2) + bytes::written_number(p.geki as int, 2)
        + bytes::written_number(p.katu as int, 2) + bytes::written_number(p.miss as int, 2)
        + bytes::written_number(p.score as int, 4) + bytes::written_number(p.max_combo as int, 2)
        + seq![p.perfect] + bytes::written_number(p.mods as int, 4)
}

/// A replay as it is written, up to its input data.
pub open spec fn written_replay(p: Played) -> Seq<u8> {
    seq![3u8] + p.version + bytes::written_text(p.beatmap_hash) + bytes::written_text(p.player)
        + bytes::written_text(p.replay_hash) + written_counts(p) + bytes::written_text(p.life) + p.time
        + bytes::written_number(p.data_length as int, 4)
}

/// The parts of a replay, by what they are written from.
spec fn replay_contents(p: Played) -> Seq<Seq<u8>> {
    seq![
        p.version,
        p.beatmap_hash,
        p.player,
        p.replay_hash,
        written_counts(p),
        p.life,
        p.time + bytes::written_number(p.data_length as int, 4),
    ]
}

proof fn counts_are_read_back(p: Played)
    ensures
        ({
            let c = written_counts(p);
            &&& c.len() == 23
            &&& short_in(c, 0) == p.n300 && short_in(c, 2) == p.n100 && short_in(c, 4) == p.n50
            &&& short_in(c, 6) == p.geki && short_in(c, 8) == p.katu && short_in(c, 10) == p.miss
            &&& word_in(c, 12) == p.score && short_in(c, 16) == p.max_combo
            &&& bytes::le(c.subrange(19, 23)) == p.mods
        }),
{
    let c = written_counts(p);
    bytes::numbers_take_their_bytes(p.n300 as int, 2);
    bytes::numbers_take_their_bytes(p.n100 as int, 2);
    bytes::numbers_take_their_bytes(p.n50 as int, 2);
    bytes::numbers_take_their_bytes(p.geki as int, 2);
    bytes::numbers_take_their_bytes(p.katu as int, 2);
    bytes::numbers_take_their_bytes(p.miss as int, 2);
    bytes::numbers_take_their_bytes(p.score as int, 4);
    bytes::numbers_take_their_bytes(p.max_combo as int, 2);
    bytes::numbers_take_their_bytes(p.mods as int, 4);
    assert(c.subrange(0, 2) =~= bytes::written_number(p.n300 as int, 2));
    assert(c.subrange(2, 4) =~= bytes::written_number(p.n100 as int, 2));
    assert(c.subrange(4, 6) =~= bytes::written_number(p.n50 as int, 2));
    assert(c.subrange(6, 8) =~= bytes::written_number(p.geki as int, 2));
    assert(c.subrange(8, 10) =~= bytes::written_number(p.katu as int, 2));
    assert(c.subrange(10, 12) =~= bytes::written_number(p.miss as int, 2));
    assert(c.subrange(12, 16) =~= bytes::written_number(p.score as int, 4));
    assert(c.subrange(16, 18) =~= bytes::written_number(p.max_combo as int, 2));
    assert(c.subrange(19, 23) =~= bytes::written_number(p.mods as int, 4));
    bytes::numbers_are_read_back(p.n300 as int);
    bytes::numbers_are_read_back(p.n100 as int);
    bytes::numbers_are_read_back(p.n50 as int);
    bytes::numbers_are_read_back(p.geki as int);
    bytes::numbers_are_read_back(p.katu as int);
    bytes::numbers_are_read_back(p.miss as int);
    bytes::numbers_are_read_back(p.score as int);
    bytes::numbers_are_read_back(p.max_combo as int);
    bytes::numbers_are_read_back(p.mods as int);
}

proof fn replay_is_its_parts(p: Played)
    ensures
        written_replay(p) == seq![3u8] + bytes::written_pieces(header_parts(), replay_contents(p)),
{
    let parts = header_parts();
    let cs = replay_contents(p);
    let w1 = bytes::written_pieces(parts.take(1), cs.take(1));
    assert(parts.take(0) =~= Seq::empty());
    let end = p.time + bytes::written_number(p.data_length as int, 4);
    assert forall|i: int| 0 <= i < 7 implies #[trigger] bytes::written_pieces(
        parts.take(i + 1),
        cs.take(i + 1),
    ) == bytes::written_pieces(parts.take(i), cs.take(i)) + bytes::written_piece(parts[i], cs[i]) by {
        assert(parts.take(i + 1).drop_last() =~= parts.take(i));
        assert(cs.take(i + 1).drop_last() =~= cs.take(i));
    }
    let s = |i: int| bytes::written_pieces(parts.take(i), cs.take(i));
    assert(s(0) =~= Seq::<u8>::empty());
    assert(s(0int + 1) == s(0) + p.version);
    assert(s(1int + 1) == s(1) + bytes::written_text(p.beatmap_hash));
    assert(s(2int + 1) == s(2) + bytes::written_text(p.player));
    assert(s(3int + 1) == s(3) + bytes::written_text(p.replay_hash));
    assert(s(4int + 1) == s(4) + written_counts(p));
    assert(s(5int + 1) == s(5) + bytes::written_text(p.life));
    assert(s(6int + 1) == s(6) + end);
    assert(parts.take(7) =~= parts);
    assert(cs.take(7) =~= cs);
    let x1 = seq![3u8] + p.version;
    assert(seq![3u8] + s(1) =~= x1);
    let x2 = x1 + bytes::written_text(p.beatmap_hash);
    assert(seq![3u8] + s(2) =~= x2);
    let x3 = x2 + bytes::written_text(p.player);
    assert(seq![3u8] + s(3) =~= x3);
    let x4 = x3 + bytes::written_text(p.replay_hash);
    assert(seq![3u8] + s(4) =~= x4);
    let x5 = x4 + written_counts(p);
    assert(seq![3u8] + s(5) =~= x5);
    let x6 = x5 + bytes::written_text(p.life);
    assert(seq![3u8] + s(6) =~= x6);
    let x7 = x6 + p.time + bytes::written_number(p.data_length as int, 4);
    assert(seq![3u8] + s(7) =~= x7);
}

proof fn parts_are_read_back(p: Played, tail: Seq<u8>)
    requires
        writable(p),
    ensures
        ({
            let b = written_replay(p) + tail;
            &&& b[0] == 3
            &&& bytes::pieces_at(b, 1, header_parts(), Source::Replay) matches Ok((ps, at)) && {
                &&& at == written_replay(p).len()
                &&& ps.len() == 7
                &&& ps[1] == bytes::PieceView::Text(crate::codec::lossy(p.beatmap_hash))
                &&& ps[2] == bytes::PieceView::Text(crate::codec::lossy(p.player))
                &&& ps[4] == bytes::PieceView::Block(written_counts(p))
                &&& ps[6] is Block
                &&& bytes::le_i32(ps[6]->Block_0.subrange(8, 12)) == p.data_length
            }
        }),
{
    let b = written_replay(p) + tail;
    let parts = header_parts();
    let cs = replay_contents(p);
    let w = bytes::written_pieces(parts, cs);
    replay_is_its_parts(p);
    counts_are_read_back(p);
    bytes::numbers_take_their_bytes(p.data_length as int, 4);
    bytes::numbers_are_read_back(p.data_length as int);
    assert(b.subrange(1, 1 + w.len() as int) =~= w);
    assert forall|i: int| 0 <= i < parts.len() implies bytes::fits(#[trigger] parts[i], cs[i]) by {}
    bytes::records_are_read_back(b, 1, parts, cs, Source::Replay);
    let read = Seq::new(parts.len(), |i: int| bytes::read_piece(parts[i], cs[i]));
    assert(read[6] == bytes::PieceView::Block(cs[6]));
    assert(cs[6].subrange(8, 12) =~= bytes::written_number(p.data_length as int, 4));
}

/// The header of a play: every number and text of it, with the number under which the score is kept online.
pub open spec fn told_header(p: Played, online: Option<i64>) -> HeaderView {
    HeaderView {
        beatmap_hash: crate::codec::lossy(p.beatmap_hash),
        username: crate::codec::lossy(p.player),
        score: p.score as i64,
        max_combo: p.max_combo as i64,
        hits: HitData {
            n300: p.n300 as i64,
            n100: p.n100 as i64,
            n50: p.n50 as i64,
            geki: p.geki as i64,
            katu: p.katu as i64,
            miss: p.miss as i64,
        },
        mods_bits: p.mods,
        online_score_id: online,
    }
}

/// A replay that was written is read back, whatever the length of its input data: every number and text of
/// the play, and the number under which the score is kept online, from the eight bytes right behind the
/// data. What follows these bytes does not matter.
pub proof fn written_replays_are_read_back(p: Played, data: Seq<u8>, online: i64, more: Seq<u8>)
    requires
        writable(p),
        !text::is_blank(crate::codec::lossy(p.beatmap_hash)),
        0 <= data.len() <= 0x7fff_ffff,
        p.data_length == data.len(),
    ensures
        header_of(written_replay(p) + data + bytes::written_number(online as int, 8) + more) == Ok::<
            HeaderView,
            ErrorView,
        >(told_header(p, Some(online))),
{
    let w = written_replay(p);
    let id = bytes::written_number(online as int, 8);
    let tail = data + id + more;
    let b = w + data + id + more;
    assert(b =~= w + tail);
    parts_are_read_back(p, tail);
    counts_are_read_back(p);
    bytes::numbers_take_their_bytes(online as int, 8);
    bytes::numbers_are_read_back(online as int);
    let at: int = (w.len() + data.len()) as int;
    assert(b.subrange(at, at + 8) =~= id);
}

/// A replay whose data has no length, or one below zero, has no data: the online number stands right behind
/// the length.
pub proof fn replays_without_data_are_read_back(p: Played, online: i64, more: Seq<u8>)
    requires
        writable(p),
        !text::is_blank(crate::codec::lossy(p.beatmap_hash)),
        p.data_length <= 0,
    ensures
        header_of(written_replay(p) + bytes::written_number(online as int, 8) + more) == Ok::<
            HeaderView,
            ErrorView,
        >(told_header(p, Some(online))),
{
    let w = written_replay(p);
    let id = bytes::written_number(online as int, 8);
    let b = w + id + more;
    assert(b =~= w + (id + more));
    parts_are_read_back(p, id + more);
    counts_are_read_back(p);
    bytes::numbers_take_their_bytes(online as int, 8);
    bytes::numbers_are_read_back(online as int);
    assert(b.subrange(w.len() as int, w.len() as int + 8) =~= id);
}

/// A replay that ends within eight bytes behind its data has no online number; one that ends within its
/// data, and one that names no beatmap, are refused.
pub proof fn short_replays_have_no_online_number(p: Played, tail: Seq<u8>)
    requires
        writable(p),
    ensures
        p.data_length > tail.len() ==> header_of(written_replay(p) + tail) == Err::<HeaderView, ErrorView>(
            Source::Replay.ended(),
        ),
        p.data_length <= tail.len() && text::is_blank(crate::codec::lossy(p.beatmap_hash)) ==> header_of(
            written_replay(p) + tail,
        ) == Err::<HeaderView, ErrorView>(ErrorView::Process("replay beatmap hash is missing"@)),
        0 <= p.data_length <= tail.len() < p.data_length + 8 && !text::is_blank(
            crate::codec::lossy(p.beatmap_hash),
        ) ==> header_of(written_replay(p) + tail) == Ok::<HeaderView, ErrorView>(told_header(p, None)),
{
    parts_are_read_back(p, tail);
    counts_are_read_back(p);
}

/// Only replays of osu!mania are read.
pub proof fn other_modes_are_refused(b: Seq<u8>)
    ensures
        b.len() > 0 && b[0] != 3 ==> header_of(b) == Err::<HeaderView, ErrorView>(
            ErrorView::Process("only osu!mania replays are supported in Auto Renderer v1"@),
        ),
        b.len() == 0 ==> header_of(b) == Err::<HeaderView, ErrorView>(Source::Replay.ended()),
{
}

proof fn shown_labels_stand(bits: u32, table: Seq<(u32, Seq<char>)>, i: int)
    requires
        0 <= i < table.len(),
        mod_shown(bits, table[i].0),
    ensures
        crate::scan::has(mod_labels(bits, table), table[i].1),
    decreases table.len(),
{
    let less = table.drop_last();
    let before = mod_labels(bits, less);
    let all = mod_labels(bits, table);
    if i == table.len() - 1 {
        let label = table.last().1;
        let k = before.len() as int;
        assert(all.subrange(k, k + label.len()) =~= label);
        assert(crate::scan::occurs_at(all, label, k));
    } else {
        let label = table[i].1;
        shown_labels_stand(bits, less, i);
        let k = choose|k: int| crate::scan::occurs_at(before, label, k);
        assert(all.subrange(k, k + label.len()) =~= before.subrange(k, k + label.len()));
        assert(crate::scan::occurs_at(all, label, k));
    }
}

proof fn shown_mods_stand(bits: u32, i: int)
    requires
        0 <= i < mod_table().len(),
        mod_table()[i].1.len() > 0,
        mod_shown(bits, mod_table()[i].0),
    ensures
        crate::scan::has(mods_text(bits), mod_table()[i].1),
{
    shown_labels_stand(bits, mod_table(), i);
}

/// The label of every mod that is on stands among the mods: of Nightcore only without Double Time, and of
/// Perfect only without Sudden Death.
pub proof fn every_mod_is_labelled(bits: u32)
    ensures
        bits % 2 == 1 ==> crate::scan::has(mods_text(bits), "NF"@),
        (bits / 2) % 2 == 1 ==> crate::scan::has(mods_text(bits), "EZ"@),
        (bits / 8) % 2 == 1 ==> crate::scan::has(mods_text(bits), "HD"@),
        (bits / 16) % 2 == 1 ==> crate::scan::has(mods_text(bits), "HR"@),
        (bits / 32) % 2 == 1 ==> crate::scan::has(mods_text(bits), "SD"@),
        (bits / 64) % 2 == 1 ==> crate::scan::has(mods_text(bits), "DT"@),
        (bits / 256) % 2 == 1 ==> crate::scan::has(mods_text(bits), "HT"@),
        (bits / 512) % 2 == 1 && (bits / 64) % 2 == 0 ==> crate::scan::has(mods_text(bits), "NC"@),
        (bits / 1024) % 2 == 1 ==> crate::scan::has(mods_text(bits), "FL"@),
        (bits / 16384) % 2 == 1 && (bits / 32) % 2 == 0 ==> crate::scan::has(mods_text(bits), "PF"@),
        (bits / 32768) % 2 == 1 ==> crate::scan::has(mods_text(bits), "4K"@),
        (bits / 65536) % 2 == 1 ==> crate::scan::has(mods_text(bits), "5K"@),
        (bits / 131072) % 2 == 1 ==> crate::scan::has(mods_text(bits), "6K"@),
        (bits / 262144) % 2 == 1 ==> crate::scan::has(mods_text(bits), "7K"@),
        (bits / 524288) % 2 == 1 ==> crate::scan::has(mods_text(bits), "8K"@),
        (bits / 1048576) % 2 == 1 ==> crate::scan::has(mods_text(bits), "FI"@),
        (bits / 2097152) % 2 == 1 ==> crate::scan::has(mods_text(bits), "RD"@),
        (bits / 16777216) % 2 == 1 ==> crate::scan::has(mods_text(bits), "9K"@),
        (bits / 33554432) % 2 == 1 ==> crate::scan::has(mods_text(bits), "CO"@),
        (bits / 67108864) % 2 == 1 ==> crate::scan::has(mods_text(bits), "1K"@),
        (bits / 134217728) % 2 == 1 ==> crate::scan::has(mods_text(bits), "3K"@),
        (bits / 268435456) % 2 == 1 ==> crate::scan::has(mods_text(bits), "2K"@),
        (bits / 536870912) % 2 == 1 ==> crate::scan::has(mods_text(bits), "V2"@),
        (bits / 1073741824) % 2 == 1 ==> crate::scan::has(mods_text(bits), "MR"@),
{
    reveal_strlit("NF");
    reveal_strlit("EZ");
    reveal_strlit("HD");
    reveal_strlit("HR");
    reveal_strlit("SD");
    reveal_strlit("DT");
    reveal_strlit("HT");
    reveal_strlit("NC");
    reveal_strlit("FL");
    reveal_strlit("PF");
    reveal_strlit("4K");
    reveal_strlit("5K");
    reveal_strlit("6K");
    reveal_strlit("7K");
    reveal_strlit("8K");
    reveal_strlit("FI");
    reveal_strlit("RD");
    reveal_strlit("9K");
    reveal_strlit("CO");
    reveal_strlit("1K");
    reveal_strlit("3K");
    reveal_strlit("2K");
    reveal_strlit("V2");
    reveal_strlit("MR");
    if mod_shown(bits, 1) {
        shown_mods_stand(bits, 0);
    }
    if mod_shown(bits, 2) {
        shown_mods_stand(bits, 1);
    }
    if mod_shown(bits, 8) {
        shown_mods_stand(bits, 2);
    }
    if mod_shown(bits, 16) {
        shown_mods_stand(bits, 3);
    }
    if mod_shown(bits, 32) {
        shown_mods_stand(bits, 4);
    }
    if mod_shown(bits, 64) {
        shown_mods_stand(bits, 5);
    }
    if mod_shown(bits, 256) {
        shown_mods_stand(bits, 6);
    }
    if mod_shown(bits, 512) {
        shown_mods_stand(bits, 7);
    }
    if mod_shown(bits, 1024) {
        shown_mods_stand(bits, 8);
    }
    if mod_shown(bits, 16384) {
        shown_mods_stand(bits, 9);
    }
    if mod_shown(bits, 32768) {
        shown_mods_stand(bits, 10);
    }
    if mod_shown(bits, 65536) {
        shown_mods_stand(bits, 11);
    }
    if mod_shown(bits, 131072) {
        shown_mods_stand(bits, 12);
    }
    if mod_shown(bits, 262144) {
        shown_mods_stand(bits, 13);
    }
    if mod_shown(bits, 524288) {
        shown_mods_stand(bits, 14);
    }
    if mod_shown(bits, 1048576) {
        shown_mods_stand(bits, 15);
    }
    if mod_shown(bits, 2097152) {
        shown_mods_stand(bits, 16);
    }
    if mod_shown(bits, 16777216) {
        shown_mods_stand(bits, 17);
    }
    if mod_shown(bits, 33554432) {
        shown_mods_stand(bits, 18);
    }
    if mod_shown(bits, 67108864) {
        shown_mods_stand(bits, 19);
    }
    if mod_shown(bits, 134217728) {
        shown_mods_stand(bits, 20);
    }
    if mod_shown(bits, 268435456) {
        shown_mods_stand(bits, 21);
    }
    if mod_shown(bits, 536870912) {
        shown_mods_stand(bits, 22);
    }
    if mod_shown(bits, 1073741824) {
        shown_mods_stand(bits, 23);
    }
}

/// One more judgment counts once, and is worth what it is: three hundred, two hundred, a hundred, fifty or
/// nothing.
pub proof fn every_judgment_is_worth_something(h: HitData, more: i64)
    ensures
        h.n300 + more <= i64::MAX && more >= 0 ==> judged(HitData { n300: (h.n300 + more) as i64, ..h }) == judged(h) + more && points(
            HitData { n300: (h.n300 + more) as i64, ..h },
        ) == points(h) + 300 * more,
        h.geki + more <= i64::MAX && more >= 0 ==> judged(HitData { geki: (h.geki + more) as i64, ..h }) == judged(h) + more && points(
            HitData { geki: (h.geki + more) as i64, ..h },
        ) == points(h) + 300 * more,
        h.katu + more <= i64::MAX && more >= 0 ==> judged(HitData { katu: (h.katu + more) as i64, ..h }) == judged(h) + more && points(
            HitData { katu: (h.katu + more) as i64, ..h },
        ) == points(h) + 200 * more,
        h.n100 + more <= i64::MAX && more >= 0 ==> judged(HitData { n100: (h.n100 + more) as i64, ..h }) == judged(h) + more && points(
            HitData { n100: (h.n100 + more) as i64, ..h },
        ) == points(h) + 100 * more,
        h.n50 + more <= i64::MAX && more >= 0 ==> judged(HitData { n50: (h.n50 + more) as i64, ..h }) == judged(h) + more && points(
            HitData { n50: (h.n50 + more) as i64, ..h },
        ) == points(h) + 50 * more,
        h.miss + more <= i64::MAX && more >= 0 ==> judged(HitData { miss: (h.miss + more) as i64, ..h }) == judged(h) + more && points(
            HitData { miss: (h.miss + more) as i64, ..h },
        ) == points(h) + 0 * more,
        judged((HitData { n300: 0, n100: 0, n50: 0, geki: 0, katu: 0, miss: 0 })) == 0,
        points((HitData { n300: 0, n100: 0, n50: 0, geki: 0, katu: 0, miss: 0 })) == 0,
{
}

/// A count is kept where an `u32` holds it, and drawn to the nearest one that it holds otherwise.
pub proof fn counts_are_kept(value: i64)
    ensures
        0 <= value <= 0xffff_ffff ==> hit_count(value) == value,
        value < 0 ==> hit_count(value) == 0,
        value > 0xffff_ffff ==> hit_count(value) == 0xffff_ffff,
{
}

/// The score that the server is told of a written replay has every number of the play: its hits, its score, its
/// combo and its mods, on the beatmap that was found.
pub proof fn scores_tell_the_play(
    r: ScoreData,
    p: Played,
    online: Option<i64>,
    beatmap: ResolvedBeatmap,
    accuracy: Double,
)
    requires
        scored(r, told_header(p, online), beatmap, accuracy),
    ensures
        r.hits.n300 == p.n300 && r.hits.n100 == p.n100 && r.hits.n50 == p.n50,
        r.hits.geki == p.geki && r.hits.katu == p.katu && r.hits.miss == p.miss,
        r.score == p.score && r.combo == p.max_combo && r.max_combo == p.max_combo,
        r.mods@ == mods_text(p.mods) && r.accuracy == accuracy && r.passed,
        r.beatmap.id == beatmap.beatmap_id && r.beatmap.set_id == beatmap.beatmap_set_id,
        r.beatmap.md5@ == beatmap.beatmap_hash@ && r.beatmap.artist@ == beatmap.artist@,
        r.beatmap.title@ == beatmap.title@ && r.beatmap.diff@ == beatmap.difficulty_name@,
{
}

/// Every judgment counts for the points in its own place; together they are all that was judged.
pub proof fn every_judgment_counts_for_points(h: HitData)
    requires
        0 <= h.n300 <= 0xffff_ffff && 0 <= h.n100 <= 0xffff_ffff && 0 <= h.n50 <= 0xffff_ffff,
        0 <= h.geki <= 0xffff_ffff && 0 <= h.katu <= 0xffff_ffff && 0 <= h.miss <= 0xffff_ffff,
    ensures
        ({
            let c = counts_for_points(h);
            &&& c.0 == h.geki && c.1 == h.n300 && c.2 == h.katu && c.3 == h.n100 && c.4 == h.n50 && c.5
                == h.miss
            &&& c.0 + c.1 + c.2 + c.3 + c.4 + c.5 == judged(h)
        }),
{
}

} // verus!
