use miru_client::bytes::{i16_at, i32_at, i64_at, u32_at, Part, Piece, Reader, Source};
use miru_client::error::AppError;
use miru_client::osu::{replay_display_name, ResolvedBeatmap};
use miru_client::replay::{
    build_score_data, calculate_replay_pp, check_replay_size, mania_accuracy_from_hits,
    nonnegative_hit_count, parse_replay_header_bytes, pp_counts, stable_mods_string, PpOutcome,
    ReplayHeader, UNLABELLED_MODS,
};
use miru_client::types::{Double, HitData};

fn text(out: &mut Vec<u8>, s: &str) {
    out.push(0x0b);
    out.push(s.len() as u8);
    out.extend_from_slice(s.as_bytes());
}

fn replay(mode: u8, hash: &str, data: &[u8], online: Option<i64>) -> Vec<u8> {
    let mut b = vec![mode];
    b.extend_from_slice(&20240101i32.to_le_bytes());
    if hash.is_empty() {
        b.push(0);
    } else {
        text(&mut b, hash);
    }
    text(&mut b, "Player One");
    text(&mut b, "ffff");
    for n in [100i16, 20, 3, 400, 50, 6] {
        b.extend_from_slice(&n.to_le_bytes());
    }
    b.extend_from_slice(&987_654i32.to_le_bytes());
    b.extend_from_slice(&321i16.to_le_bytes());
    b.push(1);
    b.extend_from_slice(&(64u32 | 512 | 8).to_le_bytes());
    text(&mut b, "0|1,");
    b.extend_from_slice(&1i64.to_le_bytes());
    b.extend_from_slice(&(data.len() as i32).to_le_bytes());
    b.extend_from_slice(data);
    if let Some(n) = online {
        b.extend_from_slice(&n.to_le_bytes());
    }
    b
}

fn problem(b: &[u8]) -> String {
    match parse_replay_header_bytes(b) {
        Ok(_) => panic!("a header was read"),
        Err(e) => e.message(),
    }
}

fn header(b: &[u8]) -> ReplayHeader {
    match parse_replay_header_bytes(b) {
        Ok(h) => h,
        Err(e) => panic!("{}", e.message()),
    }
}

fn beatmap() -> ResolvedBeatmap {
    ResolvedBeatmap {
        beatmap_id: 11,
        beatmap_set_id: 22,
        beatmap_hash: "abc".to_string(),
        artist: "Artist".to_string(),
        title: "Title".to_string(),
        difficulty_name: "Hard".to_string(),
        key_count: 4,
        long_note_count: 10,
        normal_note_count: 90,
        hp: Double { bits: 0 },
        cs: Double { bits: 0 },
        od: Double { bits: 0 },
        bpm: Double { bits: 0 },
        duration_ms: 1000,
        osu_path: "map.osu".to_string(),
    }
}

#[test]
fn a_header_is_read() {
    let h = header(&replay(3, "0123abcd", b"xyz", Some(4242)));
    assert_eq!(h.beatmap_hash, "0123abcd");
    assert_eq!(h.username, "Player One");
    assert_eq!(h.score, 987_654);
    assert_eq!(h.max_combo, 321);
    assert_eq!(
        (h.hits.n300, h.hits.n100, h.hits.n50, h.hits.geki, h.hits.katu, h.hits.miss),
        (100, 20, 3, 400, 50, 6)
    );
    assert_eq!(h.mods_bits, 584);
    assert_eq!(h.online_score_id, Some(4242));
}

#[test]
fn the_online_number_may_be_missing() {
    assert_eq!(header(&replay(3, "h", b"", None)).online_score_id, None);
    let mut b = replay(3, "h", b"", Some(-5));
    b.extend_from_slice(b"trailing");
    assert_eq!(header(&b).online_score_id, Some(-5));
}

#[test]
fn bad_replays_are_refused() {
    assert_eq!(
        problem(&replay(0, "h", b"", None)),
        "process error: only osu!mania replays are supported in Auto Renderer v1"
    );
    assert_eq!(problem(&[]), "process error: unexpected end of replay data");
    assert_eq!(
        problem(&replay(3, "", b"", None)),
        "process error: replay beatmap hash is missing"
    );
    let whole = replay(3, "h", b"abc", None);
    for n in 1..whole.len() {
        assert_eq!(problem(&whole[..n]), "process error: unexpected end of replay data");
    }
    let mut marker = replay(3, "h", b"", None);
    marker[5] = 7;
    assert_eq!(problem(&marker), "process error: replay string marker is invalid");
    let mut long = vec![3u8, 0, 0, 0, 0, 0x0b];
    long.extend_from_slice(&[0xff; 12]);
    assert_eq!(problem(&long), "process error: replay string length is too large");
}

#[test]
fn bytes_that_are_no_text_are_replaced() {
    let mut b = replay(3, "hh", b"", None);
    b[7] = 0xff;
    assert_eq!(header(&b).beatmap_hash, "\u{fffd}h");
}

#[test]
fn sizes_of_replays_are_limited() {
    assert!(check_replay_size(1).is_ok());
    assert!(check_replay_size(8 * 1024 * 1024).is_ok());
    assert!(matches!(check_replay_size(0), Err(AppError::Process(m)) if m == "replay file is empty"));
    assert!(matches!(
        check_replay_size(8 * 1024 * 1024 + 1),
        Err(AppError::Process(m)) if m == "replay file exceeds 8 MiB safety limit"
    ));
}

#[test]
fn mods_are_written_in_their_order() {
    assert_eq!(stable_mods_string(0), "NM");
    assert_eq!(stable_mods_string(4), "NM");
    assert_eq!(stable_mods_string(UNLABELLED_MODS), "NM");
    assert_eq!(stable_mods_string(8 | UNLABELLED_MODS), "HD");
    assert_eq!(stable_mods_string(64 | 512), "DT");
    assert_eq!(stable_mods_string(512), "NC");
    assert_eq!(stable_mods_string(32 | 16384), "SD");
    assert_eq!(stable_mods_string(16384), "PF");
    assert_eq!(stable_mods_string(1 | 2 | 8 | 16 | 1024), "NFEZHDHRFL");
    assert_eq!(stable_mods_string(u32::MAX), "NFEZHDHRSDDTHTFL4K5K6K7K8KFIRD9KCO1K3K2KV2MR");
}

#[test]
fn accuracy_is_the_share_of_the_points() {
    let hits = HitData { n300: 100, n100: 20, n50: 3, geki: 400, katu: 50, miss: 6 };
    assert_eq!(mania_accuracy_from_hits(&hits), Some((162_150, 173_700)));
    let none = HitData { n300: 0, n100: 0, n50: 0, geki: 0, katu: 0, miss: 0 };
    assert_eq!(mania_accuracy_from_hits(&none), None);
    let negative = HitData { n300: -5, n100: 0, n50: 0, geki: 0, katu: 0, miss: 1 };
    assert_eq!(mania_accuracy_from_hits(&negative), None);
}

#[test]
fn counts_are_at_least_zero() {
    assert_eq!(nonnegative_hit_count(-1), 0);
    assert_eq!(nonnegative_hit_count(7), 7);
    assert_eq!(nonnegative_hit_count(i64::MAX), u32::MAX);
    let hits = HitData { n300: 1, n100: 2, n50: 3, geki: 4, katu: 5, miss: -6 };
    assert_eq!(pp_counts(&hits), (4, 1, 5, 2, 3, 0));
}

#[test]
fn a_score_is_made_of_header_and_beatmap() {
    let h = header(&replay(3, "0123abcd", b"", Some(1)));
    let s = build_score_data(&h, &beatmap(), Double { bits: 7 });
    assert_eq!((s.beatmap.id, s.beatmap.set_id, s.beatmap.md5.as_str()), (11, 22, "abc"));
    assert_eq!(s.beatmap.diff, "Hard");
    assert_eq!((s.score, s.combo, s.max_combo), (987_654, 321, 321));
    assert_eq!(s.accuracy.bits, 7);
    assert_eq!(s.mods, "HDDT");
    assert!(s.passed);
}

#[test]
fn missing_points_are_explained() {
    let said = |o: PpOutcome| match calculate_replay_pp(o) {
        Ok(p) => format!("{}", p.bits),
        Err(e) => e.message(),
    };
    assert_eq!(said(PpOutcome::Points(Double { bits: 9 })), "9");
    assert_eq!(
        said(PpOutcome::Unreadable("x".to_string())),
        "process error: PP unavailable: failed to parse beatmap for rosu-pp (x)"
    );
    assert_eq!(
        said(PpOutcome::Suspicious("y".to_string())),
        "process error: PP unavailable: beatmap is too suspicious for rosu-pp (y)"
    );
    assert_eq!(said(PpOutcome::Failed("z".to_string())), "process error: PP unavailable: z");
}

#[test]
fn replays_are_shown_by_their_beatmap() {
    assert_eq!(replay_display_name("x/a.osr", Some(&beatmap())), "Artist - Title [Hard]");
    assert_eq!(replay_display_name("x/a.osr", None), "a.osr");
    assert_eq!(replay_display_name("/home/me/a.osr", None), "a.osr");
    assert_eq!(replay_display_name("C:/osu!/a.osr", None), "a.osr");
    assert!(replay_display_name("C:\\osu!\\a.osr", None).ends_with("a.osr"));
    assert_eq!(replay_display_name("..", None), "Replay");
}

#[test]
fn numbers_are_little_endian() {
    let b = [0xfeu8, 0xff, 0xff, 0xff, 0xff, 0xff, 0xff, 0xff, 0x01];
    assert_eq!(i16_at(&b, 0), -2);
    assert_eq!(i32_at(&b, 0), -2);
    assert_eq!(i64_at(&b, 0), -2);
    assert_eq!(u32_at(&b, 0), 0xffff_fffe);
    assert_eq!(i16_at(&b, 7), 0x01ff);
}

#[test]
fn a_reader_goes_through_parts() {
    let mut b = vec![1u8, 2];
    text(&mut b, "hi");
    let mut r = Reader::new(&b, Source::OsuDb);
    match r.read_pieces(&[Part::Block(2), Part::Text]) {
        Ok(ps) => {
            assert!(matches!(&ps[0], Piece::Block(v) if v == &vec![1u8, 2]));
            assert!(matches!(&ps[1], Piece::Text(s) if s == "hi"));
        }
        Err(e) => panic!("{}", e.message()),
    }
    assert!(matches!(r.read_u8(), Err(e) if e.message() == "process error: unexpected end of osu!.db"));
    let mut again = Reader::new(&b, Source::Replay);
    assert!(matches!(again.read_exact(2), Ok(v) if v == vec![1, 2]));
    assert!(matches!(again.read_string(), Ok(s) if s == "hi"));
    assert!(again.skip(1).is_err());
}

#[test]
fn failed_reads_stay_where_they_are() {
    let b = [1, 2, 3];
    let mut r = Reader::new(&b, Source::Replay);
    assert!(matches!(r.read_exact(1), Ok(v) if v == vec![1]));
    assert!(r.read_exact(3).is_err());
    assert!(r.read_exact(usize::MAX).is_err());
    assert!(r.skip(3).is_err());
    assert_eq!(r.offset, 1);
    assert!(matches!(r.read_exact(2), Ok(v) if v == vec![2, 3]));
}

#[test]
fn lengths_come_in_groups() {
    let mut b = vec![0x0b, 0xac, 0x02];
    b.extend_from_slice(&[b'x'; 300]);
    let mut r = Reader::new(&b, Source::Replay);
    assert!(matches!(r.read_string(), Ok(s) if s == "x".repeat(300)));
    assert_eq!(r.offset, 303);
    let mut numbers = Reader::new(&[0x00, 0x7f, 0xe5, 0x8e, 0x26, 0x80], Source::Replay);
    assert!(matches!(numbers.read_uleb128(), Ok(0)));
    assert!(matches!(numbers.read_uleb128(), Ok(127)));
    assert!(matches!(numbers.read_uleb128(), Ok(624_485)));
    assert!(numbers.read_uleb128().is_err());
    let mut endless = vec![0x0b];
    endless.extend_from_slice(&[0xff; 9]);
    endless.push(0);
    match Reader::new(&endless, Source::Replay).read_string() {
        Ok(_) => panic!("a length without an end"),
        Err(e) => assert_eq!(e.message(), "process error: replay string length is too large"),
    }
}
