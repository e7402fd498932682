use miru_client::beatmap::{parse_beatmap_file, parse_beatmap_text, resolve_beatmap_text, BeatmapNumbers};
use miru_client::types::Double;

const MAP: &str = "osu file format v14\r\n\r\n[General]\r\nMode: 3\r\n\r\n[Metadata]\r\nTitle:Some: Title \r\nArtist: Somebody\r\nVersion:Insane\r\nBeatmapID:123\r\nBeatmapSetID:x\r\n// Artist:Nobody\r\n\r\n[Difficulty]\r\nHPDrainRate:8\r\nCircleSize: 7\r\nOverallDifficulty:8.5\r\n\r\n[TimingPoints]\r\n0,500,4,2,1,60,1,0\r\n1000,-50,4,2,1,60,0,0\r\n2000,250\r\nalone\r\n\r\n[HitObjects]\r\n64,192,1000,1,0,0:0:0:0:\r\n64,192,2000,128,0,3500:0:0:0:0:\r\n64,192,2500,128,0\r\n64,192,bad,5,0\r\n";

#[test]
fn a_beatmap_is_read() {
    let m = parse_beatmap_text(MAP);
    assert_eq!(m.title, "Some: Title");
    assert_eq!(m.artist, "Somebody");
    assert_eq!(m.difficulty_name, "Insane");
    assert_eq!(m.beatmap_id, 123);
    assert_eq!(m.beatmap_set_id, 0);
    assert_eq!(m.hp_drain_rate, Some("8".to_string()));
    assert_eq!(m.circle_size, Some("7".to_string()));
    assert_eq!(m.overall_difficulty, Some("8.5".to_string()));
    assert_eq!(m.beat_lengths, vec!["500", "250"]);
    assert_eq!((m.total_notes, m.long_notes, m.duration_ms), (4, 2, 3500));
}

#[test]
fn bytes_and_text_say_the_same() {
    let m = parse_beatmap_file(MAP.as_bytes());
    assert_eq!((m.total_notes, m.long_notes), (4, 2));
    let broken = parse_beatmap_file(b"[Metadata]\nArtist:\xff\n");
    assert_eq!(broken.artist, "\u{fffd}");
}

#[test]
fn an_empty_file_says_nothing() {
    let m = parse_beatmap_text("");
    assert_eq!(m.section, "");
    assert_eq!(m.total_notes, 0);
    assert!(m.circle_size.is_none());
    assert!(parse_beatmap_text("[HitObjects").section.is_empty());
    assert_eq!(parse_beatmap_text("[]\n1,2,3").section, "");
}

#[test]
fn a_beatmap_is_resolved() {
    let n = BeatmapNumbers {
        key_count: 7,
        hp: Double { bits: 1 },
        cs: Double { bits: 2 },
        od: Double { bits: 3 },
        bpm: Double { bits: 4 },
    };
    let r = resolve_beatmap_text(parse_beatmap_text(MAP), "ABCD", n, "songs/a.osu");
    assert_eq!(r.beatmap_hash, "abcd");
    assert_eq!((r.long_note_count, r.normal_note_count), (2, 2));
    assert_eq!((r.key_count, r.bpm.bits, r.duration_ms), (7, 4, 3500));
    assert_eq!(r.osu_path, "songs/a.osu");
}
