use miru_client::osudb::{
    find_beatmap_entry_in_osu_db, osu_db_index_metadata, read_osu_db_beatmap_index,
    refresh_decision, IndexRefresh, OsuDbIndexMetadata, OsuDbReader,
};

fn text(out: &mut Vec<u8>, s: &str) {
    out.push(0x0b);
    out.push(s.len() as u8);
    out.extend_from_slice(s.as_bytes());
}

fn entry(version: i32, hash: &str, file: &str, folder: &str, ratings: i32, points: i32) -> Vec<u8> {
    let mut b = Vec::new();
    if version < 20191106 {
        b.extend_from_slice(&[0; 4]);
    }
    for _ in 0..7 {
        text(&mut b, "t");
    }
    text(&mut b, hash);
    text(&mut b, file);
    b.extend_from_slice(&[0; 39]);
    if version >= 20140609 {
        for _ in 0..4 {
            b.extend_from_slice(&ratings.to_le_bytes());
            let width = if version >= 20250107 { 10 } else { 14 };
            for _ in 0..ratings * width {
                b.push(9);
            }
        }
    }
    b.extend_from_slice(&[0; 12]);
    b.extend_from_slice(&points.to_le_bytes());
    for _ in 0..points * 17 + 23 {
        b.push(0);
    }
    text(&mut b, "source");
    text(&mut b, "tags");
    b.extend_from_slice(&[0; 2]);
    b.push(0);
    b.extend_from_slice(&[0; 10]);
    text(&mut b, folder);
    for _ in 0..(if version < 20140609 { 20 } else { 18 }) {
        b.push(0);
    }
    b
}

fn database(version: i32, entries: &[Vec<u8>], count: i32) -> Vec<u8> {
    let mut b = Vec::new();
    b.extend_from_slice(&version.to_le_bytes());
    b.extend_from_slice(&[0; 13]);
    text(&mut b, "player");
    b.extend_from_slice(&count.to_le_bytes());
    for e in entries {
        b.extend_from_slice(e);
    }
    b
}

fn meta() -> OsuDbIndexMetadata {
    OsuDbIndexMetadata { len: 5, modified: Some(6) }
}

fn problem(b: &[u8]) -> String {
    match read_osu_db_beatmap_index(b, meta()) {
        Ok(_) => panic!("an index was read"),
        Err(e) => e.message(),
    }
}

#[test]
fn databases_of_all_versions_are_read() {
    for version in [20140101, 20150101, 20191106, 20240101, 20250107] {
        let entries = vec![
            entry(version, "AABB", "a.osu", "folder a", 2, 3),
            entry(version, "ccdd", "b.osu", "folder b", 0, 0),
        ];
        match read_osu_db_beatmap_index(&database(version, &entries, 2), meta()) {
            Ok(index) => {
                assert_eq!(index.len(), 2);
                match index.get(" AaBb ") {
                    Some(e) => {
                        assert_eq!(e.osu_file_name, "a.osu");
                        assert_eq!(e.folder_name, "folder a");
                    }
                    None => panic!("not found"),
                }
                assert!(index.get("ffff").is_none());
                assert!(index.matches_metadata(meta()));
                assert!(!index.matches_metadata(OsuDbIndexMetadata { len: 6, modified: Some(6) }));
            }
            Err(e) => panic!("{version}: {}", e.message()),
        }
    }
}

#[test]
fn later_beatmaps_win_and_nameless_ones_are_left_out() {
    let v = 20240101;
    let entries = vec![
        entry(v, "aa", "old.osu", "f", 0, 0),
        entry(v, "AA", "new.osu", "f", 0, 0),
        entry(v, "  ", "none.osu", "f", 0, 0),
    ];
    match read_osu_db_beatmap_index(&database(v, &entries, 3), meta()) {
        Ok(index) => {
            assert_eq!(index.len(), 1);
            assert!(matches!(index.get("aa"), Some(e) if e.osu_file_name == "new.osu"));
        }
        Err(e) => panic!("{}", e.message()),
    }
}

#[test]
fn broken_databases_are_refused() {
    let v = 20240101;
    let good = database(v, &[entry(v, "aa", "a.osu", "f", 1, 1)], 1);
    for n in 0..good.len() {
        assert_eq!(problem(&good[..n]), "process error: unexpected end of osu!.db");
    }
    assert_eq!(problem(&database(v, &[], -1)), "process error: osu!.db beatmap count is invalid");
    assert_eq!(problem(&database(v, &[], 500_001)), "process error: osu!.db beatmap count is invalid");
    let mut stars = entry(v, "aa", "a.osu", "f", 0, 0);
    let at = 7 * 3 + 4 + 7 + 39;
    stars[at..at + 4].copy_from_slice(&10_001i32.to_le_bytes());
    assert_eq!(
        problem(&database(v, &[stars], 1)),
        "process error: osu!.db star rating count is invalid"
    );
    let mut points = entry(v, "aa", "a.osu", "f", 0, 0);
    let at = at + 16 + 12;
    points[at..at + 4].copy_from_slice(&(-1i32).to_le_bytes());
    assert_eq!(
        problem(&database(v, &[points], 1)),
        "process error: osu!.db timing point count is invalid"
    );
}

#[test]
fn one_beatmap_is_found_in_a_database() {
    let v = 20240101;
    let b = database(v, &[entry(v, "aa", "a.osu", "f", 0, 0)], 1);
    assert!(matches!(
        find_beatmap_entry_in_osu_db(&b, meta(), "AA"),
        Ok(Some(e)) if e.osu_file_name == "a.osu" && e.folder_name == "f"
    ));
    assert!(matches!(find_beatmap_entry_in_osu_db(&b, meta(), "bb"), Ok(None)));
    assert!(find_beatmap_entry_in_osu_db(&b[..9], meta(), "aa").is_err());
}

#[test]
fn an_index_is_read_again_when_the_file_changes() {
    assert!(osu_db_index_metadata(true, 5, Some(6)) == Some(meta()));
    assert!(osu_db_index_metadata(false, 5, Some(6)).is_none());
    assert!(refresh_decision(Some(meta()), Some(meta())) == IndexRefresh::Keep);
    assert!(refresh_decision(None, Some(meta())) == IndexRefresh::Reload);
    let other = OsuDbIndexMetadata { len: 9, modified: None };
    assert!(refresh_decision(Some(meta()), Some(other)) == IndexRefresh::Reload);
    assert!(refresh_decision(Some(meta()), None) == IndexRefresh::Drop);
}

#[test]
fn older_entries_begin_with_their_size() {
    let newer = entry(20191106, "aabb", "a.osu", "folder", 1, 2);
    let mut older = vec![9, 8, 7, 6];
    older.extend_from_slice(&newer);
    let read = |b: &[u8], version: i32| {
        let mut r = OsuDbReader::new(b);
        match r.read_beatmap_entry(version) {
            Ok(e) => (e.beatmap_hash, e.entry.osu_file_name, e.entry.folder_name, r.reader.offset),
            Err(e) => panic!("{}", e.message()),
        }
    };
    let (hash, file, folder, end) = read(&newer, 20191106);
    assert_eq!((hash.as_str(), end), ("aabb", newer.len()));
    assert_eq!(read(&older, 20191105), (hash, file, folder, end + 4));
}
