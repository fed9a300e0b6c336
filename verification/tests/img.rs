use kerbo::img::{
    parse_scan_path, read_captures, read_hex_char, read_scan_entry, ImgSet, ImgSetEntry,
    SCAN_PATTERN,
};
use kerbo::ImageType;

fn names(list: &[&str]) -> Vec<String> {
    list.iter().map(|s| s.to_string()).collect()
}

fn count(set: &ImgSet) -> (usize, usize) {
    let complete = set.map.values().filter(|e| e.is_complete()).count();
    (complete, set.map.len() - complete)
}

#[test]
fn a_scan_file_name_gives_position_and_kind() {
    assert_eq!(parse_scan_path("scan190aL.yuv"), Some((0x190a, ImageType::Left)));
    assert_eq!(parse_scan_path("scan0040R.yuv"), Some((0x0040, ImageType::Right)));
    assert_eq!(parse_scan_path("scan0000N.yuv"), Some((0, ImageType::Ambient)));
    assert_eq!(parse_scan_path("ffffN.yuv"), Some((0xffff, ImageType::Ambient)));
    assert_eq!(parse_scan_path("./scan-data/scan18c0L.yuv"), Some((0x18c0, ImageType::Left)));
}

#[test]
fn other_names_give_nothing() {
    assert_eq!(parse_scan_path("readme.txt"), None);
    assert_eq!(parse_scan_path(""), None);
    assert_eq!(parse_scan_path("scan190aL.yuv.bak"), None);
    assert_eq!(parse_scan_path("scan190aL.yuv "), None);
    assert_eq!(parse_scan_path("scan190AL.yuv"), None);
    assert_eq!(parse_scan_path("scan90aL.yuv"), None);
    assert_eq!(parse_scan_path("scan190aX.yuv"), None);
    assert_eq!(parse_scan_path("scan190al.yuv"), None);
    assert_eq!(parse_scan_path("scan190aLyuv"), None);
    assert_eq!(parse_scan_path("scan190aLxyuv"), None);
    assert_eq!(parse_scan_path("scan 40L.yuv"), None);
}

#[test]
fn the_pattern_takes_the_last_four_digits() {
    assert_eq!(parse_scan_path("x12345L.yuv"), Some((0x2345, ImageType::Left)));
    assert_eq!(parse_scan_path("0040L.yuv0050R.yuv"), Some((0x0050, ImageType::Right)));
}

#[test]
fn the_pattern_knows_no_raw_frames() {
    assert_eq!(parse_scan_path("scan0040W.yuv"), None);
    assert_eq!(SCAN_PATTERN, r"([a-f0-9]{4})([NLR])\.yuv$");
}

#[test]
fn digits_and_letter_are_read() {
    assert_eq!(read_scan_entry("190a", "L"), Some((0x190a, ImageType::Left)));
    assert_eq!(read_scan_entry("0000", "R"), Some((0, ImageType::Right)));
    assert_eq!(read_scan_entry("ffff", "N"), Some((0xffff, ImageType::Ambient)));
    assert_eq!(read_scan_entry("0040", "W"), Some((0x40, ImageType::Raw)));
}

#[test]
fn bad_digits_or_letters_are_refused() {
    assert_eq!(read_scan_entry("190", "L"), None);
    assert_eq!(read_scan_entry("0190a", "L"), None);
    assert_eq!(read_scan_entry("190A", "L"), None);
    assert_eq!(read_scan_entry("19g0", "L"), None);
    assert_eq!(read_scan_entry("+190", "L"), None);
    assert_eq!(read_scan_entry("19\u{e9}0", "L"), None);
    assert_eq!(read_scan_entry("190a", "X"), None);
    assert_eq!(read_scan_entry("190a", "l"), None);
    assert_eq!(read_scan_entry("190a", ""), None);
    assert_eq!(read_scan_entry("190a", "LR"), None);
    assert_eq!(read_scan_entry("", ""), None);
}

#[test]
fn hex_characters_are_read() {
    assert_eq!(read_hex_char('0'), Some(0));
    assert_eq!(read_hex_char('9'), Some(9));
    assert_eq!(read_hex_char('a'), Some(10));
    assert_eq!(read_hex_char('f'), Some(15));
    assert_eq!(read_hex_char('g'), None);
    assert_eq!(read_hex_char('A'), None);
    assert_eq!(read_hex_char('/'), None);
    assert_eq!(read_hex_char(':'), None);
    assert_eq!(read_hex_char('`'), None);
    assert_eq!(read_hex_char('\u{ff10}'), None);
    assert_eq!(read_hex_char('\u{130}'), None);
}

#[test]
fn captures_are_read_by_their_place() {
    let found = Some(vec![
        Some("0040L.yuv".to_string()),
        Some("0040".to_string()),
        Some("L".to_string()),
    ]);
    assert_eq!(read_captures(&found), Some((0x40, ImageType::Left)));
    assert_eq!(read_captures(&None), None);
    assert_eq!(read_captures(&Some(Vec::new())), None);
    let short = Some(vec![Some("0040".to_string()), Some("L".to_string())]);
    assert_eq!(read_captures(&short), None);
    let missing = Some(vec![Some("x".to_string()), None, Some("L".to_string())]);
    assert_eq!(read_captures(&missing), None);
    let long = Some(vec![
        Some("0040L.yuv".to_string()),
        Some("0040".to_string()),
        Some("L".to_string()),
        Some("yuv".to_string()),
    ]);
    assert_eq!(read_captures(&long), None);
}

#[test]
fn a_new_entry_is_empty_and_incomplete() {
    let e = ImgSetEntry::new();
    assert!(!e.is_complete());
    assert_eq!(e.index(ImageType::Left), &None);
    assert_eq!(e.index(ImageType::Right), &None);
    assert_eq!(e.index(ImageType::Ambient), &None);
    assert_eq!(e.index(ImageType::Raw), &None);
}

#[test]
fn an_entry_is_complete_with_left_right_and_ambient() {
    let mut e = ImgSetEntry::new();
    *e.index_mut(ImageType::Left) = Some("l".to_string());
    assert!(!e.is_complete());
    *e.index_mut(ImageType::Right) = Some("r".to_string());
    assert!(!e.is_complete());
    *e.index_mut(ImageType::Raw) = Some("w".to_string());
    assert!(!e.is_complete());
    *e.index_mut(ImageType::Ambient) = Some("n".to_string());
    assert!(e.is_complete());
    assert_eq!(e.index(ImageType::Left), &Some("l".to_string()));
    assert_eq!(e.index(ImageType::Right), &Some("r".to_string()));
    assert_eq!(e.index(ImageType::Ambient), &Some("n".to_string()));
    assert_eq!(e.index(ImageType::Raw), &Some("w".to_string()));
    *e.index_mut(ImageType::Left) = None;
    assert!(!e.is_complete());
}

#[test]
fn raw_is_not_needed_to_be_complete() {
    let mut e = ImgSetEntry::new();
    *e.index_mut(ImageType::Left) = Some("l".to_string());
    *e.index_mut(ImageType::Right) = Some("r".to_string());
    *e.index_mut(ImageType::Ambient) = Some("n".to_string());
    assert!(e.is_complete());
    assert_eq!(e.index(ImageType::Raw), &None);
}

#[test]
fn a_directory_is_indexed_by_position() {
    let set = ImgSet::new_from_names(names(&[
        "scan0000N.yuv",
        "scan0000L.yuv",
        "scan0000R.yuv",
        "scan0040R.yuv",
        "readme.txt",
        "scan0040N.yuv",
        "scan0040L.yuv",
        "scan0080N.yuv",
        "scan0080L.yuv",
    ]));
    assert_eq!(set.map.len(), 3);
    assert_eq!(count(&set), (2, 1));
    assert!(set.map[&0x0000].is_complete());
    assert!(set.map[&0x0040].is_complete());
    assert!(!set.map[&0x0080].is_complete());
    assert_eq!(set.map[&0x0040].index(ImageType::Right), &Some("scan0040R.yuv".to_string()));
    assert_eq!(set.map[&0x0080].index(ImageType::Right), &None);
    assert_eq!(set.map[&0x0080].index(ImageType::Left), &Some("scan0080L.yuv".to_string()));
}

#[test]
fn the_later_of_two_files_stays() {
    let set = ImgSet::new_from_names(names(&["a0040L.yuv", "b0040L.yuv", "c0040R.yuv"]));
    assert_eq!(set.map.len(), 1);
    assert_eq!(set.map[&0x40].index(ImageType::Left), &Some("b0040L.yuv".to_string()));
    assert_eq!(set.map[&0x40].index(ImageType::Right), &Some("c0040R.yuv".to_string()));
}

#[test]
fn an_index_of_nothing_is_empty() {
    assert!(ImgSet::new().map.is_empty());
    assert!(ImgSet::new_from_names(Vec::new()).map.is_empty());
    assert!(ImgSet::new_from_names(names(&["readme.txt", "scan.yuv"])).map.is_empty());
}

#[test]
fn names_are_added_one_by_one() {
    let mut set = ImgSet::new();
    assert!(set.add("scan0040L.yuv".to_string()));
    assert!(!set.add("notes.md".to_string()));
    assert!(set.add("scan0040N.yuv".to_string()));
    assert_eq!(set.map.len(), 1);
    set.record(0x40, ImageType::Raw, "somewhere.raw".to_string());
    set.record(0x80, ImageType::Right, "elsewhere".to_string());
    assert_eq!(set.map.len(), 2);
    assert_eq!(set.map[&0x40].index(ImageType::Raw), &Some("somewhere.raw".to_string()));
    assert_eq!(set.map[&0x40].index(ImageType::Left), &Some("scan0040L.yuv".to_string()));
    assert_eq!(set.map[&0x80].index(ImageType::Right), &Some("elsewhere".to_string()));
    assert_eq!(count(&set), (0, 2));
}
