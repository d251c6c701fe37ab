use odin::descriptor::descriptor_content;
use odin::descriptor::read_name;
use odin::engine::parse_conflict_choice;
use odin::engine::ConflictChoice;
use odin::registry::contains_path;
use odin::text::bytes_eq;
use odin::text::copy_bytes;
use odin::text::is_affirmative;
use odin::text::trim_ascii;
use odin::version::tag_matches_version;

#[test]
fn trim_removes_surrounding_whitespace() {
    assert_eq!(trim_ascii(&b"  hello \n".to_vec()), b"hello".to_vec());
    assert_eq!(trim_ascii(&b"\t\r\n".to_vec()), b"".to_vec());
    assert_eq!(trim_ascii(&b"demo".to_vec()), b"demo".to_vec());
    assert_eq!(trim_ascii(&b"a b".to_vec()), b"a b".to_vec());
    assert_eq!(trim_ascii(&b"".to_vec()), b"".to_vec());
}

#[test]
fn affirmative_accepts_only_y() {
    assert!(is_affirmative(&b"y".to_vec()));
    assert!(is_affirmative(&b"Y".to_vec()));
    assert!(is_affirmative(&b" y \n".to_vec()));
    assert!(!is_affirmative(&b"yes".to_vec()));
    assert!(!is_affirmative(&b"n".to_vec()));
    assert!(!is_affirmative(&b"".to_vec()));
    assert!(!is_affirmative(&b" \n".to_vec()));
    assert!(!is_affirmative(&b"yy".to_vec()));
}

#[test]
fn conflict_choice_parses_single_letters() {
    assert_eq!(parse_conflict_choice(&b"n".to_vec()), ConflictChoice::Rename);
    assert_eq!(parse_conflict_choice(&b"N\n".to_vec()), ConflictChoice::Rename);
    assert_eq!(parse_conflict_choice(&b" o ".to_vec()), ConflictChoice::Overwrite);
    assert_eq!(parse_conflict_choice(&b"O".to_vec()), ConflictChoice::Overwrite);
    assert_eq!(parse_conflict_choice(&b"c".to_vec()), ConflictChoice::Cancel);
    assert_eq!(parse_conflict_choice(&b"no".to_vec()), ConflictChoice::Cancel);
    assert_eq!(parse_conflict_choice(&b"".to_vec()), ConflictChoice::Cancel);
}

#[test]
fn byte_helpers_compare_and_copy() {
    assert!(bytes_eq(&b"abc".to_vec(), &b"abc".to_vec()));
    assert!(!bytes_eq(&b"abc".to_vec(), &b"abd".to_vec()));
    assert!(!bytes_eq(&b"abc".to_vec(), &b"ab".to_vec()));
    assert_eq!(copy_bytes(&b"abc".to_vec()), b"abc".to_vec());
}

#[test]
fn contains_path_finds_exact_match() {
    let paths = vec![b"/home/u/one".to_vec(), b"/home/u/two".to_vec()];
    assert!(contains_path(&paths, &b"/home/u/two".to_vec()));
    assert!(!contains_path(&paths, &b"/home/u/three".to_vec()));
    assert!(!contains_path(&Vec::new(), &b"/home/u/one".to_vec()));
}

#[test]
fn version_tags_strip_leading_v() {
    assert!(tag_matches_version(&b"v1.2.3".to_vec(), &b"1.2.3".to_vec()));
    assert!(tag_matches_version(&b"1.2.3".to_vec(), &b"1.2.3".to_vec()));
    assert!(tag_matches_version(&b"vv2".to_vec(), &b"2".to_vec()));
    assert!(!tag_matches_version(&b"v1.2.3".to_vec(), &b"1.2.4".to_vec()));
    assert!(!tag_matches_version(&b"v1.2".to_vec(), &b"1.2.3".to_vec()));
}

#[test]
fn descriptor_document_has_exact_shape() {
    let content = descriptor_content(&b"demo".to_vec(), &b"/home/u/demo".to_vec());
    assert_eq!(content, b"[app]\nname = \"demo\"\npath = \"/home/u/demo\"\n".to_vec());
}

#[test]
fn descriptor_name_round_trips() {
    let content = descriptor_content(&b"demo".to_vec(), &b"/home/u/demo".to_vec());
    assert_eq!(read_name(&content), Some(b"demo".to_vec()));
}

#[test]
fn descriptor_name_is_best_effort() {
    assert_eq!(read_name(&b"no such line\n".to_vec()), None);
    assert_eq!(read_name(&b"name = demo\n".to_vec()), None);
    assert_eq!(read_name(&b"name = \"partial\n".to_vec()), Some(b"partial".to_vec()));
    assert_eq!(read_name(&b"x\nname = \"second\"\n".to_vec()), Some(b"second".to_vec()));
    assert_eq!(read_name(&b"".to_vec()), None);
}
