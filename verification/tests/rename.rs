use prefix_renamer::filter::{accepts, descendants_pattern, is_xml_file, xml_pattern};
use prefix_renamer::names::RenameError;
use prefix_renamer::plan::{rename_xml, RenamePlan};
use prefix_renamer::rename::{rename_report, rename_target, target, RenameOp, Target};

const HASHED: &str = "C6A91478B2AF28F550DD3B128D5D2886_test_1.xml";

fn op(from: &str, to: &str) -> RenameOp {
    RenameOp { from: String::from(from), to: String::from(to) }
}

#[test]
fn test_renamer() {
    let from_file = format!("/tmp/work/{}", HASHED);
    let to_file = String::from("/tmp/work/test_1.xml");
    assert_eq!(rename_report(&from_file, &to_file, false), None);
}

#[test]
fn test_renamer_verbose() {
    let from_file = format!("/tmp/work/{}", HASHED);
    let to_file = String::from("/tmp/work/test_1.xml");
    assert_eq!(
        rename_report(&from_file, &to_file, true),
        Some(String::from(
            "file /tmp/work/C6A91478B2AF28F550DD3B128D5D2886_test_1.xml renamed to /tmp/work/test_1.xml"
        ))
    );
}

#[test]
fn test_rename_xml() {
    let from_file = format!("/tmp/work/sites/{}", HASHED);
    let plan = rename_xml(&vec![from_file.clone()], None, true);
    assert_eq!(
        plan,
        RenamePlan { ops: vec![op(&from_file, "/tmp/work/sites/sites_test_1.xml")], failure: None }
    );
}

#[test]
fn rename_target_appends_the_parent_name() {
    let from_file = format!("data/sites/{}", HASHED);
    assert_eq!(
        rename_target(&from_file, None, true),
        Ok(op(&from_file, "data/sites/sites_test_1.xml"))
    );
}

#[test]
fn rename_target_without_append_keeps_the_suffix() {
    let from_file = format!("data/sites/{}", HASHED);
    assert_eq!(
        rename_target(&from_file, None, false),
        Ok(op(&from_file, "data/sites/_test_1.xml"))
    );
    assert_eq!(
        rename_target(&from_file, Some(33), false),
        Ok(op(&from_file, "data/sites/test_1.xml"))
    );
}

#[test]
fn rename_target_of_a_bare_name() {
    // The parent of a bare name is the empty path, which has no name.
    assert_eq!(rename_target(HASHED, None, true), Ok(op(HASHED, "_test_1.xml")));
    assert_eq!(rename_target(HASHED, None, false), Ok(op(HASHED, "_test_1.xml")));
}

#[test]
fn rename_target_fails_on_a_short_name() {
    assert_eq!(rename_target("data/sites/a.xml", None, true), Err(RenameError::PrefixTooLong));
    assert_eq!(rename_target("data/sites/a.xml", Some(6), false), Err(RenameError::PrefixTooLong));
    assert_eq!(rename_target("data/sites/a.xml", Some(5), false), Ok(op("data/sites/a.xml", "data/sites/")));
}

#[test]
fn rename_target_fails_inside_a_character() {
    assert_eq!(rename_target("data/é.xml", Some(1), true), Err(RenameError::SplitsCharacter));
}

#[test]
fn rename_target_without_a_parent() {
    assert_eq!(rename_target("", Some(0), true), Err(RenameError::NoParent));
    assert_eq!(rename_target("/", Some(0), true), Err(RenameError::NoParent));
    // A name that is too short is reported first.
    assert_eq!(rename_target("/", Some(1), true), Err(RenameError::PrefixTooLong));
    let here = rename_target("", Some(0), false).unwrap();
    assert_eq!(here.from, "");
    assert_eq!(std::path::Path::new(&here.to), std::path::Path::new("."));
}

#[test]
fn target_from_parts() {
    let file_name = Some(String::from(HASHED));
    let parent = Some(String::from("data/sites"));
    let parent_name = Some(String::from("sites"));
    assert_eq!(
        target(&file_name, &parent, &parent_name, 32, true),
        Ok(Target { dir: String::from("data/sites"), name: String::from("sites_test_1.xml") })
    );
    assert_eq!(
        target(&file_name, &parent, &parent_name, 32, false),
        Ok(Target { dir: String::from("data/sites"), name: String::from("_test_1.xml") })
    );
    assert_eq!(
        target(&file_name, &parent, &None, 32, true),
        Ok(Target { dir: String::from("data/sites"), name: String::from("_test_1.xml") })
    );
    assert_eq!(
        target(&file_name, &None, &None, 32, false),
        Ok(Target { dir: String::from("."), name: String::from("_test_1.xml") })
    );
    assert_eq!(target(&file_name, &None, &None, 32, true), Err(RenameError::NoParent));
    assert_eq!(target(&file_name, &None, &None, 44, true), Err(RenameError::PrefixTooLong));
    assert_eq!(target(&None, &parent, &parent_name, 1, true), Err(RenameError::PrefixTooLong));
    assert_eq!(
        target(&None, &parent, &parent_name, 0, true),
        Ok(Target { dir: String::from("data/sites"), name: String::from("sites") })
    );
}

#[test]
fn report_names_both_paths() {
    assert_eq!(rename_report("a", "b", true), Some(String::from("file a renamed to b")));
    assert_eq!(rename_report("", "", true), Some(String::from("file  renamed to ")));
    assert_eq!(rename_report("a", "b", false), None);
}

#[test]
fn filter_takes_xml_only() {
    assert!(is_xml_file("data/sites/C6A91478B2AF28F550DD3B128D5D2886_test_1.xml"));
    assert!(is_xml_file("a.xml"));
    assert!(is_xml_file(".xml"));
    assert!(!is_xml_file("data/sites/C6A91478B2AF28F550DD3B128D5D2886_test_1.txt"));
    assert!(!is_xml_file("data/sites/a.xml.bak"));
    assert!(!is_xml_file("data/sites/axml"));
    assert!(!is_xml_file("data.xml/sites"));
    assert!(!is_xml_file(""));
    assert!(!is_xml_file("data/.."));
}

#[test]
fn filter_is_case_sensitive() {
    assert!(!is_xml_file("data/a.XML"));
}

#[test]
fn accepts_only_a_match() {
    assert!(accepts(Some(true)));
    assert!(!accepts(Some(false)));
    assert!(!accepts(None));
}

#[test]
fn patterns_for_a_directory() {
    assert_eq!(xml_pattern("data/sites"), "data/sites/*.xml");
    assert_eq!(xml_pattern(""), "/*.xml");
    assert_eq!(descendants_pattern("data"), "data/**");
    assert_eq!(descendants_pattern("data/"), "data/**");
    assert_eq!(descendants_pattern(""), "**");
}

#[test]
fn text_file_is_never_renamed() {
    let listing = vec![String::from("data/sites/C6A91478B2AF28F550DD3B128D5D2886_test_1.txt")];
    for prefix_length in [None, Some(0), Some(32), Some(100)] {
        for append_dir in [false, true] {
            assert_eq!(
                rename_xml(&listing, prefix_length, append_dir),
                RenamePlan { ops: vec![], failure: None }
            );
        }
    }
}

#[test]
fn plan_of_nothing_is_empty() {
    assert_eq!(rename_xml(&vec![], None, true), RenamePlan { ops: vec![], failure: None });
}

#[test]
fn plan_keeps_the_order_and_passes_over_other_files() {
    let listing = vec![
        String::from("d/C6A91478B2AF28F550DD3B128D5D2886_b.xml"),
        String::from("d/C6A91478B2AF28F550DD3B128D5D2886_notes.txt"),
        String::from("d/C6A91478B2AF28F550DD3B128D5D2886_a.xml"),
    ];
    assert_eq!(
        rename_xml(&listing, None, true),
        RenamePlan {
            ops: vec![
                op("d/C6A91478B2AF28F550DD3B128D5D2886_b.xml", "d/d_b.xml"),
                op("d/C6A91478B2AF28F550DD3B128D5D2886_a.xml", "d/d_a.xml"),
            ],
            failure: None,
        }
    );
}

#[test]
fn plan_stops_at_a_short_name() {
    let listing = vec![
        String::from("d/C6A91478B2AF28F550DD3B128D5D2886_a.xml"),
        String::from("d/short.xml"),
        String::from("d/C6A91478B2AF28F550DD3B128D5D2886_c.xml"),
    ];
    assert_eq!(
        rename_xml(&listing, None, false),
        RenamePlan {
            ops: vec![op("d/C6A91478B2AF28F550DD3B128D5D2886_a.xml", "d/_a.xml")],
            failure: Some(RenameError::PrefixTooLong),
        }
    );
    assert_eq!(
        rename_xml(&listing, Some(2), false),
        RenamePlan {
            ops: vec![
                op("d/C6A91478B2AF28F550DD3B128D5D2886_a.xml", "d/A91478B2AF28F550DD3B128D5D2886_a.xml"),
                op("d/short.xml", "d/ort.xml"),
                op("d/C6A91478B2AF28F550DD3B128D5D2886_c.xml", "d/A91478B2AF28F550DD3B128D5D2886_c.xml"),
            ],
            failure: None,
        }
    );
}

#[test]
fn short_name_that_does_not_match_stops_nothing() {
    let listing = vec![String::from("d/short.txt"), String::from("d/C6A91478B2AF28F550DD3B128D5D2886_a.xml")];
    assert_eq!(
        rename_xml(&listing, None, false),
        RenamePlan {
            ops: vec![op("d/C6A91478B2AF28F550DD3B128D5D2886_a.xml", "d/_a.xml")],
            failure: None,
        }
    );
}
