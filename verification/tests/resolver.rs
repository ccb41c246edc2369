use obsidian::util::{find_ref, locate_under_cursor, NoteRef};

#[test]
fn test_find_ref() {
    assert_eq!(
        find_ref("[[12345-ZXYD|foo]] blah", 0).unwrap().unwrap(),
        NoteRef::parse("[[12345-ZXYD|foo]]").unwrap()
    );

    assert_eq!(
        find_ref("[[12345-ZXYD|foo]] blah", 17).unwrap().unwrap(),
        NoteRef::parse("[[12345-ZXYD|foo]]").unwrap(),
    );

    assert_eq!(find_ref("[[12345-ZXYD|foo]]  blah", 19).unwrap(), None);
}

#[test]
fn boundary_is_inclusive_at_both_ends() {
    let line = "x [[a]] y";
    // Span of `[[a]]` is columns 2..=6 inclusively.
    assert_eq!(find_ref(line, 1).unwrap(), None);
    for col in 2..=7 {
        // Column 7 maps to the offset just past `]]`, which the inclusive
        // end still covers.
        assert!(find_ref(line, col).unwrap().is_some(), "column {col}");
    }
    assert_eq!(find_ref(line, 8).unwrap(), None);
}

#[test]
fn first_match_in_scan_order_wins() {
    let line = "[[one]] [[two]]";
    assert_eq!(find_ref(line, 3).unwrap().unwrap().id, "one");
    assert_eq!(find_ref(line, 9).unwrap().unwrap().id, "two");
}

#[test]
fn display_columns_are_grapheme_clusters() {
    // "e\u{301}" is one displayed cluster made of two characters, so a
    // per-character column mapping would miss the reference at column 1.
    let line = "e\u{301}[[ab]]";
    assert_eq!(find_ref(line, 1).unwrap().unwrap().id, "ab");
    assert_eq!(find_ref(line, 0).unwrap(), None);
}

#[test]
fn tokens_with_closing_bracket_in_body_do_not_match() {
    assert_eq!(find_ref("[[a]b]] x", 8).unwrap(), None);
    assert_eq!(find_ref("[[]] empty body", 1).unwrap(), None);
}

#[test]
fn locate_tolerates_out_of_range_columns() {
    let line = "[[a]]";
    assert!(locate_under_cursor(line, 2).unwrap().is_some());
    assert_eq!(locate_under_cursor(line, 400).unwrap(), None);
    assert_eq!(locate_under_cursor("", 0).unwrap(), None);
}
