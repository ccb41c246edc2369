use obsidian::note_ref::NoteRef;
use obsidian::util::NoteRef as TaggedRef;
use obsidian::Error;

#[test]
fn note_ref_test_note_ref() {
    let note_ref = NoteRef::parse("[[12345-ZXYD|foo]]").unwrap();
    assert_eq!(note_ref.id, "12345-ZXYD");
    assert_eq!(note_ref.alias, Some("foo".to_string()));
}

#[test]
fn test_note_ref_no_alias() {
    let note_ref = NoteRef::parse("[[12345-ZXYD]]").unwrap();
    assert_eq!(note_ref.id, "12345-ZXYD");
    assert_eq!(note_ref.alias, None);
}

#[test]
fn util_test_note_ref() {
    let note_ref = TaggedRef::parse("[[12345-ZXYD|foo]]").unwrap();
    assert_eq!(note_ref.id, "12345-ZXYD");
    assert_eq!(note_ref.tag, Some("foo".to_string()));
}

#[test]
fn test_note_ref_no_tag() {
    let note_ref = TaggedRef::parse("[[12345-ZXYD]]").unwrap();
    assert_eq!(note_ref.id, "12345-ZXYD");
    assert_eq!(note_ref.tag, None);
}

#[test]
fn first_separator_rule() {
    let note_ref = NoteRef::parse("[[a|b|c]]").unwrap();
    assert_eq!(note_ref.id, "a");
    assert_eq!(note_ref.alias, Some("b|c".to_string()));
}

#[test]
fn malformed_tokens_rejected() {
    assert!(matches!(
        NoteRef::parse("[[abc"),
        Err(Error::InternalError { .. })
    ));
    assert!(matches!(
        NoteRef::parse("abc]]"),
        Err(Error::InternalError { .. })
    ));
    assert!(matches!(
        NoteRef::parse("abc"),
        Err(Error::InternalError { .. })
    ));
    assert!(matches!(
        TaggedRef::parse("abc"),
        Err(Error::InternalError { .. })
    ));
}

#[test]
fn empty_interior_is_not_rejected_here() {
    let note_ref = NoteRef::parse("[[]]").unwrap();
    assert_eq!(note_ref.id, "");
    assert_eq!(note_ref.alias, None);
}

#[test]
fn round_trip_through_text() {
    let r = NoteRef::new("12345-ZXYD", Some("foo"));
    assert_eq!(r.to_text(), "[[12345-ZXYD|foo]]");
    let back = NoteRef::parse(&r.to_text()).unwrap();
    assert_eq!(back, r);

    let plain = NoteRef::new("abc", None);
    assert_eq!(plain.to_text(), "[[abc]]");
    assert_eq!(NoteRef::parse(&plain.to_text()).unwrap(), plain);

    let tagged = TaggedRef::new("x-1", Some("label"));
    assert_eq!(TaggedRef::parse(&tagged.to_text()).unwrap(), tagged);
}

#[test]
fn filename_appends_md() {
    assert_eq!(NoteRef::new("12345-ZXYD", None).filename(), "12345-ZXYD.md");
    assert_eq!(TaggedRef::new("a", Some("t")).filename(), "a.md");
}
