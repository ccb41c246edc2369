use obsidian::config::{build_config, default_notes_dir, Value};
use obsidian::setup::setup;
use obsidian::{Client, Error};

fn dict(entries: Vec<(&str, Value)>) -> Value {
    Value::Dict(
        entries
            .into_iter()
            .map(|(k, v)| (k.to_string(), v))
            .collect(),
    )
}

#[test]
fn absent_preferences_yield_default() {
    assert_eq!(build_config(None).unwrap().notes_dir, "./");
    assert_eq!(build_config(Some(&Value::Nil)).unwrap().notes_dir, "./");
    assert_eq!(default_notes_dir(), "./");
}

#[test]
fn notes_dir_is_decoded() {
    let prefs = dict(vec![("notes_dir", Value::Text("/tmp/notes".to_string()))]);
    assert_eq!(build_config(Some(&prefs)).unwrap().notes_dir, "/tmp/notes");

    let empty = dict(vec![]);
    assert_eq!(build_config(Some(&empty)).unwrap().notes_dir, "./");
}

#[test]
fn unknown_field_is_rejected_with_its_path() {
    let prefs = dict(vec![
        ("notes_dir", Value::Text("/tmp/notes".to_string())),
        ("bogus", Value::Integer(1)),
    ]);
    match build_config(Some(&prefs)) {
        Err(Error::BadPreferences { option, why }) => {
            assert_eq!(option, "bogus");
            assert_eq!(why, "unknown field");
        }
        other => panic!("expected BadPreferences, got {other:?}"),
    }
}

#[test]
fn wrong_type_and_duplicates_are_rejected() {
    let wrong = dict(vec![("notes_dir", Value::Boolean(true))]);
    match build_config(Some(&wrong)) {
        Err(Error::BadPreferences { option, why }) => {
            assert_eq!(option, "notes_dir");
            assert_eq!(why, "expected a string");
        }
        other => panic!("expected BadPreferences, got {other:?}"),
    }

    let dup = dict(vec![
        ("notes_dir", Value::Text("a".to_string())),
        ("notes_dir", Value::Text("b".to_string())),
    ]);
    match build_config(Some(&dup)) {
        Err(Error::BadPreferences { option, why }) => {
            assert_eq!(option, "notes_dir");
            assert_eq!(why, "duplicate field");
        }
        other => panic!("expected BadPreferences, got {other:?}"),
    }
}

#[test]
fn non_table_preferences_are_rejected() {
    match build_config(Some(&Value::Integer(3))) {
        Err(Error::BadPreferences { option, why }) => {
            assert_eq!(option, ".");
            assert_eq!(why, "expected a table");
        }
        other => panic!("expected BadPreferences, got {other:?}"),
    }
    assert!(matches!(
        build_config(Some(&Value::List(vec![Value::Nil]))),
        Err(Error::BadPreferences { .. })
    ));
}

#[test]
fn setup_runs_once_and_only_once() {
    let mut client = Client::new();
    assert!(!client.already_setup());

    let prefs = dict(vec![("notes_dir", Value::Text("/tmp/notes".to_string()))]);
    setup(&mut client, Some(&prefs)).unwrap();
    assert!(client.already_setup());
    assert_eq!(client.notes_dir().as_str(), "/tmp/notes");

    let other = dict(vec![("notes_dir", Value::Text("/elsewhere".to_string()))]);
    assert_eq!(setup(&mut client, Some(&other)), Err(Error::AlreadySetup));
    assert!(client.already_setup());
    assert_eq!(client.notes_dir().as_str(), "/tmp/notes");
}

#[test]
fn failed_setup_leaves_session_untouched() {
    let mut client = Client::new();
    let bad = dict(vec![("bogus", Value::Integer(1))]);
    assert!(matches!(
        setup(&mut client, Some(&bad)),
        Err(Error::BadPreferences { .. })
    ));
    assert!(!client.already_setup());
    assert_eq!(client.notes_dir().as_str(), "./");

    setup(&mut client, None).unwrap();
    assert!(client.already_setup());
    assert_eq!(client.notes_dir().as_str(), "./");
}
