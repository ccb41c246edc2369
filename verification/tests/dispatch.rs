use obsidian::client::{dispatch, Dispatched};
use obsidian::commands::{open_decision, target_ref};
use obsidian::messages::render_message;
use obsidian::util::NoteRef;
use obsidian::{Client, Error};

#[test]
fn success_returns_unchanged() {
    assert_eq!(dispatch::<i64>(Ok(7), 0), Dispatched::Return(7));
}

#[test]
fn domain_error_is_rendered_and_swallowed() {
    let d = dispatch::<i64>(Err(Error::NoReference), 0);
    assert_eq!(
        d,
        Dispatched::Rendered("[obsidian] cursor is not on a reference".to_string(), 0)
    );
}

#[test]
fn host_error_is_reraised_unchanged() {
    let d = dispatch::<i64>(
        Err(Error::HostError {
            why: "invalid buffer handle".to_string(),
        }),
        0,
    );
    assert_eq!(d, Dispatched::Raised("invalid buffer handle".to_string()));
}

#[test]
fn every_domain_error_renders_its_own_message() {
    assert_eq!(
        Error::AlreadySetup.message(),
        "can't setup more than once per session"
    );
    assert_eq!(
        Error::BadPreferences {
            option: "bogus".to_string(),
            why: "unknown field".to_string(),
        }
        .message(),
        "error parsing `bogus`: unknown field"
    );
    assert_eq!(
        Error::InvalidArguments {
            command: "ObsidianOpen".to_string(),
            why: "too many".to_string(),
        }
        .message(),
        "invalid arguments to command `ObsidianOpen`: too many"
    );
    assert_eq!(
        Error::InternalError {
            why: "Bad NoteRef value".to_string(),
        }
        .message(),
        "internal error: Bad NoteRef value"
    );
    assert_eq!(Error::NoReference.message(), "cursor is not on a reference");
    assert_eq!(
        Error::FileNotFound {
            file: "./a.md".to_string(),
        }
        .message(),
        "file './a.md' not found"
    );
    assert_eq!(render_message("hello"), "[obsidian] hello");
}

#[test]
fn explicit_argument_names_the_note() {
    let args = vec!["12345-ZXYD".to_string()];
    let r = target_ref(&args, None).unwrap();
    assert_eq!(r.id, "12345-ZXYD");
    assert_eq!(r.tag, None);
}

#[test]
fn cursor_reference_is_used_without_arguments() {
    let under = NoteRef::new("under", Some("t"));
    let r = target_ref(&vec![], Some(under)).unwrap();
    assert_eq!(r.id, "under");
    assert_eq!(r.tag, Some("t".to_string()));

    let r = target_ref(&vec![String::new()], Some(NoteRef::new("u2", None))).unwrap();
    assert_eq!(r.id, "u2");

    assert_eq!(target_ref(&vec![], None), Err(Error::NoReference));
}

#[test]
fn open_decision_needs_an_existing_file() {
    assert_eq!(
        open_decision("./a.md".to_string(), true).unwrap(),
        "e ./a.md"
    );
    assert_eq!(
        open_decision("./a.md".to_string(), false),
        Err(Error::FileNotFound {
            file: "./a.md".to_string(),
        })
    );
}

#[test]
fn path_for_joins_the_notes_directory() {
    let client = Client::new();
    assert_eq!(client.path_for(&NoteRef::new("a", None)), "./a.md");

    let mut client = Client::new();
    obsidian::setup::setup(
        &mut client,
        Some(&obsidian::config::Value::Dict(vec![(
            "notes_dir".to_string(),
            obsidian::config::Value::Text("/notes".to_string()),
        )])),
    )
    .unwrap();
    assert_eq!(
        client.path_for(&NoteRef::new("b", Some("t"))),
        "/notes/b.md"
    );
}
