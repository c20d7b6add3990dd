use secretstore::convert::ContentFormat;
use secretstore::reconcile::{copy_precheck, seed_fetched_content, write_decision, WriteAction};
use secretstore::session::{EditSession, SaveOutcome};

#[test]
fn copy_onto_itself_is_refused_before_any_network_call() {
    let e = copy_precheck(&String::from("secret-a"), &String::from("secret-a")).unwrap_err();
    assert!(!e.message.is_empty());
}

#[test]
fn copy_to_a_different_id_is_allowed() {
    assert!(copy_precheck(&String::from("secret-a"), &String::from("secret-b")).is_ok());
}

#[test]
fn fetched_content_is_edited_as_it_came_back() {
    let (content, to_create) = seed_fetched_content(Some(String::from("{\"k\": \"v\"}")));
    assert_eq!(content, "{\"k\": \"v\"}");
    assert!(!to_create);
}

#[test]
fn missing_secret_is_seeded_with_a_placeholder() {
    let (content, to_create) = seed_fetched_content(None);
    assert_eq!(content, "{\"\": \"\"}");
    assert!(to_create);
}

#[test]
fn editing_a_missing_secret_creates_it() {
    let (placeholder, to_create) = seed_fetched_content(None);
    let edited = String::from("{\n  \"user\": \"alice\"\n}");
    let action = write_decision(&placeholder, &edited, to_create);
    assert_eq!(action, WriteAction::Create);
}

#[test]
fn the_upsert_flow_seeds_edits_and_creates() {
    let (placeholder, to_create) = seed_fetched_content(None);
    assert!(to_create);
    // the seeded placeholder is valid JSON, so it reaches the editor as YAML
    let (mut session, _buffer) =
        EditSession::open(placeholder.clone(), ContentFormat::JSON, ContentFormat::YAML).unwrap();
    let outcome = session.on_editor_saved(&String::from("user: alice\n"));
    match outcome {
        SaveOutcome::Accepted(content) => {
            assert_eq!(content, "{\n  \"user\": \"alice\"\n}");
            assert_eq!(write_decision(&placeholder, &content, to_create), WriteAction::Create);
        }
        SaveOutcome::Rejected(_) => panic!("valid YAML must be accepted"),
    }
}

#[test]
fn an_unchanged_edit_skips_the_write() {
    let remote = String::from("{\n  \"a\": 1\n}");
    let action = write_decision(&remote, &remote.clone(), false);
    assert_eq!(action, WriteAction::Skip);
}

#[test]
fn a_changed_edit_of_an_existing_secret_puts_a_new_version() {
    let remote = String::from("{\n  \"a\": 1\n}");
    let edited = String::from("{\n  \"a\": 2\n}");
    let action = write_decision(&remote, &edited, false);
    assert_eq!(action, WriteAction::Put);
}
