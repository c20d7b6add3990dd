use vstd::prelude::*;

use crate::convert::{convert_spec, ContentFormat};

verus! {

/// A request refused before any backend call was made: its human-readable
/// reason.
#[derive(Debug)]
pub struct ValidationError {
    pub message: String,
}

/// What the reconciler tells the backend to do once an edit session has
/// produced its content.
#[derive(Clone, Copy, PartialEq, Eq, Structural, Debug)]
pub enum WriteAction {
    /// The edited content equals the remote content byte for byte: nothing to
    /// save, no new version is created.
    Skip,
    /// The secret did not exist when it was fetched: create it.
    Create,
    /// The secret exists and its content changed: write a new version.
    Put,
}

/// The placeholder seeded into an edit of a secret that does not exist yet.
pub open spec fn seeded_placeholder() -> Seq<char> {
    "{\"\": \"\"}"@
}

/// What the backend is told to do: skip the write exactly when nothing
/// changed, and otherwise create or update according to how the fetch went.
pub open spec fn write_decision_spec(
    remote: Seq<char>,
    edited: Seq<char>,
    to_create: bool,
) -> WriteAction {
    if edited == remote {
        WriteAction::Skip
    } else if to_create {
        WriteAction::Create
    } else {
        WriteAction::Put
    }
}

/// The content an edit starts from, and whether saving it must create the
/// secret rather than update it: a fetched secret is edited as it came back,
/// and a missing one is seeded with an empty JSON placeholder (the upsert
/// path).
pub fn seed_fetched_content(fetched: Option<String>) -> (r: (String, bool))
    ensures
        fetched matches Some(c) ==> r.0 == c && r.1 == false,
        fetched is None ==> r.0@ == seeded_placeholder() && r.1 == true,
{
    match fetched {
        Some(c) => (c, false),
        None => (String::from_str("{\"\": \"\"}"), true),
    }
}

/// Compares the content that came back from the edit session, already
/// converted to the secret format, byte for byte against the remote content,
/// and decides whether and how to write.
pub fn write_decision(remote_content: &String, edited_content: &String, to_create: bool) -> (r:
    WriteAction)
    ensures
        r == write_decision_spec(remote_content@, edited_content@, to_create),
{
    if *edited_content == *remote_content {
        WriteAction::Skip
    } else if to_create {
        WriteAction::Create
    } else {
        WriteAction::Put
    }
}

/// A copy must go to a different identifier: copying a secret onto itself is
/// refused before any backend call is made.
pub fn copy_precheck(secret_id: &String, target_id: &String) -> (r: Result<(), ValidationError>)
    ensures
        r is Ok <==> secret_id@ != target_id@,
{
    if *target_id == *secret_id {
        Err(
            ValidationError {
                message: String::from_str(
                    "Source secret_id and target can't be equal on the same account and region",
                ),
            },
        )
    } else {
        Ok(())
    }
}

/// Saving the editor buffer untouched is a no-op: where the down-and-back
/// conversion reproduces the remote bytes exactly (it always does for text,
/// and for structured content already in the converter's stable layout), the
/// content converted back from the unchanged buffer is compared against the
/// remote content and the write is skipped.
pub proof fn lemma_unchanged_save_skips_write(
    remote: Seq<char>,
    buffer: Seq<char>,
    secret_format: ContentFormat,
    edit_format: ContentFormat,
    to_create: bool,
)
    requires
        convert_spec(remote, secret_format, edit_format) == Some(buffer),
        convert_spec(buffer, edit_format, secret_format) == Some(remote),
    ensures
        write_decision_spec(
            remote,
            convert_spec(buffer, edit_format, secret_format)->0,
            to_create,
        ) == WriteAction::Skip,
{
}

/// Editing a secret that did not exist seeds a placeholder and, once the user
/// saves anything else, creates the secret — it never updates one.
pub proof fn lemma_missing_secret_creates(edited: Seq<char>)
    ensures
        edited != seeded_placeholder() ==> write_decision_spec(
            seeded_placeholder(),
            edited,
            true,
        ) == WriteAction::Create,
        write_decision_spec(seeded_placeholder(), edited, true) != WriteAction::Put,
{
}

} // verus!
