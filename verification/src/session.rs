use vstd::prelude::*;

use crate::convert::{convert_spec, format_convert, ContentFormat, ConvertError};

verus! {

/// Where an interactive editing session stands.
#[derive(Clone, Copy, PartialEq, Eq, Structural, Debug)]
pub enum SessionState {
    /// The editor is open (or about to be opened) on the buffer; a save is
    /// awaited.
    Editing,
    /// The last save did not convert back to the secret format; the user is
    /// being asked whether to edit again.
    AwaitingDecision,
    /// The session has produced its result.
    Closed,
}

/// What the session asks of its driver after the editor saved: either the
/// session is over with the content to hand back, or the save did not convert
/// and the user must be asked whether to edit again.
pub enum SaveOutcome {
    /// The buffer converted back to the secret format: this is the session's
    /// result.
    Accepted(String),
    /// The buffer did not convert; the error to surface before prompting.
    Rejected(ConvertError),
}

/// What the session asks of its driver after the user answered the retry
/// prompt: reopen the editor on the unchanged buffer, or hand back the
/// original pre-edit content as the session's result.
pub enum DecisionOutcome {
    /// Reopen the editor on the same, still-invalid buffer.
    Reopen,
    /// The user declined: the session is a no-op and yields the original
    /// remote content, unchanged.
    Aborted(String),
}

/// One interactive editing attempt over one secret.  The driver owns the
/// temporary buffer and the editor process; this machine makes every
/// decision: what the buffer starts as, whether a save ends the session, and
/// what an abort hands back.
#[derive(Debug)]
pub struct EditSession {
    /// The remote content, in the secret format: the fallback a declined
    /// session hands back.
    pub remote_content: String,
    /// How the backend stores the secret.
    pub secret_format: ContentFormat,
    /// How the user edits it.
    pub edit_format: ContentFormat,
    /// How many times the editor was reopened after a failed save.
    pub attempt_count: u64,
    /// Where the session stands.
    pub state: SessionState,
}

impl EditSession {
    /// Opens a session: converts the remote content into the edit format,
    /// yielding the session and the initial buffer the editor is opened on.
    /// Content that does not parse in the secret format is fatal here: there
    /// is nothing sensible to put in front of the user.
    pub fn open(
        remote_content: String,
        secret_format: ContentFormat,
        edit_format: ContentFormat,
    ) -> (r: Result<(EditSession, String), ConvertError>)
        ensures
            r is Ok <==> convert_spec(remote_content@, secret_format, edit_format) is Some,
            r is Ok ==> Some(r->Ok_0.1@) == convert_spec(
                remote_content@,
                secret_format,
                edit_format,
            ),
            r is Ok ==> r->Ok_0.0 == (EditSession {
                remote_content,
                secret_format,
                edit_format,
                attempt_count: 0,
                state: SessionState::Editing,
            }),
            r is Err ==> r->Err_0.format == secret_format,
    {
        match format_convert(&remote_content, &secret_format, &edit_format) {
            Ok(buffer) => Ok(
                (
                    EditSession {
                        remote_content,
                        secret_format,
                        edit_format,
                        attempt_count: 0,
                        state: SessionState::Editing,
                    },
                    buffer,
                ),
            ),
            Err(e) => Err(e),
        }
    }

    /// The editor exited and the buffer holds `saved`: convert it back to the
    /// secret format.  Content that converts closes the session with the
    /// converted result; content that does not leaves the session awaiting
    /// the user's retry decision.
    pub fn on_editor_saved(&mut self, saved: &String) -> (r: SaveOutcome)
        requires
            old(self).state == SessionState::Editing,
        ensures
            final(self).remote_content == old(self).remote_content,
            final(self).secret_format == old(self).secret_format,
            final(self).edit_format == old(self).edit_format,
            final(self).attempt_count == old(self).attempt_count,
            r is Accepted <==> convert_spec(
                saved@,
                old(self).edit_format,
                old(self).secret_format,
            ) is Some,
            r matches SaveOutcome::Accepted(content) ==> Some(content@) == convert_spec(
                saved@,
                old(self).edit_format,
                old(self).secret_format,
            ) && final(self).state == SessionState::Closed,
            r matches SaveOutcome::Rejected(e) ==> e.format == old(self).edit_format
                && final(self).state == SessionState::AwaitingDecision,
    {
        match format_convert(saved, &self.edit_format, &self.secret_format) {
            Ok(content) => {
                self.state = SessionState::Closed;
                SaveOutcome::Accepted(content)
            },
            Err(e) => {
                self.state = SessionState::AwaitingDecision;
                SaveOutcome::Rejected(e)
            },
        }
    }

    /// The user answered the retry prompt.  A yes reopens the editor on the
    /// unchanged buffer and counts the attempt; a no closes the session,
    /// which then yields the original pre-edit content — a no-op from the
    /// backend's point of view.
    pub fn on_retry_decision(&mut self, edit_again: bool) -> (r: DecisionOutcome)
        requires
            old(self).state == SessionState::AwaitingDecision,
        ensures
            final(self).remote_content == old(self).remote_content,
            final(self).secret_format == old(self).secret_format,
            final(self).edit_format == old(self).edit_format,
            edit_again ==> r is Reopen && final(self).state == SessionState::Editing
                && final(self).attempt_count == (if old(self).attempt_count < u64::MAX {
                old(self).attempt_count + 1
            } else {
                old(self).attempt_count as int
            }),
            !edit_again ==> (r matches DecisionOutcome::Aborted(content) && content == old(
                self,
            ).remote_content) && final(self).state == SessionState::Closed
                && final(self).attempt_count == old(self).attempt_count,
    {
        if edit_again {
            if self.attempt_count < u64::MAX {
                self.attempt_count = self.attempt_count + 1;
            }
            self.state = SessionState::Editing;
            DecisionOutcome::Reopen
        } else {
            self.state = SessionState::Closed;
            DecisionOutcome::Aborted(self.remote_content.clone())
        }
    }
}

/// The editor program to launch: an explicit override wins, then the
/// environment's default, then nano as the last resort.
pub fn resolve_editor(editor_override: Option<String>, env_default: Option<String>) -> (r: String)
    ensures
        editor_override matches Some(e) ==> r == e,
        editor_override is None ==> (env_default matches Some(e) ==> r == e),
        editor_override is None && env_default is None ==> r@ == "nano"@,
{
    match editor_override {
        Some(e) => e,
        None => match env_default {
            Some(e) => e,
            None => String::from_str("nano"),
        },
    }
}

} // verus!
