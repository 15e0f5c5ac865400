//! Copying to the clipboard tries several commands in turn; this is the
//! bookkeeping of those attempts.
use vstd::prelude::*;

use crate::error::CtxError;
use crate::domain::text::views;

verus! {

/// The environment variable naming a clipboard command to use instead of
/// the platform's ones.
pub const COPY_COMMAND_VAR: &'static str = "CTX_HUB_COPY_CMD";

/// The failures of the clipboard commands tried so far, in order.
#[derive(Debug)]
pub struct ClipboardAttempts {
    pub failures: Vec<String>,
}

impl ClipboardAttempts {
    /// No command tried yet.
    pub fn new() -> (r: ClipboardAttempts)
        ensures
            r.failures@.len() == 0,
    {
        ClipboardAttempts { failures: Vec::new() }
    }

    /// Records how one command went; returns whether copying is done (the
    /// command succeeded), otherwise keeps its failure message.
    pub fn record(&mut self, outcome: Result<(), String>) -> (done: bool)
        ensures
            done == outcome is Ok,
            outcome is Ok ==> final(self).failures@ == old(self).failures@,
            outcome matches Err(m) ==> final(self).failures@ == old(self).failures@.push(m),
    {
        match outcome {
            Ok(()) => true,
            Err(m) => {
                self.failures.push(m);
                false
            },
        }
    }

    /// The error when no command succeeded: every failure, in order.
    pub fn into_error(self) -> (r: CtxError)
        ensures
            r matches CtxError::NoClipboard(f) && views(f@) == views(self.failures@),
    {
        CtxError::NoClipboard(self.failures)
    }
}

} // verus!
