//! The one-shot clipboard call behind the "copy selected message" action.

use vstd::prelude::*;

verus! {

/// Relies on copypasta's ClipboardContext::new and
/// ClipboardProvider::set_contents: places the text on the OS clipboard.
/// Whether that succeeds depends on the environment, so only the success
/// flag is stated.
#[verifier::external_body]
pub(crate) fn clipboard_set(text: String) -> bool {
    match copypasta::ClipboardContext::new() {
        Ok(mut ctx) => copypasta::ClipboardProvider::set_contents(&mut ctx, text).is_ok(),
        Err(_) => false,
    }
}

} // verus!
