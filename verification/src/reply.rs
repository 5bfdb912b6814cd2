//! The textual protocol with the outside world: the reply shown for one
//! external-tool invocation, and the acknowledgement line of the remote
//! command listener.

use vstd::prelude::*;
use vstd::string::StringExecFns;

verus! {

/// The fixed line written back to a peer whose remote command was accepted.
pub fn ack_line() -> (r: &'static str)
    ensures
        r@ == "Command received and processed."@,
{
    "Command received and processed."
}

/// Folds one finished external-tool invocation into the single string shown
/// as the assistant's reply: the captured standard output, and, when the
/// tool exited with failure, the captured standard error appended under an
/// error marker.
pub fn compose_reply(output: String, error: &str, success: bool) -> (r: String)
    ensures
        success ==> r@ == output@,
        !success ==> r@ == output@ + "\nError: "@ + error@,
{
    if success {
        output
    } else {
        output.concat("\nError: ").concat(error)
    }
}

} // verus!
