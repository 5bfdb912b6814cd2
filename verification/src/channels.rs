//! The two channels that cross thread boundaries: inference results coming
//! back from detached workers, and remote commands coming in from the
//! listener's connection handlers. The session only ever drains them
//! without blocking; what a drain yields depends on the other threads, so
//! the trusted contracts below promise nothing about the values.

use vstd::prelude::*;
use crate::data::InferenceResult;

verus! {

#[verifier::external_type_specification]
#[verifier::external_body]
#[verifier::reject_recursive_types(T)]
pub struct ExMpscSender<T>(std::sync::mpsc::Sender<T>);

#[verifier::external_type_specification]
#[verifier::external_body]
#[verifier::reject_recursive_types(T)]
pub struct ExMpscReceiver<T>(std::sync::mpsc::Receiver<T>);

#[verifier::external_type_specification]
#[verifier::external_body]
#[verifier::reject_recursive_types(T)]
pub struct ExCbSender<T>(crossbeam_channel::Sender<T>);

#[verifier::external_type_specification]
#[verifier::external_body]
#[verifier::reject_recursive_types(T)]
pub struct ExCbReceiver<T>(crossbeam_channel::Receiver<T>);

/// Relies on std::sync::mpsc::channel: the two endpoints of a fresh
/// asynchronous channel.
#[verifier::external_body]
pub(crate) fn new_result_channel() -> (std::sync::mpsc::Sender<InferenceResult>, std::sync::mpsc::Receiver<
    InferenceResult,
>) {
    std::sync::mpsc::channel()
}

/// Relies on std::sync::mpsc::Receiver::try_recv: a queued message if one
/// is ready, without blocking; which message, if any, depends on what the
/// worker threads have sent so far.
#[verifier::external_body]
pub(crate) fn try_recv_result(rx: &std::sync::mpsc::Receiver<InferenceResult>) -> Option<
    InferenceResult,
> {
    rx.try_recv().ok()
}

/// Relies on Clone for std::sync::mpsc::Sender: another handle to the same
/// channel.
#[verifier::external_body]
pub(crate) fn clone_result_sender(
    tx: &std::sync::mpsc::Sender<InferenceResult>,
) -> std::sync::mpsc::Sender<InferenceResult> {
    tx.clone()
}

/// Relies on crossbeam_channel::unbounded: the two endpoints of a fresh
/// unbounded channel.
#[verifier::external_body]
pub(crate) fn new_remote_channel() -> (crossbeam_channel::Sender<String>, crossbeam_channel::Receiver<
    String,
>) {
    crossbeam_channel::unbounded()
}

/// Relies on crossbeam_channel::Receiver::try_recv: a queued message if one
/// is ready, without blocking; which message, if any, depends on what the
/// connection handlers have sent so far.
#[verifier::external_body]
pub(crate) fn try_recv_remote(rx: &crossbeam_channel::Receiver<String>) -> Option<String> {
    rx.try_recv().ok()
}

/// Relies on Clone for crossbeam_channel::Sender: another handle to the
/// same channel.
#[verifier::external_body]
pub(crate) fn clone_remote_sender(
    tx: &crossbeam_channel::Sender<String>,
) -> crossbeam_channel::Sender<String> {
    tx.clone()
}

} // verus!
