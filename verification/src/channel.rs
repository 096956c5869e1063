//! Trusted declarations for the message channels that connect a view to its
//! background query. Only creation and the non-blocking receive are used from
//! verified code; sending happens on the background side.

use vstd::prelude::*;

verus! {

#[verifier::external_type_specification]
#[verifier::external_body]
#[verifier::reject_recursive_types(T)]
pub struct ExUnboundedSender<T>(tokio::sync::mpsc::UnboundedSender<T>);

#[verifier::external_type_specification]
#[verifier::external_body]
#[verifier::reject_recursive_types(T)]
pub struct ExUnboundedReceiver<T>(tokio::sync::mpsc::UnboundedReceiver<T>);

/// Relies on tokio::sync::mpsc::unbounded_channel: returns a connected
/// sender/receiver pair. Nothing is assumed about the values that will
/// later travel through the channel.
#[verifier::external_body]
pub fn unbounded_pair<T>() -> (
    tokio::sync::mpsc::UnboundedSender<T>,
    tokio::sync::mpsc::UnboundedReceiver<T>,
) {
    tokio::sync::mpsc::unbounded_channel()
}

/// Relies on tokio's UnboundedReceiver::try_recv: a non-blocking,
/// non-panicking receive that yields nothing when no message is ready.
/// Nothing is assumed about a received value, so callers must handle
/// every possible message.
#[verifier::external_body]
pub fn try_recv<T>(rx: &mut tokio::sync::mpsc::UnboundedReceiver<T>) -> Option<T> {
    match rx.try_recv() {
        Ok(v) => Some(v),
        Err(_) => None,
    }
}

} // verus!
