//! The watch channels that carry discovery snapshots and published routes.
//! tokio's watch types are declared here, with the few calls the assembly
//! makes on them. A receiver's current value depends on what its sender last
//! sent, so nothing is assumed of the values these calls return: every
//! function that consumes a snapshot takes it as an argument and is verified
//! for all values of it.

use vstd::prelude::*;

verus! {

/// tokio's watch receiver, declared so targets can hold live subscriptions.
/// Opaque to verification.
#[verifier::external_type_specification]
#[verifier::external_body]
#[verifier::reject_recursive_types(T)]
pub struct ExWatchReceiver<T>(tokio::sync::watch::Receiver<T>);

/// tokio's watch sender, declared so constructors can hand the publishing
/// half of a routes channel to the republisher loop. Opaque to verification.
#[verifier::external_type_specification]
#[verifier::external_body]
#[verifier::reject_recursive_types(T)]
pub struct ExWatchSender<T>(tokio::sync::watch::Sender<T>);

/// Relies on tokio::sync::watch::channel: makes a fresh watch pair whose
/// receiver initially observes `init`.
#[verifier::external_body]
pub(crate) fn watch_channel<T>(init: T) -> (tokio::sync::watch::Sender<T>, tokio::sync::watch::Receiver<T>) {
    tokio::sync::watch::channel(init)
}

/// Relies on tokio::sync::watch::Receiver::borrow: yields a copy of the most
/// recently sent value. Which value that is depends on the sender, so
/// nothing is assumed of the result.
#[verifier::external_body]
pub(crate) fn watch_borrow<T: Clone>(rx: &tokio::sync::watch::Receiver<T>) -> T {
    rx.borrow().clone()
}

/// Relies on tokio::sync::watch::Receiver::clone: a new handle observing the
/// same channel.
pub assume_specification<T>[ <tokio::sync::watch::Receiver<T> as Clone>::clone ](
    rx: &tokio::sync::watch::Receiver<T>,
) -> tokio::sync::watch::Receiver<T>;

} // verus!
