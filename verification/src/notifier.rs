//! Notification of people about events.
use vstd::prelude::*;

verus! {

/// Why a notification could not be delivered.
#[derive(Debug, Clone, PartialEq, Eq)]
pub enum NotifierError {
    /// The destination is not known to the notifier.
    UnknownDestination(String),
    /// The notifier cannot deliver at the moment.
    Unavailable(String),
}

/// Something that can deliver a message to a destination.
pub trait Notifier {
    /// Delivers `message` to `to`.
    fn notify(&self, to: &str, message: &str) -> Result<(), NotifierError>;
}

} // verus!
