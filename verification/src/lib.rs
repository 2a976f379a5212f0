//! Watches version-control repositories for changes of their current commit.
//!
//! [`observer`] holds the registry of watched repositories, the change
//! detector and the polling pass; [`dispatcher`] frames the notification that
//! is sent for each detected change.

pub mod dispatcher;
pub mod observer;
