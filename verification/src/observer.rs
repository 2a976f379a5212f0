//! The observer: classification of raw identifiers, the registry of watched
//! resources, change detection and the polling pass.

pub mod detector;
pub mod git;
pub mod laws;
pub mod path;
pub mod registry;
pub mod text;

pub use self::detector::{DetectorError, PollOutcome, WatchedResource};
pub use self::path::Path;
pub use self::registry::{GenericObserver, ObsCommand, ObsError, ObsResult, Observer};
