//! The processing configuration shared by a whole run.

use vstd::prelude::*;

verus! {

/// Configuration for one traversal run. It is created once, before the
/// traversal starts, and is never changed while the run lasts.
#[derive(Clone, Copy, Debug, PartialEq, Eq, Structural)]
pub struct ProcessingConfig {
    /// Per-channel darkness threshold: a pixel counts as letterbox
    /// padding when all of its color channels are at or below this value.
    pub threshold: u8,
    /// Whether a directory input is descended into recursively.
    pub recursive: bool,
}

/// The error produced when a configuration cannot be constructed.
#[derive(Clone, Copy, Debug, PartialEq, Eq, Structural)]
pub enum ConfigError {
    /// The requested threshold lies outside `[0, 255]`.
    ThresholdOutOfRange { value: i64 },
}

impl ProcessingConfig {
    /// Builds a configuration from a requested threshold and recursion
    /// flag. Every threshold in `[0, 255]` is accepted; any value outside
    /// that range is a construction error, never a runtime one.
    pub fn new(threshold: i64, recursive: bool) -> (r: Result<ProcessingConfig, ConfigError>)
        ensures
            r is Ok <==> 0 <= threshold <= 255,
            r matches Ok(c) ==> c.threshold == threshold && c.recursive == recursive,
            r matches Err(e) ==> e == (ConfigError::ThresholdOutOfRange { value: threshold }),
    {
        if 0 <= threshold && threshold <= 255 {
            Ok(ProcessingConfig { threshold: threshold as u8, recursive })
        } else {
            Err(ConfigError::ThresholdOutOfRange { value: threshold })
        }
    }
}

} // verus!
