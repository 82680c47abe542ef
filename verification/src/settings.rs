//! Runtime settings exchanged with the remote-configuration layer.

use vstd::prelude::*;

verus! {

/// The tuning settings handed to the processing core by the configuration
/// layer. Transport and serialization of the settings belong to that layer,
/// not to the core.
pub struct Settings {
    /// An opaque tuning word.
    pub data: u32,
}

impl Settings {
    /// The default settings used until the configuration layer commits a
    /// change.
    pub fn new() -> (r: Settings)
        ensures
            r.data == 5,
    {
        Settings { data: 5 }
    }
}

} // verus!
