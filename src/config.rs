//! Bindings as read from a configuration file: button names mapped to action
//! descriptors. Loading the file is left to the caller; a missing file means
//! an empty configuration.

use vstd::prelude::*;

use std::collections::HashMap;

verus! {

/// Button names mapped to action descriptors.
pub struct Configuration {
    pub actions: HashMap<String, String>,
}

impl Default for Configuration {
    /// An empty configuration.
    fn default() -> (config: Self)
        ensures
            config.actions@ == Map::<String, String>::empty(),
    {
        Configuration { actions: HashMap::new() }
    }
}

} // verus!
