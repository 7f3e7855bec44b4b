//! Configuration values handed to the client at startup.

use vstd::prelude::*;

verus! {

/// Settings read from the user's configuration file. Only the API
/// credential is configurable today.
pub struct Config {
    pub secret: String,
}

impl Default for Config {
    /// A fresh configuration carries an empty credential.
    fn default() -> (r: Config)
        ensures
            r.secret@ == Seq::<char>::empty(),
    {
        Config { secret: String::new() }
    }
}

} // verus!
