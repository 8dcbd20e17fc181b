//! The configuration surface: which unit to watch, whether and where to
//! serve the status page, and how far back to read. Command-line parsing
//! and the external default-lookup live outside the library; the one rule
//! owned here is how an explicit `since` and a looked-up default combine.

use vstd::prelude::*;

verus! {

/// The runtime configuration.
pub struct Config {
    /// The unit identifier of the watched service.
    pub unit: String,
    /// Whether to serve the status page over HTTP.
    pub serve_http: bool,
    /// The port the status page is served on.
    pub port: u16,
    /// How far back to read logs from; `None` asks for the unit's start
    /// date as the default.
    pub since: Option<String>,
}

impl Config {
    /// Fill `since` from a looked-up default: an explicitly configured
    /// value always wins, and a failed lookup (`None`) changes nothing.
    pub fn apply_default_since(&mut self, default: Option<String>)
        ensures
            final(self).unit == old(self).unit,
            final(self).serve_http == old(self).serve_http,
            final(self).port == old(self).port,
            final(self).since == if old(self).since is Some {
                old(self).since
            } else {
                default
            },
    {
        if self.since.is_none() {
            self.since = default;
        }
    }
}

} // verus!
