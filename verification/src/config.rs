//! Service configuration, fixed at startup and immutable afterwards. The
//! embedding program reads the raw environment values once and hands them
//! in; absent values fall back to the defaults the service ships with.

use vstd::prelude::*;

verus! {

/// The configuration the service starts with.
#[derive(Clone)]
pub struct Config {
    /// Initial value of the health flag.
    pub healthcheck_on: bool,
    /// Whether the logger endpoint is announced as active.
    pub logger_on: bool,
    /// Base path prefix of the HTTP surface.
    pub path: String,
    /// Port the transport binds to, kept as text.
    pub port: String,
    /// Stamp suffix appended to the version string.
    pub stamp: String,
}

impl Config {
    /// Build the configuration from the raw environment values, `None`
    /// standing for an unset variable. The base path defaults to `/dcr`,
    /// the port to `28657` and the stamp to the empty string; the health
    /// and logger switches are on exactly while their variables are unset
    /// — setting one, to any value, turns the switch off.
    pub fn new(
        path: Option<String>,
        port: Option<String>,
        stamp: Option<String>,
        healthcheck: Option<String>,
        logger: Option<String>,
    ) -> (c: Config)
        ensures
            c.path@ == (match path {
                Some(p) => p@,
                None => "/dcr"@,
            }),
            c.port@ == (match port {
                Some(p) => p@,
                None => "28657"@,
            }),
            c.stamp@ == (match stamp {
                Some(s) => s@,
                None => Seq::<char>::empty(),
            }),
            c.healthcheck_on == (healthcheck is None),
            c.logger_on == (logger is None),
    {
        let healthcheck_on = match healthcheck {
            Some(_) => false,
            None => true,
        };
        let logger_on = match logger {
            Some(_) => false,
            None => true,
        };
        Config {
            healthcheck_on,
            logger_on,
            path: match path {
                Some(p) => p,
                None => "/dcr".to_owned(),
            },
            port: match port {
                Some(p) => p,
                None => "28657".to_owned(),
            },
            stamp: match stamp {
                Some(s) => s,
                None => String::new(),
            },
        }
    }
}

} // verus!
