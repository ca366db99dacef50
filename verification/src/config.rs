//! The minimal configuration surface: the settings without the optional
//! report location.

use vstd::prelude::*;

use crate::settings;
use crate::settings::ConfigError;

verus! {

#[derive(Clone, Debug, PartialEq)]
pub struct Config {
    pub redis_url: String,
    pub default_payment_processor_url: String,
    pub fallback_payment_processor_url: String,
    pub server_keepalive: u64,
}

impl Config {
    /// Load from this process's environment: the full settings with the
    /// optional report location dropped.
    pub fn load() -> (r: Result<Config, ConfigError>) {
        match settings::Config::load() {
            Ok(c) => Ok(
                Config {
                    redis_url: c.redis_url,
                    default_payment_processor_url: c.default_payment_processor_url,
                    fallback_payment_processor_url: c.fallback_payment_processor_url,
                    server_keepalive: c.server_keepalive,
                },
            ),
            Err(e) => Err(e),
        }
    }
}

} // verus!
