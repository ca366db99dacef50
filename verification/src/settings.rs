//! Application settings, loaded from `APP_`-prefixed environment
//! variables.

use vstd::prelude::*;

use crate::environment::{environment_pairs, lookup, parse_u64, spec_env_value, spec_parse_u64};
use crate::payment_processor::PaymentProcessorKey;

verus! {

/// Why the settings could not be loaded.
#[derive(Clone, Copy, Debug, PartialEq, Eq, Structural)]
pub enum ConfigError {
    /// A required variable is absent.
    MissingKey,
    /// `APP_SERVER_KEEPALIVE` is not a decimal integer that fits `u64`.
    InvalidValue,
}

/// How many payment workers to run when the variable is absent.
pub const DEFAULT_WORKER_COUNT: u64 = 4;

#[derive(Clone, Debug, PartialEq)]
pub struct Config {
    pub redis_url: String,
    pub default_payment_processor_url: String,
    pub fallback_payment_processor_url: String,
    pub server_keepalive: u64,
    pub payment_processor_worker_count: u64,
    pub report_url: Option<String>,
}

impl Config {
    /// Load from this process's environment. The pairs the environment
    /// yields are outside the library; given them, the result is exactly
    /// what `load_from` returns.
    pub fn load() -> (r: Result<Config, ConfigError>) {
        let pairs = environment_pairs("APP");
        Self::load_from(pairs)
    }

    /// Build the settings from raw environment pairs. Each variable is
    /// accepted under its canonical upper-case name or fully lowercased;
    /// the four non-optional variables must be present, and the keepalive
    /// must be a decimal `u64`.
    pub fn load_from(pairs: Vec<(String, String)>) -> (r: Result<Config, ConfigError>)
        ensures
            ({
                let redis = spec_env_value(pairs@, "APP_REDIS_URL"@, "app_redis_url"@);
                let default_url = spec_env_value(
                    pairs@,
                    "APP_DEFAULT_PAYMENT_PROCESSOR_URL"@,
                    "app_default_payment_processor_url"@,
                );
                let fallback_url = spec_env_value(
                    pairs@,
                    "APP_FALLBACK_PAYMENT_PROCESSOR_URL"@,
                    "app_fallback_payment_processor_url"@,
                );
                let keepalive = spec_env_value(
                    pairs@,
                    "APP_SERVER_KEEPALIVE"@,
                    "app_server_keepalive"@,
                );
                let workers = spec_env_value(
                    pairs@,
                    "APP_PAYMENT_PROCESSOR_WORKER_COUNT"@,
                    "app_payment_processor_worker_count"@,
                );
                let report = spec_env_value(pairs@, "APP_REPORT_URL"@, "app_report_url"@);
                match r {
                    Ok(c) => {
                        &&& redis matches Some(v) && c.redis_url@ == v
                        &&& default_url matches Some(v) && c.default_payment_processor_url@ == v
                        &&& fallback_url matches Some(v) && c.fallback_payment_processor_url@ == v
                        &&& keepalive matches Some(v) && spec_parse_u64(v) == Some(
                            c.server_keepalive,
                        )
                        &&& match workers {
                            Some(v) => spec_parse_u64(v) == Some(c.payment_processor_worker_count),
                            None => c.payment_processor_worker_count == DEFAULT_WORKER_COUNT,
                        }
                        &&& match report {
                            Some(v) => c.report_url matches Some(u) && u@ == v,
                            None => c.report_url is None,
                        }
                    },
                    Err(ConfigError::MissingKey) => redis is None || default_url is None
                        || fallback_url is None || keepalive is None,
                    Err(ConfigError::InvalidValue) => (keepalive matches Some(v)
                        && spec_parse_u64(v) is None) || (workers matches Some(v)
                        && spec_parse_u64(v) is None),
                }
            }),
    {
        let redis_url = match lookup(&pairs, "APP_REDIS_URL", "app_redis_url") {
            Some(v) => v,
            None => {
                return Err(ConfigError::MissingKey);
            },
        };
        let default_payment_processor_url = match lookup(
            &pairs,
            "APP_DEFAULT_PAYMENT_PROCESSOR_URL",
            "app_default_payment_processor_url",
        ) {
            Some(v) => v,
            None => {
                return Err(ConfigError::MissingKey);
            },
        };
        let fallback_payment_processor_url = match lookup(
            &pairs,
            "APP_FALLBACK_PAYMENT_PROCESSOR_URL",
            "app_fallback_payment_processor_url",
        ) {
            Some(v) => v,
            None => {
                return Err(ConfigError::MissingKey);
            },
        };
        let keepalive_text = match lookup(&pairs, "APP_SERVER_KEEPALIVE", "app_server_keepalive") {
            Some(v) => v,
            None => {
                return Err(ConfigError::MissingKey);
            },
        };
        let server_keepalive = match parse_u64(keepalive_text.as_str()) {
            Some(v) => v,
            None => {
                return Err(ConfigError::InvalidValue);
            },
        };
        let payment_processor_worker_count = match lookup(
            &pairs,
            "APP_PAYMENT_PROCESSOR_WORKER_COUNT",
            "app_payment_processor_worker_count",
        ) {
            Some(v) => match parse_u64(v.as_str()) {
                Some(n) => n,
                None => {
                    return Err(ConfigError::InvalidValue);
                },
            },
            None => DEFAULT_WORKER_COUNT,
        };
        let report_url = lookup(&pairs, "APP_REPORT_URL", "app_report_url");
        Ok(
            Config {
                redis_url,
                default_payment_processor_url,
                fallback_payment_processor_url,
                server_keepalive,
                payment_processor_worker_count,
                report_url,
            },
        )
    }

    pub fn get_default_key(&self) -> (k: PaymentProcessorKey)
        ensures
            k.name@ == "default"@,
            k.url@ == self.default_payment_processor_url@,
    {
        PaymentProcessorKey::new("default".to_owned(), self.default_payment_processor_url.clone())
    }

    pub fn get_fallback_key(&self) -> (k: PaymentProcessorKey)
        ensures
            k.name@ == "fallback"@,
            k.url@ == self.fallback_payment_processor_url@,
    {
        PaymentProcessorKey::new("fallback".to_owned(), self.fallback_payment_processor_url.clone())
    }

    /// Both processor keys, default first.
    pub fn get_processors_keys(&self) -> (ks: Vec<PaymentProcessorKey>)
        ensures
            ks@.len() == 2,
            ks@[0].name@ == "default"@,
            ks@[0].url@ == self.default_payment_processor_url@,
            ks@[1].name@ == "fallback"@,
            ks@[1].url@ == self.fallback_payment_processor_url@,
    {
        let mut ks: Vec<PaymentProcessorKey> = Vec::new();
        ks.push(self.get_default_key());
        ks.push(self.get_fallback_key());
        ks
    }
}

} // verus!
