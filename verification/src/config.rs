//! Configuration of the MQTT bridge.
use vstd::prelude::*;

verus! {

broadcast use vstd::string::group_string_axioms;

/// Broker used when `BROKER_URL` is not set.
pub const DEFAULT_BROKER_URL: &'static str = "mqtt://localhost:1883";

/// Configuration from environment variables.
pub struct Config {
    pub broker_url: String,
    pub broker_user: Option<String>,
    pub broker_password: Option<String>,
}

impl Config {
    /// The configuration for the values of `BROKER_URL`, `BROKER_USER_NAME`
    /// and `BROKER_PASSWORD` (`None` where a variable is unset).
    pub fn from_vars(
        broker_url: Option<String>,
        broker_user: Option<String>,
        broker_password: Option<String>,
    ) -> (c: Self)
        ensures
            c.broker_url@ == (match broker_url {
                Some(u) => u@,
                None => DEFAULT_BROKER_URL@,
            }),
            c.broker_user == broker_user,
            c.broker_password == broker_password,
    {
        let url = match broker_url {
            Some(u) => u,
            None => String::from_str(DEFAULT_BROKER_URL),
        };
        Config { broker_url: url, broker_user, broker_password }
    }
}

} // verus!
