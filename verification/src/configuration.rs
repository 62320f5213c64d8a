//! Settings of a transport: where reports go and how long a request may
//! take.

use crate::types::Level;
use vstd::prelude::*;

verus! {

/// Settings of a transport. They are fixed once the transport is made.
#[derive(Clone, Debug)]
pub struct Configuration {
    /// URL of the collector that reports are posted to.
    pub endpoint: String,
    /// Credential sent with every report.
    pub access_token: Option<String>,
    pub environment: Option<String>,
    pub host: Option<String>,
    pub code_version: Option<String>,
    pub log_level: Level,
    /// Seconds a single request may take.
    pub timeout: u64,
    /// URL of a proxy that all requests go through, if any.
    pub proxy: Option<String>,
}

impl Default for Configuration {
    /// The public collector, no credential, ten seconds per request.
    fn default() -> (configuration: Configuration)
        ensures
            configuration.endpoint@ == "https://api.rollbar.com/api/1/item/"@,
            configuration.access_token is None,
            configuration.environment is None,
            configuration.host is None,
            configuration.code_version is None,
            configuration.log_level == Level::Info,
            configuration.timeout == 10,
            configuration.proxy is None,
    {
        Configuration {
            endpoint: "https://api.rollbar.com/api/1/item/".to_owned(),
            access_token: None,
            environment: None,
            host: None,
            code_version: None,
            log_level: Level::Info,
            timeout: 10,
            proxy: None,
        }
    }
}

/// The settings a client starts with: those read from its settings file
/// if there are any, else the defaults with the access token found in
/// the environment, else none at all.
pub fn initial_configuration(from_file: Option<Configuration>, token: Option<String>) -> (chosen:
    Option<Configuration>)
    ensures
        from_file is Some ==> chosen == from_file,
        from_file is None && token is None ==> chosen is None,
        from_file is None && token is Some ==> ({
            &&& chosen matches Some(c)
            &&& c.access_token == token
            &&& c.endpoint@ == "https://api.rollbar.com/api/1/item/"@
            &&& c.environment is None
            &&& c.host is None
            &&& c.code_version is None
            &&& c.log_level == Level::Info
            &&& c.timeout == 10
            &&& c.proxy is None
        }),
{
    match from_file {
        Some(configuration) => Some(configuration),
        None => match token {
            Some(token) => {
                let mut configuration = Configuration::default();
                configuration.access_token = Some(token);
                Some(configuration)
            },
            None => None,
        },
    }
}

} // verus!
