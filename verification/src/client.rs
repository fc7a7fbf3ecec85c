//! The client and its builder.

use crate::error::{ErrorModel, TwcError};
use crate::ClientConfig;
use std::time::Duration;
use vstd::prelude::*;
use vstd::string::*;

verus! {

/// The duration of `secs` whole seconds, as `Duration::from_secs` makes it.
pub uninterp spec fn duration_from_secs(secs: u64) -> Duration;

/// `Duration::from_secs` of std: the duration depends on the number of
/// seconds alone, so it goes by the name [`duration_from_secs`].
pub assume_specification[ Duration::from_secs ](secs: u64) -> (d: Duration)
    ensures
        d == duration_from_secs(secs),
;

/// `Clone` of std's `Duration`, a `Copy` type: the clone is the duration itself.
pub assume_specification[ <Duration as Clone>::clone ](d: &Duration) -> (r: Duration)
    ensures
        r == *d,
;

/// A client of the service: the configuration that every request is built from.
#[derive(Clone, Debug)]
pub struct CloudAIClient {
    pub(crate) config: ClientConfig,
}

/// Collects the settings of a client.
#[derive(Debug)]
pub struct ClientBuilder {
    base_url: Option<String>,
    token: Option<String>,
    timeout: Option<Duration>,
}

/// The settings that a builder holds.
pub struct BuilderModel {
    /// The base address, if it is set.
    pub base_url: Option<Seq<char>>,
    /// The token, if it is set.
    pub token: Option<Seq<char>>,
    /// The time allowed for one request, if it is set.
    pub timeout: Option<Duration>,
}

/// The address of the production service, which a builder starts with.
pub open spec fn default_base_url() -> Seq<char> {
    "https://agent.timeweb.cloud"@
}

/// The time allowed for one request where none is set: 120 seconds.
pub open spec fn default_timeout() -> Duration {
    duration_from_secs(120)
}

impl View for ClientBuilder {
    type V = BuilderModel;

    closed spec fn view(&self) -> BuilderModel {
        BuilderModel {
            base_url: match self.base_url {
                Some(s) => Some(s@),
                None => None,
            },
            token: match self.token {
                Some(s) => Some(s@),
                None => None,
            },
            timeout: self.timeout,
        }
    }
}

impl Default for ClientBuilder {
    /// The production address, no token, 120 seconds for a request.
    fn default() -> (b: ClientBuilder)
        ensures
            b@ == (BuilderModel {
                base_url: Some(default_base_url()),
                token: None,
                timeout: Some(default_timeout()),
            }),
    {
        ClientBuilder {
            base_url: Some(String::from_str("https://agent.timeweb.cloud")),
            token: None,
            timeout: Some(Duration::from_secs(120)),
        }
    }
}

impl ClientBuilder {
    /// A builder with the production address, no token and 120 seconds for a request.
    pub fn new() -> (b: ClientBuilder)
        ensures
            b@ == (BuilderModel {
                base_url: Some(default_base_url()),
                token: None,
                timeout: Some(default_timeout()),
            }),
    {
        ClientBuilder {
            base_url: Some(String::from_str("https://agent.timeweb.cloud")),
            token: None,
            timeout: Some(Duration::from_secs(120)),
        }
    }

    /// Sets the base address.
    pub fn base_url(self, url: &str) -> (b: ClientBuilder)
        ensures
            b@ == (BuilderModel { base_url: Some(url@), ..self@ }),
    {
        ClientBuilder {
            base_url: Some(String::from_str(url)),
            token: self.token,
            timeout: self.timeout,
        }
    }

    /// Sets the token.
    pub fn token(self, token: &str) -> (b: ClientBuilder)
        ensures
            b@ == (BuilderModel { token: Some(token@), ..self@ }),
    {
        ClientBuilder {
            base_url: self.base_url,
            token: Some(String::from_str(token)),
            timeout: self.timeout,
        }
    }

    /// Sets the time allowed for one request.
    pub fn timeout(self, duration: Duration) -> (b: ClientBuilder)
        ensures
            b@ == (BuilderModel { timeout: Some(duration), ..self@ }),
    {
        ClientBuilder { base_url: self.base_url, token: self.token, timeout: Some(duration) }
    }

    /// Builds the client. It fails, before anything is sent, where the base
    /// address or the token is missing; the address is looked at first. A
    /// missing timeout is 120 seconds.
    pub fn build(self) -> (r: Result<CloudAIClient, TwcError>)
        ensures
            match r {
                Ok(client) => {
                    &&& self@.base_url == Some(client.config().base_url@)
                    &&& self@.token == Some(client.config().token@)
                    &&& client.config().timeout == match self@.timeout {
                        Some(t) => t,
                        None => default_timeout(),
                    }
                },
                Err(e) => if self@.base_url is None {
                    e@ == ErrorModel::Configuration("Base URL is required"@)
                } else {
                    self@.token is None && e@ == ErrorModel::Configuration("Token is required"@)
                },
            },
    {
        let base_url = match self.base_url {
            Some(url) => url,
            None => {
                return Err(TwcError::Configuration(String::from_str("Base URL is required")));
            },
        };
        let token = match self.token {
            Some(token) => token,
            None => {
                return Err(TwcError::Configuration(String::from_str("Token is required")));
            },
        };
        let timeout = match self.timeout {
            Some(t) => t,
            None => Duration::from_secs(120),
        };
        Ok(CloudAIClient { config: ClientConfig { base_url, token, timeout } })
    }
}

impl CloudAIClient {
    /// A builder for a client.
    pub fn builder() -> (b: ClientBuilder)
        ensures
            b@ == (BuilderModel {
                base_url: Some(default_base_url()),
                token: None,
                timeout: Some(default_timeout()),
            }),
    {
        ClientBuilder::new()
    }

    /// Builds a client from the values of the variables `TWCAI_BASE_URL` and
    /// `TWCAI_API_TOKEN`, each absent where the variable is not set. A missing
    /// address is the production address; a missing token is a failure.
    pub fn from_env_values(base_url: Option<String>, token: Option<String>) -> (r: Result<
        CloudAIClient,
        TwcError,
    >)
        ensures
            match r {
                Ok(client) => {
                    &&& token matches Some(t) && client.config().token@ == t@
                    &&& client.config().base_url@ == match base_url {
                        Some(url) => url@,
                        None => default_base_url(),
                    }
                    &&& client.config().timeout == default_timeout()
                },
                Err(e) => token is None && e@ == ErrorModel::Configuration(
                    "TWCAI_API_TOKEN environment variable not set"@,
                ),
            },
    {
        let base_url = match base_url {
            Some(url) => url,
            None => String::from_str("https://agent.timeweb.cloud"),
        };
        let token = match token {
            Some(token) => token,
            None => {
                return Err(
                    TwcError::Configuration(
                        String::from_str("TWCAI_API_TOKEN environment variable not set"),
                    ),
                );
            },
        };
        CloudAIClient::builder().base_url(base_url.as_str()).token(token.as_str()).build()
    }

    /// The configuration of the client.
    pub closed spec fn spec_config(&self) -> &ClientConfig {
        &self.config
    }

    /// The configuration of the client.
    #[verifier::when_used_as_spec(spec_config)]
    pub fn config(&self) -> (c: &ClientConfig)
        ensures
            c == self.config(),
    {
        &self.config
    }
}

} // verus!
