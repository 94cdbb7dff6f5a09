//! The client's configuration: where the exchange lives and which API
//! version to speak.
use vstd::prelude::*;

verus! {

/// Whether the `url` crate parses the text as an absolute URL.
pub uninterp spec fn url_parses(s: Seq<char>) -> bool;

/// Relies on `url::Url::parse`, which returns `Ok` exactly when it can parse
/// an absolute URL from the text.
#[verifier::external_body]
fn is_absolute_url(s: &str) -> (r: bool)
    ensures
        r == url_parses(s@),
{
    url::Url::parse(s).is_ok()
}

/// The API version used when the configuration names none.
pub open spec fn spec_default_api_version() -> Seq<char> {
    "v2"@
}

/// The API version used when the configuration names none.
pub fn default_api_version() -> (r: String)
    ensures
        r@ == spec_default_api_version(),
{
    String::from_str("v2")
}

/// Why a configuration was refused.
#[derive(Debug, Clone, Copy, PartialEq, Eq, Structural)]
pub enum ConfigError {
    /// The base URL is not an absolute URL.
    InvalidBaseUrl,
    /// The API version is the empty string.
    EmptyApiVersion,
}

/// Settings of the REST client. Only `base_url` and `version` are read by
/// the client; the rest is carried for callers.
#[derive(Debug)]
pub struct ApiConfig {
    pub base_url: String,
    pub version: String,
    pub rate_limit_sec: u16,
    pub rate_limit_min: u16,
    pub timeout_ms: u16,
    pub client_id: Option<String>,
    pub client_secret: Option<String>,
}

/// A copy of an optional text.
fn copy_text(o: &Option<String>) -> (r: Option<String>)
    ensures
        r == *o,
{
    match o {
        Some(s) => Some(s.clone()),
        None => None,
    }
}

impl ApiConfig {
    /// The base URL is absolute and the version is not empty.
    pub open spec fn wf(&self) -> bool {
        url_parses(self.base_url@) && self.version@.len() > 0
    }

    /// Builds a configuration; a missing version becomes the default one.
    /// Fails when the base URL is not absolute or the version is empty.
    pub fn new(
        base_url: String,
        version: Option<String>,
        rate_limit_sec: u16,
        rate_limit_min: u16,
        timeout_ms: u16,
        client_id: Option<String>,
        client_secret: Option<String>,
    ) -> (r: Result<ApiConfig, ConfigError>)
        ensures
            !url_parses(base_url@) ==> r == Err::<ApiConfig, ConfigError>(
                ConfigError::InvalidBaseUrl,
            ),
            url_parses(base_url@) && version is Some && version->Some_0@.len() == 0 ==> r
                == Err::<ApiConfig, ConfigError>(ConfigError::EmptyApiVersion),
            url_parses(base_url@) && !(version is Some && version->Some_0@.len() == 0) ==> {
                &&& r is Ok
                &&& r->Ok_0.wf()
                &&& r->Ok_0.base_url == base_url
                &&& r->Ok_0.version@ == match version {
                    Some(v) => v@,
                    None => spec_default_api_version(),
                }
                &&& r->Ok_0.rate_limit_sec == rate_limit_sec
                &&& r->Ok_0.rate_limit_min == rate_limit_min
                &&& r->Ok_0.timeout_ms == timeout_ms
                &&& r->Ok_0.client_id == client_id
                &&& r->Ok_0.client_secret == client_secret
            },
    {
        if !is_absolute_url(base_url.as_str()) {
            return Err(ConfigError::InvalidBaseUrl);
        }
        let version = match version {
            Some(v) => v,
            None => {
                proof {
                    reveal_strlit("v2");
                }
                default_api_version()
            },
        };
        if version.as_str().is_empty() {
            return Err(ConfigError::EmptyApiVersion);
        }
        Ok(ApiConfig {
            base_url,
            version,
            rate_limit_sec,
            rate_limit_min,
            timeout_ms,
            client_id,
            client_secret,
        })
    }

    /// A field-for-field copy.
    pub fn duplicate(&self) -> (r: ApiConfig)
        ensures
            r == *self,
    {
        ApiConfig {
            base_url: self.base_url.clone(),
            version: self.version.clone(),
            rate_limit_sec: self.rate_limit_sec,
            rate_limit_min: self.rate_limit_min,
            timeout_ms: self.timeout_ms,
            client_id: copy_text(&self.client_id),
            client_secret: copy_text(&self.client_secret),
        }
    }
}

} // verus!
