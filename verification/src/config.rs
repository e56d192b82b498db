//! Where the gateway is reached: the host and the port, their defaults, and
//! the address that is made of them. The address is checked and normalised by
//! the `url` crate.

use crate::decimal::{decimal, decimal_string};
use vstd::prelude::*;
use vstd::string::*;

verus! {

/// The host and the port of the gateway.
#[derive(Debug, Clone, PartialEq, Eq)]
pub struct Config {
    pub host: String,
    pub port: u16,
}

/// The host that is used where none is configured.
pub open spec fn default_host() -> Seq<char> {
    "127.0.0.1"@
}

/// The port that is used where none is configured.
pub open spec fn default_port() -> u16 {
    10240
}

/// The WebSocket address of the gateway at `host` and `port`.
pub open spec fn endpoint_text(host: Seq<char>, port: u16) -> Seq<char> {
    "ws://"@ + host + ":"@ + decimal(port as nat)
}

impl Default for Config {
    /// The gateway on this machine, at the default port.
    fn default() -> (r: Config)
        ensures
            r.host@ == default_host(),
            r.port == default_port(),
    {
        Config { host: String::from_str("127.0.0.1"), port: 10240 }
    }
}

impl Config {
    /// The WebSocket address of the gateway.
    pub fn endpoint(&self) -> (r: String)
        ensures
            r@ == endpoint_text(self.host@, self.port),
    {
        let address: String = String::from_str("ws://").concat(self.host.as_str());
        let address: String = address.concat(":");
        address.concat(decimal_string(self.port as u64).as_str())
    }
}

/// The error of `url::Url::parse`; the library reads nothing from it.
#[verifier::external_type_specification]
#[verifier::external_body]
pub struct ExUrlError(url::ParseError);

/// What `url::Url::parse` makes of a text: the serialization of the URL that
/// it reads, or nothing where it rejects the text.
pub uninterp spec fn parsed_url(text: Seq<char>) -> Option<Seq<char>>;

/// Calls `url::Url::parse` and takes the URL's serialization out of it.
/// Nothing is claimed of which texts are accepted or of how a URL is
/// normalised: the outcome is a function of the text alone, and `parsed_url`
/// is its name.
#[verifier::external_body]
fn parse_url(text: &str) -> (r: Result<String, url::ParseError>)
    ensures
        r matches Ok(address) ==> parsed_url(text@) == Some(address@),
        r is Err ==> parsed_url(text@) is None,
{
    url::Url::parse(text).map(String::from)
}

/// Why a configuration cannot be used.
#[derive(Debug, Clone, Copy, PartialEq, Eq, Structural)]
pub enum ConfigError {
    /// Host and port do not make a URL.
    InvalidEndpoint,
}

/// The address to connect to, given what the URL parser makes of the
/// endpoint.
pub open spec fn checked_address(parsed: Option<Seq<char>>) -> Result<Seq<char>, ConfigError> {
    match parsed {
        Some(address) => Ok(address),
        None => Err(ConfigError::InvalidEndpoint),
    }
}

/// Decides on the address, given the outcome of parsing the endpoint.
pub fn address_from<E>(parsed: Result<String, E>) -> (r: Result<String, ConfigError>)
    ensures
        parsed matches Ok(address) ==> r == Ok::<String, ConfigError>(address),
        parsed is Err ==> r == Err::<String, ConfigError>(ConfigError::InvalidEndpoint),
{
    match parsed {
        Ok(address) => Ok(address),
        Err(_) => Err(ConfigError::InvalidEndpoint),
    }
}

impl Config {
    /// The address to connect to: the endpoint as the URL parser writes it,
    /// or an error where the endpoint is no URL.
    pub fn address(&self) -> (r: Result<String, ConfigError>)
        ensures
            r is Ok <==> parsed_url(endpoint_text(self.host@, self.port)) is Some,
            r matches Ok(address) ==> parsed_url(endpoint_text(self.host@, self.port)) == Some(
                address@,
            ),
            r matches Err(e) ==> e == ConfigError::InvalidEndpoint,
    {
        let endpoint: String = self.endpoint();
        address_from(parse_url(endpoint.as_str()))
    }
}

} // verus!
