//! Startup configuration: the server's listen address and the upstream base
//! URL, with the defaults and the validation applied to the raw environment
//! values. Reading the environment itself happens outside the library.

use vstd::prelude::*;
use crate::error::AppError;
use crate::text::{
    all_decimal_digits, decimal_of, decimal_value, digits_part, parse_u16, push_decimal_u16,
};

verus! {

/// Whether a string parses as an absolute URL.
pub uninterp spec fn url_parse_ok(s: Seq<char>) -> bool;

/// Relies on `url::Url::parse`: whether a string parses as an absolute URL is
/// a function of the string alone.
#[verifier::external_body]
fn is_well_formed_url(s: &str) -> (r: bool)
    ensures
        r == url_parse_ok(s@),
{
    url::Url::parse(s).is_ok()
}

/// The official upstream root, used when no base URL is configured.
pub open spec fn default_remote_base() -> Seq<char> {
    "https://monster-siren.hypergryph.com/api"@
}

/// The official upstream root as a string.
pub fn default_remote_base_str() -> (r: String)
    ensures
        r@ == default_remote_base(),
{
    "https://monster-siren.hypergryph.com/api".to_owned()
}

/// Strings accepted as a listen port: one optional leading `'+'`, then a
/// nonempty run of decimal digits whose value is at most the largest port
/// number.
pub open spec fn valid_port_string(p: Seq<char>) -> bool {
    digits_part(p).len() > 0 && all_decimal_digits(digits_part(p)) && decimal_value(digits_part(p))
        <= u16::MAX
}

/// The listen address for a port: every interface, the port in decimal.
pub open spec fn server_addr_of(port: u16) -> Seq<char> {
    "0.0.0.0:"@ + decimal_of(port as nat)
}

/// What the server needs to run: its listen port and the upstream base URL.
#[derive(Debug, Clone)]
pub struct Config {
    pub server_port: u16,
    pub remote_base: String,
}

impl Config {
    /// The address the server listens on.
    pub fn server_addr(&self) -> (r: String)
        ensures
            r@ == server_addr_of(self.server_port),
    {
        let mut out = "0.0.0.0:".to_owned();
        push_decimal_u16(&mut out, self.server_port);
        out
    }

    /// Builds the configuration from the raw environment values: a missing
    /// port means 8080, a missing base URL means the official root, an
    /// unparsable port or a malformed base URL is a configuration error.
    pub fn from_parts(port: Option<String>, base: Option<String>) -> (r: Result<Config, AppError>)
        ensures
            ({
                let port_ok = match port {
                    Option::None => true,
                    Option::Some(p) => valid_port_string(p@),
                };
                let port_value: nat = match port {
                    Option::None => 8080,
                    Option::Some(p) => decimal_value(digits_part(p@)),
                };
                let base_chars = match base {
                    Option::None => default_remote_base(),
                    Option::Some(b) => b@,
                };
                &&& (port_ok && url_parse_ok(base_chars)) ==> (r matches Ok(c) && c.server_port
                    as nat == port_value && c.remote_base@ == base_chars)
                &&& !port_ok ==> (r matches Err(e) && e matches AppError::Config(m) && m@
                    == "SERVER_PORT must be a valid port number"@)
                &&& (port_ok && !url_parse_ok(base_chars)) ==> (r matches Err(e) && e
                    matches AppError::Config(m) && m@ == "REMOTE_BASE must be a well-formed URL"@)
            }),
    {
        let server_port: u16 = if let Some(p) = &port {
            match parse_u16(p.as_str()) {
                Some(v) => v,
                None => {
                    return Err(
                        AppError::Config("SERVER_PORT must be a valid port number".to_owned()),
                    );
                },
            }
        } else {
            8080
        };
        let remote_base: String = match base {
            Some(b) => b,
            None => default_remote_base_str(),
        };
        if !is_well_formed_url(remote_base.as_str()) {
            return Err(AppError::Config("REMOTE_BASE must be a well-formed URL".to_owned()));
        }
        Ok(Config { server_port, remote_base })
    }
}

} // verus!
