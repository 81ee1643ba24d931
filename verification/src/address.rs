//! The connection address `obsws://hostname:port/password`.

use crate::command::{ObsWebsocket, ObsWebsocketView};
use vstd::prelude::*;

verus! {

/// The components of a URL that an address is read from.
pub struct UrlParts {
    pub scheme: String,
    pub host: Option<String>,
    pub port: Option<u16>,
    pub path: String,
}

/// [`UrlParts`] as plain values.
pub struct UrlPartsView {
    pub scheme: Seq<char>,
    pub host: Option<Seq<char>>,
    pub port: Option<u16>,
    pub path: Seq<char>,
}

impl View for UrlParts {
    type V = UrlPartsView;

    open spec fn view(&self) -> UrlPartsView {
        UrlPartsView {
            scheme: self.scheme@,
            host: self.host.deep_view(),
            port: self.port,
            path: self.path@,
        }
    }
}

/// What `url::Url::parse` makes of a string: the components of the URL it
/// returns, or `None` where it returns an error.
pub uninterp spec fn parsed_url(input: Seq<char>) -> Option<UrlPartsView>;

/// Calls `url::Url::parse` on `input` and, where it gives a URL, copies out
/// what `scheme()`, `host()` formatted by `to_string`, `port()` and `path()`
/// give for it. The contract claims one thing of that parser, unproved:
/// that the outcome depends on the input alone, so that [`parsed_url`] can
/// name it.
#[verifier::external_body]
fn split_url(input: &str) -> (parts: Option<UrlParts>)
    ensures
        match parts {
            Some(p) => parsed_url(input@) == Some(p@),
            None => parsed_url(input@) is None,
        },
{
    match url::Url::parse(input) {
        Ok(u) => Some(
            UrlParts {
                scheme: u.scheme().to_string(),
                host: u.host().map(|h| h.to_string()),
                port: u.port(),
                path: u.path().to_string(),
            },
        ),
        Err(_) => None,
    }
}

/// The scheme that every address carries.
pub open spec fn scheme_text() -> Seq<char> {
    "obsws"@
}

/// The message for a string that is no URL of the `obsws` scheme.
pub open spec fn invalid_format_text() -> Seq<char> {
    "Invalid URL format, use the format obsws://hostname:port/password"@
}

/// The message for a URL that names no port.
pub open spec fn missing_port_text() -> Seq<char> {
    "Please specify a port in the format obsws://hostname:port/password"@
}

/// The credential that a URL path stands for: none for the empty path,
/// else the path without its first character.
pub open spec fn credential_of(path: Seq<char>) -> Option<Seq<char>> {
    if path.len() == 0 {
        None
    } else {
        Some(path.subrange(1, path.len() as int))
    }
}

/// The address that the components of a URL denote, or the message that
/// says why they denote none.
pub open spec fn address_of(parts: UrlPartsView) -> Result<ObsWebsocketView, Seq<char>> {
    if parts.scheme != scheme_text() {
        Err(invalid_format_text())
    } else if parts.port is None {
        Err(missing_port_text())
    } else if parts.host is None {
        Err(invalid_format_text())
    } else {
        Ok(
            ObsWebsocketView {
                hostname: parts.host->0,
                port: parts.port->0,
                password: credential_of(parts.path),
            },
        )
    }
}

/// The address that a parsed string denotes; a string that is no URL denotes
/// none.
pub open spec fn address_from(parsed: Option<UrlPartsView>) -> Result<
    ObsWebsocketView,
    Seq<char>,
> {
    match parsed {
        Some(parts) => address_of(parts),
        None => Err(invalid_format_text()),
    }
}

/// Whether `outcome` is `expected`, success or message, value for value.
pub open spec fn address_matches(
    outcome: Result<ObsWebsocket, &'static str>,
    expected: Result<ObsWebsocketView, Seq<char>>,
) -> bool {
    match outcome {
        Ok(address) => expected == Ok::<ObsWebsocketView, Seq<char>>(address@),
        Err(message) => expected == Err::<ObsWebsocketView, Seq<char>>(message@),
    }
}

/// The credential carried by a URL path.
pub fn credential(path: &str) -> (password: Option<String>)
    ensures
        password.deep_view() == credential_of(path@),
{
    let n: usize = path.unicode_len();
    if n == 0 {
        None
    } else {
        Some(String::from_str(path.substring_char(1, n)))
    }
}

impl ObsWebsocket {
    /// Reads an address off the components of a URL.
    ///
    /// The scheme must be `obsws` and a port must be given. A URL without a
    /// host has no port either and is turned down for that; components with
    /// a port and no host are not of the format.
    pub fn from_parts(parts: UrlParts) -> (outcome: Result<ObsWebsocket, &'static str>)
        ensures
            address_matches(outcome, address_of(parts@)),
    {
        if parts.scheme != String::from_str("obsws") {
            return Err("Invalid URL format, use the format obsws://hostname:port/password");
        }
        let port: u16 = match parts.port {
            Some(port) => port,
            None => {
                return Err("Please specify a port in the format obsws://hostname:port/password");
            },
        };
        let hostname: String = match parts.host {
            Some(host) => host,
            None => {
                return Err("Invalid URL format, use the format obsws://hostname:port/password");
            },
        };
        let password = credential(parts.path.as_str());
        Ok(ObsWebsocket { hostname, port, password })
    }
}

impl std::str::FromStr for ObsWebsocket {
    type Err = &'static str;

    /// Reads an address of the form `obsws://hostname:port/password`: the
    /// string is parsed as a URL, and the address is read off its
    /// components as [`ObsWebsocket::from_parts`] does. A string that is no
    /// URL gets the message on the format.
    fn from_str(s: &str) -> (outcome: Result<ObsWebsocket, &'static str>)
        ensures
            address_matches(outcome, address_from(parsed_url(s@))),
    {
        match split_url(s) {
            Some(parts) => ObsWebsocket::from_parts(parts),
            None => Err("Invalid URL format, use the format obsws://hostname:port/password"),
        }
    }
}

} // verus!
