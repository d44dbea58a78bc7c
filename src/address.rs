use vstd::prelude::*;

verus! {

/// The server that the relay connects to.
pub const SERVER_ADDRESS: &'static str = "ws://100.48.213.255:8080";

#[verifier::external_type_specification]
#[verifier::external_body]
pub struct ExParseError(url::ParseError);

/// The serialization of `s` parsed as an absolute URL, or `None` where it
/// does not parse.
pub uninterp spec fn url_parse(s: Seq<char>) -> Option<Seq<char>>;

/// Relies on `url::Url::parse`: whether `s` is an absolute URL, and its
/// serialization (as `String::from(Url)` gives it) when it is.
#[verifier::external_body]
fn parse_url(s: &str) -> (r: Result<String, url::ParseError>)
    ensures
        match r {
            Ok(u) => url_parse(s@) == Some(u@),
            Err(_) => url_parse(s@) is None,
        },
{
    url::Url::parse(s).map(String::from)
}

/// Why an address cannot be used.
#[derive(Clone, Copy, Debug, PartialEq, Eq, Structural)]
pub enum AddressError {
    /// The address is not an absolute URL.
    Invalid,
}

/// Parses `address` as the URL to connect to, giving its serialization.
pub fn parse_address(address: &str) -> (r: Result<String, AddressError>)
    ensures
        match r {
            Ok(u) => url_parse(address@) == Some(u@),
            Err(e) => url_parse(address@) is None && e == AddressError::Invalid,
        },
{
    match parse_url(address) {
        Ok(u) => Ok(u),
        Err(_) => Err(AddressError::Invalid),
    }
}

/// The URL of the server, parsed from [`SERVER_ADDRESS`].
pub fn server_url() -> (r: Result<String, AddressError>)
    ensures
        match r {
            Ok(u) => url_parse(SERVER_ADDRESS@) == Some(u@),
            Err(e) => url_parse(SERVER_ADDRESS@) is None && e == AddressError::Invalid,
        },
{
    parse_address(SERVER_ADDRESS)
}

} // verus!
