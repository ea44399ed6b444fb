//! Absolute URLs, as parsed by the `url` crate.

use vstd::prelude::*;

verus! {

/// The parts of an absolute URL: its full text, scheme, host, explicit port
/// (none where it is the scheme's default) and path.
#[derive(Debug, PartialEq)]
pub struct Url {
    pub text: String,
    pub scheme: String,
    pub host: Option<String>,
    pub port: Option<u16>,
    pub path: String,
}

} // verus!

verus! {

/// The text, scheme, host, explicit port and path of a URL.
pub type UrlParts = (Seq<char>, Seq<char>, Option<Seq<char>>, Option<u16>, Seq<char>);

impl Url {
    pub open spec fn parts(&self) -> UrlParts {
        (
            self.text@,
            self.scheme@,
            match self.host {
                Some(h) => Some(h@),
                None => None,
            },
            self.port,
            self.path@,
        )
    }

    /// The absolute URL written in `text`; none where `url::Url::parse` refuses it.
    pub fn parse(text: &str) -> (r: Option<Url>)
        ensures
            r matches Some(u) ==> parsed_url(text@) == Some(u.parts()),
            r is None ==> parsed_url(text@) is None,
    {
        parse_url(text)
    }
}

/// What `url::Url::parse` makes of a text: none where it refuses it.
pub uninterp spec fn parsed_url(text: Seq<char>) -> Option<UrlParts>;

/// Relies on `url::Url::parse` for the WHATWG URL grammar: the result depends on
/// the text alone. Its serialization, scheme, host, port and path are copied over.
#[verifier::external_body]
fn parse_url(text: &str) -> (r: Option<Url>)
    ensures
        r matches Some(u) ==> parsed_url(text@) == Some(u.parts()),
        r is None ==> parsed_url(text@) is None,
{
    match url::Url::parse(text) {
        Ok(u) => Some(
            Url {
                text: u.as_str().to_string(),
                scheme: u.scheme().to_string(),
                host: match u.host_str() {
                    Some(h) => Some(h.to_string()),
                    None => None,
                },
                port: u.port(),
                path: u.path().to_string(),
            },
        ),
        Err(_) => None,
    }
}

} // verus!
