use vstd::prelude::*;

verus! {

/// What this library reads of a parsed URL: its serialization, its host when
/// that host is a domain name, and its path.
pub type UrlView = (Seq<char>, Option<Seq<char>>, Seq<char>);

/// What `url::Url::parse` makes of a string: `None` where it is not an
/// absolute URL, else the serialization, domain host and path of the result.
pub uninterp spec fn url_parse(s: Seq<char>) -> Option<UrlView>;

pub open spec fn opt_view(o: Option<String>) -> Option<Seq<char>> {
    match o {
        Some(s) => Some(s@),
        None => None,
    }
}

/// A URL that has been parsed, held as plain strings.
#[derive(Debug, Clone, PartialEq, Eq)]
pub struct ParsedUrl {
    /// The whole URL as the parser serializes it.
    pub serialization: String,
    /// The host, where it is a domain name (not an IP address, not absent).
    pub domain: Option<String>,
    /// The path, without query or fragment.
    pub path: String,
}

impl View for ParsedUrl {
    type V = UrlView;

    open spec fn view(&self) -> UrlView {
        (self.serialization@, opt_view(self.domain), self.path@)
    }
}

/// Relies on `url::Url::parse` to parse an absolute URL, and on its
/// `as_str`, `host` and `path` to read the serialization, the domain host and
/// the path of the result.
#[verifier::external_body]
fn parse_with_url_crate(s: &str) -> (r: Result<ParsedUrl, url::ParseError>)
    ensures
        match r {
            Ok(p) => url_parse(s@) == Some(p@),
            Err(_) => url_parse(s@) is None,
        },
{
    match url::Url::parse(s) {
        Ok(u) => Ok(ParsedUrl {
            serialization: u.as_str().to_string(),
            domain: match u.host() {
                Some(url::Host::Domain(d)) => Some(d.to_string()),
                _ => None,
            },
            path: u.path().to_string(),
        }),
        Err(e) => Err(e),
    }
}

#[verifier::external_type_specification]
#[verifier::external_body]
pub struct ExParseError(url::ParseError);

impl ParsedUrl {
    /// Parses `s` as an absolute URL; `None` where it is not one.
    pub fn parse(s: &str) -> (r: Option<ParsedUrl>)
        ensures
            match r {
                Some(p) => url_parse(s@) == Some(p@),
                None => url_parse(s@) is None,
            },
    {
        match parse_with_url_crate(s) {
            Ok(p) => Some(p),
            Err(_) => None,
        }
    }
}

/// The streaming provider a URL belongs to.
#[derive(Debug, Clone, Copy, PartialEq, Eq, Structural)]
pub enum UrlKind {
    Youtube,
    Twitch,
    Other,
}

/// Classification by exact, case-sensitive match of the domain host:
/// subdomains such as `www.twitch.tv` and URLs without a domain host are
/// `Other`. Path and query play no part.
pub open spec fn classify_host(domain: Option<Seq<char>>) -> UrlKind {
    match domain {
        Some(h) => if h == "youtube.com"@ {
            UrlKind::Youtube
        } else if h == "twitch.tv"@ {
            UrlKind::Twitch
        } else {
            UrlKind::Other
        },
        None => UrlKind::Other,
    }
}

impl UrlKind {
    /// The provider of `url`, from its domain host alone.
    pub fn from_url(url: &ParsedUrl) -> (r: UrlKind)
        ensures
            r == classify_host(url@.1),
    {
        match &url.domain {
            Some(h) => {
                if h.eq(&String::from_str("youtube.com")) {
                    UrlKind::Youtube
                } else if h.eq(&String::from_str("twitch.tv")) {
                    UrlKind::Twitch
                } else {
                    UrlKind::Other
                }
            },
            None => UrlKind::Other,
        }
    }
}

} // verus!
