use vstd::prelude::*;
use crate::parsed_url::{ParsedUrl, UrlKind, UrlView, classify_host, url_parse};
use crate::path::{opt_str_view, path_piece, piece};

verus! {

/// Why a string or a URL was not accepted as a stream.
#[derive(Debug, Clone, PartialEq, Eq)]
pub enum UrlError {
    /// The string (held here) is not an absolute URL.
    Malformed(String),
    /// The URL (its serialization held here) belongs to no known provider.
    NonStream(String),
}

/// The external probe could not be launched at all.
#[derive(Debug, Clone, PartialEq, Eq)]
pub struct ProbeError {
    pub message: String,
}

/// Whether a stream is live, as one probe found it.
#[derive(Debug, Clone, Copy, PartialEq, Eq, Structural)]
pub enum StreamStatus {
    Online,
    Offline,
}

/// A probe whose process exited with success found the stream online.
pub open spec fn status_of_exit(success: bool) -> StreamStatus {
    if success {
        StreamStatus::Online
    } else {
        StreamStatus::Offline
    }
}

/// The status that a probe's outcome gives, its launch error kept.
pub open spec fn status_or_error(outcome: Result<bool, ProbeError>) -> Result<
    StreamStatus,
    ProbeError,
> {
    match outcome {
        Ok(success) => Ok(status_of_exit(success)),
        Err(e) => Err(e),
    }
}

/// A probe that could not be launched counts as offline.
pub open spec fn status_or_offline(outcome: Result<bool, ProbeError>) -> StreamStatus {
    match outcome {
        Ok(success) => status_of_exit(success),
        Err(_) => StreamStatus::Offline,
    }
}

pub open spec fn status_text(s: StreamStatus) -> Seq<char> {
    match s {
        StreamStatus::Online => "online"@,
        StreamStatus::Offline => "offline"@,
    }
}

impl StreamStatus {
    /// The status that a probe exiting with `success` reports.
    pub fn from_exit(success: bool) -> (r: StreamStatus)
        ensures
            r == status_of_exit(success),
    {
        if success {
            StreamStatus::Online
        } else {
            StreamStatus::Offline
        }
    }

    /// `online` or `offline`.
    pub fn to_string(&self) -> (r: String)
        ensures
            r@ == status_text(*self),
    {
        match self {
            StreamStatus::Online => String::from_str("online"),
            StreamStatus::Offline => String::from_str("offline"),
        }
    }
}

/// What this library knows of a stream: its URL and its provider.
pub type StreamView = (UrlView, UrlKind);

pub open spec fn accepts_url(u: UrlView) -> bool {
    classify_host(u.1) != UrlKind::Other
}

pub open spec fn accepts_string(s: Seq<char>) -> bool {
    match url_parse(s) {
        Some(u) => accepts_url(u),
        None => false,
    }
}

pub open spec fn stream_of_url(u: UrlView) -> StreamView {
    (u, classify_host(u.1))
}

/// The stream that a string accepted by `accepts_string` makes.
pub open spec fn stream_of_string(s: Seq<char>) -> StreamView {
    stream_of_url(url_parse(s).unwrap())
}

/// How a stream is shown: its full URL.
pub open spec fn display_of(v: StreamView) -> Seq<char> {
    v.0.0
}

/// `e` is the error that the URL `u` is refused with.
pub open spec fn is_url_error(e: UrlError, u: UrlView) -> bool {
    match e {
        UrlError::NonStream(m) => m@ == u.0,
        UrlError::Malformed(_) => false,
    }
}

/// `e` is the error that the string `s` is refused with.
pub open spec fn is_string_error(e: UrlError, s: Seq<char>) -> bool {
    match url_parse(s) {
        None => match e {
            UrlError::Malformed(m) => m@ == s,
            UrlError::NonStream(_) => false,
        },
        Some(u) => is_url_error(e, u),
    }
}

/// The display name of a stream of `kind` whose URL has path `p`: the first
/// path piece for Twitch; for YouTube the second where the first is `user`,
/// else the first.
pub open spec fn stream_name(kind: UrlKind, p: Seq<char>) -> Option<Seq<char>> {
    match kind {
        UrlKind::Twitch => path_piece(p, 0),
        UrlKind::Youtube => match path_piece(p, 0) {
            Some(first) => if first == "user"@ {
                path_piece(p, 1)
            } else {
                Some(first)
            },
            None => None,
        },
        UrlKind::Other => None,
    }
}

/// A stream of a known provider at a given URL.
#[derive(Debug, PartialEq)]
pub struct Stream {
    url: ParsedUrl,
    kind: UrlKind,
}

impl View for Stream {
    type V = StreamView;

    closed spec fn view(&self) -> StreamView {
        (self.url@, self.kind)
    }
}

impl Stream {
    #[verifier::type_invariant]
    spec fn known_provider(&self) -> bool {
        &&& self.kind == classify_host(self.url@.1)
        &&& self.kind != UrlKind::Other
    }

    /// A stream at `url`, refused with `NonStream` where its host is no
    /// known provider.
    pub fn from_url(url: ParsedUrl) -> (r: Result<Stream, UrlError>)
        ensures
            r is Ok <==> accepts_url(url@),
            r matches Ok(s) ==> s@ == stream_of_url(url@),
            r matches Err(e) ==> is_url_error(e, url@),
    {
        let kind = UrlKind::from_url(&url);
        match kind {
            UrlKind::Other => Err(UrlError::NonStream(url.serialization)),
            _ => Ok(Stream { url, kind }),
        }
    }

    /// A stream at the URL that `s` holds: `Malformed` where `s` is not an
    /// absolute URL, `NonStream` where its host is no known provider.
    pub fn from_string(s: String) -> (r: Result<Stream, UrlError>)
        ensures
            r is Ok <==> accepts_string(s@),
            r matches Ok(st) ==> st@ == stream_of_string(s@),
            r matches Err(e) ==> is_string_error(e, s@),
    {
        match ParsedUrl::parse(s.as_str()) {
            Some(url) => Stream::from_url(url),
            None => Err(UrlError::Malformed(s)),
        }
    }

    /// The channel name that the URL's path gives.
    pub fn name(&self) -> (r: Option<&str>)
        ensures
            opt_str_view(r) == stream_name(self@.1, self@.0.2),
    {
        let path = self.url.path.as_str();
        match self.kind {
            UrlKind::Twitch => piece(path, 0),
            UrlKind::Youtube => match piece(path, 0) {
                Some(first) => {
                    if String::from_str(first).eq(&String::from_str("user")) {
                        piece(path, 1)
                    } else {
                        Some(first)
                    }
                },
                None => None,
            },
            UrlKind::Other => None,
        }
    }

    /// The provider of this stream: the classification of its URL, never
    /// `Other`.
    pub fn kind(&self) -> (r: UrlKind)
        ensures
            r == self@.1,
            r == classify_host(self@.0.1),
            r != UrlKind::Other,
    {
        proof {
            use_type_invariant(self);
        }
        self.kind
    }

    /// The URL of this stream, as parsed.
    pub fn url(&self) -> (r: &ParsedUrl)
        ensures
            r@ == self@.0,
    {
        &self.url
    }

    /// The full URL, as the parser serialized it.
    pub fn to_string(&self) -> (r: String)
        ensures
            r@ == display_of(self@),
    {
        self.url.serialization.clone()
    }

    /// Asks `probe` about this stream's URL: `Online` where the probe's
    /// process exited with success, `Offline` where it exited otherwise, and
    /// the probe's error where it could not be launched.
    pub fn status<F>(&self, probe: F) -> (r: Result<StreamStatus, ProbeError>)
        where
            F: Fn(&str) -> Result<bool, ProbeError>,
        requires
            forall|u: &str| probe.requires((u,)),
        ensures
            exists|u: &str, outcome: Result<bool, ProbeError>|
                u@ == display_of(self@) && probe.ensures((u,), outcome) && r == status_or_error(
                    outcome,
                ),
    {
        let u = self.url.serialization.as_str();
        let outcome = probe(u);
        match outcome {
            Ok(success) => Ok(StreamStatus::from_exit(success)),
            Err(e) => Err(e),
        }
    }
}

} // verus!
