use vstd::prelude::*;
use crate::parsed_url::{ParsedUrl, UrlView};
use crate::stream::{
    ProbeError, Stream, StreamStatus, StreamView, UrlError, accepts_string, accepts_url,
    is_string_error, is_url_error, status_or_offline, stream_of_string, stream_of_url,
};

verus! {

/// The settings of one run: the URLs of the streams to report on, in order.
#[derive(Debug, Clone, PartialEq, Eq)]
pub struct Config {
    pub stream_urls: Vec<String>,
}

pub open spec fn strings_view(v: Seq<String>) -> Seq<Seq<char>> {
    v.map_values(|s: String| s@)
}

pub open spec fn strs_view(v: Seq<&str>) -> Seq<Seq<char>> {
    v.map_values(|s: &str| s@)
}

pub open spec fn urls_view(v: Seq<ParsedUrl>) -> Seq<UrlView> {
    v.map_values(|u: ParsedUrl| u@)
}

pub open spec fn streams_view(v: Seq<Stream>) -> Seq<StreamView> {
    v.map_values(|s: Stream| s@)
}

pub open spec fn all_urls_accepted(urls: Seq<UrlView>) -> bool {
    forall|i: int| 0 <= i < urls.len() ==> accepts_url(#[trigger] urls[i])
}

pub open spec fn all_strings_accepted(strs: Seq<Seq<char>>) -> bool {
    forall|i: int| 0 <= i < strs.len() ==> accepts_string(#[trigger] strs[i])
}

/// `e` is the error of the first URL of `urls` that is refused.
pub open spec fn is_first_url_error(e: UrlError, urls: Seq<UrlView>) -> bool {
    exists|k: int|
        0 <= k < urls.len() && !accepts_url(#[trigger] urls[k]) && (forall|j: int|
            0 <= j < k ==> accepts_url(urls[j])) && is_url_error(e, urls[k])
}

/// `e` is the error of the first string of `strs` that is refused.
pub open spec fn is_first_string_error(e: UrlError, strs: Seq<Seq<char>>) -> bool {
    exists|k: int|
        0 <= k < strs.len() && !accepts_string(#[trigger] strs[k]) && (forall|j: int|
            0 <= j < k ==> accepts_string(strs[j])) && is_string_error(e, strs[k])
}

/// `probe`, asked about the URL `url`, may give an outcome that makes the
/// status `st`, a launch failure counting as `Offline`.
pub open spec fn probed_as<F: Fn(&str) -> Result<bool, ProbeError>>(
    probe: F,
    url: Seq<char>,
    st: StreamStatus,
) -> bool {
    exists|u: &str, outcome: Result<bool, ProbeError>|
        u@ == url && probe.ensures((u,), outcome) && st == status_or_offline(outcome)
}

/// An ordered collection of streams, fixed once built.
#[derive(Debug)]
pub struct Streamlink {
    pub urls: Vec<Stream>,
}

impl Streamlink {
    /// The streams of `urls`, in their order; the first URL that names no
    /// known provider makes the whole build fail.
    pub fn from_urls(urls: Vec<ParsedUrl>) -> (r: Result<Streamlink, UrlError>)
        ensures
            r is Ok <==> all_urls_accepted(urls_view(urls@)),
            r matches Ok(sl) ==> streams_view(sl.urls@) == urls_view(urls@).map_values(
                |u: UrlView| stream_of_url(u),
            ),
            r matches Err(e) ==> is_first_url_error(e, urls_view(urls@)),
    {
        let ghost uv = urls_view(urls@);
        let mut streams: Vec<Stream> = Vec::new();
        for url in it: urls
            invariant
                uv == urls_view(urls@),
                it.seq() == urls@,
                streams.len() == it.index(),
                forall|j: int| 0 <= j < it.index() ==> accepts_url(#[trigger] uv[j]),
                forall|j: int|
                    0 <= j < it.index() ==> (#[trigger] streams@[j])@ == stream_of_url(uv[j]),
        {
            let ghost k = it.index() as int;
            match Stream::from_url(url) {
                Ok(s) => streams.push(s),
                Err(e) => {
                    assert(!accepts_url(uv[k]));
                    return Err(e);
                },
            }
        }
        assert(uv.len() == urls.len());
        assert(streams_view(streams@) =~= uv.map_values(|u: UrlView| stream_of_url(u)));
        Ok(Streamlink { urls: streams })
    }

    /// The streams at the URLs that `strings` hold, in their order; the
    /// first string that is not an absolute URL of a known provider makes the
    /// whole build fail with its error.
    pub fn from_strings(strings: Vec<String>) -> (r: Result<Streamlink, UrlError>)
        ensures
            r is Ok <==> all_strings_accepted(strings_view(strings@)),
            r matches Ok(sl) ==> streams_view(sl.urls@) == strings_view(strings@).map_values(
                |s: Seq<char>| stream_of_string(s),
            ),
            r matches Err(e) ==> is_first_string_error(e, strings_view(strings@)),
    {
        let ghost sv = strings_view(strings@);
        let mut streams: Vec<Stream> = Vec::new();
        for string in it: strings
            invariant
                sv == strings_view(strings@),
                it.seq() == strings@,
                streams.len() == it.index(),
                forall|j: int| 0 <= j < it.index() ==> accepts_string(#[trigger] sv[j]),
                forall|j: int|
                    0 <= j < it.index() ==> (#[trigger] streams@[j])@ == stream_of_string(sv[j]),
        {
            let ghost k = it.index() as int;
            match Stream::from_string(string) {
                Ok(s) => streams.push(s),
                Err(e) => {
                    assert(!accepts_string(sv[k]));
                    return Err(e);
                },
            }
        }
        assert(sv.len() == strings.len());
        assert(streams_view(streams@) =~= sv.map_values(|s: Seq<char>| stream_of_string(s)));
        Ok(Streamlink { urls: streams })
    }

    /// As `from_strings`, on string slices.
    pub fn from_strs(strs: Vec<&str>) -> (r: Result<Streamlink, UrlError>)
        ensures
            r is Ok <==> all_strings_accepted(strs_view(strs@)),
            r matches Ok(sl) ==> streams_view(sl.urls@) == strs_view(strs@).map_values(
                |s: Seq<char>| stream_of_string(s),
            ),
            r matches Err(e) ==> is_first_string_error(e, strs_view(strs@)),
    {
        let mut strings: Vec<String> = Vec::new();
        for s in it: strs
            invariant
                it.seq() == strs@,
                strings.len() == it.index(),
                forall|j: int| 0 <= j < it.index() ==> (#[trigger] strings@[j])@ == strs@[j]@,
        {
            strings.push(String::from_str(s));
        }
        assert(strings_view(strings@) =~= strs_view(strs@));
        Streamlink::from_strings(strings)
    }

    /// The streams at the URLs of `config`, as `from_strings` builds them.
    pub fn new(config: Config) -> (r: Result<Streamlink, UrlError>)
        ensures
            r is Ok <==> all_strings_accepted(strings_view(config.stream_urls@)),
            r matches Ok(sl) ==> streams_view(sl.urls@) == strings_view(
                config.stream_urls@,
            ).map_values(|s: Seq<char>| stream_of_string(s)),
            r matches Err(e) ==> is_first_string_error(e, strings_view(config.stream_urls@)),
    {
        Streamlink::from_strings(config.stream_urls)
    }

    /// The streams, in the order they were given.
    pub fn stream_urls(&self) -> (r: &Vec<Stream>)
        ensures
            r@ == self.urls@,
    {
        &self.urls
    }

    /// Each stream with its status, in order: `probe` is asked once about
    /// each stream's URL, and a probe that could not be launched counts as
    /// `Offline`.
    pub fn status<F>(&self, probe: F) -> (r: Vec<(&Stream, StreamStatus)>)
        where
            F: Fn(&str) -> Result<bool, ProbeError>,
        requires
            forall|u: &str| probe.requires((u,)),
        ensures
            r.len() == self.urls.len(),
            forall|i: int| 0 <= i < r.len() ==> *(#[trigger] r@[i]).0 == self.urls@[i],
            forall|i: int|
                0 <= i < r.len() ==> probed_as(probe, self.urls@[i]@.0.0, (#[trigger] r@[i]).1),
    {
        let mut pairs: Vec<(&Stream, StreamStatus)> = Vec::new();
        let n = self.urls.len();
        for i in 0..n
            invariant
                n == self.urls.len(),
                forall|u: &str| probe.requires((u,)),
                pairs.len() == i,
                forall|j: int| 0 <= j < i ==> *(#[trigger] pairs@[j]).0 == self.urls@[j],
                forall|j: int|
                    0 <= j < i ==> probed_as(probe, self.urls@[j]@.0.0, (#[trigger] pairs@[j]).1),
        {
            let stream = &self.urls[i];
            let u = stream.url().serialization.as_str();
            let outcome = probe(u);
            let st = match outcome {
                Ok(success) => StreamStatus::from_exit(success),
                Err(_) => StreamStatus::Offline,
            };
            assert(probed_as(probe, self.urls@[i as int]@.0.0, st));
            pairs.push((stream, st));
        }
        pairs
    }
}

} // verus!
