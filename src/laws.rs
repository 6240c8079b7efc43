use vstd::prelude::*;
use crate::parsed_url::{UrlView, url_parse};
use crate::stream::{
    Stream, StreamStatus, display_of, stream_of_string, stream_of_url,
};
use crate::streamlink::{all_strings_accepted, streams_view};

verus! {

/// A stream built from a URL is shown as exactly that URL's serialization.
pub proof fn lemma_display_of_url(u: UrlView)
    ensures
        display_of(stream_of_url(u)) == u.0,
{
}

/// A stream built from a string that the URL parser keeps as it is (its
/// serialization is the string itself) is shown as exactly that string.
pub proof fn lemma_display_of_string(s: Seq<char>)
    requires
        url_parse(s) is Some,
        url_parse(s).unwrap().0 == s,
    ensures
        display_of(stream_of_string(s)) == s,
{
}

/// Status reports keep the order of the strings a collection was built
/// from: where `streams` were built from `strs` and `pairs` pair each of
/// `streams` in turn with a status, the `i`-th pair holds the stream of the
/// `i`-th string.
pub proof fn lemma_status_keeps_order(
    strs: Seq<Seq<char>>,
    streams: Seq<Stream>,
    pairs: Seq<(&Stream, StreamStatus)>,
)
    requires
        all_strings_accepted(strs),
        streams_view(streams) == strs.map_values(|s: Seq<char>| stream_of_string(s)),
        pairs.len() == streams.len(),
        forall|i: int| 0 <= i < pairs.len() ==> *(#[trigger] pairs[i]).0 == streams[i],
    ensures
        pairs.len() == strs.len(),
        forall|i: int|
            0 <= i < pairs.len() ==> (*(#[trigger] pairs[i]).0)@ == stream_of_string(strs[i]),
{
    assert(streams_view(streams).len() == streams.len());
    assert(strs.map_values(|s: Seq<char>| stream_of_string(s)).len() == strs.len());
    assert forall|i: int| 0 <= i < pairs.len() implies (*(#[trigger] pairs[i]).0)@
        == stream_of_string(strs[i]) by {
        assert(streams_view(streams)[i] == streams[i]@);
        assert(strs.map_values(|s: Seq<char>| stream_of_string(s))[i] == stream_of_string(strs[i]));
    }
}

} // verus!
