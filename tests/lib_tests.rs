use streamlink::{ParsedUrl, ProbeError, Stream, StreamStatus, UrlKind};

const TWITCH_GOGCOM: &str = "https://twitch.tv/gogcom";
const YOUTUBE_MARKIPLIERGAME_USER: &str = "https://youtube.com/user/markiplierGAME";
const YOUTUBE_MARKIPLIERGAME_DIRECT: &str = "https://youtube.com/markiplierGAME";
const OTHER_VALID: &str = "https://rust-lang.org/about";
const ALWAYS_OFF_URL_STR: &str = "https://twitch.tv/NotRealBrightOneLOL";
const ALWAYS_ON_URL_STR: &str = "https://twitch.tv/food";
const WRONG_URL_STR: &str = "wrong://fake.tv/thisdefinitelydoesntexist";

fn kind(s: String) -> UrlKind {
    UrlKind::from_url(&ParsedUrl::parse(s.as_str()).unwrap())
}

fn stream_from_string(s: String) -> Stream {
    Stream::from_url(ParsedUrl::parse(s.as_str()).unwrap()).expect("wrong str")
}

/// Stands in for the external probe: reports whether the URL names the
/// always-live channel.
fn stub_probe(url: &str) -> Result<bool, ProbeError> {
    Ok(url == ALWAYS_ON_URL_STR)
}

fn status_from_str(s: String) -> StreamStatus {
    stream_from_string(s)
        .status(stub_probe)
        .expect("failed to get status")
}

#[test]
fn youtube() {
    assert_eq!(
        UrlKind::Youtube,
        kind(YOUTUBE_MARKIPLIERGAME_USER.into())
    );
    assert_eq!(
        UrlKind::Youtube,
        kind(YOUTUBE_MARKIPLIERGAME_DIRECT.into())
    );
}

#[test]
fn lib_twitch() {
    assert_eq!(UrlKind::Twitch, kind(TWITCH_GOGCOM.into()));
}

#[test]
fn lib_other() {
    assert_eq!(UrlKind::Other, kind(OTHER_VALID.into()));
}

#[test]
#[should_panic]
fn malformed() {
    kind("this is not an URL".into());
}

#[test]
fn from_right_url_str() {
    stream_from_string(TWITCH_GOGCOM.into());
}

#[test]
#[should_panic]
fn from_wrong_url_str() {
    stream_from_string(WRONG_URL_STR.into());
    stream_from_string(TWITCH_GOGCOM.replace("https://", ""));
}

#[test]
fn twitch() {
    assert_eq!(
        "gogcom",
        stream_from_string(TWITCH_GOGCOM.into()).name().unwrap()
    );
}

#[test]
fn youtube_user() {
    assert_eq!(
        "markiplierGAME",
        stream_from_string(YOUTUBE_MARKIPLIERGAME_USER.into())
            .name()
            .unwrap()
    );
}

#[test]
fn youtube_direct() {
    assert_eq!(
        "markiplierGAME",
        stream_from_string(YOUTUBE_MARKIPLIERGAME_DIRECT.into())
            .name()
            .unwrap()
    );
}

#[test]
#[should_panic]
fn other() {
    stream_from_string(OTHER_VALID.into()).name();
}

#[test]
fn can_get() {
    status_from_str(TWITCH_GOGCOM.into());
}

#[test]
fn always_offline() {
    assert_eq!(
        StreamStatus::Offline,
        status_from_str(ALWAYS_OFF_URL_STR.into())
    );
}

#[test]
fn always_online() {
    assert_eq!(
        StreamStatus::Online,
        status_from_str(ALWAYS_ON_URL_STR.into())
    );
}
