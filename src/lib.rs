//! Stream URL classification, naming and status reporting for YouTube and
//! Twitch channels.

pub mod laws;
pub mod parsed_url;
pub mod path;
pub mod stream;
pub mod streamlink;

pub use parsed_url::{ParsedUrl, UrlKind};
pub use path::piece;
pub use stream::{ProbeError, Stream, StreamStatus, UrlError};
pub use streamlink::{Config, Streamlink};
