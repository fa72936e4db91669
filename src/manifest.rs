//! Plain records decoded from the tool's JSON description of a media
//! resource. Every field is optional: the tool's output is not a stable
//! schema. Decoding itself happens outside the library.

use vstd::prelude::*;

verus! {

/// One automatically generated caption track.
#[derive(Debug, Clone)]
pub struct AutomaticCaption {
    pub ext: Option<AutomaticCaptionExt>,
    pub url: Option<String>,
}

/// One chapter of a resource, with times in seconds.
#[derive(Debug, Clone)]
pub struct Chapter {
    pub start_time: Option<i64>,
    pub end_time: Option<i64>,
    pub title: Option<String>,
}

/// Options the tool passes to its own downloader.
#[derive(Debug, Clone)]
pub struct DownloaderOptions {
    pub http_chunk_size: Option<i64>,
}

/// The HTTP headers the tool sends for a format.
#[derive(Debug, Clone)]
pub struct HttpHeaders {
    pub user_agent: Option<String>,
    pub accept_charset: Option<AcceptCharset>,
    pub accept: Option<Accept>,
    pub accept_encoding: Option<AcceptEncoding>,
    pub accept_language: Option<AcceptLanguage>,
}

/// Uploaded subtitles; the tool's output carries nothing the library reads.
#[derive(Debug, Clone, Copy, PartialEq, Eq, Structural)]
pub struct Subtitles {}

/// One preview image.
#[derive(Debug, Clone)]
pub struct Thumbnail {
    pub height: Option<i64>,
    pub url: Option<String>,
    pub width: Option<i64>,
    pub resolution: Option<String>,
    pub id: Option<String>,
}

/// Audio codec (`mp4a.40.2`, `none`, `opus`).
#[derive(Debug, Clone, Copy, PartialEq, Eq, Structural)]
pub enum Acodec {
    Mp4A402,
    NoAudio,
    Opus,
}

/// Caption file format (`srv1`, `srv2`, `srv3`, `ttml`, `vtt`).
#[derive(Debug, Clone, Copy, PartialEq, Eq, Structural)]
pub enum AutomaticCaptionExt {
    Srv1,
    Srv2,
    Srv3,
    Ttml,
    Vtt,
}

/// Media file extension (`m4a`, `mp4`, `webm`).
#[derive(Debug, Clone, Copy, PartialEq, Eq, Structural)]
pub enum YtdlManifestExt {
    M4A,
    Mp4,
    Webm,
}

/// Container of a split stream (`m4a_dash`, `mp4_dash`, `webm_dash`).
#[derive(Debug, Clone, Copy, PartialEq, Eq, Structural)]
pub enum Container {
    M4A,
    Mp4,
    Webm,
}

/// The `Accept` header value the tool sends.
#[derive(Debug, Clone, Copy, PartialEq, Eq, Structural)]
pub enum Accept {
    TextHtmlApplicationXhtmlXmlApplicationXmlQ09Q08,
}

/// The `Accept-Charset` header value the tool sends.
#[derive(Debug, Clone, Copy, PartialEq, Eq, Structural)]
pub enum AcceptCharset {
    Iso88591Utf8Q07Q07,
}

/// The `Accept-Encoding` header value the tool sends.
#[derive(Debug, Clone, Copy, PartialEq, Eq, Structural)]
pub enum AcceptEncoding {
    GzipDeflate,
}

/// The `Accept-Language` header value the tool sends.
#[derive(Debug, Clone, Copy, PartialEq, Eq, Structural)]
pub enum AcceptLanguage {
    EnUsEnQ05,
}

/// Transfer protocol of a format.
#[derive(Debug, Clone, Copy, PartialEq, Eq, Structural)]
pub enum Protocol {
    Https,
}

/// Whether a manifest whose page address is `webpage_url` already
/// describes the resource at `url`, so that querying the tool again is
/// unnecessary.
pub fn describes_url(webpage_url: &Option<String>, url: &String) -> (r: bool)
    ensures
        r == (webpage_url matches Some(w) && w@ == url@),
{
    match webpage_url {
        Some(w) => *w == *url,
        None => false,
    }
}

} // verus!
