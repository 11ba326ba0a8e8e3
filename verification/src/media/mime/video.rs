//! Video MIME subtypes.

use vstd::prelude::*;

verus! {

/// A video subtype.
#[derive(Debug, Clone, PartialEq, Eq, Hash)]
pub enum MimeVideo {
    Other(String),
    Mp4,
    Av1,
    Mpeg,
    Ogg,
    Quicktime,
    Webm,
    Vp8,
    Vp9,
    H264,
    H265,
}

/// The subtype text as it appears after `video/`.
pub open spec fn mime_video_text(m: &MimeVideo) -> Seq<char> {
    match *m {
        MimeVideo::Other(ref other) => other@,
        MimeVideo::Mp4 => "mp4"@,
        MimeVideo::Av1 => "AV1"@,
        MimeVideo::Mpeg => "mpeg"@,
        MimeVideo::Ogg => "ogg"@,
        MimeVideo::Quicktime => "quicktime"@,
        MimeVideo::Webm => "webm"@,
        MimeVideo::Vp8 => "VP8"@,
        MimeVideo::Vp9 => "VP9"@,
        MimeVideo::H264 => "H264"@,
        MimeVideo::H265 => "H265"@,
    }
}

impl MimeVideo {
    /// Render the subtype as text.
    pub fn to_display_string(&self) -> (r: String)
        ensures
            r@ == mime_video_text(self),
    {
        match self {
            MimeVideo::Other(other) => other.clone(),
            MimeVideo::Mp4 => String::from_str("mp4"),
            MimeVideo::Av1 => String::from_str("AV1"),
            MimeVideo::Mpeg => String::from_str("mpeg"),
            MimeVideo::Ogg => String::from_str("ogg"),
            MimeVideo::Quicktime => String::from_str("quicktime"),
            MimeVideo::Webm => String::from_str("webm"),
            MimeVideo::Vp8 => String::from_str("VP8"),
            MimeVideo::Vp9 => String::from_str("VP9"),
            MimeVideo::H264 => String::from_str("H264"),
            MimeVideo::H265 => String::from_str("H265"),
        }
    }
}

} // verus!
