//! MIME types of media attachments.

pub mod audio;
pub mod image;
pub mod video;

pub use audio::MimeAudio;
pub use image::MimeImage;
pub use video::MimeVideo;

use vstd::prelude::*;

verus! {

/// A MIME type, by top-level kind.
#[derive(Debug, Clone, PartialEq, Eq, Hash)]
pub enum Mime {
    Other(String),
    Image(MimeImage),
    Video(MimeVideo),
    Audio(MimeAudio),
}

/// The text of a MIME type: kind and subtype.
pub open spec fn mime_text(m: &Mime) -> Seq<char> {
    match *m {
        Mime::Other(ref other) => other@,
        Mime::Image(ref subtype) => "image/"@ + image::mime_image_text(subtype),
        Mime::Video(ref subtype) => "video/"@ + video::mime_video_text(subtype),
        Mime::Audio(ref subtype) => "audio/"@ + audio::mime_audio_text(subtype),
    }
}

impl Mime {
    /// Render the MIME type as text.
    pub fn to_display_string(&self) -> (r: String)
        ensures
            r@ == mime_text(self),
    {
        match self {
            Mime::Other(other) => other.clone(),
            Mime::Image(subtype) => String::from_str("image/").concat(
                subtype.to_display_string().as_str(),
            ),
            Mime::Video(subtype) => String::from_str("video/").concat(
                subtype.to_display_string().as_str(),
            ),
            Mime::Audio(subtype) => String::from_str("audio/").concat(
                subtype.to_display_string().as_str(),
            ),
        }
    }
}

} // verus!
