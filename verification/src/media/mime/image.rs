//! Image MIME subtypes.

use vstd::prelude::*;

verus! {

/// An image subtype.
#[derive(Debug, Clone, PartialEq, Eq, Hash)]
pub enum MimeImage {
    Other(String),
    Gif,
    Jpeg,
    Png,
    Svg,
    Tiff,
    Webp,
    Apng,
    Avif,
    Heif,
}

/// The subtype text as it appears after `image/`.
pub open spec fn mime_image_text(m: &MimeImage) -> Seq<char> {
    match *m {
        MimeImage::Other(ref other) => other@,
        MimeImage::Gif => "gif"@,
        MimeImage::Jpeg => "jpeg"@,
        MimeImage::Png => "png"@,
        MimeImage::Svg => "svg+xml"@,
        MimeImage::Tiff => "tiff"@,
        MimeImage::Webp => "webp"@,
        MimeImage::Apng => "apng"@,
        MimeImage::Avif => "avif"@,
        MimeImage::Heif => "heif"@,
    }
}

impl MimeImage {
    /// Render the subtype as text.
    pub fn to_display_string(&self) -> (r: String)
        ensures
            r@ == mime_image_text(self),
    {
        match self {
            MimeImage::Other(other) => other.clone(),
            MimeImage::Gif => String::from_str("gif"),
            MimeImage::Jpeg => String::from_str("jpeg"),
            MimeImage::Png => String::from_str("png"),
            MimeImage::Svg => String::from_str("svg+xml"),
            MimeImage::Tiff => String::from_str("tiff"),
            MimeImage::Webp => String::from_str("webp"),
            MimeImage::Apng => String::from_str("apng"),
            MimeImage::Avif => String::from_str("avif"),
            MimeImage::Heif => String::from_str("heif"),
        }
    }
}

} // verus!
