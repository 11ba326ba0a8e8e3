//! Audio MIME subtypes.

use vstd::prelude::*;

verus! {

/// An audio subtype.
#[derive(Debug, Clone, PartialEq, Eq, Hash)]
pub enum MimeAudio {
    Other(String),
    Aac,
    Mp3,
    Ogg,
    Wav,
    Webm,
    Flac,
    Alac,
    Aiff,
    Opus,
    Mp4,
}

/// The subtype text as it appears after `audio/`.
pub open spec fn mime_audio_text(m: &MimeAudio) -> Seq<char> {
    match *m {
        MimeAudio::Other(ref other) => other@,
        MimeAudio::Aac => "aac"@,
        MimeAudio::Mp3 => "mp3"@,
        MimeAudio::Ogg => "ogg"@,
        MimeAudio::Wav => "wav"@,
        MimeAudio::Webm => "webm"@,
        MimeAudio::Flac => "flac"@,
        MimeAudio::Alac => "alac"@,
        MimeAudio::Aiff => "aiff"@,
        MimeAudio::Opus => "opus"@,
        MimeAudio::Mp4 => "mp4"@,
    }
}

impl MimeAudio {
    /// Render the subtype as text.
    pub fn to_display_string(&self) -> (r: String)
        ensures
            r@ == mime_audio_text(self),
    {
        match self {
            MimeAudio::Other(other) => other.clone(),
            MimeAudio::Aac => String::from_str("aac"),
            MimeAudio::Mp3 => String::from_str("mp3"),
            MimeAudio::Ogg => String::from_str("ogg"),
            MimeAudio::Wav => String::from_str("wav"),
            MimeAudio::Webm => String::from_str("webm"),
            MimeAudio::Flac => String::from_str("flac"),
            MimeAudio::Alac => String::from_str("alac"),
            MimeAudio::Aiff => String::from_str("aiff"),
            MimeAudio::Opus => String::from_str("opus"),
            MimeAudio::Mp4 => String::from_str("mp4"),
        }
    }
}

} // verus!
