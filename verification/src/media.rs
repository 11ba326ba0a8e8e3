//! Media attachments: a source, a MIME type and an optional alt text.

pub mod mime;

use mime::Mime;
use vstd::prelude::*;

verus! {

/// One media attachment.
#[derive(Debug, Clone, PartialEq, Eq, Hash)]
pub struct MediaData {
    pub src: MediaSrc,
    pub mime: Mime,
    pub alt: Option<String>,
}

impl MediaData {
    /// Start building a media attachment.
    pub fn builder() -> (r: MediaDataBuilder)
        ensures
            r.src is None,
            r.mime is None,
            r.alt is None,
    {
        MediaDataBuilder { src: None, mime: None, alt: None }
    }
}

/// Builder collecting the parts of a [`MediaData`].
pub struct MediaDataBuilder {
    pub src: Option<MediaSrc>,
    pub mime: Option<Mime>,
    pub alt: Option<String>,
}

impl MediaDataBuilder {
    /// Use a plain URL as the source.
    pub fn url(self, url: &str) -> (r: Self)
        ensures
            r.src matches Some(MediaSrc::URL(u)) && u@ == url@,
            r.mime == self.mime,
            r.alt == self.alt,
    {
        MediaDataBuilder { src: Some(MediaSrc::URL(url.to_owned())), ..self }
    }

    /// Use a content id as the source.
    pub fn cid(self, cid: &str) -> (r: Self)
        ensures
            r.src matches Some(MediaSrc::CID(c)) && c@ == cid@,
            r.mime == self.mime,
            r.alt == self.alt,
    {
        MediaDataBuilder { src: Some(MediaSrc::CID(cid.to_owned())), ..self }
    }

    /// Set the MIME type.
    pub fn mime(self, mime: Mime) -> (r: Self)
        ensures
            r.mime == Some(mime),
            r.src == self.src,
            r.alt == self.alt,
    {
        MediaDataBuilder { mime: Some(mime), ..self }
    }

    /// Set the alt text.
    pub fn alt(self, alt: &str) -> (r: Self)
        ensures
            r.alt matches Some(a) && a@ == alt@,
            r.src == self.src,
            r.mime == self.mime,
    {
        MediaDataBuilder { alt: Some(alt.to_owned()), ..self }
    }

    /// Finish the attachment; the caller owes a source and a MIME type.
    pub fn build(self) -> (r: MediaData)
        requires
            self.src is Some,
            self.mime is Some,
        ensures
            Some(r.src) == self.src,
            Some(r.mime) == self.mime,
            r.alt == self.alt,
    {
        let src = match self.src {
            Some(s) => s,
            None => unreached(),
        };
        let mime = match self.mime {
            Some(m) => m,
            None => unreached(),
        };
        MediaData { src, mime, alt: self.alt }
    }
}

/// Where a media attachment lives: a plain URL or a content id.
#[derive(Debug, Clone, PartialEq, Eq, Hash)]
pub enum MediaSrc {
    URL(String),
    CID(String),
}

impl MediaSrc {
    /// An empty URL source.
    pub fn new_url() -> (r: MediaSrc)
        ensures
            r matches MediaSrc::URL(u) && u@ == Seq::<char>::empty(),
    {
        MediaSrc::URL(String::new())
    }

    /// The URL or content id as an owned string.
    pub fn into_string(&self) -> (r: String)
        ensures
            match *self {
                MediaSrc::URL(ref u) => r@ == u@,
                MediaSrc::CID(ref c) => r@ == c@,
            },
    {
        match self {
            MediaSrc::URL(url) => url.clone(),
            MediaSrc::CID(cid) => cid.clone(),
        }
    }
}

} // verus!
