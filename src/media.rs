use vstd::prelude::*;
use crate::error::ApiError;

verus! {

/// The kinds of media that an upload may declare.
#[derive(Debug, Clone, Copy, PartialEq, Eq, Structural)]
pub enum MediaType {
    VideoMp4,
    ImagePng,
    ImageJpeg,
    AudioOgg,
    VideoOgg,
    VideoMpeg,
    VideoWebm,
    ImageWebp,
}

/// The content type under which each kind is declared.
pub open spec fn media_token(m: MediaType) -> Seq<char> {
    match m {
        MediaType::VideoMp4 => "video/mp4"@,
        MediaType::ImagePng => "image/png"@,
        MediaType::ImageJpeg => "image/jpeg"@,
        MediaType::AudioOgg => "audio/ogg"@,
        MediaType::VideoOgg => "video/ogg"@,
        MediaType::VideoMpeg => "video/mpeg"@,
        MediaType::VideoWebm => "video/webm"@,
        MediaType::ImageWebp => "image/webp"@,
    }
}

/// The kind that a declared content type names, if any.
pub open spec fn media_of(s: Seq<char>) -> Option<MediaType> {
    if s == media_token(MediaType::VideoMp4) {
        Some(MediaType::VideoMp4)
    } else if s == media_token(MediaType::ImagePng) {
        Some(MediaType::ImagePng)
    } else if s == media_token(MediaType::ImageJpeg) {
        Some(MediaType::ImageJpeg)
    } else if s == media_token(MediaType::AudioOgg) {
        Some(MediaType::AudioOgg)
    } else if s == media_token(MediaType::VideoOgg) {
        Some(MediaType::VideoOgg)
    } else if s == media_token(MediaType::VideoMpeg) {
        Some(MediaType::VideoMpeg)
    } else if s == media_token(MediaType::VideoWebm) {
        Some(MediaType::VideoWebm)
    } else if s == media_token(MediaType::ImageWebp) {
        Some(MediaType::ImageWebp)
    } else {
        None
    }
}

impl MediaType {
    /// Classifies a declared content type; any other type is unsupported.
    pub fn try_from(value: &str) -> (r: Result<MediaType, ApiError>)
        ensures
            r == (match media_of(value@) {
                Some(m) => Ok::<MediaType, ApiError>(m),
                None => Err(ApiError::UnsupportedMedia),
            }),
    {
        let s = value.to_string();
        if s == "video/mp4".to_string() {
            Ok(MediaType::VideoMp4)
        } else if s == "image/png".to_string() {
            Ok(MediaType::ImagePng)
        } else if s == "image/jpeg".to_string() {
            Ok(MediaType::ImageJpeg)
        } else if s == "audio/ogg".to_string() {
            Ok(MediaType::AudioOgg)
        } else if s == "video/ogg".to_string() {
            Ok(MediaType::VideoOgg)
        } else if s == "video/mpeg".to_string() {
            Ok(MediaType::VideoMpeg)
        } else if s == "video/webm".to_string() {
            Ok(MediaType::VideoWebm)
        } else if s == "image/webp".to_string() {
            Ok(MediaType::ImageWebp)
        } else {
            Err(ApiError::UnsupportedMedia)
        }
    }
}

} // verus!
