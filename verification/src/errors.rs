//! The failure taxonomy of the transcode pipeline.
//!
//! Each pipeline stage owns exactly one error kind, and each kind maps to
//! exactly one client-visible HTTP status. Path parsing has its own error
//! type, since the parameter extractor runs before the pipeline proper.

use vstd::prelude::*;

verus! {

/// A failure inside the transcode pipeline, tagged by the stage that failed.
///
/// `EncodeError` has no counterpart among the original failure kinds: the
/// pipeline's encoder calls provably succeed, but the kind is kept so that
/// a codec-internal failure, should one ever surface, maps to a status of
/// its own rather than being ignored.
#[derive(Clone, Copy, Debug, PartialEq, Eq, Structural)]
pub enum TranscodeError {
    /// The source URL answered with a non-success HTTP status.
    HttpStatusError,
    /// The source response's `Content-Type` is not a supported image type.
    UnsupportedContentType,
    /// Reading the source response body failed after a valid content type.
    HttpBodyError,
    /// The image library could not decode the source bytes.
    PistonImageLoadError,
    /// The source host could not be resolved or connected.
    RemoteServerUnreachable,
    /// The image library could not serialize the resized image.
    EncodeError,
}

/// A malformed request path: wrong grammar, out-of-range dimensions, or a
/// missing or non-absolute `src` query parameter. Deliberately carries no
/// detail; every parse failure is answered alike.
#[derive(Clone, Copy, Debug, PartialEq, Eq, Structural)]
pub struct ParseError;

impl TranscodeError {
    /// A short human-readable description of the failure.
    pub fn description(&self) -> (r: &'static str)
        ensures
            *self is RemoteServerUnreachable ==> r@ == "Unable to connect with remote server"@,
            *self is HttpStatusError ==> r@ == "Invalid HTTP status code"@,
            *self is UnsupportedContentType ==> r@ == "Unsupported Content-Type header in HTTP response"@,
            *self is HttpBodyError ==> r@ == "Error reading from the HTTP response body"@,
            *self is PistonImageLoadError ==> r@ == "Image library was unable to load image into memory"@,
            *self is EncodeError ==> r@ == "Image library was unable to encode the output image"@,
    {
        match *self {
            TranscodeError::RemoteServerUnreachable => "Unable to connect with remote server",
            TranscodeError::HttpStatusError => "Invalid HTTP status code",
            TranscodeError::UnsupportedContentType => "Unsupported Content-Type header in HTTP response",
            TranscodeError::HttpBodyError => "Error reading from the HTTP response body",
            TranscodeError::PistonImageLoadError => "Image library was unable to load image into memory",
            TranscodeError::EncodeError => "Image library was unable to encode the output image",
        }
    }

    /// The HTTP status sent to the client for this failure.
    ///
    /// Every fetch/decode failure is answered 404, as a generic "not found";
    /// only a codec-internal encoding failure is the service's own fault and
    /// answered 500.
    pub fn http_status(&self) -> (r: u16)
        ensures
            r == self.spec_http_status(),
    {
        match *self {
            TranscodeError::EncodeError => 500,
            _ => 404,
        }
    }

    /// The status mapping, stated once: 500 for an encoding failure, 404 for
    /// everything else.
    pub open spec fn spec_http_status(&self) -> u16 {
        if *self is EncodeError {
            500
        } else {
            404
        }
    }
}

} // verus!
