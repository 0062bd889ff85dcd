//! An on-demand image transcoding proxy library.
//!
//! Given a request path of the form `/{png|jpg}/{width}/{height}/?src=<url>`,
//! the library parses the path into a typed transcode request, validates the
//! source response's status and content type, decodes the source image,
//! resizes it to exactly the requested dimensions, and re-encodes it in the
//! requested output format. Every failure is mapped to a single HTTP status.

pub mod codec;
pub mod errors;
pub mod fetch;
pub mod format;
pub mod parse;
pub mod pipeline;
