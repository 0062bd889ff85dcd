//! Image formats known to the pipeline.
//!
//! GIF is accepted only as a *source* content type; the routing grammar
//! allows PNG and JPEG as requested output formats.

use vstd::prelude::*;

verus! {

/// An image format, either declared by a source response or requested as the
/// output of a transcode.
#[derive(Clone, Copy, Debug, PartialEq, Eq, Structural)]
pub enum Format {
    Png,
    Jpeg,
    Gif,
}

impl Format {
    /// Whether this format is a valid requested output format.
    pub open spec fn is_output(self) -> bool {
        self is Png || self is Jpeg
    }

    /// The content-type string a successful response carries for this
    /// output format.
    pub fn mime_str(&self) -> (r: &'static str)
        requires
            self.is_output(),
        ensures
            *self is Png ==> r@ == "image/png"@,
            *self is Jpeg ==> r@ == "image/jpeg"@,
    {
        match *self {
            Format::Png => "image/png",
            _ => "image/jpeg",
        }
    }
}

} // verus!
