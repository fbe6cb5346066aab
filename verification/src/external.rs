//! Outside types that the library carries through its logic without reading them.
use vstd::prelude::*;

verus! {

/// The error `serde_json` reports for malformed JSON.
#[verifier::external_type_specification]
#[verifier::external_body]
pub struct ExJsonError(serde_json::Error);

/// The error std reports for a failed I/O operation.
#[verifier::external_type_specification]
#[verifier::external_body]
pub struct ExIoError(std::io::Error);

/// The error the `image` crate reports when it cannot decode a picture.
#[verifier::external_type_specification]
#[verifier::external_body]
pub struct ExImageError(image::ImageError);

/// `Display` of `std::io::Error`. Nothing is stated of the text: for errors
/// from the operating system it is the system's own message.
#[verifier::external_body]
pub(crate) fn io_error_text(e: &std::io::Error) -> String {
    format!("{e}")
}

/// `Display` of `serde_json::Error`. Nothing is stated of the text, which
/// `serde_json` composes from the error's category, message and position.
#[verifier::external_body]
pub(crate) fn json_error_text(e: &serde_json::Error) -> String {
    format!("{e}")
}

/// `Display` of `image::ImageError`. Nothing is stated of the text, which
/// the `image` crate and its decoders compose.
#[verifier::external_body]
pub(crate) fn image_error_text(e: &image::ImageError) -> String {
    format!("{e}")
}

} // verus!
