//! The trusted boundary to the outside crates and to std.
//!
//! Everything here is believed rather than proved: each contract states
//! what the named outside function does, as its source and documentation
//! show it, and the rest of the crate is verified against these contracts.

use vstd::prelude::*;
use vstd::utf8::decode_utf8;
use vstd::utf8::valid_utf8;

verus! {

/// `image::DynamicImage`, opaque to the verifier.
#[verifier::external_type_specification]
#[verifier::external_body]
pub struct ExDynamicImage(image::DynamicImage);

/// `image::ImageError`, opaque to the verifier.
#[verifier::external_type_specification]
#[verifier::external_body]
pub struct ExImageError(image::ImageError);

/// Whether `image::load_from_memory` decodes these bytes as a raster image.
pub uninterp spec fn image_decode_ok(bytes: Seq<u8>) -> bool;

/// The pixel width of the raster image that `image::load_from_memory`
/// decodes these bytes into.
pub uninterp spec fn image_width_of(bytes: Seq<u8>) -> u32;

/// The pixel height of the raster image that `image::load_from_memory`
/// decodes these bytes into.
pub uninterp spec fn image_height_of(bytes: Seq<u8>) -> u32;

/// The HTML ASCII art that the fixed rendering options turn these image
/// bytes into.
pub uninterp spec fn art_of(bytes: Seq<u8>) -> Seq<char>;

/// A decoded raster image, paired with the bytes it was decoded from and
/// its pixel dimensions.  Values exist only through [`decode_image`], so
/// the image inside is always the decode of the bytes inside.
pub struct DecodedImage {
    img: image::DynamicImage,
    bytes: Vec<u8>,
    width: u32,
    height: u32,
}

impl DecodedImage {
    /// The bytes this image was decoded from.
    pub closed spec fn src_bytes(&self) -> Seq<u8> {
        self.bytes@
    }

    /// The image's width in pixels.
    pub closed spec fn spec_width(&self) -> u32 {
        self.width
    }

    /// The image's height in pixels.
    pub closed spec fn spec_height(&self) -> u32 {
        self.height
    }

    /// The image's width in pixels.
    pub fn width(&self) -> (r: u32)
        ensures
            r == self.spec_width(),
    {
        self.width
    }

    /// The image's height in pixels.
    pub fn height(&self) -> (r: u32)
        ensures
            r == self.spec_height(),
    {
        self.height
    }
}

/// Relies on `image::load_from_memory`: it decodes the bytes as a raster
/// image in an auto-detected format, returns an error exactly when they
/// are no decodable image, and reports the decoded image's dimensions.
#[verifier::external_body]
pub(crate) fn decode_image(bytes: Vec<u8>) -> (r: Result<DecodedImage, image::ImageError>)
    ensures
        r is Ok <==> image_decode_ok(bytes@),
        r matches Ok(d) ==> d.src_bytes() == bytes@ && d.spec_width() == image_width_of(bytes@)
            && d.spec_height() == image_height_of(bytes@),
{
    match image::load_from_memory(&bytes) {
        Ok(img) => {
            let width = img.width();
            let height = img.height();
            Ok(DecodedImage { img, bytes, width, height })
        },
        Err(e) => Err(e),
    }
}

/// Relies on `artem::convert` with the fixed HTML output target: the art
/// depends on the decoded image alone, and the unconditional HTML preamble
/// makes the result non-empty.  The conversion returns normally for an
/// image with nonzero dimensions; a zero width would reach a division by
/// zero in its dimension arithmetic, so such images are excluded here.
#[verifier::external_body]
pub(crate) fn image_to_art(d: DecodedImage) -> (r: String)
    requires
        d.spec_width() > 0,
        d.spec_height() > 0,
    ensures
        r@ == art_of(d.src_bytes()),
        r@.len() > 0,
{
    artem::convert(
        d.img,
        &artem::ConfigBuilder::new().target(artem::config::TargetType::HtmlFile).build(),
    )
}

/// Relies on `String::from_utf8`: it succeeds exactly on valid UTF-8 input
/// and decodes it.
#[verifier::external_body]
pub(crate) fn string_from_utf8(v: Vec<u8>) -> (r: Option<String>)
    ensures
        r is Some <==> valid_utf8(v@),
        r matches Some(s) ==> s@ == decode_utf8(v@),
{
    match String::from_utf8(v) {
        Ok(s) => Some(s),
        Err(_) => None,
    }
}

} // verus!
