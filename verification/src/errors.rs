//! The error taxonomy of the request pipeline, and the log line each
//! failure produces.

use vstd::prelude::*;
use vstd::utf8::encode_utf8;

verus! {

/// Failure of one of the two outbound fetch steps.
#[derive(Clone, Copy, Debug, PartialEq, Eq, Structural)]
pub enum FetchError {
    /// An outbound call answered with this non-success status.
    UpstreamHttpError(u16),
    /// The search response body was not a valid search document.
    DecodeError,
    /// The search response held no image records.
    EmptyResultError,
}

/// Failure of the rendering step.
#[derive(Clone, Copy, Debug, PartialEq, Eq, Structural)]
pub enum RenderError {
    /// The fetched bytes are not a decodable raster image, or decode to an
    /// image with a zero dimension, which carries no picture to render.
    ImageDecodeError,
}

/// Any failure a request can end in.
#[derive(Clone, Copy, Debug, PartialEq, Eq, Structural)]
pub enum PipelineError {
    Fetch(FetchError),
    Render(RenderError),
}

/// The decimal digits of `n`, most significant first.
pub open spec fn spec_decimal(n: nat) -> Seq<u8>
    decreases n,
{
    if n < 10 {
        seq![(0x30 + n) as u8]
    } else {
        spec_decimal((n / 10) as nat).push((0x30 + n % 10) as u8)
    }
}

/// The server-side log line a failure produces, as UTF-8 bytes.
pub open spec fn spec_log_message(e: PipelineError) -> Seq<u8> {
    match e {
        PipelineError::Fetch(FetchError::UpstreamHttpError(status)) => encode_utf8(
            "The Cat API returned HTTP "@,
        ) + spec_decimal(status as nat),
        PipelineError::Fetch(FetchError::DecodeError) => encode_utf8(
            "The Cat API response could not be decoded"@,
        ),
        PipelineError::Fetch(FetchError::EmptyResultError) => encode_utf8(
            "The Cat API returned no images"@,
        ),
        PipelineError::Render(RenderError::ImageDecodeError) => encode_utf8(
            "The fetched bytes are not a decodable image"@,
        ),
    }
}

/// The decimal digits of `n`, most significant first.
pub fn decimal_digits(n: u16) -> (r: Vec<u8>)
    ensures
        r@ == spec_decimal(n as nat),
    decreases n,
{
    if n < 10 {
        let mut out: Vec<u8> = Vec::new();
        out.push(0x30 + (n as u8));
        proof {
            assert(out@ =~= seq![(0x30 + n as nat) as u8]);
        }
        out
    } else {
        let mut out = decimal_digits(n / 10);
        out.push(0x30 + ((n % 10) as u8));
        out
    }
}

impl PipelineError {
    /// The log line this failure produces, as UTF-8 bytes.  The status code
    /// of an upstream failure appears in it in decimal.
    pub fn log_message(&self) -> (r: Vec<u8>)
        ensures
            r@ == spec_log_message(*self),
    {
        match self {
            PipelineError::Fetch(FetchError::UpstreamHttpError(status)) => {
                let mut out = vstd::slice::slice_to_vec("The Cat API returned HTTP ".as_bytes());
                let mut digits = decimal_digits(*status);
                out.append(&mut digits);
                out
            },
            PipelineError::Fetch(FetchError::DecodeError) => {
                vstd::slice::slice_to_vec("The Cat API response could not be decoded".as_bytes())
            },
            PipelineError::Fetch(FetchError::EmptyResultError) => {
                vstd::slice::slice_to_vec("The Cat API returned no images".as_bytes())
            },
            PipelineError::Render(RenderError::ImageDecodeError) => {
                vstd::slice::slice_to_vec("The fetched bytes are not a decodable image".as_bytes())
            },
        }
    }
}

} // verus!
