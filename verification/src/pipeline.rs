//! The verified request pipeline: upstream-response decoding and URL
//! selection, image-response validation, rendering, and the mapping of
//! outcomes to the HTTP reply.

use crate::errors::FetchError;
use crate::errors::PipelineError;
use crate::errors::RenderError;
use crate::json::parse_image_search;
use crate::json::spec_parse_search;
use crate::outside::art_of;
use crate::outside::decode_image;
use crate::outside::image_decode_ok;
use crate::outside::image_height_of;
use crate::outside::image_to_art;
use crate::outside::image_width_of;
use crate::outside::string_from_utf8;
use vstd::prelude::*;
use vstd::utf8::decode_utf8;
use vstd::utf8::valid_utf8;

verus! {

/// True when an HTTP status code lies in the 2xx success range.
pub open spec fn status_is_success(status: u16) -> bool {
    200 <= status <= 299
}

/// Whether an HTTP status code lies in the 2xx success range.
pub fn is_success_status(status: u16) -> (r: bool)
    ensures
        r == status_is_success(status),
{
    200 <= status && status <= 299
}

/// What the Upstream Client returns for a search response with this status
/// and body: the last record's URL decoded from UTF-8, or the error the
/// response deserves.  A selected URL must be non-empty; an empty one is a
/// decoding failure.
pub open spec fn search_outcome(status: u16, body: Seq<u8>) -> Result<Seq<char>, FetchError> {
    if !status_is_success(status) {
        Err(FetchError::UpstreamHttpError(status))
    } else {
        match spec_parse_search(body) {
            None => Err(FetchError::DecodeError),
            Some(urls) => if urls.len() == 0 {
                Err(FetchError::EmptyResultError)
            } else if urls.last().len() == 0 {
                Err(FetchError::DecodeError)
            } else if valid_utf8(urls.last()) {
                Ok(decode_utf8(urls.last()))
            } else {
                Err(FetchError::DecodeError)
            },
        }
    }
}

/// The Upstream Client's decoding half: given the status and body of the
/// search response, selects the image URL.  Of the records in the response
/// this takes the last one, as a fixed documented choice.  A selected URL
/// that is empty, or whose bytes are not valid UTF-8, counts as a decoding
/// failure: the URL handed out is always a non-empty string.
pub fn cat_image_url_from_response(status: u16, body: &Vec<u8>) -> (r: Result<String, FetchError>)
    ensures
        (r matches Ok(url) ==> search_outcome(status, body@) matches Ok(cs) && url@ == cs),
        (r matches Err(e) ==> search_outcome(status, body@) == Result::<Seq<char>, FetchError>::Err(e)),
        (r matches Ok(url) ==> url@.len() > 0),
{
    if !is_success_status(status) {
        return Err(FetchError::UpstreamHttpError(status));
    }
    match parse_image_search(body) {
        None => Err(FetchError::DecodeError),
        Some(urls) => {
            let mut urls = urls;
            if urls.len() == 0 {
                Err(FetchError::EmptyResultError)
            } else {
                let ghost su = spec_parse_search(body@).unwrap();
                proof {
                    assert(su.len() == urls@.len());
                    assert(su.last() == urls@.last().deep_view());
                }
                match urls.pop() {
                    Some(url) => {
                        proof {
                            assert(url.deep_view() =~= url@);
                            assert(url@ == su.last());
                        }
                        if url.len() == 0 {
                            Err(FetchError::DecodeError)
                        } else {
                            match string_from_utf8(url) {
                                Some(s) => Ok(s),
                                None => Err(FetchError::DecodeError),
                            }
                        }
                    },
                    None => {
                        proof {
                            assert(false);
                        }
                        Err(FetchError::DecodeError)
                    },
                }
            }
        },
    }
}

/// What the Image Fetcher returns for an image response with this status
/// and payload.
pub open spec fn image_fetch_outcome(status: u16, body: Seq<u8>) -> Result<Seq<u8>, FetchError> {
    if status_is_success(status) {
        Ok(body)
    } else {
        Err(FetchError::UpstreamHttpError(status))
    }
}

/// The Image Fetcher's validation half: checks the status of the image
/// response and hands the payload through untouched.
pub fn image_bytes_from_response(status: u16, body: Vec<u8>) -> (r: Result<Vec<u8>, FetchError>)
    ensures
        (r matches Ok(b) ==> image_fetch_outcome(status, body@) matches Ok(sb) && b@ == sb),
        (r matches Err(e) ==> image_fetch_outcome(status, body@) == Result::<Seq<u8>, FetchError>::Err(e)),
{
    if is_success_status(status) {
        Ok(body)
    } else {
        Err(FetchError::UpstreamHttpError(status))
    }
}

/// True when the bytes decode as a raster image that can be rendered: a
/// decodable image with nonzero width and height.
pub open spec fn renderable_image(bytes: Seq<u8>) -> bool {
    image_decode_ok(bytes) && image_width_of(bytes) > 0 && image_height_of(bytes) > 0
}

/// The Renderer: decodes the bytes as a raster image and converts them to
/// HTML ASCII art with the fixed rendering options.  Bytes that decode to
/// an image with a zero dimension carry no picture to render and are
/// rejected like undecodable ones.
pub fn render(bytes: Vec<u8>) -> (r: Result<String, RenderError>)
    ensures
        r is Ok <==> renderable_image(bytes@),
        (r matches Ok(art) ==> art@ == art_of(bytes@) && art@.len() > 0),
        (r matches Err(e) ==> e == RenderError::ImageDecodeError),
{
    match decode_image(bytes) {
        Ok(d) => {
            if d.width() == 0 || d.height() == 0 {
                Err(RenderError::ImageDecodeError)
            } else {
                Ok(image_to_art(d))
            }
        },
        Err(_) => Err(RenderError::ImageDecodeError),
    }
}

/// The tail of the pipeline: validates the image response and renders its
/// payload.
pub fn catscii_from_image_response(status: u16, body: Vec<u8>) -> (r: Result<String, PipelineError>)
    ensures
        !status_is_success(status) ==> r == Result::<String, PipelineError>::Err(
            PipelineError::Fetch(FetchError::UpstreamHttpError(status)),
        ),
        status_is_success(status) && !renderable_image(body@) ==> r == Result::<
            String,
            PipelineError,
        >::Err(PipelineError::Render(RenderError::ImageDecodeError)),
        status_is_success(status) && renderable_image(body@) ==> (r matches Ok(art) && art@
            == art_of(body@) && art@.len() > 0),
{
    match image_bytes_from_response(status, body) {
        Err(e) => Err(PipelineError::Fetch(e)),
        Ok(bytes) => match render(bytes) {
            Err(e) => Err(PipelineError::Render(e)),
            Ok(art) => Ok(art),
        },
    }
}

/// The HTTP reply of the single route.
pub struct HttpReply {
    /// HTTP status code.
    pub status: u16,
    /// `Content-Type` header value, where one is set.
    pub content_type: Option<String>,
    /// Response body.
    pub body: String,
}

/// The Handler's terminal step: success becomes 200 with the art as HTML
/// body; any failure becomes 500 with the fixed generic body, so no error
/// detail reaches the client.
pub fn respond(outcome: Result<String, PipelineError>) -> (r: HttpReply)
    ensures
        (outcome matches Ok(art) ==> r.status == 200 && (r.content_type matches Some(ct) && ct@
            == "text/html; charset=utf-8"@) && r.body@ == art@),
        (outcome is Err ==> r.status == 500 && r.content_type is None && r.body@
            == "Something went wrong"@),
{
    match outcome {
        Ok(art) => HttpReply {
            status: 200,
            content_type: Some("text/html; charset=utf-8".to_owned()),
            body: art,
        },
        Err(_) => HttpReply {
            status: 500,
            content_type: None,
            body: "Something went wrong".to_owned(),
        },
    }
}

/// The Upstream Client never fabricates a URL: a successful outcome is the
/// UTF-8 decoding of one of the URL values present in the parsed response.
pub proof fn lemma_url_drawn_from_response(status: u16, body: Seq<u8>)
    requires
        search_outcome(status, body) is Ok,
    ensures
        spec_parse_search(body) matches Some(urls) && exists|k: int|
            0 <= k < urls.len() && search_outcome(status, body) == Result::<
                Seq<char>,
                FetchError,
            >::Ok(decode_utf8(urls[k])),
{
    let urls = spec_parse_search(body).unwrap();
    assert(0 <= urls.len() - 1 < urls.len());
    assert(urls.last() == urls[urls.len() - 1]);
}

/// A search response that decodes to an empty array is always reported as
/// `EmptyResultError`, never answered with a substitute URL.
pub proof fn lemma_empty_search_fails(status: u16, body: Seq<u8>)
    requires
        status_is_success(status),
        spec_parse_search(body) == Some(Seq::<Seq<u8>>::empty()),
    ensures
        search_outcome(status, body) == Result::<Seq<char>, FetchError>::Err(
            FetchError::EmptyResultError,
        ),
{
}

/// A non-success status from either outbound call is reported as
/// `UpstreamHttpError` carrying the observed status code.
pub proof fn lemma_bad_status_reported(status: u16, body: Seq<u8>)
    requires
        !status_is_success(status),
    ensures
        search_outcome(status, body) == Result::<Seq<char>, FetchError>::Err(
            FetchError::UpstreamHttpError(status),
        ),
        image_fetch_outcome(status, body) == Result::<Seq<u8>, FetchError>::Err(
            FetchError::UpstreamHttpError(status),
        ),
{
}

} // verus!
