use catscii::errors::FetchError;
use catscii::errors::PipelineError;
use catscii::errors::RenderError;
use catscii::pipeline::cat_image_url_from_response;
use catscii::pipeline::catscii_from_image_response;
use catscii::pipeline::render;
use catscii::pipeline::respond;
use std::io::Cursor;

fn png_bytes_10x10() -> Vec<u8> {
    let img = image::DynamicImage::ImageRgb8(image::RgbImage::from_pixel(
        10,
        10,
        image::Rgb([200u8, 100u8, 50u8]),
    ));
    let mut buf: Vec<u8> = Vec::new();
    img.write_to(&mut Cursor::new(&mut buf), image::ImageFormat::Png).unwrap();
    buf
}

fn jpeg_bytes_10x10() -> Vec<u8> {
    let img = image::DynamicImage::ImageRgb8(image::RgbImage::from_pixel(
        10,
        10,
        image::Rgb([10u8, 160u8, 90u8]),
    ));
    let mut buf: Vec<u8> = Vec::new();
    img.write_to(&mut Cursor::new(&mut buf), image::ImageFormat::Jpeg).unwrap();
    buf
}

#[test]
fn render_succeeds_on_valid_png() {
    let art = render(png_bytes_10x10()).unwrap();
    assert!(!art.is_empty());
}

#[test]
fn render_succeeds_on_valid_jpeg() {
    let art = render(jpeg_bytes_10x10()).unwrap();
    assert!(!art.is_empty());
}

#[test]
fn render_rejects_undecodable_bytes() {
    assert_eq!(render(b"definitely not an image".to_vec()), Err(RenderError::ImageDecodeError));
    assert_eq!(render(Vec::new()), Err(RenderError::ImageDecodeError));
}

#[test]
fn render_rejects_truncated_png() {
    let mut bytes = png_bytes_10x10();
    bytes.truncate(bytes.len() / 4);
    assert_eq!(render(bytes), Err(RenderError::ImageDecodeError));
}

#[test]
fn end_to_end_success_renders_html_200() {
    // upstream search answers with one record; its image is a 10x10 PNG
    let search_body = br#"[{"url":"http://x/cat.png"}]"#.to_vec();
    let url = cat_image_url_from_response(200, &search_body).unwrap();
    assert_eq!(url, "http://x/cat.png");

    let outcome = catscii_from_image_response(200, png_bytes_10x10());
    let art = outcome.unwrap();
    assert!(!art.is_empty());

    let reply = respond(Ok(art.clone()));
    assert_eq!(reply.status, 200);
    assert_eq!(reply.content_type, Some("text/html; charset=utf-8".to_string()));
    assert_eq!(reply.body, art);
}

#[test]
fn end_to_end_empty_search_answers_generic_500() {
    let search_body = b"[]".to_vec();
    let err = cat_image_url_from_response(200, &search_body).unwrap_err();
    assert_eq!(err, FetchError::EmptyResultError);

    let reply = respond(Err(PipelineError::Fetch(err)));
    assert_eq!(reply.status, 500);
    assert_eq!(reply.body, "Something went wrong");
}

#[test]
fn end_to_end_search_503_answers_generic_500_and_logs_code() {
    let err = cat_image_url_from_response(503, &Vec::new()).unwrap_err();
    assert_eq!(err, FetchError::UpstreamHttpError(503));

    let e = PipelineError::Fetch(err);
    let log = String::from_utf8(e.log_message()).unwrap();
    assert!(log.contains("503"));

    let reply = respond(Err(e));
    assert_eq!(reply.status, 500);
    assert_eq!(reply.body, "Something went wrong");
}

#[test]
fn end_to_end_image_404_answers_generic_500() {
    let outcome = catscii_from_image_response(404, png_bytes_10x10());
    let err = outcome.unwrap_err();
    assert_eq!(err, PipelineError::Fetch(FetchError::UpstreamHttpError(404)));

    let reply = respond(Err(err));
    assert_eq!(reply.status, 500);
    assert_eq!(reply.body, "Something went wrong");
}

#[test]
fn undecodable_image_bytes_fail_the_pipeline() {
    let outcome = catscii_from_image_response(200, b"still not an image".to_vec());
    assert_eq!(outcome, Err(PipelineError::Render(RenderError::ImageDecodeError)));
}

#[test]
fn render_rejects_zero_dimension_images() {
    // PNM headers admit zero dimensions; such images carry no picture
    assert_eq!(render(b"P5 0 0 255\n".to_vec()), Err(RenderError::ImageDecodeError));
    assert_eq!(render(b"P5 0 1 255\n".to_vec()), Err(RenderError::ImageDecodeError));
}
