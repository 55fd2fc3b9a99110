use catscii::errors::FetchError;
use catscii::errors::PipelineError;
use catscii::errors::RenderError;
use catscii::pipeline::cat_image_url_from_response;
use catscii::pipeline::image_bytes_from_response;
use catscii::pipeline::is_success_status;
use catscii::pipeline::respond;

#[test]
fn success_statuses_are_the_2xx_range() {
    assert!(is_success_status(200));
    assert!(is_success_status(299));
    assert!(!is_success_status(199));
    assert!(!is_success_status(300));
    assert!(!is_success_status(404));
    assert!(!is_success_status(503));
}

#[test]
fn url_selected_from_single_record() {
    let body = br#"[{"url":"http://x/cat.png"}]"#.to_vec();
    let r = cat_image_url_from_response(200, &body);
    assert_eq!(r, Ok("http://x/cat.png".to_string()));
}

#[test]
fn url_selected_is_the_last_record() {
    let body = br#"[{"url":"http://a"},{"url":"http://b"}]"#.to_vec();
    let r = cat_image_url_from_response(200, &body);
    assert_eq!(r, Ok("http://b".to_string()));
}

#[test]
fn url_with_escapes_is_decoded() {
    let body = br#"[{"url":"http:\/\/x\/cat.png"}]"#.to_vec();
    let r = cat_image_url_from_response(200, &body);
    assert_eq!(r, Ok("http://x/cat.png".to_string()));
}

#[test]
fn empty_results_fail_with_empty_result_error() {
    let body = b"[]".to_vec();
    let r = cat_image_url_from_response(200, &body);
    assert_eq!(r, Err(FetchError::EmptyResultError));
    let spaced = b" [ ] ".to_vec();
    assert_eq!(cat_image_url_from_response(200, &spaced), Err(FetchError::EmptyResultError));
}

#[test]
fn search_bad_status_fails_with_observed_code() {
    let body = br#"[{"url":"http://x"}]"#.to_vec();
    assert_eq!(cat_image_url_from_response(503, &body), Err(FetchError::UpstreamHttpError(503)));
    assert_eq!(cat_image_url_from_response(301, &body), Err(FetchError::UpstreamHttpError(301)));
}

#[test]
fn undecodable_body_fails_with_decode_error() {
    let body = b"not json".to_vec();
    assert_eq!(cat_image_url_from_response(200, &body), Err(FetchError::DecodeError));
}

#[test]
fn url_that_is_not_utf8_fails_with_decode_error() {
    let mut body = b"[{\"url\":\"".to_vec();
    body.push(0xff);
    body.extend_from_slice(b"\"}]");
    assert_eq!(cat_image_url_from_response(200, &body), Err(FetchError::DecodeError));
}

#[test]
fn image_fetch_passes_payload_through() {
    let r = image_bytes_from_response(200, b"raw image bytes".to_vec());
    assert_eq!(r, Ok(b"raw image bytes".to_vec()));
}

#[test]
fn image_fetch_bad_status_fails_with_observed_code() {
    assert_eq!(
        image_bytes_from_response(404, b"ignored".to_vec()),
        Err(FetchError::UpstreamHttpError(404))
    );
}

#[test]
fn respond_maps_success_to_200_html() {
    let reply = respond(Ok("<pre>art</pre>".to_string()));
    assert_eq!(reply.status, 200);
    assert_eq!(reply.content_type, Some("text/html; charset=utf-8".to_string()));
    assert_eq!(reply.body, "<pre>art</pre>");
}

#[test]
fn respond_maps_every_failure_to_generic_500() {
    let failures = vec![
        PipelineError::Fetch(FetchError::UpstreamHttpError(503)),
        PipelineError::Fetch(FetchError::DecodeError),
        PipelineError::Fetch(FetchError::EmptyResultError),
        PipelineError::Render(RenderError::ImageDecodeError),
    ];
    for e in failures {
        let reply = respond(Err(e));
        assert_eq!(reply.status, 500);
        assert_eq!(reply.content_type, None);
        assert_eq!(reply.body, "Something went wrong");
    }
}

#[test]
fn log_message_carries_the_status_code() {
    let e = PipelineError::Fetch(FetchError::UpstreamHttpError(503));
    let msg = e.log_message();
    assert_eq!(msg, b"The Cat API returned HTTP 503".to_vec());
    let text = String::from_utf8(msg).unwrap();
    assert!(text.contains("503"));
}

#[test]
fn log_messages_of_the_other_failures() {
    assert_eq!(
        PipelineError::Fetch(FetchError::EmptyResultError).log_message(),
        b"The Cat API returned no images".to_vec()
    );
    assert_eq!(
        PipelineError::Fetch(FetchError::DecodeError).log_message(),
        b"The Cat API response could not be decoded".to_vec()
    );
    assert_eq!(
        PipelineError::Render(RenderError::ImageDecodeError).log_message(),
        b"The fetched bytes are not a decodable image".to_vec()
    );
}

#[test]
fn decimal_rendering_is_exact() {
    assert_eq!(catscii::errors::decimal_digits(0), b"0".to_vec());
    assert_eq!(catscii::errors::decimal_digits(7), b"7".to_vec());
    assert_eq!(catscii::errors::decimal_digits(404), b"404".to_vec());
    assert_eq!(catscii::errors::decimal_digits(65535), b"65535".to_vec());
}

#[test]
fn empty_url_fails_with_decode_error() {
    let body = br#"[{"url":""}]"#.to_vec();
    assert_eq!(cat_image_url_from_response(200, &body), Err(FetchError::DecodeError));
    // the selected (last) record decides
    let body = br#"[{"url":"http://a"},{"url":""}]"#.to_vec();
    assert_eq!(cat_image_url_from_response(200, &body), Err(FetchError::DecodeError));
}
