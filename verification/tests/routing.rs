//! Routing, extraction, and response-head validation.

use imgproxy::errors::{ParseError, TranscodeError};
use imgproxy::fetch::check_response_head;
use imgproxy::format::Format;
use imgproxy::parse::extract;
use imgproxy::pipeline::{error_reply, health_reply, not_found_reply, route, success_reply, Route};

#[test]
fn non_get_is_not_found() {
    assert!(matches!(route(false, b"/png/100/50/?src=http%3A%2F%2Fexample.com%2Fa.jpg"), Route::NotFound));
    assert!(matches!(route(false, b"/health-check"), Route::NotFound));
}

#[test]
fn bad_paths_are_not_found() {
    assert!(matches!(route(true, b"/"), Route::NotFound));
    assert!(matches!(route(true, b""), Route::NotFound));
    assert!(matches!(route(true, b"/gif/100/50/?src=http%3A%2F%2Fe.com%2Fa.png"), Route::NotFound));
    assert!(matches!(route(true, b"/png/1/50/?src=http%3A%2F%2Fe.com%2Fa.png"), Route::NotFound));
    assert!(matches!(route(true, b"/png/12345/50/?src=http%3A%2F%2Fe.com%2Fa.png"), Route::NotFound));
    assert!(matches!(route(true, b"/png/100/50?src=http%3A%2F%2Fe.com%2Fa.png"), Route::NotFound));
    assert!(matches!(route(true, b"/png/100/50/"), Route::NotFound));
    assert!(matches!(route(true, b"/PNG/100/50/?src=http%3A%2F%2Fe.com%2Fa.png"), Route::NotFound));
}

#[test]
fn health_check_routes_and_replies_200() {
    assert!(matches!(route(true, b"/health-check"), Route::Health));
    let r = health_reply();
    assert_eq!(r.status, 200);
    assert!(r.content_type.is_none());
    assert!(r.body.is_empty());
}

#[test]
fn health_check_with_query_is_not_special() {
    assert!(matches!(route(true, b"/health-check?src=http%3A%2F%2Fe.com"), Route::NotFound));
}

#[test]
fn concrete_png_request_extracts() {
    let req = extract(b"/png/100/50/?src=http%3A%2F%2Fexample.com%2Fphoto.jpg").unwrap();
    assert_eq!(req.format, Format::Png);
    assert_eq!(req.width, 100);
    assert_eq!(req.height, 50);
    assert_eq!(req.src_url, b"http://example.com/photo.jpg".to_vec());
}

#[test]
fn concrete_jpg_request_extracts() {
    let req = extract(b"/jpg/10/10/?src=http%3A%2F%2Fexample.com%2Fmissing.png").unwrap();
    assert_eq!(req.format, Format::Jpeg);
    assert_eq!(req.width, 10);
    assert_eq!(req.height, 10);
    assert_eq!(req.src_url, b"http://example.com/missing.png".to_vec());
}

#[test]
fn leading_zeros_keep_their_value() {
    let req = extract(b"/png/0100/0050/?src=http%3A%2F%2Fe.com%2Fa.png").unwrap();
    assert_eq!(req.width, 100);
    assert_eq!(req.height, 50);
}

#[test]
fn dimensions_below_ten_are_rejected() {
    assert_eq!(extract(b"/jpg/05/10/?src=http%3A%2F%2Fe.com%2Fa.png"), Err(ParseError));
    assert_eq!(extract(b"/jpg/10/00/?src=http%3A%2F%2Fe.com%2Fa.png"), Err(ParseError));
}

#[test]
fn largest_dimensions_extract() {
    let req = extract(b"/jpg/9999/9999/?src=http%3A%2F%2Fe.com%2Fa.png").unwrap();
    assert_eq!(req.width, 9999);
    assert_eq!(req.height, 9999);
}

#[test]
fn src_may_follow_other_query_pairs() {
    let req = extract(b"/png/100/50/extra/?a=1&b=2&src=http%3A%2F%2Fexample.com%2Fi.png&c=3").unwrap();
    assert_eq!(req.src_url, b"http://example.com/i.png".to_vec());
}

#[test]
fn src_in_fragment_is_ignored() {
    assert_eq!(extract(b"/png/100/50/?a=1#src=http%3A%2F%2Fe.com%2Fa.png"), Err(ParseError));
}

#[test]
fn query_mark_inside_fragment_is_no_query() {
    assert_eq!(extract(b"/png/100/50/#x?src=http%3A%2F%2Fe.com%2Fa.png"), Err(ParseError));
}

#[test]
fn percent_decoding_is_exact() {
    let req = extract(b"/png/100/50/?src=http%3A%2F%2Fex.com%2Fa%2Bb%3Fx%3D1%26y%3D2").unwrap();
    assert_eq!(req.src_url, b"http://ex.com/a+b?x=1&y=2".to_vec());
}

#[test]
fn plus_decodes_to_space_and_is_rejected() {
    // `+` decodes to a space, and a space cannot appear in a source URL.
    assert_eq!(extract(b"/png/100/50/?src=http%3A%2F%2Fe.com%2Fa+b"), Err(ParseError));
}

#[test]
fn missing_or_relative_src_is_rejected() {
    assert_eq!(extract(b"/png/100/50/"), Err(ParseError));
    assert_eq!(extract(b"/png/100/50/?other=1"), Err(ParseError));
    assert_eq!(extract(b"/png/100/50/?src=photo.jpg"), Err(ParseError));
    assert_eq!(extract(b"/png/100/50/?src=http%3A%2F%2F"), Err(ParseError));
    assert_eq!(extract(b"/png/100/50/?src="), Err(ParseError));
}

#[test]
fn routed_transcode_request_carries_fields() {
    match route(true, b"/jpg/200/300/?src=http%3A%2F%2Fexample.com%2Fbig.gif") {
        Route::Transcode(req) => {
            assert_eq!(req.format, Format::Jpeg);
            assert_eq!(req.width, 200);
            assert_eq!(req.height, 300);
            assert_eq!(req.src_url, b"http://example.com/big.gif".to_vec());
        },
        _ => panic!("expected a transcode route"),
    }
}

#[test]
fn content_type_gate_rejects_non_images() {
    assert_eq!(check_response_head(200, b"text/html"), Err(TranscodeError::UnsupportedContentType));
    assert_eq!(check_response_head(200, b"text/html; charset=utf-8"), Err(TranscodeError::UnsupportedContentType));
    assert_eq!(check_response_head(200, b"application/octet-stream"), Err(TranscodeError::UnsupportedContentType));
    assert_eq!(check_response_head(200, b""), Err(TranscodeError::UnsupportedContentType));
    assert_eq!(check_response_head(200, b"image/webp"), Err(TranscodeError::UnsupportedContentType));
}

#[test]
fn content_type_gate_accepts_the_three_image_types() {
    assert_eq!(check_response_head(200, b"image/png"), Ok(Format::Png));
    assert_eq!(check_response_head(200, b"image/jpeg"), Ok(Format::Jpeg));
    assert_eq!(check_response_head(200, b"image/gif"), Ok(Format::Gif));
    assert_eq!(check_response_head(200, b"image/png; charset=utf-8"), Ok(Format::Png));
    assert_eq!(check_response_head(200, b" IMAGE/JPEG ; q=1"), Ok(Format::Jpeg));
    assert_eq!(check_response_head(204, b"image/gif"), Ok(Format::Gif));
}

#[test]
fn non_success_status_is_rejected_first() {
    assert_eq!(check_response_head(404, b"image/png"), Err(TranscodeError::HttpStatusError));
    assert_eq!(check_response_head(404, b"text/html"), Err(TranscodeError::HttpStatusError));
    assert_eq!(check_response_head(301, b"image/png"), Err(TranscodeError::HttpStatusError));
    assert_eq!(check_response_head(500, b"image/png"), Err(TranscodeError::HttpStatusError));
}

#[test]
fn error_statuses_map_to_404_or_500() {
    assert_eq!(error_reply(TranscodeError::HttpStatusError).status, 404);
    assert_eq!(error_reply(TranscodeError::UnsupportedContentType).status, 404);
    assert_eq!(error_reply(TranscodeError::HttpBodyError).status, 404);
    assert_eq!(error_reply(TranscodeError::PistonImageLoadError).status, 404);
    assert_eq!(error_reply(TranscodeError::RemoteServerUnreachable).status, 404);
    assert_eq!(error_reply(TranscodeError::EncodeError).status, 500);
    assert!(error_reply(TranscodeError::RemoteServerUnreachable).body.is_empty());
}

#[test]
fn error_descriptions_name_the_stage() {
    assert_eq!(
        TranscodeError::RemoteServerUnreachable.description(),
        "Unable to connect with remote server"
    );
    assert_eq!(TranscodeError::HttpStatusError.description(), "Invalid HTTP status code");
    assert_eq!(
        TranscodeError::UnsupportedContentType.description(),
        "Unsupported Content-Type header in HTTP response"
    );
    assert_eq!(
        TranscodeError::HttpBodyError.description(),
        "Error reading from the HTTP response body"
    );
    assert_eq!(
        TranscodeError::PistonImageLoadError.description(),
        "Image library was unable to load image into memory"
    );
    assert_eq!(
        TranscodeError::EncodeError.description(),
        "Image library was unable to encode the output image"
    );
}

#[test]
fn reply_builders_fill_every_field() {
    let nf = not_found_reply();
    assert_eq!(nf.status, 404);
    assert!(nf.content_type.is_none());
    assert!(nf.body.is_empty());

    let ok = success_reply(Format::Png, vec![1, 2, 3]);
    assert_eq!(ok.status, 200);
    assert_eq!(ok.content_type, Some("image/png"));
    assert_eq!(ok.body, vec![1, 2, 3]);

    let ok = success_reply(Format::Jpeg, Vec::new());
    assert_eq!(ok.content_type, Some("image/jpeg"));
}
