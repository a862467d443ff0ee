use clip_studio_presence::capture::{
    bgra_to_rgba, capture_size, encode_png, eq_ignore_ascii_case, interpret_upload_reply,
    is_clip_studio_process_name, upload_request_message, upload_response_body_message,
    CaptureShareError, TransportFailure,
};

fn failure(timeout: bool, connect: bool, body: bool) -> TransportFailure {
    TransportFailure {
        is_timeout: timeout,
        is_connect: connect,
        is_body: body,
        details: "reset by peer".to_string(),
    }
}

#[test]
fn error_messages() {
    assert_eq!(CaptureShareError::InvalidWindowSize.message(), "Clip Studio Paint window is too small or minimized.");
    assert_eq!(CaptureShareError::CaptureFailed.message(), "Could not capture the Clip Studio Paint window.");
    assert_eq!(CaptureShareError::Encode("bad".to_string()).message(), "Could not encode the screenshot: bad");
    assert_eq!(CaptureShareError::Upload("x".to_string()).message(), "Could not upload the screenshot: x");
    assert_eq!(
        CaptureShareError::UploadRequest { message: "m".to_string() }.message(),
        "Could not send the upload request to 0x0.st: m"
    );
    assert_eq!(
        CaptureShareError::UploadResponseBody { status: 502, message: "m".to_string() }.message(),
        "Uguu returned HTTP 502 Bad Gateway, but reading the response body failed: m"
    );
    assert_eq!(CaptureShareError::Mime("v".to_string()).message(), "Could not create the upload file part: v");
    assert_eq!(CaptureShareError::UploadRejected("r".to_string()).message(), "The image host rejected the upload: r");
    assert_eq!(
        CaptureShareError::UploadFailed { status: 404, body: "gone".to_string() }.message(),
        "Uguu returned HTTP 404 Not Found with body: gone"
    );
    assert_eq!(CaptureShareError::Io("disk".to_string()).message(), "Could not save the local screenshot: disk");
    assert_eq!(CaptureShareError::UnsupportedPlatform.message(), "Screenshot capture is currently only available on Windows.");
    assert_eq!(
        CaptureShareError::UploadFailed { status: 599, body: String::new() }.message(),
        "Uguu returned HTTP 599 <unknown status code> with body: "
    );
}

#[test]
fn successful_reply_with_link_is_the_link() {
    let url = interpret_upload_reply(200, "  https://h.uguu.se/abc.png\n".to_string()).unwrap();
    assert_eq!(url, "https://h.uguu.se/abc.png");
    let url = interpret_upload_reply(201, "http://x.example/a".to_string()).unwrap();
    assert_eq!(url, "http://x.example/a");
}

#[test]
fn successful_reply_without_link_is_rejected() {
    match interpret_upload_reply(200, " <html>busy</html> ".to_string()) {
        Err(CaptureShareError::UploadRejected(m)) => assert_eq!(
            m,
            "Uguu replied with HTTP 200 OK, but the body was not a direct URL. Body text: <html>busy</html>"
        ),
        other => panic!("unexpected {:?}", other),
    }
    assert!(matches!(
        interpret_upload_reply(200, "ftp://x".to_string()),
        Err(CaptureShareError::UploadRejected(_))
    ));
}

#[test]
fn failed_status_keeps_body() {
    match interpret_upload_reply(503, " busy ".to_string()) {
        Err(CaptureShareError::UploadFailed { status, body }) => {
            assert_eq!(status, 503);
            assert_eq!(body, " busy ");
        }
        other => panic!("unexpected {:?}", other),
    }
    assert!(matches!(
        interpret_upload_reply(302, "https://x".to_string()),
        Err(CaptureShareError::UploadFailed { status: 302, .. })
    ));
}

#[test]
fn request_failure_messages() {
    assert_eq!(
        upload_request_message("Uguu", &failure(true, true, true)),
        "The request timed out before Uguu answered. The network may be slow or the host may be blocked."
    );
    assert_eq!(
        upload_request_message("Uguu", &failure(false, true, true)),
        "The app could not connect to Uguu. This is usually a network, DNS, proxy, or TLS problem. Details: reset by peer"
    );
    assert_eq!(
        upload_request_message("Uguu", &failure(false, false, true)),
        "The request was created, but the upload body could not be sent cleanly to Uguu. This usually means the connection was closed while the file was being uploaded. Details: reset by peer"
    );
    assert_eq!(
        upload_request_message("Uguu", &failure(false, false, false)),
        "The upload request failed before Uguu could answer. Details: reset by peer"
    );
}

#[test]
fn response_body_failure_messages() {
    assert_eq!(
        upload_response_body_message("Uguu", 200, &failure(true, false, true)),
        "Uguu returned HTTP 200 OK, but the response body timed out before it could be read."
    );
    assert_eq!(
        upload_response_body_message("Uguu", 200, &failure(false, false, true)),
        "Uguu returned HTTP 200 OK, but the response body could not be read. This usually means the server closed the connection early. Details: reset by peer"
    );
    assert_eq!(
        upload_response_body_message("Uguu", 500, &failure(false, true, false)),
        "Uguu returned HTTP 500 Internal Server Error, but reading the response body failed. Details: reset by peer"
    );
}

#[test]
fn window_size_must_exceed_eight_pixels() {
    assert_eq!(capture_size(10, 20, 110, 220).unwrap(), (100, 200));
    assert!(matches!(capture_size(0, 0, 8, 100), Err(CaptureShareError::InvalidWindowSize)));
    assert!(matches!(capture_size(0, 0, 100, 8), Err(CaptureShareError::InvalidWindowSize)));
    assert!(matches!(capture_size(-32000, -32000, -31840, -31972), Ok((160, 28))));
    assert!(matches!(capture_size(50, 50, 10, 10), Err(CaptureShareError::InvalidWindowSize)));
    assert_eq!(capture_size(0, 0, 9, 9).unwrap(), (9, 9));
}

#[test]
fn pixels_become_opaque_rgba() {
    let mut p = vec![1u8, 2, 3, 4, 5, 6, 7, 8, 9];
    bgra_to_rgba(&mut p);
    assert_eq!(p, vec![3, 2, 1, 255, 7, 6, 5, 255, 9]);
    let mut empty: Vec<u8> = Vec::new();
    bgra_to_rgba(&mut empty);
    assert!(empty.is_empty());
}

#[test]
fn png_encoding() {
    let rgba = vec![255u8, 0, 0, 255, 0, 255, 0, 255];
    let png = encode_png(2, 1, &rgba).unwrap();
    assert_eq!(&png[..8], &[137, 80, 78, 71, 13, 10, 26, 10]);
    assert_eq!(&png[12..16], b"IHDR");
    assert_eq!(&png[16..24], &[0, 0, 0, 2, 0, 0, 0, 1]);
    assert_eq!(png[24], 8);
    assert_eq!(png[25], 6);
    assert_eq!(&png[png.len() - 8..png.len() - 4], b"IEND");
    assert!(matches!(encode_png(2, 2, &rgba), Err(CaptureShareError::Encode(_))));
    assert!(matches!(encode_png(0, 1, &[]), Err(CaptureShareError::Encode(_))));
    assert!(matches!(encode_png(1, 0, &[]), Err(CaptureShareError::Encode(_))));
}

#[test]
fn clip_studio_process_names() {
    assert!(is_clip_studio_process_name("CLIPStudioPaint.exe"));
    assert!(is_clip_studio_process_name("clipstudiopaint.EXE"));
    assert!(is_clip_studio_process_name("ClipStudioPaintApp.exe"));
    assert!(!is_clip_studio_process_name("CLIPStudioPaint.exe "));
    assert!(!is_clip_studio_process_name("CLIPStudio.exe"));
    assert!(!is_clip_studio_process_name(""));
    assert!(eq_ignore_ascii_case("ÄbC", "Äbc"));
    assert!(!eq_ignore_ascii_case("Ä", "ä"));
}
