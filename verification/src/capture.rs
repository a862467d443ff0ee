//! Screenshot sharing: the errors of a capture and upload, the messages
//! shown for them, the interpretation of the image host's reply, the window
//! size check, the pixel conversion and the PNG encoding.

use crate::text::{has_prefix, starts_with, trim, trim_spec};
use vstd::prelude::*;
use vstd::string::StringExecFns;

verus! {

/// The text `reqwest::StatusCode` displays for a status code: its number
/// and canonical reason phrase.
pub uninterp spec fn http_status_text(code: u16) -> Seq<char>;

/// Formats a status code as `reqwest::StatusCode`'s `Display` does. The
/// code must be one `StatusCode::from_u16` accepts (100 to 999); the text
/// is claimed to be `http_status_text(code)` and nothing more.
#[verifier::external_body]
fn status_text(code: u16) -> (text: String)
    requires
        100 <= code <= 999,
    ensures
        text@ == http_status_text(code),
{
    match reqwest::StatusCode::from_u16(code) {
        Ok(status) => format!("{}", status),
        Err(_) => String::new(),
    }
}

/// Whether an HTTP status code lies in the success class (200 to 299).
pub open spec fn is_success_status(code: u16) -> bool {
    200 <= code <= 299
}

/// A published screenshot.
#[derive(Debug)]
pub struct ShareResult {
    pub url: String,
}

/// Why a capture or an upload failed. Errors raised by outside code carry
/// the text that error displays.
#[derive(Debug)]
pub enum CaptureShareError {
    WindowNotFound,
    InvalidWindowSize,
    CaptureFailed,
    Encode(String),
    Upload(String),
    UploadRequest { message: String },
    UploadResponseBody { status: u16, message: String },
    Mime(String),
    UploadRejected(String),
    UploadFailed { status: u16, body: String },
    AppCacheDir,
    Io(String),
    UnsupportedPlatform,
}

/// What the HTTP client reports about a request that failed.
#[derive(Debug)]
pub struct TransportFailure {
    pub is_timeout: bool,
    pub is_connect: bool,
    pub is_body: bool,
    pub details: String,
}

/// `a` followed by `b`.
pub fn join2(a: &str, b: &str) -> (res: String)
    ensures
        res@ == a@ + b@,
{
    let mut s = a.to_string();
    s.append(b);
    s
}

/// `a`, `b` and `c` in a row.
pub fn join3(a: &str, b: &str, c: &str) -> (res: String)
    ensures
        res@ == a@ + b@ + c@,
{
    let mut s = a.to_string();
    s.append(b);
    s.append(c);
    s
}

/// `a` to `d` in a row.
pub fn join4(a: &str, b: &str, c: &str, d: &str) -> (res: String)
    ensures
        res@ == a@ + b@ + c@ + d@,
{
    let mut s = a.to_string();
    s.append(b);
    s.append(c);
    s.append(d);
    s
}

impl CaptureShareError {
    /// Every status code held is one that can be displayed.
    pub open spec fn statuses_valid(self) -> bool {
        match self {
            CaptureShareError::UploadResponseBody { status, .. } => 100 <= status <= 999,
            CaptureShareError::UploadFailed { status, .. } => 100 <= status <= 999,
            _ => true,
        }
    }

    /// The text shown for the error.
    pub open spec fn message_spec(self) -> Seq<char> {
        match self {
            CaptureShareError::WindowNotFound => "Clip Studio Paint window was not found."@,
            CaptureShareError::InvalidWindowSize =>
                "Clip Studio Paint window is too small or minimized."@,
            CaptureShareError::CaptureFailed => "Could not capture the Clip Studio Paint window."@,
            CaptureShareError::Encode(e) => "Could not encode the screenshot: "@ + e@,
            CaptureShareError::Upload(e) => "Could not upload the screenshot: "@ + e@,
            CaptureShareError::UploadRequest { message } =>
                "Could not send the upload request to 0x0.st: "@ + message@,
            CaptureShareError::UploadResponseBody { status, message } => "Uguu returned HTTP "@
                + http_status_text(status) + ", but reading the response body failed: "@
                + message@,
            CaptureShareError::Mime(e) => "Could not create the upload file part: "@ + e@,
            CaptureShareError::UploadRejected(e) => "The image host rejected the upload: "@ + e@,
            CaptureShareError::UploadFailed { status, body } => "Uguu returned HTTP "@
                + http_status_text(status) + " with body: "@ + body@,
            CaptureShareError::AppCacheDir => "Could not access the app cache directory."@,
            CaptureShareError::Io(e) => "Could not save the local screenshot: "@ + e@,
            CaptureShareError::UnsupportedPlatform =>
                "Screenshot capture is currently only available on Windows."@,
        }
    }

    /// The text shown for the error.
    pub fn message(&self) -> (res: String)
        requires
            self.statuses_valid(),
        ensures
            res@ == self.message_spec(),
    {
        match self {
            CaptureShareError::WindowNotFound => "Clip Studio Paint window was not found.".to_string(),
            CaptureShareError::InvalidWindowSize =>
                "Clip Studio Paint window is too small or minimized.".to_string(),
            CaptureShareError::CaptureFailed =>
                "Could not capture the Clip Studio Paint window.".to_string(),
            CaptureShareError::Encode(e) => join2("Could not encode the screenshot: ", e.as_str()),
            CaptureShareError::Upload(e) => join2("Could not upload the screenshot: ", e.as_str()),
            CaptureShareError::UploadRequest { message } =>
                join2("Could not send the upload request to 0x0.st: ", message.as_str()),
            CaptureShareError::UploadResponseBody { status, message } => {
                let s = status_text(*status);
                join4(
                    "Uguu returned HTTP ",
                    s.as_str(),
                    ", but reading the response body failed: ",
                    message.as_str(),
                )
            },
            CaptureShareError::Mime(e) =>
                join2("Could not create the upload file part: ", e.as_str()),
            CaptureShareError::UploadRejected(e) =>
                join2("The image host rejected the upload: ", e.as_str()),
            CaptureShareError::UploadFailed { status, body } => {
                let s = status_text(*status);
                join4("Uguu returned HTTP ", s.as_str(), " with body: ", body.as_str())
            },
            CaptureShareError::AppCacheDir =>
                "Could not access the app cache directory.".to_string(),
            CaptureShareError::Io(e) => join2("Could not save the local screenshot: ", e.as_str()),
            CaptureShareError::UnsupportedPlatform =>
                "Screenshot capture is currently only available on Windows.".to_string(),
        }
    }
}


/// Whether a link is a direct web address: it begins with `https://` or
/// `http://`.
pub open spec fn is_web_link(s: Seq<char>) -> bool {
    has_prefix(s, "https://"@) || has_prefix(s, "http://"@)
}

/// The result of an upload, given the image host's HTTP status and the
/// reply's body. A success status with a body that is, once trimmed, a
/// web link gives that link; a success status with any other body is
/// rejected; any other status fails with the status and the body.
pub fn interpret_upload_reply(status: u16, body: String) -> (res: Result<String, CaptureShareError>)
    requires
        100 <= status <= 999,
    ensures
        is_success_status(status) && is_web_link(trim_spec(body@)) ==> (res matches Ok(url)
            && url@ == trim_spec(body@)),
        is_success_status(status) && !is_web_link(trim_spec(body@)) ==> (res matches Err(
            CaptureShareError::UploadRejected(m),
        ) && m@ == "Uguu replied with HTTP "@ + http_status_text(status)
            + ", but the body was not a direct URL. Body text: "@ + trim_spec(body@)),
        !is_success_status(status) ==> (res matches Err(
            CaptureShareError::UploadFailed { status: s, body: b },
        ) && s == status && b@ == body@),
        res matches Err(e) ==> e.statuses_valid(),
{
    if 200 <= status && status <= 299 {
        let url = trim(body.as_str());
        if starts_with(url, "https://") || starts_with(url, "http://") {
            Ok(url.to_string())
        } else {
            let s = status_text(status);
            Err(
                CaptureShareError::UploadRejected(
                    join4(
                        "Uguu replied with HTTP ",
                        s.as_str(),
                        ", but the body was not a direct URL. Body text: ",
                        url,
                    ),
                ),
            )
        }
    } else {
        Err(CaptureShareError::UploadFailed { status, body })
    }
}

/// The message for an upload request that failed before the host answered.
pub open spec fn request_message_spec(host: Seq<char>, failure: TransportFailure) -> Seq<char> {
    if failure.is_timeout {
        "The request timed out before "@ + host
            + " answered. The network may be slow or the host may be blocked."@
    } else if failure.is_connect {
        "The app could not connect to "@ + host
            + ". This is usually a network, DNS, proxy, or TLS problem. Details: "@
            + failure.details@
    } else if failure.is_body {
        "The request was created, but the upload body could not be sent cleanly to "@ + host
            + ". This usually means the connection was closed while the file was being uploaded. Details: "@
            + failure.details@
    } else {
        "The upload request failed before "@ + host + " could answer. Details: "@
            + failure.details@
    }
}

/// Explains an upload request that failed before the host answered: a
/// timeout first, then a failed connection, then a body that could not be
/// sent, then any other failure.
pub fn upload_request_message(host: &str, failure: &TransportFailure) -> (res: String)
    ensures
        res@ == request_message_spec(host@, *failure),
{
    if failure.is_timeout {
        return join3(
            "The request timed out before ",
            host,
            " answered. The network may be slow or the host may be blocked.",
        );
    }
    if failure.is_connect {
        return join4(
            "The app could not connect to ",
            host,
            ". This is usually a network, DNS, proxy, or TLS problem. Details: ",
            failure.details.as_str(),
        );
    }
    if failure.is_body {
        return join4(
            "The request was created, but the upload body could not be sent cleanly to ",
            host,
            ". This usually means the connection was closed while the file was being uploaded. Details: ",
            failure.details.as_str(),
        );
    }
    join4(
        "The upload request failed before ",
        host,
        " could answer. Details: ",
        failure.details.as_str(),
    )
}

/// The message for a reply whose body could not be read.
pub open spec fn response_body_message_spec(
    host: Seq<char>,
    status: u16,
    failure: TransportFailure,
) -> Seq<char> {
    let head = host + " returned HTTP "@ + http_status_text(status);
    if failure.is_timeout {
        head + ", but the response body timed out before it could be read."@
    } else if failure.is_body {
        head
            + ", but the response body could not be read. This usually means the server closed the connection early. Details: "@
            + failure.details@
    } else {
        head + ", but reading the response body failed. Details: "@ + failure.details@
    }
}

/// Explains a reply with status `status` whose body could not be read: a
/// timeout first, then a body error, then any other failure.
pub fn upload_response_body_message(host: &str, status: u16, failure: &TransportFailure) -> (res:
    String)
    requires
        100 <= status <= 999,
    ensures
        res@ == response_body_message_spec(host@, status, *failure),
{
    let s = status_text(status);
    let head = join3(host, " returned HTTP ", s.as_str());
    if failure.is_timeout {
        return join2(head.as_str(), ", but the response body timed out before it could be read.");
    }
    if failure.is_body {
        return join3(
            head.as_str(),
            ", but the response body could not be read. This usually means the server closed the connection early. Details: ",
            failure.details.as_str(),
        );
    }
    join3(
        head.as_str(),
        ", but reading the response body failed. Details: ",
        failure.details.as_str(),
    )
}


/// The width and height of a window rectangle, when both exceed eight
/// pixels; a smaller or minimized window cannot be captured.
pub fn capture_size(left: i32, top: i32, right: i32, bottom: i32) -> (res: Result<
    (u32, u32),
    CaptureShareError,
>)
    requires
        i32::MIN <= right - left <= i32::MAX,
        i32::MIN <= bottom - top <= i32::MAX,
    ensures
        right - left > 8 && bottom - top > 8 ==> res == Ok::<(u32, u32), CaptureShareError>(
            ((right - left) as u32, (bottom - top) as u32),
        ),
        !(right - left > 8 && bottom - top > 8) ==> res matches Err(
            CaptureShareError::InvalidWindowSize,
        ),
{
    let width = right - left;
    let height = bottom - top;
    if width <= 8 || height <= 8 {
        return Err(CaptureShareError::InvalidWindowSize);
    }
    Ok((width as u32, height as u32))
}

/// Pixel `c` of a 32-bit buffer converted from blue-green-red to
/// red-green-blue order with an opaque alpha channel.
pub open spec fn pixel_converted(old: Seq<u8>, new: Seq<u8>, c: int) -> bool {
    &&& new[4 * c] == old[4 * c + 2]
    &&& new[4 * c + 1] == old[4 * c + 1]
    &&& new[4 * c + 2] == old[4 * c]
    &&& new[4 * c + 3] == 255
}

/// Converts every whole four-byte pixel from BGRA to RGBA order and makes
/// it opaque; bytes after the last whole pixel stay as they are.
pub fn bgra_to_rgba(pixels: &mut Vec<u8>)
    ensures
        final(pixels)@.len() == old(pixels)@.len(),
        forall|c: int|
            0 <= c < old(pixels)@.len() / 4 ==> #[trigger] pixel_converted(
                old(pixels)@,
                final(pixels)@,
                c,
            ),
        forall|i: int|
            4 * (old(pixels)@.len() / 4) <= i < old(pixels)@.len() ==> #[trigger] final(pixels)@[i]
                == old(pixels)@[i],
{
    let ghost input = pixels@;
    let n = pixels.len() / 4;
    assert(4 * n <= input.len()) by (nonlinear_arith)
        requires
            n == input.len() / 4,
    ;
    let mut c: usize = 0;
    while c < n
        invariant
            n == input.len() / 4,
            4 * n <= input.len(),
            input.len() <= usize::MAX,
            pixels@.len() == input.len(),
            c <= n,
            forall|d: int| 0 <= d < c ==> #[trigger] pixel_converted(input, pixels@, d),
            forall|i: int| 4 * c <= i < input.len() ==> #[trigger] pixels@[i] == input[i],
        decreases n - c,
    {
        let ghost before = pixels@;
        let base = 4 * c;
        let blue = pixels[base];
        let red = pixels[base + 2];
        pixels.set(base, red);
        pixels.set(base + 2, blue);
        pixels.set(base + 3, 255);
        assert forall|d: int| 0 <= d < c + 1 implies #[trigger] pixel_converted(
            input,
            pixels@,
            d,
        ) by {
            if d < c {
                assert(pixel_converted(input, before, d));
            }
        }
        c = c + 1;
    }
}

#[verifier::external_type_specification]
#[verifier::external_body]
pub struct ExEncodingError(png::EncodingError);

/// The bytes of the PNG file that the `png` crate writes for an 8-bit RGBA
/// image of the given size and pixels, with its default options.
pub uninterp spec fn png_rgba8_file(width: u32, height: u32, rgba: Seq<u8>) -> Seq<u8>;

/// Encodes an 8-bit RGBA image with `png::Encoder` into memory. The crate's
/// source fails on a zero width or height and on a pixel buffer whose length
/// is not `width * height * 4`, and on nothing else when writing to memory;
/// the bytes written are named `png_rgba8_file`.
#[verifier::external_body]
fn png_encode_rgba8(width: u32, height: u32, rgba: &[u8]) -> (res: Result<
    Vec<u8>,
    png::EncodingError,
>)
    requires
        width * height * 4 <= usize::MAX,
    ensures
        res is Ok <==> (width > 0 && height > 0 && rgba@.len() == width * height * 4),
        res matches Ok(bytes) ==> bytes@ == png_rgba8_file(width, height, rgba@),
{
    let mut output = std::io::Cursor::new(Vec::new());
    let mut encoder = png::Encoder::new(&mut output, width, height);
    encoder.set_color(png::ColorType::Rgba);
    encoder.set_depth(png::BitDepth::Eight);
    let mut writer = encoder.write_header()?;
    writer.write_image_data(rgba)?;
    drop(writer);
    Ok(output.into_inner())
}

/// Encodes the captured pixels as a PNG file.
pub fn encode_png(width: u32, height: u32, rgba: &[u8]) -> (res: Result<
    Vec<u8>,
    CaptureShareError,
>)
    requires
        width * height * 4 <= usize::MAX,
    ensures
        res is Ok <==> (width > 0 && height > 0 && rgba@.len() == width * height * 4),
        res matches Ok(bytes) ==> bytes@ == png_rgba8_file(width, height, rgba@),
        res matches Err(e) ==> e is Encode,
{
    match png_encode_rgba8(width, height, rgba) {
        Ok(bytes) => Ok(bytes),
        Err(e) => Err(CaptureShareError::Encode(e.to_string())),
    }
}

/// A character with ASCII upper-case letters mapped to lower case.
pub open spec fn ascii_lower(c: char) -> char {
    if 'A' <= c <= 'Z' {
        ((c as u32) + 32) as char
    } else {
        c
    }
}

/// Whether two texts are equal when ASCII letters are compared without
/// regard to case, as `str::eq_ignore_ascii_case` compares.
pub open spec fn eq_ignore_ascii_case_spec(a: Seq<char>, b: Seq<char>) -> bool {
    a.len() == b.len() && forall|i: int| 0 <= i < a.len() ==> ascii_lower(#[trigger] a[i]) == ascii_lower(b[i])
}

fn ascii_lower_char(c: char) -> (res: char)
    ensures
        res == ascii_lower(c),
{
    if 'A' <= c && c <= 'Z' {
        let u = c as u32 + 32;
        assert(0x61 <= u <= 0x7a);
        char_from_ascii_letter(u)
    } else {
        c
    }
}

fn char_from_ascii_letter(u: u32) -> (res: char)
    requires
        0x61 <= u <= 0x7a,
    ensures
        res == u as char,
{
    (u as u8) as char
}

/// Compares two texts, ignoring the case of ASCII letters.
pub fn eq_ignore_ascii_case(a: &str, b: &str) -> (res: bool)
    ensures
        res == eq_ignore_ascii_case_spec(a@, b@),
{
    let n = a.unicode_len();
    if n != b.unicode_len() {
        return false;
    }
    let mut i: usize = 0;
    while i < n
        invariant
            n == a@.len(),
            n == b@.len(),
            i <= n,
            forall|k: int| 0 <= k < i ==> ascii_lower(#[trigger] a@[k]) == ascii_lower(b@[k]),
        decreases n - i,
    {
        if ascii_lower_char(a.get_char(i)) != ascii_lower_char(b.get_char(i)) {
            return false;
        }
        i = i + 1;
    }
    true
}

/// Whether a process executable name is one of Clip Studio Paint's:
/// `CLIPStudioPaint.exe` or `CLIPStudioPaintApp.exe`, in any ASCII case.
pub fn is_clip_studio_process_name(name: &str) -> (res: bool)
    ensures
        res == (eq_ignore_ascii_case_spec(name@, "CLIPStudioPaint.exe"@)
            || eq_ignore_ascii_case_spec(name@, "CLIPStudioPaintApp.exe"@)),
{
    eq_ignore_ascii_case(name, "CLIPStudioPaint.exe") || eq_ignore_ascii_case(
        name,
        "CLIPStudioPaintApp.exe",
    )
}

} // verus!
