use clip_studio_presence::utf16::{utf16z_to_string, wide_null};

#[test]
fn wide_text_is_nul_terminated_utf16() {
    assert_eq!(wide_null("A€😀"), vec![0x41, 0x20ac, 0xd83d, 0xde00, 0]);
    assert_eq!(wide_null(""), vec![0]);
    assert_eq!(wide_null("Run"), vec![0x52, 0x75, 0x6e, 0]);
}

#[test]
fn decoding_stops_at_first_nul() {
    let buf = [0x43u16, 0x4c, 0x49, 0x50, 0, 0x58, 0x59];
    assert_eq!(utf16z_to_string(&buf), "CLIP");
    assert_eq!(utf16z_to_string(&[0x41, 0x42]), "AB");
    assert_eq!(utf16z_to_string(&[0, 0x41]), "");
}

#[test]
fn unpaired_surrogates_become_replacement_characters() {
    assert_eq!(utf16z_to_string(&[0xd83d, 0x41, 0]), "\u{FFFD}A");
    assert_eq!(utf16z_to_string(&[0xde00, 0xd83d]), "\u{FFFD}\u{FFFD}");
    assert_eq!(utf16z_to_string(&[0xd83d, 0xde00, 0]), "😀");
}

#[test]
fn wide_text_round_trips() {
    for s in ["", "CLIPStudioPaint.exe", "ünïcödé 日本語 😀", "\"C:\\Program Files\\app.exe\""] {
        assert_eq!(utf16z_to_string(&wide_null(s)), s);
    }
}
