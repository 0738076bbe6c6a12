use snapdrop::ocr::{check_picture, normalize, recognize, OcrStep};

#[test]
fn normalize_trims_and_keeps_layout() {
    assert_eq!(normalize("  hello \r\n\r\nworld  \r\n"), "hello\n\nworld");
    assert_eq!(normalize("   \r\n  \r\n"), "");
    assert_eq!(normalize("one"), "one");
}

#[test]
fn normalizing_twice_changes_nothing() {
    for t in ["", "\n\n a \n\n\tb\u{3000}\n \n", "x\r\r\ny", "  \u{a0}z"] {
        let once = normalize(t);
        assert_eq!(normalize(&once), once);
    }
    assert_eq!(normalize("\n\n a \n\n\tb\u{3000}\n \n"), "a\n\nb");
}

#[test]
fn a_picture_needs_bytes_for_its_pixels() {
    assert!(check_picture(16, 2, 2).is_ok());
    assert!(check_picture(17, 2, 2).is_ok());
    for (n, w, h) in [(15usize, 2u32, 2u32), (100, 0, 5), (100, 5, 0), (100, u32::MAX, u32::MAX)] {
        assert_eq!(check_picture(n, w, h).unwrap_err(), "Empty capture region");
    }
}

#[test]
fn recognition_reports_what_failed() {
    let text: Result<String, (OcrStep, String)> = Ok(" a \r\n".to_string());
    assert_eq!(recognize(16, 2, 2, true, text).unwrap(), "a");
    assert_eq!(recognize(0, 2, 2, true, Ok(String::new())).unwrap_err(), "Empty capture region");
    assert!(recognize(16, 2, 2, false, Ok(String::new()))
        .unwrap_err()
        .starts_with("No OCR language installed."));
    let labels: Vec<String> = [
        OcrStep::Buffer,
        OcrStep::Bitmap,
        OcrStep::Engine,
        OcrStep::Recognition,
        OcrStep::Text,
    ]
    .iter()
    .map(|s| recognize(16, 2, 2, true, Err((*s, "e".to_string()))).unwrap_err())
    .collect();
    assert_eq!(
        labels,
        vec![
            "OCR buffer: e",
            "OCR bitmap: e",
            "OCR engine: e",
            "OCR recognition failed: e",
            "OCR text: e"
        ]
    );
}
