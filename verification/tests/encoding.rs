use snapdrop::encoding::{
    decode_rgba, decode_url, encode_rgba, fit_rgba, fits_base64, is_fittable, is_scalable,
    make_data_url, scale_rgba, swap_red_blue, to_opaque, url_payload, DECODE_LIMIT,
};

#[test]
fn pictures_survive_the_file() {
    let rgba: Vec<u8> = (0..6 * 4u8).map(|i| i * 10).collect();
    let png = encode_rgba(&rgba, 3, 2).unwrap();
    assert_ne!(png, rgba);
    assert_eq!(decode_rgba(&png), Some((rgba, 3, 2)));
}

#[test]
fn other_files_are_no_pictures() {
    assert_eq!(DECODE_LIMIT, 512 << 20);
    assert!(decode_rgba(&Vec::new()).is_none());
    assert!(decode_rgba(&b"not a picture at all".to_vec()).is_none());
    assert!(decode_rgba(&vec![7; 4096]).is_none());
    assert!(decode_rgba(&vec![0x89, 0x50, 0x4E, 0x47, 0x0D, 0x0A, 0x1A, 0x0A]).is_none());
}

#[test]
fn one_colour_stays_one_colour_when_scaled() {
    let rgba: Vec<u8> = [9u8, 8, 7, 255].repeat(64);
    let small = scale_rgba(rgba.clone(), 8, 8, 4, 2).unwrap();
    assert_eq!(small, [9u8, 8, 7, 255].repeat(8));
    assert!(scale_rgba(vec![0; 255], 8, 8, 4, 2).is_none());
    let (fitted, w, h) = fit_rgba(rgba, 8, 8, 4, 2).unwrap();
    assert_eq!((w, h), (2, 2));
    assert_eq!(fitted, [9u8, 8, 7, 255].repeat(4));
    assert!(fit_rgba(vec![0; 255], 8, 8, 4, 2).is_none());
}

#[test]
fn scaling_has_limits() {
    assert!(is_scalable(7680, 4320, 512, 288));
    assert!(is_scalable(0, 9, 0, 0));
    assert!(is_scalable(9, 9, 0, 1));
    assert!(is_scalable(4100, 4100, 1, 1));
    assert!(!is_scalable(4101, 4101, 1, 1));
    assert!(is_scalable(16_810_048, 1, 1, 1));
    assert!(!is_scalable(16_810_049, 1, 1, 1));
    assert!(!is_scalable(1 << 31, 1 << 31, 1, 1));
    assert!(!is_scalable(1, 1, u32::MAX, u32::MAX));
    assert!(is_fittable(7680, 4320, 256, 144));
    assert!(is_fittable(0, 4320, 256, 144));
    assert!(!is_fittable(0, 4320, 256, 0));
    assert!(!is_fittable(7680, 4320, 1, 144));
    assert!(is_fittable(4_000_000, 2, 256, 1));
    assert!(is_fittable(1_000_000, 1_000_000, 256, 256));
    assert!(!is_fittable(2_000_000, 2_000_000, 256, 256));
}

#[test]
fn the_largest_block_is_added_up() {
    let white = vec![255u8; 4100 * 4100 * 4];
    assert_eq!(scale_rgba(white, 4100, 4100, 1, 1).unwrap(), vec![255; 4]);
    assert_eq!(scale_rgba(vec![9; 4 * 81], 9, 9, 0, 1).unwrap(), Vec::<u8>::new());
    assert_eq!(fit_rgba(Vec::new(), 0, 5, 10, 10).unwrap(), (vec![0; 40], 1, 10));
}

#[test]
fn red_and_blue_change_places() {
    let b = vec![1, 2, 3, 4, 5, 6, 7, 8, 99];
    assert_eq!(swap_red_blue(&b), vec![3, 2, 1, 4, 7, 6, 5, 8]);
    assert_eq!(to_opaque(&b), vec![3, 2, 1, 255, 7, 6, 5, 255]);
    assert_eq!(to_opaque(&vec![1, 2, 3, 0]), to_opaque(&vec![1, 2, 3, 200]));
    let whole = vec![1, 2, 3, 4, 5, 6, 7, 8];
    assert_eq!(swap_red_blue(&swap_red_blue(&whole)), whole);
}

#[test]
fn data_urls_give_their_text_back() {
    assert_eq!(make_data_url("QUJD"), "data:image/png;base64,QUJD");
    assert_eq!(url_payload("data:image/png;base64,QUJD"), "QUJD");
    assert_eq!(url_payload("QUJD"), "QUJD");
    assert_eq!(url_payload("a,b,c"), "b,c");
    assert_eq!(decode_url("data:image/png;base64,QUJD").unwrap(), b"ABC");
    assert_eq!(decode_url("QUJD").unwrap(), b"ABC");
    assert!(decode_url("data:image/png;base64,?").is_none());
    assert!(fits_base64(1 << 20));
    assert!(!fits_base64(usize::MAX));
}
