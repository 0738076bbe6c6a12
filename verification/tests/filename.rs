use image::GenericImageView;
use snapdrop::encoding::PngError;
use snapdrop::filename::{
    encode_png, ensure_dir_writable, expand_dir, fit_size, join_path, next_filename, preview_png,
    probe_path, search_at, video_path, video_path_for,
};

fn nearest(w: u32, h: u32, max_dim: u32) -> (u32, u32) {
    let scale = max_dim as f64 / w.max(h) as f64;
    ((w as f64 * scale).round() as u32, (h as f64 * scale).round() as u32)
}

#[test]
fn next_filename_collision_suffix() {
    let mut next = next_filename("C:\\snapdrop_test");
    let stamp = next.stamp.clone();
    // The name for the current time is taken.
    assert_eq!(next.candidate(), format!("C:\\snapdrop_test\\SnapDrop_{stamp}.png"));
    assert!(next.step(true).is_none());
    let path = next.step(false).unwrap();
    let name = path.rsplit('\\').next().unwrap();
    assert!(name.starts_with(&format!("SnapDrop_{stamp}_")), "got {name}");
}

#[test]
fn expand_dir_replaces_userprofile() {
    let p = "C:\\Users\\me";
    let d = expand_dir("%USERPROFILE%\\Pictures\\SnapDrop", Some(p));
    assert!(d.starts_with(p));
}

#[test]
fn encode_png_roundtrip() {
    let w = 3u32;
    let h = 2u32;
    let bgra: Vec<u8> = (0..(w * h) as usize)
        .flat_map(|i| {
            let v = (i * 40 % 256) as u8;
            [v, 128, 255 - v, 0]
        })
        .collect();
    let png = encode_png(&bgra, w, h).unwrap();
    assert!(png.starts_with(&[0x89, b'P', b'N', b'G']));
}

#[test]
fn preview_png_1171x964_no_panic() {
    let w = 1171u32;
    let h = 964u32;
    let bgra = vec![0u8; (w * h * 4) as usize];
    let png = preview_png(&bgra, w, h, 512, nearest(w, h, 512));
    assert!(png.is_some(), "preview_png should succeed for 1171x964");
    let png = png.unwrap();
    assert!(png.starts_with(&[0x89, b'P', b'N', b'G']));
    // The preview can be decoded and has the expected proportions.
    let img = image::load_from_memory(&png).unwrap();
    let (tw, th) = img.dimensions();
    assert!(tw <= 512 && th <= 512);
    assert!((tw as i32 - 511).abs() <= 1 && (th as i32 - 421).abs() <= 1);
    assert_eq!((tw, th), (512, 421));
}

#[test]
fn colours_survive_the_file() {
    let bgra = vec![
        255, 0, 0, 0, // blue
        0, 255, 0, 0, // green
        0, 0, 255, 0, // red
        255, 255, 255, 0, // white
    ];
    let png = encode_png(&bgra, 2, 2).unwrap();
    let img = image::load_from_memory(&png).unwrap().to_rgba8();
    assert_eq!(img.get_pixel(0, 0).0, [0, 0, 255, 255]);
    assert_eq!(img.get_pixel(1, 0).0, [0, 255, 0, 255]);
    assert_eq!(img.get_pixel(0, 1).0, [255, 0, 0, 255]);
    assert_eq!(img.get_pixel(1, 1).0, [255, 255, 255, 255]);
}

#[test]
fn empty_pictures_have_no_file() {
    assert_eq!(encode_png(&Vec::new(), 0, 5), Err(PngError::ZeroWidth));
    assert_eq!(encode_png(&Vec::new(), 5, 0), Err(PngError::ZeroHeight));
    assert_eq!(encode_png(&Vec::new(), 0, 0), Err(PngError::ZeroWidth));
}

#[test]
fn previews_need_enough_bytes() {
    assert!(preview_png(&vec![1u8; 15], 2, 2, 512, (0, 0)).is_none());
    assert!(preview_png(&vec![1u8; 16], 2, 2, 512, (0, 0)).is_some());
    assert_eq!(fit_size(512, 512, 512, (1, 1)), (512, 512));
    assert_eq!(fit_size(513, 1, 512, (512, 0)), (512, 1));
}

#[test]
fn a_taken_name_gets_a_suffix() {
    let mut s = next_filename("C:\\shots");
    let first = s.candidate();
    assert!(first.starts_with("C:\\shots\\SnapDrop_"));
    assert!(first.ends_with(".png"));
    let stamp = s.stamp.clone();
    assert_eq!(stamp.len(), 17);
    let marks: Vec<char> = stamp.chars().filter(|c| !c.is_ascii_digit()).collect();
    assert_eq!(marks, vec!['-', '-', '_']);
    assert_eq!(s.step(true), None);
    assert_eq!(s.candidate(), format!("C:\\shots\\SnapDrop_{stamp}_1.png"));
    assert_eq!(s.step(true), None);
    assert_eq!(s.step(false), Some(format!("C:\\shots\\SnapDrop_{stamp}_2.png")));
}

#[test]
fn candidates_differ() {
    let mut s = search_at("d", "now");
    let mut names = vec![s.candidate()];
    for _ in 0..20 {
        s.step(true);
        names.push(s.candidate());
    }
    let mut unique = names.clone();
    unique.sort();
    unique.dedup();
    assert_eq!(unique.len(), names.len());
    assert_eq!(names[0], "d\\SnapDrop_now.png");
    assert_eq!(names[20], "d\\SnapDrop_now_20.png");
}

#[test]
fn the_profile_is_expanded() {
    let p = Some("C:\\Users\\me");
    assert_eq!(expand_dir("%USERPROFILE%\\Pictures\\SnapDrop", p), "C:\\Users\\me\\Pictures\\SnapDrop");
    assert_eq!(expand_dir("%USERPROFILE%\\Pictures", None), "%USERPROFILE%\\Pictures");
    assert_eq!(expand_dir("  D:\\x \t", p), "D:\\x");
    assert_eq!(expand_dir("   ", p), "C:\\Users\\me\\Pictures\\SnapDrop");
    assert_eq!(expand_dir("", None), "Pictures\\SnapDrop");
    assert_eq!(expand_dir("%userprofile%", p), "%userprofile%");
    assert_eq!(expand_dir("%USERPROFILE%%USERPROFILE%", Some("x")), "xx");
}

#[test]
fn paths_are_joined_with_one_separator() {
    assert_eq!(join_path("C:\\a", "b"), "C:\\a\\b");
    assert_eq!(join_path("C:\\a\\", "b"), "C:\\a\\b");
    assert_eq!(join_path("C:/a/", "b"), "C:/a/b");
    assert_eq!(join_path("C:", "b"), "C:b");
    assert_eq!(join_path("1:", "b"), "1:\\b");
    assert_eq!(join_path("", "b"), "b");
}

#[test]
fn unusable_folders_are_told() {
    assert!(ensure_dir_writable("D:\\x", Ok(()), Ok(())).is_ok());
    assert_eq!(
        ensure_dir_writable("D:\\x", Err("denied".to_string()), Ok(())).unwrap_err(),
        "Cannot create folder D:\\x: denied"
    );
    assert_eq!(
        ensure_dir_writable("D:\\x", Ok(()), Err("denied".to_string())).unwrap_err(),
        "Folder D:\\x is not writable: denied"
    );
    assert_eq!(probe_path("D:\\x", 4711), "D:\\x\\.snapdrop_write_test_4711");
}

#[test]
fn recordings_are_named_by_time() {
    assert_eq!(video_path_for("D:\\v", "20260131-235959"), "D:\\v\\SnapDrop_video_20260131-235959.mp4");
    let p = video_path("D:\\v");
    assert_eq!(p.len(), "D:\\v\\SnapDrop_video_20260131-235959.mp4".len());
    assert_eq!(p.chars().nth(28), Some('-'));
}
