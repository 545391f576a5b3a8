use clear_view::gfx::{pick_format, TextureUpload, WgpuState};

#[test]
fn the_captured_format_is_preferred() {
    assert_eq!(pick_format(&vec![false, true, true]), 1);
    assert_eq!(pick_format(&vec![true]), 0);
    assert_eq!(pick_format(&vec![false, false, true]), 2);
    assert_eq!(pick_format(&vec![false, false]), 0);
}

#[test]
fn surfaces_are_never_empty() {
    let mut s = WgpuState::new(0, 5, 1920, 1080);
    assert_eq!(s, WgpuState { surface_w: 16, surface_h: 16, tex_w: 1920, tex_h: 1080 });
    s.resize(0, 300);
    assert_eq!(s, WgpuState { surface_w: 16, surface_h: 300, tex_w: 1920, tex_h: 1080 });
    s.resize(17, 15);
    assert_eq!((s.surface_w, s.surface_h), (17, 16));
    s.recreate_frame_texture(640, 480);
    assert_eq!((s.tex_w, s.tex_h), (640, 480));
}

#[test]
fn frames_of_another_size_are_skipped() {
    let s = WgpuState::new(800, 600, 1920, 1080);
    assert_eq!(
        s.upload_frame(1920, 1080),
        Some(TextureUpload { bytes_per_row: 7680, width: 1920, height: 1080 })
    );
    assert_eq!(s.upload_frame(1080, 1920), None);
    assert_eq!(s.upload_frame(1920, 1079), None);
}

#[test]
fn crop_bytes_are_the_numbers_in_order() {
    let s = WgpuState::new(1, 1, 1, 1);
    let crop = [0.25f32, -1.0, 0.5, 3.0e7];
    let words = crop.map(|f| f.to_ne_bytes());
    let bytes = s.write_crop(&words);
    for (i, f) in crop.iter().enumerate() {
        assert_eq!(bytes[i * 4..(i + 1) * 4], f.to_ne_bytes());
    }
}

#[test]
fn uniform_bytes_are_crop_and_settings() {
    let s = WgpuState::new(1, 1, 1, 1);
    let words = [[1, 2, 3, 4], [5, 6, 7, 8], [9, 10, 11, 12], [13, 14, 15, 16]];
    let more = [[17, 18, 19, 20], [21, 22, 23, 24], [25, 26, 27, 28], [29, 30, 31, 32]];
    let expected: Vec<u8> = (1..=32).collect();
    assert_eq!(s.write_uniforms(&words, &more), expected);
}

#[test]
fn rows_of_another_size_need_not_be_countable() {
    let s = WgpuState::new(800, 600, 0x4000_0000, 1);
    assert!(!s.is_row_countable(0x4000_0000, 1));
    assert!(s.is_row_countable(0x4000_0000, 2));
    assert!(s.is_row_countable(u32::MAX, 1));
    assert_eq!(s.upload_frame(u32::MAX, 1), None);
    assert!(WgpuState::new(1, 1, 0x3fff_ffff, 1).is_row_countable(0x3fff_ffff, 1));
}
