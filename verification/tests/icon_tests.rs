use aimx::icon::{icon_from_decoded, load_icon_rgba, IconImage};

const RGBA_2X2_PNG: [u8; 79] = [
    0x89, 0x50, 0x4e, 0x47, 0x0d, 0x0a, 0x1a, 0x0a, 0x00, 0x00, 0x00, 0x0d,
    0x49, 0x48, 0x44, 0x52, 0x00, 0x00, 0x00, 0x02, 0x00, 0x00, 0x00, 0x02,
    0x08, 0x06, 0x00, 0x00, 0x00, 0x72, 0xb6, 0x0d, 0x24, 0x00, 0x00, 0x00,
    0x16, 0x49, 0x44, 0x41, 0x54, 0x78, 0xda, 0x63, 0xf8, 0xcf, 0xc0, 0xf0,
    0x1f, 0x08, 0x1b, 0x18, 0x40, 0x34, 0x97, 0x88, 0x9c, 0x06, 0x00, 0x36,
    0xa9, 0x04, 0xe1, 0x64, 0xdb, 0x4d, 0x7e, 0x00, 0x00, 0x00, 0x00, 0x49,
    0x45, 0x4e, 0x44, 0xae, 0x42, 0x60, 0x82,
];

const RGB_3X1_PNG: [u8; 75] = [
    0x89, 0x50, 0x4e, 0x47, 0x0d, 0x0a, 0x1a, 0x0a, 0x00, 0x00, 0x00, 0x0d,
    0x49, 0x48, 0x44, 0x52, 0x00, 0x00, 0x00, 0x03, 0x00, 0x00, 0x00, 0x01,
    0x08, 0x02, 0x00, 0x00, 0x00, 0x94, 0x82, 0x83, 0xe3, 0x00, 0x00, 0x00,
    0x12, 0x49, 0x44, 0x41, 0x54, 0x78, 0xda, 0x63, 0x60, 0x64, 0x62, 0x66,
    0x61, 0x65, 0xfb, 0xf5, 0xfb, 0x0f, 0x00, 0x06, 0x61, 0x03, 0x07, 0xf4,
    0x85, 0xf5, 0xe0, 0x00, 0x00, 0x00, 0x00, 0x49, 0x45, 0x4e, 0x44, 0xae,
    0x42, 0x60, 0x82,
];

const MARKER_32X32_PNG: [u8; 150] = [
    0x89, 0x50, 0x4e, 0x47, 0x0d, 0x0a, 0x1a, 0x0a, 0x00, 0x00, 0x00, 0x0d,
    0x49, 0x48, 0x44, 0x52, 0x00, 0x00, 0x00, 0x20, 0x00, 0x00, 0x00, 0x20,
    0x08, 0x06, 0x00, 0x00, 0x00, 0x73, 0x7a, 0x7a, 0xf4, 0x00, 0x00, 0x00,
    0x5d, 0x49, 0x44, 0x41, 0x54, 0x78, 0xda, 0xed, 0x96, 0xc9, 0x09, 0x00,
    0x40, 0x08, 0x03, 0xed, 0xbf, 0x69, 0xb7, 0x02, 0x41, 0x3c, 0xe3, 0x92,
    0x40, 0xde, 0x33, 0x2f, 0x8d, 0x08, 0xc3, 0xc4, 0xa2, 0x46, 0x57, 0xa0,
    0x23, 0x32, 0x1a, 0x6c, 0x0f, 0x5c, 0x8d, 0x76, 0x48, 0xb8, 0xc0, 0x0e,
    0x91, 0x39, 0x78, 0x95, 0x44, 0x0a, 0x5e, 0x21, 0x91, 0x86, 0x1b, 0x12,
    0x37, 0x04, 0xca, 0xe0, 0x51, 0x09, 0x0a, 0x50, 0x60, 0x5d, 0x80, 0x77,
    0x00, 0xe2, 0x14, 0xaf, 0x3f, 0x23, 0x88, 0x77, 0x0c, 0x31, 0x48, 0x20,
    0x26, 0x19, 0xc4, 0x28, 0x85, 0x98, 0xe5, 0xcc, 0x9f, 0x79, 0x10, 0x8a,
    0xbd, 0x5f, 0x5f, 0xa0, 0x19, 0xd9, 0x00, 0x00, 0x00, 0x00, 0x49, 0x45,
    0x4e, 0x44, 0xae, 0x42, 0x60, 0x82,
];

#[test]
fn rgba_picture_is_decoded_pixel_by_pixel() {
    assert_eq!(
        load_icon_rgba(&RGBA_2X2_PNG),
        Some(IconImage {
            rgba: vec![255, 0, 0, 255, 0, 255, 0, 128, 0, 0, 255, 0, 10, 20, 30, 40],
            width: 2,
            height: 2,
        })
    );
}

#[test]
fn rgb_picture_becomes_opaque_rgba() {
    assert_eq!(
        load_icon_rgba(&RGB_3X1_PNG),
        Some(IconImage {
            rgba: vec![1, 2, 3, 255, 4, 5, 6, 255, 250, 251, 252, 255],
            width: 3,
            height: 1,
        })
    );
}

#[test]
fn decoded_icon_differs_from_its_encoding() {
    let icon = load_icon_rgba(&RGBA_2X2_PNG).unwrap();
    assert_ne!(icon.rgba, RGBA_2X2_PNG.to_vec());
    assert_eq!(icon.rgba.len(), 4 * 2 * 2);
}

#[test]
fn bytes_that_are_no_picture_give_no_icon() {
    assert_eq!(load_icon_rgba(b""), None);
    assert_eq!(load_icon_rgba(b"not a picture"), None);
    assert_eq!(load_icon_rgba(&RGBA_2X2_PNG[..20]), None);
}

#[test]
fn icon_needs_four_bytes_for_each_pixel() {
    assert_eq!(
        icon_from_decoded(Some((vec![9; 24], 3, 2))),
        Some(IconImage { rgba: vec![9; 24], width: 3, height: 2 })
    );
    assert_eq!(icon_from_decoded(Some((vec![9; 23], 3, 2))), None);
    assert_eq!(icon_from_decoded(Some((vec![9; 25], 3, 2))), None);
    assert_eq!(icon_from_decoded(Some((vec![9; 24], 2, 2))), None);
    assert_eq!(icon_from_decoded(Some((vec![], 0, 7))), Some(IconImage { rgba: vec![], width: 0, height: 7 }));
    assert_eq!(icon_from_decoded(Some((vec![], u32::MAX, u32::MAX))), None);
    assert_eq!(icon_from_decoded(None), None);
}

#[test]
fn marker_picture_is_decoded_whole() {
    let icon = load_icon_rgba(&MARKER_32X32_PNG).unwrap();
    assert_eq!((icon.width, icon.height), (32, 32));
    assert_eq!(icon.rgba.len(), 4 * 32 * 32);
    let pixel = |x: usize, y: usize| icon.rgba[4 * (32 * y + x)..4 * (32 * y + x) + 4].to_vec();
    assert_eq!(pixel(16, 16), vec![255, 0, 0, 255]);
    assert_eq!(pixel(16, 5), vec![0, 0, 0, 255]);
    assert_eq!(pixel(0, 0), vec![0, 0, 0, 0]);
}
