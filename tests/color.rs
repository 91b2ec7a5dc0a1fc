use conez_api::color::{hsv_to_rgb, rgb_b, rgb_g, rgb_r, Rgb};

#[test]
fn pure_red_from_hsv() {
    let p = hsv_to_rgb(0, 255, 255);
    assert_eq!((rgb_r(p), rgb_g(p), rgb_b(p)), (255, 0, 0));
    assert_eq!(p, 0xFF0000);
}

#[test]
fn unpack_channels() {
    let p = 0x12_34_56;
    assert_eq!(rgb_r(p), 0x12);
    assert_eq!(rgb_g(p), 0x34);
    assert_eq!(rgb_b(p), 0x56);
}

#[test]
fn unpack_ignores_high_byte() {
    assert_eq!(rgb_r(-1), 255);
    assert_eq!(rgb_g(-1), 255);
    assert_eq!(rgb_b(-1), 255);
    let p = 0x7F_01_02_03;
    assert_eq!((rgb_r(p), rgb_g(p), rgb_b(p)), (1, 2, 3));
}

#[test]
fn pack_then_unpack() {
    let c = Rgb { r: 200, g: 17, b: 0 };
    let p = c.pack();
    assert_eq!(p, 200 * 65536 + 17 * 256);
    assert_eq!(Rgb::unpack(p), c);
}

#[test]
fn hsv_grey_without_saturation() {
    assert_eq!(hsv_to_rgb(123, 0, 77), 77 * 65536 + 77 * 256 + 77);
}

#[test]
fn hsv_black_without_value() {
    assert_eq!(hsv_to_rgb(200, 255, 0), 0);
}

#[test]
fn hsv_sectors() {
    // hue 85 is the start of the green third, 171 of the blue third
    let g = hsv_to_rgb(86, 255, 255);
    assert_eq!(rgb_g(g), 255);
    assert_eq!(rgb_b(g), 0);
    let b = hsv_to_rgb(172, 255, 255);
    assert_eq!(rgb_b(b), 255);
    assert_eq!(rgb_g(b), 0);
}

#[test]
fn hsv_reads_low_byte() {
    assert_eq!(hsv_to_rgb(256, 255 + 256, 255), hsv_to_rgb(0, 255, 255));
}
