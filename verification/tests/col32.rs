use media_kit::color::col32::Col32;

#[test]
fn test_to_rgb_hex_string() {
    assert_eq!(Col32::red().to_rgb_hex_string(), "0xff0000");
    assert_eq!(Col32::green().to_rgb_hex_string(), "0x00ff00");
    assert_eq!(Col32::blue().to_rgb_hex_string(), "0x0000ff");
}

#[test]
fn test_from_u32() {
    assert_eq!(Col32::from(0xff0000ff), Col32::red());
    assert_eq!(Col32::from(0x00ff00ff), Col32::green());
    assert_eq!(Col32::from(0x0000ffff), Col32::blue());
}

#[test]
fn test_as_u32() {
    assert_eq!(Col32::red().as_u32(), 0xff0000ff);
    assert_eq!(Col32::green().as_u32(), 0x00ff00ff);
    assert_eq!(Col32::blue().as_u32(), 0x0000ffff);
}

#[test]
fn hex_string_uses_every_digit() {
    assert_eq!(Col32 { r: 0x01, g: 0x23, b: 0x45, a: 0 }.to_rgb_hex_string(), "0x012345");
    assert_eq!(Col32 { r: 0x67, g: 0x89, b: 0xab, a: 9 }.to_rgb_hex_string(), "0x6789ab");
    assert_eq!(Col32 { r: 0xcd, g: 0xef, b: 0x00, a: 255 }.to_rgb_hex_string(), "0xcdef00");
}

#[test]
fn named_colours() {
    assert_eq!(Col32::black(), Col32 { r: 0, g: 0, b: 0, a: 255 });
    assert_eq!(Col32::white(), Col32 { r: 255, g: 255, b: 255, a: 255 });
    assert_eq!(Col32::cyan(), Col32 { r: 0, g: 255, b: 255, a: 255 });
    assert_eq!(Col32::yellow(), Col32 { r: 255, g: 255, b: 0, a: 255 });
    assert_eq!(Col32::magenta(), Col32 { r: 255, g: 0, b: 255, a: 255 });
    assert_eq!(Col32::gray_tone(0x80), Col32 { r: 0x80, g: 0x80, b: 0x80, a: 255 });
    assert_eq!(Col32::default(), Col32 { r: 0, g: 0, b: 0, a: 0 });
}

#[test]
fn pack_and_unpack_are_inverse() {
    for value in [0u32, 1, 0x0102_0304, 0xdead_beef, u32::MAX] {
        assert_eq!(Col32::from(value).as_u32(), value);
        assert_eq!(u32::from(Col32::from(value)), value);
    }
    let c = Col32 { r: 1, g: 2, b: 3, a: 4 };
    assert_eq!(c.as_u32(), 0x0102_0304);
    assert_eq!(Col32::from(c.as_u32()), c);
}
