use sceneview::color::Rgba8;

#[test]
fn test() {
    let rgba = Rgba8(0xaabbcc77);
    assert_eq!(rgba.r(), 0xaa);
    assert_eq!(rgba.g(), 0xbb);
    assert_eq!(rgba.b(), 0xcc);
    assert_eq!(rgba.a(), 0x77);
    assert_eq!(rgba.to_array(), [0xaa, 0xbb, 0xcc, 0x77]);
}

#[test]
fn channels_of_extremes() {
    let black = Rgba8(0x000000ff);
    assert_eq!(black.to_array(), [0, 0, 0, 0xff]);
    let white = Rgba8(0xffffffff);
    assert_eq!(white.to_array(), [0xff, 0xff, 0xff, 0xff]);
}

#[test]
fn hex_string_round_trip() {
    let c = Rgba8(0xaabbcc77);
    let s = c.to_hex_string();
    assert_eq!(s, "0xaabbcc77");
    assert_eq!(Rgba8::from_hex(&s), Some(c));
    assert_eq!(Rgba8(0).to_hex_string(), "0x00000000");
    assert_eq!(Rgba8(0x0102030f).to_hex_string(), "0x0102030f");
}

#[test]
fn hex_parse_rejects_malformed() {
    assert!(Rgba8::from_hex("").is_none());
    assert!(Rgba8::from_hex("0x123").is_none());
    assert!(Rgba8::from_hex("0xgghhiijj").is_none());
    assert!(Rgba8::from_hex("12aabbcc77").is_none());
    assert!(Rgba8::from_hex("0xAABBCC77").is_none());
    assert_eq!(Rgba8::from_hex("0x00000000"), Some(Rgba8(0)));
    assert_eq!(Rgba8::from_hex("0xffffffff"), Some(Rgba8(0xffffffff)));
}
