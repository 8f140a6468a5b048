use here::colorize_ext::{paint, ColorizeExt, Painted, Tint};

#[test]
fn crimson_is_220_20_60() {
    assert_eq!(
        "[Error]".crimson(),
        Painted { text: "[Error]".to_owned(), tint: Tint::TrueColor { r: 220, g: 20, b: 60 } }
    );
}

#[test]
fn salmon_is_250_128_128() {
    assert_eq!(
        "/home/me".salmon(),
        Painted { text: "/home/me".to_owned(), tint: Tint::TrueColor { r: 250, g: 128, b: 128 } }
    );
}

#[test]
fn gray_is_128_128_128() {
    assert_eq!(
        "is".gray(),
        Painted { text: "is".to_owned(), tint: Tint::TrueColor { r: 128, g: 128, b: 128 } }
    );
}

#[test]
fn orange_is_255_165_0() {
    assert_eq!(
        "[Warning]".orange(),
        Painted { text: "[Warning]".to_owned(), tint: Tint::TrueColor { r: 255, g: 165, b: 0 } }
    );
}

#[test]
fn paint_keeps_text_and_tint() {
    assert_eq!(
        paint("x y", Tint::Cyan),
        Painted { text: "x y".to_owned(), tint: Tint::Cyan }
    );
    assert_eq!(paint("", Tint::White).text, "");
    assert_eq!(paint("a", Tint::BrightWhite).tint, Tint::BrightWhite);
}
