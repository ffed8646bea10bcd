use rt::color::Color;

#[test]
fn black_has_every_channel_at_zero() {
    assert_eq!(Color::black(), Color { r: 0, g: 0, b: 0 });
}

#[test]
fn white_has_every_channel_at_max() {
    assert_eq!(Color::white(), Color { r: 255, g: 255, b: 255 });
}

#[test]
fn default_color_is_black() {
    assert_eq!(Color::default(), Color::black());
}

#[test]
fn add_sums_each_channel() {
    let a = Color { r: 10, g: 20, b: 30 };
    let b = Color { r: 1, g: 2, b: 3 };
    assert_eq!(a + b, Color { r: 11, g: 22, b: 33 });
}

#[test]
fn add_saturates_instead_of_wrapping() {
    let a = Color { r: 200, g: 255, b: 254 };
    let b = Color { r: 100, g: 1, b: 1 };
    assert_eq!(a + b, Color { r: 255, g: 255, b: 255 });
}

#[test]
fn add_reaching_max_exactly() {
    let a = Color { r: 128, g: 0, b: 55 };
    let b = Color { r: 127, g: 0, b: 200 };
    assert_eq!(a + b, Color { r: 255, g: 0, b: 255 });
}

#[test]
fn add_white_stays_white() {
    assert_eq!(Color::white() + Color::white(), Color::white());
}
