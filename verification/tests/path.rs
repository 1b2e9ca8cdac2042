use sierpinski_carpet::palette::Colors;
use sierpinski_carpet::path::{get_image_path, push_decimal};

#[test]
fn the_path_names_steps_and_scheme() {
    assert_eq!(
        get_image_path(3, "Classic_Contrast"),
        "./sierpinski_carpet-3-Classic_Contrast.png"
    );
    assert_eq!(get_image_path(0, "Gold_Velvet"), "./sierpinski_carpet-0-Gold_Velvet.png");
    assert_eq!(get_image_path(10, "x"), "./sierpinski_carpet-10-x.png");
    assert_eq!(get_image_path(4294967295, ""), "./sierpinski_carpet-4294967295-.png");
}

#[test]
fn the_path_of_a_scheme_from_the_table() {
    let colors = Colors::get_colors(2);
    assert_eq!(get_image_path(6, &colors.name), "./sierpinski_carpet-6-Inverted_Classic.png");
    let colors = Colors::get_colors(99);
    assert_eq!(get_image_path(12, &colors.name), "./sierpinski_carpet-12-Sophisticated_Duo.png");
}

#[test]
fn the_path_agrees_with_formatting() {
    for steps in [0u32, 1, 9, 10, 11, 99, 100, 101, 1000, 65535, 1_000_000, u32::MAX - 1] {
        let expected = format!("./sierpinski_carpet-{}-{}.png", steps, "Earthy_Tones");
        assert_eq!(get_image_path(steps, "Earthy_Tones"), expected);
    }
}

#[test]
fn decimal_numerals_are_appended() {
    let mut text = String::from("n=");
    push_decimal(&mut text, 0);
    assert_eq!(text, "n=0");
    push_decimal(&mut text, 7);
    assert_eq!(text, "n=07");
    push_decimal(&mut text, 120);
    assert_eq!(text, "n=07120");
    push_decimal(&mut text, u32::MAX);
    assert_eq!(text, "n=071204294967295");
}
