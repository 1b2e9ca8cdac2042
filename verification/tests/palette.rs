use sierpinski_carpet::color::Color;
use sierpinski_carpet::palette::Colors;

const BLACK: Color = Color { r: 0, g: 0, b: 0 };
const WHITE: Color = Color { r: 255, g: 255, b: 255 };

fn rgb(r: u8, g: u8, b: u8) -> Color {
    Color { r, g, b }
}

#[test]
fn classic_contrast_is_white_on_black() {
    let colors = Colors::get_colors(1);
    assert_eq!(colors.name, "Classic_Contrast");
    assert_eq!(colors.background, BLACK);
    assert_eq!(colors.layers, vec![WHITE]);
}

#[test]
fn inverted_classic_is_black_on_white() {
    let colors = Colors::get_colors(2);
    assert_eq!(colors.name, "Inverted_Classic");
    assert_eq!(colors.background, WHITE);
    assert_eq!(colors.layers, vec![BLACK]);
}

#[test]
fn the_table_holds_six_schemes_and_a_default() {
    let gold = Colors::get_colors(3);
    assert_eq!(gold.name, "Gold_Velvet");
    assert_eq!(gold.background, rgb(63, 63, 116));
    assert_eq!(gold.layers, vec![rgb(255, 188, 66), rgb(209, 74, 80)]);

    let earthy = Colors::get_colors(4);
    assert_eq!(earthy.name, "Earthy_Tones");
    assert_eq!(earthy.background, rgb(85, 98, 112));
    assert_eq!(earthy.layers, vec![rgb(255, 193, 87), rgb(54, 179, 126), rgb(194, 62, 62)]);

    let harmony = Colors::get_colors(5);
    assert_eq!(harmony.name, "Contrast_Harmony");
    assert_eq!(harmony.background, rgb(33, 33, 33));
    assert_eq!(harmony.layers, vec![rgb(239, 108, 0), rgb(181, 181, 181)]);

    let bold = Colors::get_colors(6);
    assert_eq!(bold.name, "Bold_Neutrals");
    assert_eq!(bold.background, rgb(64, 64, 64));
    assert_eq!(bold.layers, vec![rgb(255, 145, 0), rgb(255, 188, 66), rgb(0, 0, 0)]);

    let duo = Colors::get_colors(7);
    assert_eq!(duo.name, "Sophisticated_Duo");
    assert_eq!(duo.background, rgb(48, 63, 159));
    assert_eq!(duo.layers, vec![rgb(244, 143, 177), rgb(242, 203, 68)]);
}

#[test]
fn an_unknown_selector_gives_the_default() {
    for option in [0, 7, 99, u32::MAX] {
        let colors = Colors::get_colors(option);
        assert_eq!(colors.name, "Sophisticated_Duo");
        assert_eq!(colors.background, rgb(48, 63, 159));
        assert_eq!(colors.layers, vec![rgb(244, 143, 177), rgb(242, 203, 68)]);
    }
}

#[test]
fn the_same_selector_gives_the_same_scheme() {
    for option in 0..10 {
        let first = Colors::get_colors(option);
        let second = Colors::get_colors(option);
        assert_eq!(first.name, second.name);
        assert_eq!(first.background, second.background);
        assert_eq!(first.layers, second.layers);
    }
}

#[test]
fn names_are_distinct_and_safe_in_a_file_name() {
    let names: Vec<String> = (1..=7).map(|option| Colors::get_colors(option).name).collect();
    for (i, name) in names.iter().enumerate() {
        assert!(!name.is_empty());
        assert!(name.chars().all(|c| c.is_ascii_alphanumeric() || c == '_'));
        for other in &names[i + 1..] {
            assert_ne!(name, other);
        }
    }
}

#[test]
fn every_scheme_has_a_layer() {
    for option in 0..10 {
        assert!(!Colors::get_colors(option).layers.is_empty());
    }
}

#[test]
fn layers_are_used_in_turn() {
    let colors = Colors::get_colors(4);
    assert_eq!(colors.get_layer_color(0), rgb(255, 193, 87));
    assert_eq!(colors.get_layer_color(1), rgb(54, 179, 126));
    assert_eq!(colors.get_layer_color(2), rgb(194, 62, 62));
    assert_eq!(colors.get_layer_color(3), rgb(255, 193, 87));
    assert_eq!(colors.get_layer_color(7), rgb(54, 179, 126));
    let single = Colors::get_colors(1);
    assert_eq!(single.get_layer_color(0), WHITE);
    assert_eq!(single.get_layer_color(12345), WHITE);
}

#[test]
fn a_color_keeps_its_channels() {
    let color = Color::new(1, 2, 3);
    assert_eq!(color, Color { r: 1, g: 2, b: 3 });
    assert_ne!(color, Color { r: 3, g: 2, b: 1 });
}
