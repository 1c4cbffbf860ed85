use ws_frame::{Color, FormatStyle};

#[test]
fn test_colors_to_string() {
    assert_eq!(Color::Red.to_string(), "red");
    assert_eq!(Color::Blue.to_string(), "blue");
    assert_eq!(Color::Green.to_string(), "green");
    assert_eq!(Color::Yellow.to_string(), "yellow");
    assert_eq!(Color::Magenta.to_string(), "magenta");
    assert_eq!(Color::Cyan.to_string(), "cyan");
    assert_eq!(Color::White.to_string(), "white");
    assert_eq!(Color::Black.to_string(), "black");
}

#[test]
fn default_theme() {
    let style = FormatStyle::new();
    assert_eq!(style.border_color, Color::Cyan);
    assert_eq!(style.tick_mark_color, Color::Green);
    assert_eq!(style.unmasked_payload_bit_color, Color::Yellow);
    assert_eq!(style.byte_value_color, Color::Blue);
    assert_eq!(style.data_value_color, Color::Red);
    assert_eq!(style.notes_color, Color::Magenta);
}
