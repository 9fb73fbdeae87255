use desktop_buddy::shell::ClearColor;
use desktop_buddy::shell::ColorKey;
use desktop_buddy::shell::HostShell;
use desktop_buddy::shell::MAGIC_COLOUR;

#[test]
fn default_key_has_equal_red_and_blue() {
    let key = ColorKey::new(MAGIC_COLOUR).unwrap();
    assert_eq!(key.rgb(), 0xFFB2FF);
    assert_eq!(key.red(), 0xFF);
    assert_eq!(key.green(), 0xB2);
    assert_eq!(key.blue(), 0xFF);
}

#[test]
fn channels_are_read_from_their_bytes() {
    let key = ColorKey::new(0x12_34_12).unwrap();
    assert_eq!(key.red(), 0x12);
    assert_eq!(key.green(), 0x34);
    assert_eq!(key.blue(), 0x12);
}

#[test]
fn key_reads_the_same_in_both_byte_orders() {
    for rgb in [0x000000u32, 0xFFB2FF, 0x123412, 0x7F007F, 0xFFFFFF, 0x01FF01] {
        let key = ColorKey::new(rgb).unwrap();
        assert_eq!(key.colorref(), rgb);
        assert_eq!(
            key.colorref(),
            (key.blue() as u32) << 16 | (key.green() as u32) << 8 | key.red() as u32
        );
    }
}

#[test]
fn colour_with_unequal_red_and_blue_is_no_key() {
    assert_eq!(ColorKey::new(0xFFB2FE), None);
    assert_eq!(ColorKey::new(0x10B2FF), None);
    assert_eq!(ColorKey::new(0x0000FF), None);
    assert_eq!(ColorKey::new(0xFF0000), None);
}

#[test]
fn colour_with_bits_above_the_channels_is_no_key() {
    assert_eq!(ColorKey::new(0x01_FFB2FF), None);
    assert_eq!(ColorKey::new(0xFF_000000), None);
    assert_eq!(ColorKey::new(u32::MAX), None);
}

#[test]
fn transparent_canvas_is_cleared_to_transparent_black() {
    assert_eq!(
        HostShell::Embedded.clear_color(),
        ClearColor { red: 0, green: 0, blue: 0, alpha: 0 }
    );
}

#[test]
fn keyed_window_is_cleared_to_its_key() {
    let key = ColorKey::new(MAGIC_COLOUR).unwrap();
    assert_eq!(
        HostShell::Standalone { key }.clear_color(),
        ClearColor { red: 0xFF, green: 0xB2, blue: 0xFF, alpha: 0 }
    );
}
