use mac_spaces::tray::create_default_icon;
use mac_spaces::tray::TrayEvent;
use mac_spaces::tray::ICON_SIZE;

fn pixel(rgba: &[u8], x: usize, y: usize) -> (u8, u8, u8, u8) {
    let base = (y * ICON_SIZE + x) * 4;
    (rgba[base], rgba[base + 1], rgba[base + 2], rgba[base + 3])
}

#[test]
fn icon_has_full_rgba_payload() {
    let rgba = create_default_icon();
    assert_eq!(rgba.len(), ICON_SIZE * ICON_SIZE * 4);
}

#[test]
fn icon_border_is_dark_blue_and_fill_light_blue() {
    let rgba = create_default_icon();
    // Corners and edges carry the border colour.
    assert_eq!(pixel(&rgba, 0, 0), (0x00, 0x50, 0xA0, 0xFF));
    assert_eq!(pixel(&rgba, 15, 0), (0x00, 0x50, 0xA0, 0xFF));
    assert_eq!(pixel(&rgba, 0, 15), (0x00, 0x50, 0xA0, 0xFF));
    assert_eq!(pixel(&rgba, 15, 15), (0x00, 0x50, 0xA0, 0xFF));
    assert_eq!(pixel(&rgba, 7, 0), (0x00, 0x50, 0xA0, 0xFF));
    assert_eq!(pixel(&rgba, 0, 7), (0x00, 0x50, 0xA0, 0xFF));
    // Interior pixels carry the fill colour.
    assert_eq!(pixel(&rgba, 1, 1), (0x40, 0x80, 0xE0, 0xFF));
    assert_eq!(pixel(&rgba, 8, 8), (0x40, 0x80, 0xE0, 0xFF));
    assert_eq!(pixel(&rgba, 14, 14), (0x40, 0x80, 0xE0, 0xFF));
}

#[test]
fn icon_is_fully_opaque() {
    let rgba = create_default_icon();
    for y in 0..ICON_SIZE {
        for x in 0..ICON_SIZE {
            assert_eq!(pixel(&rgba, x, y).3, 0xFF);
        }
    }
}

#[test]
fn tray_events_are_distinct() {
    let events = [
        TrayEvent::ShowInfo,
        TrayEvent::ShowRegistry,
        TrayEvent::ToggleDebug,
        TrayEvent::Reload,
        TrayEvent::Exit,
    ];
    for (i, a) in events.iter().enumerate() {
        for (j, b) in events.iter().enumerate() {
            assert_eq!(a == b, i == j);
        }
    }
}
