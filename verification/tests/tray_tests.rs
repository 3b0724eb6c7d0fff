use kmouse::tray::{
    exit_label, menu_choice, mouse_icon_masks, opens_menu, set_mask_pixel, tip_text,
    toggle_label, MenuChoice, EXIT_COMMAND_ID, ICON_MASK_LEN, TOGGLE_MODE_COMMAND_ID,
    TRAY_CALLBACK_MESSAGE, WM_APP, WM_RBUTTONUP,
};
use windows_sys::Win32::UI::WindowsAndMessaging as wm;

fn pixel(mask: &[u8], x: usize, y: usize) -> bool {
    mask[y * 4 + x / 8] & (0x80 >> (x % 8)) != 0
}

fn in_body(x: i32, y: i32) -> bool {
    let dx = x - 15;
    let dy = y - 15;
    (2..30).contains(&y) && (8..24).contains(&x) && dx * dx * 4 + dy * dy <= 225
}

fn on_outline(x: i32, y: i32) -> bool {
    let dx = x - 15;
    let dy = y - 15;
    dx * dx * 4 + dy * dy >= 169 || (x == 15 && (5..11).contains(&y)) || (y == 12 && (9..23).contains(&x))
}

#[test]
fn message_constants_match_windows() {
    assert_eq!(WM_APP, wm::WM_APP);
    assert_eq!(WM_RBUTTONUP, wm::WM_RBUTTONUP);
    assert_eq!(TRAY_CALLBACK_MESSAGE, wm::WM_APP + 1);
}

#[test]
fn texts() {
    assert_eq!(tip_text(true), "KMouse - 鼠标模式已启动");
    assert_eq!(tip_text(false), "KMouse - 鼠标模式未启动");
    assert_eq!(toggle_label(true), "关闭鼠标模式");
    assert_eq!(toggle_label(false), "启动鼠标模式");
    assert_eq!(exit_label(), "退出");
}

#[test]
fn menu_decisions() {
    assert!(opens_menu(TRAY_CALLBACK_MESSAGE, WM_RBUTTONUP));
    assert!(!opens_menu(TRAY_CALLBACK_MESSAGE, 0x0202));
    assert!(!opens_menu(wm::WM_PAINT, WM_RBUTTONUP));
    assert_eq!(menu_choice(TOGGLE_MODE_COMMAND_ID), MenuChoice::ToggleMouseMode);
    assert_eq!(menu_choice(EXIT_COMMAND_ID), MenuChoice::Exit);
    assert_eq!(menu_choice(0), MenuChoice::Nothing);
    assert_eq!(menu_choice(7), MenuChoice::Nothing);
}

#[test]
fn set_and_clear_one_pixel() {
    let mut mask = vec![0u8; ICON_MASK_LEN];
    set_mask_pixel(&mut mask, 9, 3, true);
    assert_eq!(mask[13], 0x40);
    assert_eq!(mask.iter().filter(|b| **b != 0).count(), 1);
    let mut full = vec![0xffu8; ICON_MASK_LEN];
    set_mask_pixel(&mut full, 31, 31, false);
    assert_eq!(full[127], 0xfe);
    assert_eq!(full.iter().filter(|b| **b != 0xff).count(), 1);
}

#[test]
fn set_pixel_on_any_in_bounds_slice() {
    let mut full = [0xffu8; 128];
    set_mask_pixel(&mut full, 0, 0, false);
    assert_eq!(full[0], 0x7f);
    let mut short = [0u8; 6];
    set_mask_pixel(&mut short, 13, 1, true);
    assert_eq!(short, [0, 0, 0, 0, 0, 0x04]);
    let mut wide_x = [0u8; 3];
    set_mask_pixel(&mut wide_x, 16, 0, true);
    assert_eq!(wide_x, [0, 0, 0x80]);
}

#[test]
fn icon_masks_draw_the_mouse() {
    for active in [false, true] {
        let (and_mask, xor_mask) = mouse_icon_masks(active);
        assert_eq!(and_mask.len(), ICON_MASK_LEN);
        assert_eq!(xor_mask.len(), ICON_MASK_LEN);
        for y in 0..32 {
            for x in 0..32 {
                let body = in_body(x as i32, y as i32);
                assert_eq!(pixel(&and_mask, x, y), !body);
                let white = if active { on_outline(x as i32, y as i32) } else { !on_outline(x as i32, y as i32) };
                assert_eq!(pixel(&xor_mask, x, y), body && white);
            }
        }
    }
}

#[test]
fn icon_states_differ() {
    let (and_off, xor_off) = mouse_icon_masks(false);
    let (and_on, xor_on) = mouse_icon_masks(true);
    assert_eq!(and_off, and_on);
    assert_ne!(xor_off, xor_on);
    // The centre of the body is white when off and black when on.
    assert!(pixel(&xor_off, 15, 15));
    assert!(!pixel(&xor_on, 15, 15));
    assert!(!pixel(&and_on, 15, 15));
    // The corners stay transparent.
    assert!(pixel(&and_on, 0, 0) && pixel(&and_on, 31, 31));
}
