//! The tray icon's picture, texts and menu decisions.
//!
//! The tray needs a hidden window that receives the shell's callback
//! messages. Its right-click menu switches mouse mode or quits; the icon and
//! the tip text follow the mouse mode.

use vstd::prelude::*;

verus! {

/// `WM_APP`, the first message number free for applications.
pub const WM_APP: u32 = 0x8000;
/// `WM_RBUTTONUP`, the release of the right mouse button.
pub const WM_RBUTTONUP: u32 = 0x0205;

/// Identifier of the tray icon within its hidden window.
pub const TRAY_ICON_ID: u32 = 1;
/// The message that the shell sends to the hidden window on mouse events over the icon.
pub const TRAY_CALLBACK_MESSAGE: u32 = WM_APP + 1;
/// Command identifier of the "quit" menu item.
pub const EXIT_COMMAND_ID: usize = 1;
/// Command identifier of the "switch mouse mode" menu item.
pub const TOGGLE_MODE_COMMAND_ID: usize = 2;

/// Width and height of the tray icon in pixels.
pub const ICON_SIZE: usize = 32;
/// Bytes per row of a monochrome icon mask.
pub const ICON_ROW_BYTES: usize = 4;
/// Bytes of a monochrome icon mask.
pub const ICON_MASK_LEN: usize = 128;

/// What the tray menu asks for.
#[derive(Clone, Copy, Debug, PartialEq, Eq, Structural)]
pub enum MenuChoice {
    /// Switch mouse mode.
    ToggleMouseMode,
    /// Quit the application.
    Exit,
    /// The menu was dismissed.
    Nothing,
}

/// The tip shown over the tray icon.
pub fn tip_text(active: bool) -> (s: &'static str)
    ensures
        s@ == if active {
            "KMouse - 鼠标模式已启动"@
        } else {
            "KMouse - 鼠标模式未启动"@
        },
{
    if active {
        "KMouse - 鼠标模式已启动"
    } else {
        "KMouse - 鼠标模式未启动"
    }
}

/// The label of the menu item that switches mouse mode: it offers the
/// opposite of the current mode.
pub fn toggle_label(active: bool) -> (s: &'static str)
    ensures
        s@ == if active {
            "关闭鼠标模式"@
        } else {
            "启动鼠标模式"@
        },
{
    if active {
        "关闭鼠标模式"
    } else {
        "启动鼠标模式"
    }
}

/// The label of the menu item that quits.
pub fn exit_label() -> (s: &'static str)
    ensures
        s@ == "退出"@,
{
    "退出"
}

/// Whether a message to the hidden tray window asks for the menu: the
/// shell's callback carrying a right-button release over the icon.
pub fn opens_menu(message: u32, mouse_event: u32) -> (b: bool)
    ensures
        b == (message == TRAY_CALLBACK_MESSAGE && mouse_event == WM_RBUTTONUP),
{
    message == TRAY_CALLBACK_MESSAGE && mouse_event == WM_RBUTTONUP
}

/// The choice that a menu command stands for.
pub fn menu_choice(command: usize) -> (c: MenuChoice)
    ensures
        c == if command == TOGGLE_MODE_COMMAND_ID {
            MenuChoice::ToggleMouseMode
        } else if command == EXIT_COMMAND_ID {
            MenuChoice::Exit
        } else {
            MenuChoice::Nothing
        },
{
    if command == TOGGLE_MODE_COMMAND_ID {
        MenuChoice::ToggleMouseMode
    } else if command == EXIT_COMMAND_ID {
        MenuChoice::Exit
    } else {
        MenuChoice::Nothing
    }
}

/// Bit `x % 8` of a mask byte, counted from the most significant bit.
pub open spec fn bit_of(byte: u8, x: int) -> bool {
    (byte >> ((7 - x % 8) as u8)) & 1u8 == 1u8
}

/// The byte of a mask that holds pixel `(x, y)`.
pub open spec fn pixel_byte(x: int, y: int) -> int {
    y * 4 + x / 8
}

/// Pixel `(x, y)` of a 32x32 monochrome mask.
pub open spec fn pixel(mask: Seq<u8>, x: int, y: int) -> bool {
    bit_of(mask[pixel_byte(x, y)], x)
}

pub open spec fn on_icon(x: int, y: int) -> bool {
    0 <= x < 32 && 0 <= y < 32
}

/// Setting or clearing one bit of a byte leaves the other bits alone.
proof fn lemma_bit_update(v: u8, k: u8, j: u8)
    requires
        k < 8,
        j < 8,
    ensures
        ((v | (0x80u8 >> k)) >> (7 - j) as u8) & 1u8 == if j == k { 1u8 } else { (v >> (7 - j) as u8) & 1u8 },
        ((v & !(0x80u8 >> k)) >> (7 - j) as u8) & 1u8 == if j == k { 0u8 } else { (v >> (7 - j) as u8) & 1u8 },
{
    assert(((v | (0x80u8 >> k)) >> (7 - j) as u8) & 1u8 == if j == k { 1u8 } else { (v >> (7 - j) as u8) & 1u8 }) by (bit_vector)
        requires
            k < 8,
            j < 8,
    ;
    assert(((v & !(0x80u8 >> k)) >> (7 - j) as u8) & 1u8 == if j == k { 0u8 } else { (v >> (7 - j) as u8) & 1u8 }) by (bit_vector)
        requires
            k < 8,
            j < 8,
    ;
}

/// Every bit of 0xff is set and every bit of 0 is clear.
proof fn lemma_full_and_empty_bytes(j: u8)
    requires
        j < 8,
    ensures
        (0xffu8 >> (7 - j) as u8) & 1u8 == 1u8,
        (0u8 >> (7 - j) as u8) & 1u8 == 0u8,
{
    assert((0xffu8 >> (7 - j) as u8) & 1u8 == 1u8) by (bit_vector)
        requires
            j < 8,
    ;
    assert((0u8 >> (7 - j) as u8) & 1u8 == 0u8) by (bit_vector)
        requires
            j < 8,
    ;
}

/// The bit of pixel column `x` within its mask byte.
pub open spec fn pixel_bit(x: int) -> u8 {
    0x80u8 >> ((x % 8) as u8)
}

/// The mask byte `old` with the bit of column `x` set or cleared.
pub open spec fn with_pixel(old: u8, x: int, enabled: bool) -> u8 {
    if enabled {
        old | pixel_bit(x)
    } else {
        old & !pixel_bit(x)
    }
}

/// Sets pixel `(x, y)` of a monochrome mask with 4-byte rows to `enabled`:
/// byte `y * 4 + x / 8` gets bit `0x80 >> (x % 8)` set or cleared, and every
/// other byte keeps its value. On a 32x32 mask this changes exactly that
/// pixel.
pub fn set_mask_pixel(mask: &mut [u8], x: usize, y: usize, enabled: bool)
    requires
        pixel_byte(x as int, y as int) < old(mask)@.len(),
    ensures
        final(mask)@ == old(mask)@.update(
            pixel_byte(x as int, y as int),
            with_pixel(old(mask)@[pixel_byte(x as int, y as int)], x as int, enabled),
        ),
        old(mask)@.len() == ICON_MASK_LEN && x < ICON_SIZE && y < ICON_SIZE ==> forall|px: int, py: int|
            on_icon(px, py) ==> #[trigger] pixel(final(mask)@, px, py) == if px == x && py == y {
                enabled
            } else {
                pixel(old(mask)@, px, py)
            },
{
    let index = y * 4 + x / 8;
    let bit: u8 = 0x80u8 >> ((x % 8) as u8);
    let old_byte = mask[index];
    if enabled {
        mask[index] = old_byte | bit;
    } else {
        mask[index] = old_byte & !bit;
    }
    assert forall|px: int, py: int|
        old(mask)@.len() == ICON_MASK_LEN && x < ICON_SIZE && y < ICON_SIZE && on_icon(
            px,
            py,
        ) implies #[trigger] pixel(mask@, px, py) == if px == x && py == y {
        enabled
    } else {
        pixel(old(mask)@, px, py)
    } by {
        let b = pixel_byte(px, py);
        if b == index {
            assert(py == y && px / 8 == x / 8);
            lemma_bit_update(old_byte, (x % 8) as u8, (px % 8) as u8);
        }
    }
}

/// `(x, y)` lies in the body of the mouse shape, an ellipse.
pub open spec fn in_body(x: int, y: int) -> bool {
    let dx = x - 15;
    let dy = y - 15;
    &&& 2 <= y < 30
    &&& 8 <= x < 24
    &&& dx * dx * 4 + dy * dy <= 15 * 15
}

/// `(x, y)` lies on the outline, the wheel or the button divider of the shape.
pub open spec fn on_outline(x: int, y: int) -> bool {
    let dx = x - 15;
    let dy = y - 15;
    let boundary = dx * dx * 4 + dy * dy >= 13 * 13;
    let wheel_line = x == 15 && 5 <= y < 11;
    let button_line = y == 12 && 9 <= x < 23;
    boundary || wheel_line || button_line
}

/// Whether a body pixel is white: the outline in the active picture, the
/// inside in the inactive one, so that the two are easy to tell apart.
pub open spec fn is_white(active: bool, x: int, y: int) -> bool {
    if active {
        on_outline(x, y)
    } else {
        !on_outline(x, y)
    }
}

/// The two pictures swap the shades: every body pixel that is white in one
/// is black in the other, while the shape itself is the same.
pub proof fn lemma_states_swap_shades(x: int, y: int)
    ensures
        is_white(true, x, y) == !is_white(false, x, y),
{
}

/// The mouse body is symmetric about the column x = 15, lies within columns
/// 8..23 and rows 2..29, and holds its centre pixel (15, 15) and the whole
/// middle column from row 2 to row 29.
pub proof fn lemma_body_shape(x: int, y: int)
    ensures
        in_body(x, y) == in_body(30 - x, y),
        in_body(x, y) ==> 8 <= x < 23 && 2 <= y < 30,
        2 <= y < 30 ==> in_body(15, y),
        in_body(15, 15),
{
    let dx = x - 15;
    let dy = y - 15;
    assert((30 - x - 15) * (30 - x - 15) == dx * dx) by (nonlinear_arith)
        requires
            dx == x - 15,
    ;
    assert(dy * dy >= 0) by (nonlinear_arith);
    assert(dx * dx * 4 + dy * dy <= 225 ==> -7 <= dx <= 7) by (nonlinear_arith)
        requires
            dy * dy >= 0,
    ;
    assert(2 <= y < 30 ==> dy * dy <= 225) by (nonlinear_arith)
        requires
            dy == y - 15,
    ;
}

/// The AND and XOR masks of the tray icon. The AND mask is transparent
/// outside the mouse body and opaque inside; the XOR mask makes opaque pixels
/// white or black.
pub fn mouse_icon_masks(active: bool) -> (masks: (Vec<u8>, Vec<u8>))
    ensures
        masks.0@.len() == ICON_MASK_LEN,
        masks.1@.len() == ICON_MASK_LEN,
        forall|x: int, y: int| on_icon(x, y) ==> #[trigger] pixel(masks.0@, x, y) == !in_body(x, y),
        forall|x: int, y: int|
            on_icon(x, y) ==> #[trigger] pixel(masks.1@, x, y) == (in_body(x, y) && is_white(active, x, y)),
{
    // The AND mask starts fully transparent; the XOR mask picks white or
    // black for the opaque pixels.
    let mut and_mask: Vec<u8> = Vec::new();
    let mut xor_mask: Vec<u8> = Vec::new();
    let mut k: usize = 0;
    while k < ICON_MASK_LEN
        invariant
            k <= ICON_MASK_LEN,
            and_mask@.len() == k,
            xor_mask@.len() == k,
            forall|i: int| 0 <= i < k ==> #[trigger] and_mask@[i] == 0xffu8,
            forall|i: int| 0 <= i < k ==> #[trigger] xor_mask@[i] == 0u8,
        decreases ICON_MASK_LEN - k,
    {
        and_mask.push(0xffu8);
        xor_mask.push(0u8);
        k = k + 1;
    }
    assert forall|x: int, y: int| on_icon(x, y) implies #[trigger] pixel(and_mask@, x, y) by {
        lemma_full_and_empty_bytes((x % 8) as u8);
    }
    assert forall|x: int, y: int| on_icon(x, y) implies !#[trigger] pixel(xor_mask@, x, y) by {
        lemma_full_and_empty_bytes((x % 8) as u8);
    }

    let mut y: usize = 2;
    while y < 30
        invariant
            2 <= y <= 30,
            and_mask@.len() == ICON_MASK_LEN,
            xor_mask@.len() == ICON_MASK_LEN,
            forall|px: int, py: int|
                on_icon(px, py) ==> #[trigger] pixel(and_mask@, px, py) == !(py < y && in_body(px, py)),
            forall|px: int, py: int|
                on_icon(px, py) ==> #[trigger] pixel(xor_mask@, px, py) == (py < y && in_body(px, py)
                    && is_white(active, px, py)),
        decreases 30 - y,
    {
        let mut x: usize = 8;
        while x < 24
            invariant
                2 <= y < 30,
                8 <= x <= 24,
                and_mask@.len() == ICON_MASK_LEN,
                xor_mask@.len() == ICON_MASK_LEN,
                forall|px: int, py: int|
                    on_icon(px, py) ==> #[trigger] pixel(and_mask@, px, py) == !((py < y || py == y && px < x)
                        && in_body(px, py)),
                forall|px: int, py: int|
                    on_icon(px, py) ==> #[trigger] pixel(xor_mask@, px, py) == ((py < y || py == y && px < x)
                        && in_body(px, py) && is_white(active, px, py)),
            decreases 24 - x,
        {
            let dx: i32 = x as i32 - 15;
            let dy: i32 = y as i32 - 15;
            assert(0 <= dx * dx <= 81 && 0 <= dy * dy <= 196) by (nonlinear_arith)
                requires
                    -7 <= dx <= 8,
                    -13 <= dy <= 14,
            ;
            // The ellipse equation decides whether the pixel is in the body.
            let inside = dx * dx * 4 + dy * dy <= 15 * 15;
            if inside {
                let boundary = dx * dx * 4 + dy * dy >= 13 * 13;
                let wheel_line = x == 15 && 5 <= y && y < 11;
                let button_line = y == 12 && 9 <= x && x < 23;
                set_mask_pixel(and_mask.as_mut_slice(), x, y, false);
                // The two states swap the shades of body and outline.
                let white = if active {
                    boundary || wheel_line || button_line
                } else {
                    !(boundary || wheel_line || button_line)
                };
                set_mask_pixel(xor_mask.as_mut_slice(), x, y, white);
            }
            x = x + 1;
        }
        y = y + 1;
    }
    (and_mask, xor_mask)
}

} // verus!
