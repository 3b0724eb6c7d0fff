use kmouse::text::{copy_wide_to_fixed, wide};

#[test]
fn wide_strings_are_nul_terminated_utf16() {
    assert_eq!(wide("KMouse Grid"), "KMouse Grid\0".encode_utf16().collect::<Vec<u16>>());
    assert_eq!(wide("退出"), vec![0x9000, 0x51FA, 0]);
    assert_eq!(wide("A😀"), vec![0x41, 0xD83D, 0xDE00, 0]);
    assert_eq!(wide(""), vec![0]);
}

#[test]
fn fixed_copy_stops_at_the_shorter() {
    let mut small = [7u16; 3];
    copy_wide_to_fixed("KMouse", &mut small);
    assert_eq!(small, [0x4B, 0x4D, 0x6F]);

    let mut big = [7u16; 10];
    copy_wide_to_fixed("KMouse", &mut big);
    assert_eq!(big, [0x4B, 0x4D, 0x6F, 0x75, 0x73, 0x65, 7, 7, 7, 7]);

    let mut tip = [0u16; 128];
    copy_wide_to_fixed("KMouse - 鼠标模式已启动", &mut tip);
    assert_eq!(tip[9], 0x9F20);
    assert_eq!(tip[15], 0x52A8);
    assert_eq!(tip[16], 0);
}
