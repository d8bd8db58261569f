use tjpgdec_sys::pixel::{fill_from_rgb888, from_u8_rgb};

#[test]
fn packs_channels() {
    assert_eq!(from_u8_rgb(0, 0, 0), 0);
    assert_eq!(from_u8_rgb(0x12, 0x34, 0x56), 0x0012_3456);
    assert_eq!(from_u8_rgb(255, 255, 255), 0x00ff_ffff);
    assert_eq!(from_u8_rgb(1, 0, 0), 65536);
    assert_eq!(from_u8_rgb(0, 1, 0), 256);
    assert_eq!(from_u8_rgb(0, 0, 1), 1);
}

#[test]
fn channels_read_back() {
    let p = from_u8_rgb(0xab, 0xcd, 0xef);
    assert_eq!(p >> 16, 0xab);
    assert_eq!((p >> 8) & 0xff, 0xcd);
    assert_eq!(p & 0xff, 0xef);
    assert_ne!(from_u8_rgb(1, 2, 3), from_u8_rgb(3, 2, 1));
}

#[test]
fn fills_frame() {
    let frame: Vec<u8> = vec![1, 2, 3, 255, 0, 128, 9, 9, 9, 7];
    let mut fb = vec![0xdead_beefu32; 3];
    fill_from_rgb888(&mut fb, &frame);
    assert_eq!(fb, vec![0x0001_0203, 0x00ff_0080, 0x0009_0909]);
}

#[test]
fn fills_empty_frame() {
    let frame: Vec<u8> = vec![];
    let mut fb: Vec<u32> = vec![];
    fill_from_rgb888(&mut fb, &frame);
    assert!(fb.is_empty());
}

#[test]
fn fills_full_screen() {
    let width = 640usize;
    let height = 480usize;
    let mut frame = vec![0u8; width * height * 3];
    for (i, b) in frame.iter_mut().enumerate() {
        *b = (i % 251) as u8;
    }
    let mut fb = vec![0u32; width * height];
    fill_from_rgb888(&mut fb, &frame);
    for i in [0usize, 1, 1000, width * height - 1] {
        let o = i * 3;
        let expect = ((frame[o] as u32) << 16) | ((frame[o + 1] as u32) << 8) | frame[o + 2] as u32;
        assert_eq!(fb[i], expect);
    }
}
