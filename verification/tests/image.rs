use sleigh_lift::image::Image;

fn sample_image() -> Image {
    Image { base_addr: 0x1000, data: vec![0xAA, 0xBB] }
}

#[test]
fn fill_at_base_copies_then_zero_fills() {
    let img = sample_image();
    let mut buf = vec![1u8; 4];
    img.fill(&mut buf, 0x1000);
    assert_eq!(buf, vec![0xAA, 0xBB, 0x00, 0x00]);
}

#[test]
fn fill_before_base_is_all_zero() {
    let img = sample_image();
    let mut buf = vec![1u8; 4];
    img.fill(&mut buf, 0x0FFF);
    assert_eq!(buf, vec![0x00, 0x00, 0x00, 0x00]);
}

#[test]
fn fill_inside_image_copies_the_tail() {
    let img = sample_image();
    let mut buf = vec![1u8; 4];
    img.fill(&mut buf, 0x1001);
    assert_eq!(buf, vec![0xBB, 0x00, 0x00, 0x00]);
}

#[test]
fn fill_past_image_is_all_zero() {
    let img = sample_image();
    let mut buf = vec![1u8; 4];
    img.fill(&mut buf, 0x2000);
    assert_eq!(buf, vec![0x00, 0x00, 0x00, 0x00]);
}

#[test]
fn fill_keeps_buffer_length() {
    let img = sample_image();
    let mut buf = Vec::new();
    img.fill(&mut buf, 0x1000);
    assert_eq!(buf.len(), 0);
    let mut buf = vec![7u8; 1];
    img.fill(&mut buf, 0x1000);
    assert_eq!(buf, vec![0xAA]);
}

#[test]
fn load_replaces_the_whole_image() {
    let mut img = Image::empty();
    assert_eq!(img.base_addr, 0);
    assert!(img.data.is_empty());
    img.load(b"\x01\x00\x80\x00", 0x1000);
    assert_eq!(img.base_addr, 0x1000);
    assert_eq!(img.data, vec![0x01, 0x00, 0x80, 0x00]);
    img.load(b"\x90", 0x2000);
    assert_eq!(img.base_addr, 0x2000);
    assert_eq!(img.data, vec![0x90]);
}

#[test]
fn reloading_the_same_code_restores_the_same_state() {
    let mut img = Image::empty();
    img.load(b"\x05\x00\x10\x00\x00", 0x1000);
    let mut first = vec![0u8; 8];
    img.fill(&mut first, 0x1000);
    img.load(b"\xde\xad", 0x4000);
    img.load(b"\x05\x00\x10\x00\x00", 0x1000);
    let mut second = vec![0u8; 8];
    img.fill(&mut second, 0x1000);
    assert_eq!(first, second);
}
