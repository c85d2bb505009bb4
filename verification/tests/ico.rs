use minimize_ytm::ico::{first_ico_image, read_u16_le, read_u32_le};

fn icon_file(size: u32, offset: u32, total: usize) -> Vec<u8> {
    let mut b: Vec<u8> = vec![0u8; total];
    b[2] = 1;
    b[4] = 1;
    b[14..18].copy_from_slice(&size.to_le_bytes());
    b[18..22].copy_from_slice(&offset.to_le_bytes());
    b
}

#[test]
fn read_u16_le_reads_little_endian() {
    assert_eq!(read_u16_le(&[0x34, 0x12, 0xff], 0), Some(0x1234));
    assert_eq!(read_u16_le(&[0x34, 0x12, 0xff], 1), Some(0xff12));
}

#[test]
fn read_u16_le_needs_two_bytes() {
    assert_eq!(read_u16_le(&[0x34, 0x12], 1), None);
    assert_eq!(read_u16_le(&[], 0), None);
    assert_eq!(read_u16_le(&[1, 2], 5), None);
}

#[test]
fn read_u32_le_reads_little_endian() {
    assert_eq!(read_u32_le(&[0x78, 0x56, 0x34, 0x12], 0), Some(0x1234_5678));
    assert_eq!(read_u32_le(&[0, 0xff, 0xff, 0xff, 0xff], 1), Some(u32::MAX));
}

#[test]
fn read_u32_le_needs_four_bytes() {
    assert_eq!(read_u32_le(&[1, 2, 3], 0), None);
    assert_eq!(read_u32_le(&[1, 2, 3, 4], 1), None);
}

#[test]
fn first_ico_image_returns_first_image_bytes() {
    let mut b = icon_file(3, 22, 25);
    b[22] = 7;
    b[23] = 8;
    b[24] = 9;
    assert_eq!(first_ico_image(&b), Some(&[7u8, 8, 9][..]));
}

#[test]
fn first_ico_image_image_may_end_at_file_end_only() {
    let b = icon_file(4, 22, 25);
    assert_eq!(first_ico_image(&b), None);
}

#[test]
fn first_ico_image_rejects_short_files() {
    assert_eq!(first_ico_image(&[0, 0, 1, 0, 1]), None);
    let b = icon_file(1, 0, 22);
    assert_eq!(first_ico_image(&b[..21]), None);
}

#[test]
fn first_ico_image_checks_header_fields() {
    let mut b = icon_file(1, 0, 22);
    b[0] = 1;
    assert_eq!(first_ico_image(&b), None);
    let mut b = icon_file(1, 0, 22);
    b[2] = 2;
    assert_eq!(first_ico_image(&b), None);
    let mut b = icon_file(1, 0, 22);
    b[4] = 0;
    assert_eq!(first_ico_image(&b), None);
}

#[test]
fn first_ico_image_rejects_empty_image() {
    let b = icon_file(0, 0, 22);
    assert_eq!(first_ico_image(&b), None);
}

#[test]
fn first_ico_image_may_point_into_header() {
    let b = icon_file(2, 0, 22);
    assert_eq!(first_ico_image(&b), Some(&[0u8, 0][..]));
}

#[test]
fn first_ico_image_rejects_huge_offset() {
    let b = icon_file(10, u32::MAX, 22);
    assert_eq!(first_ico_image(&b), None);
}
