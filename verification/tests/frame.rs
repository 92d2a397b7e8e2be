use headtrack::frame::{HatireData, FRAME_BEGIN, FRAME_END, FRAME_LEN};

fn sample_frame() -> HatireData {
    let mut frame = HatireData::new();
    frame.rot = [1.0f32.to_bits(), (-90.5f32).to_bits(), 180.0f32.to_bits()];
    frame.trans = [0.25f32.to_bits(), 0, 0x0102_0304];
    frame
}

#[test]
fn new_frame_has_markers_and_zeros() {
    let frame = HatireData::new();
    assert_eq!(frame.begin, FRAME_BEGIN);
    assert_eq!(frame.begin, 0xAAAA);
    assert_eq!(frame.end, FRAME_END);
    assert_eq!(frame.end, 0x5555);
    assert_eq!(frame.code, 0);
    assert_eq!(frame.rot, [0, 0, 0]);
    assert_eq!(frame.trans, [0, 0, 0]);
}

#[test]
fn empty_frame_bytes_are_exact() {
    let bytes = HatireData::new().to_bytes();
    let mut expected = [0u8; 30];
    expected[0] = 0xAA;
    expected[1] = 0xAA;
    expected[28] = 0x55;
    expected[29] = 0x55;
    assert_eq!(bytes, expected);
    assert_eq!(bytes.len(), FRAME_LEN);
}

#[test]
fn frame_bytes_are_little_endian_field_by_field() {
    let mut frame = sample_frame();
    frame.code = 0x1234;
    let bytes = frame.to_bytes();
    let expected: [u8; 30] = [
        0xAA, 0xAA, // begin
        0x34, 0x12, // code
        0x00, 0x00, 0x80, 0x3F, // 1.0
        0x00, 0x00, 0xB5, 0xC2, // -90.5
        0x00, 0x00, 0x34, 0x43, // 180.0
        0x00, 0x00, 0x80, 0x3E, // 0.25
        0x00, 0x00, 0x00, 0x00, // 0.0
        0x04, 0x03, 0x02, 0x01, // 0x01020304
        0x55, 0x55, // end
    ];
    assert_eq!(bytes, expected);
}

#[test]
fn frame_bytes_match_the_numbers_own_byte_order() {
    let frame = sample_frame();
    let bytes = frame.to_bytes();
    assert_eq!(&bytes[0..2], &0xAAAAu16.to_le_bytes());
    assert_eq!(&bytes[4..8], &1.0f32.to_le_bytes());
    assert_eq!(&bytes[8..12], &(-90.5f32).to_le_bytes());
    assert_eq!(&bytes[12..16], &180.0f32.to_le_bytes());
    assert_eq!(&bytes[16..20], &0.25f32.to_le_bytes());
    assert_eq!(&bytes[28..30], &0x5555u16.to_le_bytes());
}

#[test]
fn frame_survives_writing_and_reading() {
    let frame = sample_frame();
    let bytes = frame.to_bytes();
    assert_eq!(HatireData::from_bytes(&bytes), Some(frame));
    let largest = HatireData {
        begin: FRAME_BEGIN,
        code: 0xFFFF,
        rot: [u32::MAX, u32::MAX, u32::MAX],
        trans: [u32::MAX, 0x8000_0000, 1],
        end: FRAME_END,
    };
    assert_eq!(HatireData::from_bytes(&largest.to_bytes()), Some(largest));
}

#[test]
fn bytes_survive_reading_and_writing() {
    let mut bytes = [0u8; 30];
    for (i, byte) in bytes.iter_mut().enumerate() {
        *byte = (i as u8).wrapping_mul(37).wrapping_add(11);
    }
    bytes[0] = 0xAA;
    bytes[1] = 0xAA;
    bytes[28] = 0x55;
    bytes[29] = 0x55;
    let frame = HatireData::from_bytes(&bytes).unwrap();
    assert_eq!(frame.to_bytes(), bytes);
}

#[test]
fn reading_turns_down_a_wrong_length() {
    let bytes = HatireData::new().to_bytes();
    assert_eq!(HatireData::from_bytes(&bytes[..29]), None);
    assert_eq!(HatireData::from_bytes(&[]), None);
    let mut longer = bytes.to_vec();
    longer.push(0);
    assert_eq!(HatireData::from_bytes(&longer), None);
}

#[test]
fn reading_turns_down_a_wrong_marker() {
    let good = HatireData::new().to_bytes();
    for at in [0usize, 1, 28, 29] {
        let mut bytes = good;
        bytes[at] ^= 0x01;
        assert_eq!(HatireData::from_bytes(&bytes), None);
    }
    let mut swapped = good;
    swapped[0] = 0x55;
    swapped[1] = 0x55;
    swapped[28] = 0xAA;
    swapped[29] = 0xAA;
    assert_eq!(HatireData::from_bytes(&swapped), None);
}

#[test]
fn writing_does_not_judge_the_markers() {
    let odd = HatireData { begin: 0x0102, code: 0, rot: [0; 3], trans: [0; 3], end: 0x0304 };
    let bytes = odd.to_bytes();
    assert_eq!(&bytes[0..2], &[0x02, 0x01]);
    assert_eq!(&bytes[28..30], &[0x04, 0x03]);
    assert_eq!(HatireData::from_bytes(&bytes), None);
}
