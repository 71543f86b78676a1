use opencarpanel::scs::cursor::Cursor;
use opencarpanel::scs::error::DecodeError;
use opencarpanel::telemetry::model::Real;

#[test]
fn cursor_reads_little_endian_fields_in_order() {
    let bytes = [
        0x4f, 0x53, 0x44, 0x53, // array
        0x07, // u8
        0x78, 0x56, 0x34, 0x12, // u32
        0xfe, 0xff, 0xff, 0xff, // i32
        0x01, 0x02, 0x03, 0x04, 0x05, 0x06, 0x07, 0x08, // u64
        0x00, 0x00, 0x48, 0x41, // f32 12.5
    ];
    let mut cursor = Cursor::new(&bytes);
    assert_eq!(cursor.read_array::<4>(), Ok(*b"OSDS"));
    assert_eq!(cursor.read_u8(), Ok(7));
    assert_eq!(cursor.read_u32_le(), Ok(0x1234_5678));
    assert_eq!(cursor.read_i32_le(), Ok(-2));
    assert_eq!(cursor.read_u64_le(), Ok(0x0807_0605_0403_0201));
    assert_eq!(cursor.read_f32_le(), Ok(Real { bits: 12.5_f32.to_bits() }));
    assert_eq!(
        cursor.read_u8(),
        Err(DecodeError::UnexpectedEnd { offset: 25, needed: 1, remaining: 0 })
    );
}

#[test]
fn cursor_reports_a_short_field_without_advancing() {
    let bytes = [1, 2, 3];
    let mut cursor = Cursor::new(&bytes);
    assert_eq!(
        cursor.read_u32_le(),
        Err(DecodeError::UnexpectedEnd { offset: 0, needed: 4, remaining: 3 })
    );
    assert_eq!(cursor.read_u8(), Ok(1));
    assert_eq!(
        cursor.read_u64_le(),
        Err(DecodeError::UnexpectedEnd { offset: 1, needed: 8, remaining: 2 })
    );
    assert_eq!(cursor.read_array::<2>(), Ok([2, 3]));
    assert_eq!(
        cursor.read_i32_le(),
        Err(DecodeError::UnexpectedEnd { offset: 3, needed: 4, remaining: 0 })
    );
}

#[test]
fn signed_reads_cover_both_halves_of_the_range() {
    let bytes = [0xff, 0xff, 0xff, 0x7f, 0x00, 0x00, 0x00, 0x80];
    let mut cursor = Cursor::new(&bytes);
    assert_eq!(cursor.read_i32_le(), Ok(i32::MAX));
    assert_eq!(cursor.read_i32_le(), Ok(i32::MIN));
}
