use rumble_att::peripheral::{ALL_BITS, BROADCAST, EXTENDED_PROPERTIES, NOTIFY, READ, WRITE};
use rumble_att::{CharPropFlags, Cursor};

#[test]
fn property_flags_keep_known_bits() {
    assert_eq!(ALL_BITS, 0xFF);
    assert_eq!(CharPropFlags::from_bits_truncate(0xFF).bits(), 0xFF);
    assert_eq!(
        CharPropFlags::from_bits_truncate(BROADCAST | EXTENDED_PROPERTIES).bits(),
        0x81
    );
    assert_eq!(CharPropFlags::empty().bits(), 0);
}

#[test]
fn property_flags_contains_and_union() {
    let r = CharPropFlags::from_bits_truncate(READ);
    let w = CharPropFlags::from_bits_truncate(WRITE);
    let rw = r.union(w);
    assert_eq!(rw, CharPropFlags::from_bits_truncate(0x0A));
    assert!(rw.contains(r));
    assert!(rw.contains(w));
    assert!(!r.contains(w));
    assert!(!rw.contains(CharPropFlags::from_bits_truncate(NOTIFY)));
    assert!(r.contains(CharPropFlags::empty()));
}

#[test]
fn cursor_reads_little_endian() {
    let buf = [0x34u8, 0x12, 0x7F];
    let mut c = Cursor::new(&buf);
    assert_eq!(c.read_u16_le(), Ok(0x1234));
    assert_eq!(c.read_u16_le(), Err(4));
    assert_eq!(c.read_u8(), Ok(0x7F));
    assert_eq!(c.read_u8(), Err(4));
    assert!(c.rest().is_empty());
}

#[test]
fn cursor_reads_sixteen_bytes_in_order() {
    let buf: Vec<u8> = (1..=17u8).collect();
    let mut c = Cursor::new(&buf);
    let mut expected = [0u8; 16];
    expected.copy_from_slice(&buf[..16]);
    assert_eq!(c.read_bytes16(), Ok(expected));
    assert_eq!(c.rest(), &[17u8][..]);
    assert_eq!(c.read_bytes16(), Err(32));
}
