use aprz::table::{RowReader, RowWriter};

#[test]
fn fields_read_back_as_written() {
    let mut w = RowWriter::new();
    w.push_bool(true);
    w.push_u8(3);
    w.push_u64(0x0102_0304_0506_0708);
    w.push_i64(-2);
    w.push_bytes("serde".as_bytes());
    w.push_bool(false);
    assert_eq!(&w.buf[2..10], &[8, 7, 6, 5, 4, 3, 2, 1]);
    assert_eq!(w.buf.len(), 1 + 1 + 8 + 8 + 4 + 5 + 1);
    let mut r = RowReader::new(&w.buf, 0);
    assert_eq!(r.read_bool(), Some(true));
    assert_eq!(r.read_u8(), Some(3));
    assert_eq!(r.read_u64(), Some(0x0102_0304_0506_0708));
    assert_eq!(r.read_i64(), Some(-2));
    assert_eq!(r.read_bytes(), Some(b"serde".to_vec()));
    assert_eq!(r.read_bool(), Some(false));
    assert_eq!(r.position(), w.buf.len());
    assert_eq!(r.read_u8(), None);
}

#[test]
fn truncated_fields_are_not_read() {
    let mut w = RowWriter::new();
    w.push_bytes(b"abcdef");
    let cut = &w.buf[..7];
    let mut r = RowReader::new(cut, 0);
    assert_eq!(r.read_bytes(), None);
    assert_eq!(r.position(), 0);
    let mut short = RowReader::new(&[1, 2, 3], 0);
    assert_eq!(short.read_u64(), None);
}
