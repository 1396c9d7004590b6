use ext_php_rs::binary::Binary;
use ext_php_rs::convert::{FromZval, IntoZval};
use ext_php_rs::pack::{pack_into, unpack_into};
use ext_php_rs::string::ZendStr;
use ext_php_rs::zval::Zval;

#[test]
fn pack_lays_values_out_little_endian() {
    let s = pack_into(vec![0x0102_0304u32, 5]);
    assert_eq!(s.as_bytes(), &[4, 3, 2, 1, 5, 0, 0, 0]);
    let s = pack_into(vec![-2i16]);
    assert_eq!(s.as_bytes(), &[0xfe, 0xff]);
    let s = pack_into(vec![1u64]);
    assert_eq!(s.as_bytes(), &[1, 0, 0, 0, 0, 0, 0, 0]);
}

#[test]
fn unpack_gives_packed_values_back() {
    let values = vec![i64::MIN, -1, 0, 42, i64::MAX];
    let s = pack_into(values.clone());
    assert_eq!(unpack_into::<i64>(&s), values);
    let bytes = vec![0u8, 255, 128];
    assert_eq!(unpack_into::<u8>(&pack_into(bytes.clone())), bytes);
    let small = vec![-128i8, 127];
    assert_eq!(unpack_into::<i8>(&pack_into(small.clone())), small);
}

#[test]
fn unpack_ignores_trailing_bytes() {
    let s = ZendStr::new(&[1, 0, 2, 0, 9], false);
    assert_eq!(unpack_into::<u16>(&s), vec![1, 2]);
    let s = ZendStr::new(&[1, 2, 3], false);
    assert_eq!(unpack_into::<u32>(&s), Vec::<u32>::new());
}

#[test]
fn binary_zvals() {
    let mut z = Zval::new();
    z.set_binary(vec![1u32, 2, 3]);
    assert!(z.is_string());
    assert_eq!(z.binary::<u32>(), Some(vec![1, 2, 3]));
    assert_eq!(z.binary_slice::<u16>(), Some(vec![1, 0, 2, 0, 3, 0]));
    let mut n = Zval::new();
    n.set_long(1);
    assert_eq!(n.binary::<u32>(), None);

    let zv = Binary::new(vec![7i32, -7]).into_zval(false).unwrap();
    let back = Binary::<i32>::from_zval(&zv).unwrap();
    assert_eq!(back.into_inner(), vec![7, -7]);
}
