use refgate::codec::push_u64_le;
use refgate::codec::read_u64_le;
use refgate::handle::push_address;
use refgate::handle::read_address;
use refgate::handle::Address;

#[test]
fn u64_encodes_least_significant_byte_first() {
    let mut v: Vec<u8> = Vec::new();
    push_u64_le(&mut v, 0x0102030405060708);
    assert_eq!(v, vec![0x08, 0x07, 0x06, 0x05, 0x04, 0x03, 0x02, 0x01]);
}

#[test]
fn u64_read_restores_pushed_value() {
    let mut v: Vec<u8> = Vec::new();
    push_u64_le(&mut v, 0);
    push_u64_le(&mut v, u64::MAX);
    push_u64_le(&mut v, 42);
    assert_eq!(read_u64_le(&v, 0), 0);
    assert_eq!(read_u64_le(&v, 8), u64::MAX);
    assert_eq!(read_u64_le(&v, 16), 42);
}

#[test]
fn address_read_restores_pushed_value() {
    let a = Address { w0: 1, w1: 2, w2: 3, w3: u64::MAX };
    let mut v: Vec<u8> = vec![0xFF];
    push_address(&mut v, &a);
    assert_eq!(v.len(), 33);
    assert_eq!(read_address(&v, 1), a);
}
