use enclave_native::addr::{
    SockaddrVm, AF_VSOCK, SOCKADDR_VM_LEN, VMADDR_CID_ANY, VMADDR_CID_PARENT,
};
use enclave_native::layout::ByteOrder;

#[test]
fn address_constants() {
    assert_eq!(AF_VSOCK, 40);
    assert_eq!(VMADDR_CID_ANY, 0xFFFF_FFFF);
    assert_eq!(VMADDR_CID_PARENT, 3);
    assert_eq!(SOCKADDR_VM_LEN, 16);
}

#[test]
fn new_address_is_well_formed() {
    let addr = SockaddrVm::new(3, 5005);
    assert_eq!(
        addr,
        SockaddrVm { family: 40, reserved: 0, port: 5005, cid: 3, zero: [0; 4] }
    );
    assert!(addr.is_well_formed());
}

#[test]
fn any_address_names_every_context() {
    let addr = SockaddrVm::any(8443);
    assert_eq!(addr.cid, 0xFFFF_FFFF);
    assert_eq!(addr.port, 8443);
    assert_eq!(addr, SockaddrVm::new(VMADDR_CID_ANY, 8443));
    assert!(addr.is_well_formed());
}

#[test]
fn well_formed_needs_family_reserved_and_padding() {
    let good = SockaddrVm::new(3, 1);
    assert!(!SockaddrVm { family: 2, ..good }.is_well_formed());
    assert!(!SockaddrVm { reserved: 1, ..good }.is_well_formed());
    assert!(!SockaddrVm { zero: [0, 0, 0, 1], ..good }.is_well_formed());
    assert!(!SockaddrVm { zero: [1, 0, 0, 0], ..good }.is_well_formed());
    assert!(SockaddrVm { port: u32::MAX, cid: u32::MAX, ..good }.is_well_formed());
}

#[test]
fn encode_little_endian_is_byte_exact() {
    let addr = SockaddrVm::new(0x0000_0003, 0x0000_138D);
    assert_eq!(
        addr.encode(ByteOrder::Little),
        [0x28, 0x00, 0x00, 0x00, 0x8D, 0x13, 0x00, 0x00, 0x03, 0x00, 0x00, 0x00, 0, 0, 0, 0]
    );
    let any = SockaddrVm::any(0x1234_5678);
    assert_eq!(
        any.encode(ByteOrder::Little),
        [0x28, 0x00, 0x00, 0x00, 0x78, 0x56, 0x34, 0x12, 0xFF, 0xFF, 0xFF, 0xFF, 0, 0, 0, 0]
    );
}

#[test]
fn encode_big_endian_is_byte_exact() {
    let addr = SockaddrVm::new(0x0000_0003, 0x0000_138D);
    assert_eq!(
        addr.encode(ByteOrder::Big),
        [0x00, 0x28, 0x00, 0x00, 0x00, 0x00, 0x13, 0x8D, 0x00, 0x00, 0x00, 0x03, 0, 0, 0, 0]
    );
}

#[test]
fn encode_keeps_every_field() {
    let addr = SockaddrVm {
        family: 0xA1B2,
        reserved: 0xC3D4,
        port: 0x0102_0304,
        cid: 0x0506_0708,
        zero: [9, 10, 11, 12],
    };
    assert_eq!(
        addr.encode(ByteOrder::Little),
        [0xB2, 0xA1, 0xD4, 0xC3, 4, 3, 2, 1, 8, 7, 6, 5, 9, 10, 11, 12]
    );
    assert_eq!(
        addr.encode(ByteOrder::Big),
        [0xA1, 0xB2, 0xC3, 0xD4, 1, 2, 3, 4, 5, 6, 7, 8, 9, 10, 11, 12]
    );
}

#[test]
fn encode_matches_the_host_layout_of_the_fields() {
    let order = if 1u16.to_ne_bytes()[0] == 1 { ByteOrder::Little } else { ByteOrder::Big };
    let addr = SockaddrVm::new(0xDEAD_BEEF, 0x0BAD_F00D);
    let mut expected = Vec::new();
    expected.extend_from_slice(&40u16.to_ne_bytes());
    expected.extend_from_slice(&0u16.to_ne_bytes());
    expected.extend_from_slice(&0x0BAD_F00Du32.to_ne_bytes());
    expected.extend_from_slice(&0xDEAD_BEEFu32.to_ne_bytes());
    expected.extend_from_slice(&[0u8; 4]);
    assert_eq!(addr.encode(order).to_vec(), expected);
}

#[test]
fn decode_reads_every_field() {
    let bytes = [0x28, 0x00, 0x00, 0x00, 0x8D, 0x13, 0x00, 0x00, 0x03, 0x00, 0x00, 0x00, 0, 0, 0, 0];
    assert_eq!(SockaddrVm::decode(&bytes, ByteOrder::Little), SockaddrVm::new(3, 5005));
    let odd = [0xB2, 0xA1, 0xD4, 0xC3, 4, 3, 2, 1, 8, 7, 6, 5, 9, 10, 11, 12];
    assert_eq!(
        SockaddrVm::decode(&odd, ByteOrder::Little),
        SockaddrVm {
            family: 0xA1B2,
            reserved: 0xC3D4,
            port: 0x0102_0304,
            cid: 0x0506_0708,
            zero: [9, 10, 11, 12],
        }
    );
    assert_eq!(
        SockaddrVm::decode(&odd, ByteOrder::Big),
        SockaddrVm {
            family: 0xB2A1,
            reserved: 0xD4C3,
            port: 0x0403_0201,
            cid: 0x0807_0605,
            zero: [9, 10, 11, 12],
        }
    );
}

#[test]
fn decode_of_zeroed_record() {
    let addr = SockaddrVm::decode(&[0u8; 16], ByteOrder::Little);
    assert_eq!(addr, SockaddrVm { family: 0, reserved: 0, port: 0, cid: 0, zero: [0; 4] });
    assert!(!addr.is_well_formed());
}

#[test]
fn decode_undoes_encode() {
    let samples = [
        SockaddrVm::new(0, 0),
        SockaddrVm::new(3, 5005),
        SockaddrVm::new(u32::MAX, u32::MAX),
        SockaddrVm::any(1),
        SockaddrVm { family: 0xFFFF, reserved: 0xFFFF, port: 7, cid: 0x8000_0000, zero: [255; 4] },
    ];
    for addr in samples {
        for order in [ByteOrder::Little, ByteOrder::Big] {
            assert_eq!(SockaddrVm::decode(&addr.encode(order), order), addr);
        }
    }
}

#[test]
fn encode_undoes_decode() {
    let mut bytes = [0u8; 16];
    for (i, b) in bytes.iter_mut().enumerate() {
        *b = (i as u8).wrapping_mul(37).wrapping_add(11);
    }
    for order in [ByteOrder::Little, ByteOrder::Big] {
        assert_eq!(SockaddrVm::decode(&bytes, order).encode(order), bytes);
    }
}

#[test]
fn the_two_orders_differ() {
    let addr = SockaddrVm::new(3, 5005);
    assert_ne!(addr.encode(ByteOrder::Little), addr.encode(ByteOrder::Big));
}
