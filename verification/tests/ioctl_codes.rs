use enclave_native::ioctl::{
    code, nsm_command, Direction, NSM_IOCTL_CMD, NSM_IOCTL_MAGIC, NSM_IOCTL_NUMBER,
    NSM_MESSAGE_SIZE,
};

#[test]
fn nsm_command_is_the_registered_value() {
    assert_eq!(nsm_command(), 0xC020_0A00);
    assert_eq!(NSM_IOCTL_CMD, 0xC020_0A00);
}

#[test]
fn nsm_command_is_made_of_its_fields() {
    let packed = code(Direction::ReadWrite, NSM_IOCTL_MAGIC, NSM_IOCTL_NUMBER, NSM_MESSAGE_SIZE);
    assert_eq!(packed, Some(0xC020_0A00));
    assert_eq!(packed.map(u64::from), Some(nsm_command()));
}

#[test]
fn direction_bits() {
    assert_eq!(Direction::Neither.bits(), 0);
    assert_eq!(Direction::Write.bits(), 1);
    assert_eq!(Direction::Read.bits(), 2);
    assert_eq!(Direction::ReadWrite.bits(), 3);
}

#[test]
fn code_places_each_field() {
    assert_eq!(code(Direction::Neither, 0, 0, 0), Some(0));
    assert_eq!(code(Direction::Neither, 0, 1, 0), Some(0x0000_0001));
    assert_eq!(code(Direction::Neither, 1, 0, 0), Some(0x0000_0100));
    assert_eq!(code(Direction::Neither, 0, 0, 1), Some(0x0001_0000));
    assert_eq!(code(Direction::Write, 0, 0, 0), Some(0x4000_0000));
    assert_eq!(code(Direction::Read, 0, 0, 0), Some(0x8000_0000));
    assert_eq!(code(Direction::ReadWrite, 0xff, 0xff, 0x3fff), Some(0xFFFF_FFFF));
    assert_eq!(code(Direction::Read, 0x54, 0x13, 8), Some(0x8008_5413));
}

#[test]
fn code_refuses_a_field_that_does_not_fit() {
    assert_eq!(code(Direction::ReadWrite, 0x100, 0, 32), None);
    assert_eq!(code(Direction::ReadWrite, 0x0A, 0x100, 32), None);
    assert_eq!(code(Direction::ReadWrite, 0x0A, 0, 0x4000), None);
    assert_eq!(code(Direction::ReadWrite, u32::MAX, u32::MAX, u32::MAX), None);
}
