//! Control-operation codes.
//!
//! A code packs four fields into 32 bits: the transfer direction in the top
//! two bits, the size of the exchanged record in the next fourteen, then the
//! driver's type byte and the operation number.

use vstd::prelude::*;

verus! {

/// Type byte under which the security module registers its operations.
pub const NSM_IOCTL_MAGIC: u32 = 0x0A;

/// Number of the security module's request operation.
pub const NSM_IOCTL_NUMBER: u32 = 0;

/// Size in bytes of the exchange record: two address-and-length pairs of
/// sixteen bytes each.
pub const NSM_MESSAGE_SIZE: u32 = 32;

/// The code of the security module's request operation.
pub const NSM_IOCTL_CMD: u64 = 0xC020_0A00;

/// Which way the record travels, seen from the caller.
#[derive(Clone, Copy, Debug, PartialEq, Eq, Structural)]
pub enum Direction {
    /// No record is transferred.
    Neither,
    /// The driver reads the caller's record.
    Write,
    /// The driver fills the caller's record.
    Read,
    /// The driver reads the record and updates it in place.
    ReadWrite,
}

impl Direction {
    /// The two direction bits.
    pub open spec fn bits_spec(self) -> u32 {
        match self {
            Direction::Neither => 0,
            Direction::Write => 1,
            Direction::Read => 2,
            Direction::ReadWrite => 3,
        }
    }

    /// The two direction bits.
    pub fn bits(self) -> (b: u32)
        ensures
            b == self.bits_spec(),
    {
        match self {
            Direction::Neither => 0,
            Direction::Write => 1,
            Direction::Read => 2,
            Direction::ReadWrite => 3,
        }
    }
}

/// Whether each field fits the width the code gives it.
pub open spec fn fields_fit(kind: u32, number: u32, size: u32) -> bool {
    kind < 0x100 && number < 0x100 && size < 0x4000
}

/// The code made of the four fields.
pub open spec fn code_spec(direction: Direction, kind: u32, number: u32, size: u32) -> u32 {
    (direction.bits_spec() << 30) | (size << 16) | (kind << 8) | number
}

/// The direction bits of a code.
pub open spec fn code_direction(code: u32) -> u32 {
    code >> 30
}

/// The record size a code declares.
pub open spec fn code_size(code: u32) -> u32 {
    (code >> 16) & 0x3fff
}

/// The driver type of a code.
pub open spec fn code_kind(code: u32) -> u32 {
    (code >> 8) & 0xff
}

/// The operation number of a code.
pub open spec fn code_number(code: u32) -> u32 {
    code & 0xff
}

/// Packs the four fields into a code, or returns `None` when a field is too
/// wide for its place.
pub fn code(direction: Direction, kind: u32, number: u32, size: u32) -> (packed: Option<u32>)
    ensures
        packed == if fields_fit(kind, number, size) {
            Some(code_spec(direction, kind, number, size))
        } else {
            None
        },
{
    if kind < 0x100 && number < 0x100 && size < 0x4000 {
        let bits: u32 = direction.bits();
        Some((bits << 30) | (size << 16) | (kind << 8) | number)
    } else {
        None
    }
}

/// Each field of a code can be read back from it.
pub proof fn lemma_code_fields(direction: Direction, kind: u32, number: u32, size: u32)
    requires
        fields_fit(kind, number, size),
    ensures
        code_direction(code_spec(direction, kind, number, size)) == direction.bits_spec(),
        code_size(code_spec(direction, kind, number, size)) == size,
        code_kind(code_spec(direction, kind, number, size)) == kind,
        code_number(code_spec(direction, kind, number, size)) == number,
{
    let d = direction.bits_spec();
    assert(kind < 0x100 && number < 0x100 && size < 0x4000 && d < 4 ==> {
        let c = (d << 30) | (size << 16) | (kind << 8) | number;
        &&& c >> 30 == d
        &&& (c >> 16) & 0x3fff == size
        &&& (c >> 8) & 0xff == kind
        &&& c & 0xff == number
    }) by (bit_vector);
}

/// The code of the security module's request operation: a read-write
/// exchange of one record of `NSM_MESSAGE_SIZE` bytes.
pub fn nsm_command() -> (command: u64)
    ensures
        command == NSM_IOCTL_CMD,
        command == code_spec(
            Direction::ReadWrite,
            NSM_IOCTL_MAGIC,
            NSM_IOCTL_NUMBER,
            NSM_MESSAGE_SIZE,
        ),
{
    assert(((3u32 << 30) | (32u32 << 16) | (0x0Au32 << 8) | 0u32) == 0xC020_0A00u32)
        by (bit_vector);
    NSM_IOCTL_CMD
}

} // verus!
