//! The socket address record of the virtual-machine address family.
//!
//! The kernel reads and writes this record as sixteen bytes: a 16-bit family
//! tag, a 16-bit reserved field, the 32-bit port, the 32-bit context-id and
//! four bytes of padding, every integer in the byte order of the host.

use crate::layout::{
    get_half, get_word, half_layout, half_value, lemma_half_layout_value,
    lemma_half_value_layout, lemma_word_layout_value, lemma_word_value_layout, put_half, put_word,
    word_layout, word_value, ByteOrder,
};
use vstd::prelude::*;

verus! {

/// Number of the virtual-machine address family.
pub const AF_VSOCK: i32 = 40;

/// Context-id that stands for every context: what a listener binds to.
pub const VMADDR_CID_ANY: u32 = 0xFFFF_FFFF;

/// Context-id under which an enclave reaches its parent host.
pub const VMADDR_CID_PARENT: u32 = 3;

/// Size in bytes of the address record.
pub const SOCKADDR_VM_LEN: usize = 16;

/// The well-formed record of `port` in the context `cid`.
pub open spec fn vsock_address(cid: u32, port: u32) -> SockaddrVm {
    SockaddrVm { family: 40, reserved: 0, port, cid, zero: [0u8, 0u8, 0u8, 0u8] }
}

/// An address in the virtual-machine family, field by field as the kernel
/// lays it out.
#[derive(Clone, Copy, Debug, PartialEq, Eq)]
pub struct SockaddrVm {
    /// Family tag.
    pub family: u16,
    /// Reserved; zero.
    pub reserved: u16,
    /// Port.
    pub port: u32,
    /// Context-id.
    pub cid: u32,
    /// Padding; zero.
    pub zero: [u8; 4],
}

impl SockaddrVm {
    /// Whether the record names an address of this family, with its reserved
    /// field and its padding clear.
    pub open spec fn well_formed(self) -> bool {
        &&& self.family == AF_VSOCK
        &&& self.reserved == 0
        &&& self.zero@ == seq![0u8, 0u8, 0u8, 0u8]
    }

    /// The sixteen bytes of the record on a host of the given order.
    pub open spec fn layout(self, order: ByteOrder) -> Seq<u8> {
        half_layout(self.family, order) + half_layout(self.reserved, order) + word_layout(
            self.port,
            order,
        ) + word_layout(self.cid, order) + self.zero@
    }

    /// The record that sixteen bytes hold on a host of the given order.
    pub open spec fn parse(bytes: Seq<u8>, order: ByteOrder) -> SockaddrVm
        recommends
            bytes.len() == 16,
    {
        SockaddrVm {
            family: half_value(bytes.subrange(0, 2), order) as u16,
            reserved: half_value(bytes.subrange(2, 4), order) as u16,
            port: word_value(bytes.subrange(4, 8), order) as u32,
            cid: word_value(bytes.subrange(8, 12), order) as u32,
            zero: [bytes[12], bytes[13], bytes[14], bytes[15]],
        }
    }

    /// The address of `port` in the context `cid`.
    pub fn new(cid: u32, port: u32) -> (addr: SockaddrVm)
        ensures
            addr == vsock_address(cid, port),
            addr.well_formed(),
    {
        let addr = SockaddrVm { family: 40, reserved: 0, port, cid, zero: [0, 0, 0, 0] };
        assert(addr.zero =~= vsock_address(cid, port).zero);
        assert(addr.zero@ =~= seq![0u8, 0u8, 0u8, 0u8]);
        addr
    }

    /// The address a listener binds to: `port` in every context.
    pub fn any(port: u32) -> (addr: SockaddrVm)
        ensures
            addr == vsock_address(VMADDR_CID_ANY, port),
            addr.well_formed(),
    {
        SockaddrVm::new(VMADDR_CID_ANY, port)
    }

    /// Whether the record names an address of this family, with its reserved
    /// field and its padding clear.
    pub fn is_well_formed(&self) -> (ok: bool)
        ensures
            ok == self.well_formed(),
    {
        let clear = self.zero[0] == 0 && self.zero[1] == 0 && self.zero[2] == 0 && self.zero[3]
            == 0;
        proof {
            if self.well_formed() {
                assert(self.zero@[0] == 0 && self.zero@[1] == 0 && self.zero@[2] == 0
                    && self.zero@[3] == 0);
            }
            if clear {
                assert(self.zero@ =~= seq![0u8, 0u8, 0u8, 0u8]);
            }
        }
        self.family == 40 && self.reserved == 0 && clear
    }

    /// Writes the record out as the sixteen bytes that the kernel reads on a
    /// host of the given order.
    pub fn encode(&self, order: ByteOrder) -> (bytes: [u8; 16])
        ensures
            bytes@ == self.layout(order),
    {
        let f = put_half(self.family, order);
        let r = put_half(self.reserved, order);
        let p = put_word(self.port, order);
        let c = put_word(self.cid, order);
        let bytes = [
            f[0],
            f[1],
            r[0],
            r[1],
            p[0],
            p[1],
            p[2],
            p[3],
            c[0],
            c[1],
            c[2],
            c[3],
            self.zero[0],
            self.zero[1],
            self.zero[2],
            self.zero[3],
        ];
        assert(bytes@ =~= self.layout(order));
        bytes
    }

    /// Reads the record out of the sixteen bytes that the kernel wrote on a
    /// host of the given order.
    pub fn decode(bytes: &[u8; 16], order: ByteOrder) -> (addr: SockaddrVm)
        ensures
            addr == SockaddrVm::parse(bytes@, order),
    {
        let family = get_half(bytes[0], bytes[1], order);
        let reserved = get_half(bytes[2], bytes[3], order);
        let port = get_word(bytes[4], bytes[5], bytes[6], bytes[7], order);
        let cid = get_word(bytes[8], bytes[9], bytes[10], bytes[11], order);
        let zero = [bytes[12], bytes[13], bytes[14], bytes[15]];
        proof {
            assert(bytes@.subrange(0, 2) =~= seq![bytes@[0], bytes@[1]]);
            assert(bytes@.subrange(2, 4) =~= seq![bytes@[2], bytes@[3]]);
            assert(bytes@.subrange(4, 8) =~= seq![bytes@[4], bytes@[5], bytes@[6], bytes@[7]]);
            assert(bytes@.subrange(8, 12) =~= seq![bytes@[8], bytes@[9], bytes@[10], bytes@[11]]);
            assert(zero =~= SockaddrVm::parse(bytes@, order).zero);
        }
        SockaddrVm { family, reserved, port, cid, zero }
    }
}

/// The record is sixteen bytes long, with each field at its fixed place.
pub proof fn lemma_layout_fields(addr: SockaddrVm, order: ByteOrder)
    ensures
        addr.layout(order).len() == SOCKADDR_VM_LEN,
        addr.layout(order).subrange(0, 2) == half_layout(addr.family, order),
        addr.layout(order).subrange(2, 4) == half_layout(addr.reserved, order),
        addr.layout(order).subrange(4, 8) == word_layout(addr.port, order),
        addr.layout(order).subrange(8, 12) == word_layout(addr.cid, order),
        addr.layout(order).subrange(12, 16) == addr.zero@,
{
    let l = addr.layout(order);
    assert(l.subrange(0, 2) =~= half_layout(addr.family, order));
    assert(l.subrange(2, 4) =~= half_layout(addr.reserved, order));
    assert(l.subrange(4, 8) =~= word_layout(addr.port, order));
    assert(l.subrange(8, 12) =~= word_layout(addr.cid, order));
    assert(l.subrange(12, 16) =~= addr.zero@);
}

/// Reading back what was written gives the same record.
pub proof fn lemma_parse_layout(addr: SockaddrVm, order: ByteOrder)
    ensures
        SockaddrVm::parse(addr.layout(order), order) == addr,
{
    lemma_layout_fields(addr, order);
    lemma_half_value_layout(addr.family, order);
    lemma_half_value_layout(addr.reserved, order);
    lemma_word_value_layout(addr.port, order);
    lemma_word_value_layout(addr.cid, order);
    let back = SockaddrVm::parse(addr.layout(order), order);
    assert(back.zero =~= addr.zero);
}

/// Writing out what was read gives the same sixteen bytes.
pub proof fn lemma_layout_parse(bytes: Seq<u8>, order: ByteOrder)
    requires
        bytes.len() == SOCKADDR_VM_LEN,
    ensures
        SockaddrVm::parse(bytes, order).layout(order) == bytes,
{
    let addr = SockaddrVm::parse(bytes, order);
    lemma_half_layout_value(bytes.subrange(0, 2), order);
    lemma_half_layout_value(bytes.subrange(2, 4), order);
    lemma_word_layout_value(bytes.subrange(4, 8), order);
    lemma_word_layout_value(bytes.subrange(8, 12), order);
    assert(addr.zero@ =~= bytes.subrange(12, 16));
    assert(addr.layout(order) =~= bytes);
}

/// Two records with the same bytes are the same record.
pub proof fn lemma_layout_injective(a: SockaddrVm, b: SockaddrVm, order: ByteOrder)
    requires
        a.layout(order) == b.layout(order),
    ensures
        a == b,
{
    lemma_parse_layout(a, order);
    lemma_parse_layout(b, order);
}

} // verus!
