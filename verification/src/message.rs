//! The record of the device exchange.
//!
//! The security module is handed one record of thirty-two bytes: where the
//! request lies and how long it is, then where the response is to go and how
//! much room there is, four 64-bit integers in the byte order of the host.
//! The module writes the length of its response over the fourth.

use crate::ioctl::{code_size, NSM_IOCTL_CMD, NSM_MESSAGE_SIZE};
use crate::layout::{
    get_long, lemma_long_layout_value, lemma_long_value_layout, long_layout, long_value, put_long,
    ByteOrder,
};
use vstd::prelude::*;

verus! {

/// Where a buffer lies in memory, and how long it is.
#[derive(Clone, Copy, Debug, PartialEq, Eq, Structural)]
pub struct IoVec {
    /// Address of the first byte.
    pub base: u64,
    /// Number of bytes.
    pub len: u64,
}

/// The record of one exchange: the request, then the response.
#[derive(Clone, Copy, Debug, PartialEq, Eq, Structural)]
pub struct NsmMessage {
    /// The request buffer.
    pub request: IoVec,
    /// The response buffer; after the exchange, its length is the length of
    /// the response.
    pub response: IoVec,
}

impl NsmMessage {
    /// The thirty-two bytes of the record on a host of the given order.
    pub open spec fn layout(self, order: ByteOrder) -> Seq<u8> {
        long_layout(self.request.base, order) + long_layout(self.request.len, order)
            + long_layout(self.response.base, order) + long_layout(self.response.len, order)
    }

    /// The record that thirty-two bytes hold on a host of the given order.
    pub open spec fn parse(bytes: Seq<u8>, order: ByteOrder) -> NsmMessage
        recommends
            bytes.len() == 32,
    {
        NsmMessage {
            request: IoVec {
                base: long_value(bytes.subrange(0, 8), order) as u64,
                len: long_value(bytes.subrange(8, 16), order) as u64,
            },
            response: IoVec {
                base: long_value(bytes.subrange(16, 24), order) as u64,
                len: long_value(bytes.subrange(24, 32), order) as u64,
            },
        }
    }

    /// Writes the record out as the thirty-two bytes that the device reads
    /// on a host of the given order.
    pub fn encode(&self, order: ByteOrder) -> (bytes: [u8; 32])
        ensures
            bytes@ == self.layout(order),
    {
        let a = put_long(self.request.base, order);
        let b = put_long(self.request.len, order);
        let c = put_long(self.response.base, order);
        let d = put_long(self.response.len, order);
        let bytes = [
            a[0],
            a[1],
            a[2],
            a[3],
            a[4],
            a[5],
            a[6],
            a[7],
            b[0],
            b[1],
            b[2],
            b[3],
            b[4],
            b[5],
            b[6],
            b[7],
            c[0],
            c[1],
            c[2],
            c[3],
            c[4],
            c[5],
            c[6],
            c[7],
            d[0],
            d[1],
            d[2],
            d[3],
            d[4],
            d[5],
            d[6],
            d[7],
        ];
        proof {
            lemma_long_value_layout(self.request.base, order);
            lemma_long_value_layout(self.request.len, order);
            lemma_long_value_layout(self.response.base, order);
            lemma_long_value_layout(self.response.len, order);
            assert(bytes@ =~= self.layout(order));
        }
        bytes
    }

    /// Reads the record out of the thirty-two bytes that the device left on
    /// a host of the given order.
    pub fn decode(bytes: &[u8; 32], order: ByteOrder) -> (message: NsmMessage)
        ensures
            message == NsmMessage::parse(bytes@, order),
    {
        let a = [
            bytes[0],
            bytes[1],
            bytes[2],
            bytes[3],
            bytes[4],
            bytes[5],
            bytes[6],
            bytes[7],
        ];
        let b = [
            bytes[8],
            bytes[9],
            bytes[10],
            bytes[11],
            bytes[12],
            bytes[13],
            bytes[14],
            bytes[15],
        ];
        let c = [
            bytes[16],
            bytes[17],
            bytes[18],
            bytes[19],
            bytes[20],
            bytes[21],
            bytes[22],
            bytes[23],
        ];
        let d = [
            bytes[24],
            bytes[25],
            bytes[26],
            bytes[27],
            bytes[28],
            bytes[29],
            bytes[30],
            bytes[31],
        ];
        proof {
            assert(a@ =~= bytes@.subrange(0, 8));
            assert(b@ =~= bytes@.subrange(8, 16));
            assert(c@ =~= bytes@.subrange(16, 24));
            assert(d@ =~= bytes@.subrange(24, 32));
        }
        NsmMessage {
            request: IoVec { base: get_long(&a, order), len: get_long(&b, order) },
            response: IoVec { base: get_long(&c, order), len: get_long(&d, order) },
        }
    }
}

/// The record is as long as the command code of the exchange says, with
/// each field at its fixed place.
pub proof fn lemma_message_fields(message: NsmMessage, order: ByteOrder)
    ensures
        message.layout(order).len() == NSM_MESSAGE_SIZE,
        message.layout(order).len() == code_size(NSM_IOCTL_CMD as u32),
        message.layout(order).subrange(0, 8) == long_layout(message.request.base, order),
        message.layout(order).subrange(8, 16) == long_layout(message.request.len, order),
        message.layout(order).subrange(16, 24) == long_layout(message.response.base, order),
        message.layout(order).subrange(24, 32) == long_layout(message.response.len, order),
{
    lemma_long_value_layout(message.request.base, order);
    lemma_long_value_layout(message.request.len, order);
    lemma_long_value_layout(message.response.base, order);
    lemma_long_value_layout(message.response.len, order);
    let l = message.layout(order);
    assert(l.subrange(0, 8) =~= long_layout(message.request.base, order));
    assert(l.subrange(8, 16) =~= long_layout(message.request.len, order));
    assert(l.subrange(16, 24) =~= long_layout(message.response.base, order));
    assert(l.subrange(24, 32) =~= long_layout(message.response.len, order));
    assert((0xC020_0A00u32 >> 16) & 0x3fff == 32) by (bit_vector);
}

/// Reading back what was written gives the same record.
pub proof fn lemma_message_parse_layout(message: NsmMessage, order: ByteOrder)
    ensures
        NsmMessage::parse(message.layout(order), order) == message,
{
    lemma_message_fields(message, order);
    lemma_long_value_layout(message.request.base, order);
    lemma_long_value_layout(message.request.len, order);
    lemma_long_value_layout(message.response.base, order);
    lemma_long_value_layout(message.response.len, order);
}

/// Writing out what was read gives the same thirty-two bytes.
pub proof fn lemma_message_layout_parse(bytes: Seq<u8>, order: ByteOrder)
    requires
        bytes.len() == 32,
    ensures
        NsmMessage::parse(bytes, order).layout(order) == bytes,
{
    lemma_long_layout_value(bytes.subrange(0, 8), order);
    lemma_long_layout_value(bytes.subrange(8, 16), order);
    lemma_long_layout_value(bytes.subrange(16, 24), order);
    lemma_long_layout_value(bytes.subrange(24, 32), order);
    assert(NsmMessage::parse(bytes, order).layout(order) =~= bytes);
}

} // verus!
