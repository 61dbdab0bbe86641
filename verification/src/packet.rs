//! Packets: a fixed header and a payload of raw bytes.
use crate::buffer::{
    big_endian, contents, extend, extend_from_slice, get_u16, get_u8, has_room, put_u16, put_u8,
};
use crate::error::Error;
use crate::text::{decimal, push_decimal};
use bytes::BytesMut;
use std::borrow::Cow;
use vstd::prelude::*;

verus! {

/// The room that a packet header takes.
pub const HEADER_BYTES: usize = 8;

/// What a packet carries.
#[derive(Debug, Clone, Copy, PartialEq, Eq, Structural)]
pub enum PacketType {
    SqlBatch,
    PreTdsV7Login,
    Rpc,
    TabularResult,
    AttentionSignal,
    BulkLoad,
    Fat,
    TransactionManagerReq,
    TdsV7Login,
    Sspi,
    PreLogin,
}

impl PacketType {
    /// The number of the type on the wire.
    pub open spec fn spec_code(self) -> u8 {
        match self {
            PacketType::SqlBatch => 1,
            PacketType::PreTdsV7Login => 2,
            PacketType::Rpc => 3,
            PacketType::TabularResult => 4,
            PacketType::AttentionSignal => 6,
            PacketType::BulkLoad => 7,
            PacketType::Fat => 8,
            PacketType::TransactionManagerReq => 14,
            PacketType::TdsV7Login => 16,
            PacketType::Sspi => 17,
            PacketType::PreLogin => 18,
        }
    }

    /// Whether a number stands for a type.
    pub open spec fn is_code(code: u8) -> bool {
        exists|ty: PacketType| #[trigger] ty.spec_code() == code
    }

    /// The number of the type on the wire.
    pub fn code(self) -> (code: u8)
        ensures
            code == self.spec_code(),
    {
        match self {
            PacketType::SqlBatch => 1,
            PacketType::PreTdsV7Login => 2,
            PacketType::Rpc => 3,
            PacketType::TabularResult => 4,
            PacketType::AttentionSignal => 6,
            PacketType::BulkLoad => 7,
            PacketType::Fat => 8,
            PacketType::TransactionManagerReq => 14,
            PacketType::TdsV7Login => 16,
            PacketType::Sspi => 17,
            PacketType::PreLogin => 18,
        }
    }

    /// The type that a number stands for.
    pub fn from_code(code: u8) -> (ty: Option<PacketType>)
        ensures
            match ty {
                Some(ty) => ty.spec_code() == code,
                None => !Self::is_code(code),
            },
    {
        let ty: PacketType = match code {
            1 => PacketType::SqlBatch,
            2 => PacketType::PreTdsV7Login,
            3 => PacketType::Rpc,
            4 => PacketType::TabularResult,
            6 => PacketType::AttentionSignal,
            7 => PacketType::BulkLoad,
            8 => PacketType::Fat,
            14 => PacketType::TransactionManagerReq,
            16 => PacketType::TdsV7Login,
            17 => PacketType::Sspi,
            18 => PacketType::PreLogin,
            _ => return None,
        };
        Some(ty)
    }
}

/// What a packet means for the message that it is a part of.
#[derive(Debug, Clone, Copy, PartialEq, Eq, Structural)]
pub enum PacketStatus {
    NormalMessage,
    EndOfMessage,
    IgnoreEvent,
    ResetConnection,
    ResetConnectionSkipTran,
}

impl PacketStatus {
    /// The number of the status on the wire.
    pub open spec fn spec_code(self) -> u8 {
        match self {
            PacketStatus::NormalMessage => 0,
            PacketStatus::EndOfMessage => 1,
            PacketStatus::IgnoreEvent => 3,
            PacketStatus::ResetConnection => 8,
            PacketStatus::ResetConnectionSkipTran => 16,
        }
    }

    /// Whether a number stands for a status.
    pub open spec fn is_code(code: u8) -> bool {
        exists|status: PacketStatus| #[trigger] status.spec_code() == code
    }

    /// The number of the status on the wire.
    pub fn code(self) -> (code: u8)
        ensures
            code == self.spec_code(),
    {
        match self {
            PacketStatus::NormalMessage => 0,
            PacketStatus::EndOfMessage => 1,
            PacketStatus::IgnoreEvent => 3,
            PacketStatus::ResetConnection => 8,
            PacketStatus::ResetConnectionSkipTran => 16,
        }
    }

    /// The status that a number stands for.
    pub fn from_code(code: u8) -> (status: Option<PacketStatus>)
        ensures
            match status {
                Some(status) => status.spec_code() == code,
                None => !Self::is_code(code),
            },
    {
        let status: PacketStatus = match code {
            0 => PacketStatus::NormalMessage,
            1 => PacketStatus::EndOfMessage,
            3 => PacketStatus::IgnoreEvent,
            8 => PacketStatus::ResetConnection,
            16 => PacketStatus::ResetConnectionSkipTran,
            _ => return None,
        };
        Some(status)
    }
}

/// A different number for each packet type, and for each status.
pub proof fn law_codes_are_distinct(
    a: PacketType,
    b: PacketType,
    s: PacketStatus,
    t: PacketStatus,
)
    ensures
        a.spec_code() == b.spec_code() ==> a == b,
        s.spec_code() == t.spec_code() ==> s == t,
{
}

/// The header of a packet.
#[derive(Debug, Clone, Copy, PartialEq, Eq, Structural)]
pub struct PacketHeader {
    /// What the packet carries.
    pub ty: PacketType,
    /// What the packet means for its message.
    pub status: PacketStatus,
    /// The length of the packet, with the header.
    pub length: u16,
    /// The server process.
    pub spid: u16,
    /// The number of the packet within its message.
    pub id: u8,
    /// Not used.
    pub window: u8,
}

/// The wire form of a header.
pub open spec fn header_bytes(header: PacketHeader) -> Seq<u8> {
    seq![header.ty.spec_code(), header.status.spec_code()] + big_endian(header.length)
        + big_endian(header.spid) + seq![header.id, header.window]
}

/// How many bytes of a buffer it takes to read a header or to find out that
/// there is none: one that starts with no packet type is refused on its first
/// byte, and one that goes on with no status on its second.
pub open spec fn header_room(bytes: Seq<u8>) -> nat {
    if bytes.len() >= 1 && !PacketType::is_code(bytes[0]) {
        1
    } else if bytes.len() >= 2 && !PacketStatus::is_code(bytes[1]) {
        2
    } else {
        8
    }
}

/// The text of the error for a byte that is no packet type.
pub open spec fn invalid_type_text(byte: u8) -> Seq<char> {
    "header: invalid packet type: "@ + decimal(byte as nat)
}

/// Whether bytes do not start with a header, and `error` says why.
pub open spec fn not_a_header(bytes: Seq<u8>, error: Error) -> bool {
    &&& error is Protocol
    &&& if PacketType::is_code(bytes[0]) {
        !PacketStatus::is_code(bytes[1]) && error.text() == "header: invalid packet status"@
    } else {
        error.text() == invalid_type_text(bytes[0])
    }
}

impl PacketHeader {
    /// The header of a login packet.
    pub fn new(length: usize, id: u8) -> (header: PacketHeader)
        requires
            length <= u16::MAX,
        ensures
            header == (PacketHeader {
                ty: PacketType::TdsV7Login,
                status: PacketStatus::ResetConnection,
                length: length as u16,
                spid: 0,
                id,
                window: 0,
            }),
    {
        PacketHeader {
            ty: PacketType::TdsV7Login,
            status: PacketStatus::ResetConnection,
            length: length as u16,
            spid: 0,
            id,
            window: 0,
        }
    }

    /// Change what the packet carries.
    pub fn set_type(&mut self, ty: PacketType)
        ensures
            *final(self) == (PacketHeader { ty, ..*old(self) }),
    {
        self.ty = ty;
    }

    /// Change what the packet means for its message.
    pub fn set_status(&mut self, status: PacketStatus)
        ensures
            *final(self) == (PacketHeader { status, ..*old(self) }),
    {
        self.status = status;
    }

    /// Change the length.
    pub fn set_length(&mut self, length: u16)
        ensures
            *final(self) == (PacketHeader { length, ..*old(self) }),
    {
        self.length = length;
    }

    /// What the packet means for its message.
    pub fn status(&self) -> (status: PacketStatus)
        ensures
            status == self.status,
    {
        self.status
    }

    /// Append the wire form of the header to a buffer.
    pub fn encode(self, dst: &mut BytesMut)
        requires
            has_room(contents(*old(dst)).len(), HEADER_BYTES as nat),
        ensures
            contents(*final(dst)) == contents(*old(dst)) + header_bytes(self),
    {
        put_u8(dst, self.ty.code());
        put_u8(dst, self.status.code());
        put_u16(dst, self.length);
        put_u16(dst, self.spid);
        put_u8(dst, self.id);
        put_u8(dst, self.window);
        assert(contents(*dst) =~= contents(*old(dst)) + header_bytes(self));
    }

    /// Read a header from the front of a buffer. What has been read is gone
    /// from the buffer, whether it was a header or not.
    pub fn decode(src: &mut BytesMut) -> (header: Result<PacketHeader, Error>)
        requires
            contents(*old(src)).len() >= header_room(contents(*old(src))),
        ensures
            contents(*final(src)) == contents(*old(src)).skip(
                header_room(contents(*old(src))) as int,
            ),
            match header {
                Ok(header) => {
                    &&& header_room(contents(*old(src))) == HEADER_BYTES
                    &&& header_bytes(header) == contents(*old(src)).take(HEADER_BYTES as int)
                },
                Err(error) => not_a_header(contents(*old(src)), error),
            },
    {
        let ghost bytes = contents(*src);
        let raw_type: u8 = get_u8(src);
        let ty: PacketType = match PacketType::from_code(raw_type) {
            Some(ty) => ty,
            None => {
                let mut text: String = String::from_str("header: invalid packet type: ");
                push_decimal(&mut text, raw_type as usize);
                return Err(Error::Protocol(Cow::Owned(text)));
            },
        };
        let raw_status: u8 = get_u8(src);
        assert(contents(*src) =~= bytes.skip(2));
        let status: PacketStatus = match PacketStatus::from_code(raw_status) {
            Some(status) => status,
            None => return Err(Error::protocol("header: invalid packet status")),
        };
        assert(PacketType::is_code(bytes[0]) && PacketStatus::is_code(bytes[1]));
        let length: u16 = get_u16(src);
        let spid: u16 = get_u16(src);
        let id: u8 = get_u8(src);
        let window: u8 = get_u8(src);
        let header = PacketHeader { ty, status, length, spid, id, window };
        assert(contents(*src) =~= bytes.skip(8));
        assert(header_bytes(header) =~= bytes.take(8));
        Ok(header)
    }
}

/// A packet.
#[derive(Debug)]
pub struct Packet {
    /// The header.
    pub header: PacketHeader,
    /// What the packet carries.
    pub payload: BytesMut,
}

/// What a packet holds.
pub struct PacketModel {
    pub header: PacketHeader,
    pub payload: Seq<u8>,
}

impl View for Packet {
    type V = PacketModel;

    open spec fn view(&self) -> PacketModel {
        PacketModel { header: self.header, payload: contents(self.payload) }
    }
}

impl PacketModel {
    /// The length of the packet on the wire.
    pub open spec fn size(self) -> nat {
        HEADER_BYTES as nat + self.payload.len()
    }

    /// Whether the length field of the header can say how long the packet is.
    pub open spec fn fits(self) -> bool {
        self.size() <= u16::MAX
    }

    /// The packet with its own length in the header.
    pub open spec fn measured(self) -> PacketModel {
        PacketModel {
            header: PacketHeader { length: self.size() as u16, ..self.header },
            payload: self.payload,
        }
    }

    /// The wire form of the packet.
    pub open spec fn bytes(self) -> Seq<u8> {
        header_bytes(self.measured().header) + self.payload
    }
}

/// The text of the error for a packet of `size` bytes, which is too many.
pub open spec fn oversized_text(size: nat) -> Seq<char> {
    "packet of "@ + decimal(size) + " bytes exceeds the maximum packet length"@
}

/// Whether a packet can be written to a buffer that holds `len` bytes. One
/// that is refused for its length needs no room.
pub open spec fn encodable(packet: PacketModel, len: nat) -> bool {
    &&& packet.size() <= usize::MAX
    &&& packet.fits() ==> has_room(len, packet.size())
}

/// What writing a packet does to a buffer that holds `before`, and what comes
/// of it.
pub open spec fn encoded(
    packet: PacketModel,
    before: Seq<u8>,
    after: Seq<u8>,
    result: Result<(), Error>,
) -> bool {
    match result {
        Ok(_) => packet.fits() && after == before + packet.bytes(),
        Err(error) => {
            &&& !packet.fits()
            &&& error is Protocol
            &&& error.text() == oversized_text(packet.size())
            &&& after == before
        },
    }
}

/// What reading a packet does to a buffer that holds `before`, and what comes
/// of it.
pub open spec fn decoded(before: Seq<u8>, after: Seq<u8>, result: Result<Packet, Error>) -> bool {
    match result {
        Ok(packet) => {
            &&& header_room(before) == HEADER_BYTES
            &&& header_bytes(packet@.header) + packet@.payload == before
            &&& after == Seq::<u8>::empty()
        },
        Err(error) => not_a_header(before, error) && after == before.skip(
            header_room(before) as int,
        ),
    }
}

impl Packet {
    /// A packet of a header and a payload.
    pub fn new(header: PacketHeader, payload: BytesMut) -> (packet: Packet)
        ensures
            packet@ == (PacketModel { header, payload: contents(payload) }),
    {
        Packet { header, payload }
    }

    /// Whether this is the last packet of its message.
    pub fn is_last(&self) -> (last: bool)
        ensures
            last == (self@.header.status == PacketStatus::EndOfMessage),
    {
        self.header.status() == PacketStatus::EndOfMessage
    }

    /// The header and the payload.
    pub fn into_parts(self) -> (parts: (PacketHeader, BytesMut))
        ensures
            parts.0 == self@.header,
            contents(parts.1) == self@.payload,
    {
        (self.header, self.payload)
    }

    /// Append the wire form of the packet to a buffer. Whatever the header
    /// said, the length on the wire is that of the packet. A packet longer
    /// than the length field can say is refused and leaves the buffer alone.
    pub fn encode(self, dst: &mut BytesMut) -> (result: Result<(), Error>)
        requires
            encodable(self@, contents(*old(dst)).len()),
        ensures
            encoded(self@, contents(*old(dst)), contents(*final(dst)), result),
    {
        let size: usize = self.payload.len() + HEADER_BYTES;
        if size > u16::MAX as usize {
            let mut text: String = String::from_str("packet of ");
            push_decimal(&mut text, size);
            text.append(" bytes exceeds the maximum packet length");
            return Err(Error::Protocol(Cow::Owned(text)));
        }
        let mut header: PacketHeader = self.header;
        header.set_length(size as u16);
        header.encode(dst);
        extend(dst, self.payload);
        assert(contents(*dst) =~= contents(*old(dst)) + self@.bytes());
        Ok(())
    }

    /// Append the wire form of the packet to a buffer, as [`encode`] does, if
    /// the buffer can grow that far. If it cannot, it is left alone.
    ///
    /// [`encode`]: Self::encode
    pub fn try_encode(self, dst: &mut BytesMut) -> (result: Option<Result<(), Error>>)
        ensures
            match result {
                Some(result) => {
                    &&& encodable(self@, contents(*old(dst)).len())
                    &&& encoded(self@, contents(*old(dst)), contents(*final(dst)), result)
                },
                None => {
                    &&& !encodable(self@, contents(*old(dst)).len())
                    &&& contents(*final(dst)) == contents(*old(dst))
                },
            },
    {
        let payload_len: usize = self.payload.len();
        if payload_len > usize::MAX - HEADER_BYTES {
            return None;
        }
        let size: usize = payload_len + HEADER_BYTES;
        let limit: usize = isize::MAX as usize / 4;
        if size <= u16::MAX as usize && (dst.len() > limit || size > limit - dst.len()) {
            return None;
        }
        Some(self.encode(dst))
    }

    /// Read a packet that takes up a whole buffer: its header, then all the
    /// rest as its payload. What has been read is gone from the buffer, whether
    /// it was a packet or not.
    pub fn decode(src: &mut BytesMut) -> (packet: Result<Packet, Error>)
        requires
            contents(*old(src)).len() >= header_room(contents(*old(src))),
        ensures
            decoded(contents(*old(src)), contents(*final(src)), packet),
    {
        let ghost bytes = contents(*src);
        match PacketHeader::decode(src) {
            Ok(header) => {
                let payload: BytesMut = src.split();
                assert(header_bytes(header) + contents(payload) =~= bytes);
                Ok(Packet { header, payload })
            },
            Err(error) => Err(error),
        }
    }

    /// Read a packet that takes up a whole buffer, as [`decode`] does, if the
    /// buffer has enough bytes for a header. If it has not, it is left alone.
    ///
    /// [`decode`]: Self::decode
    pub fn try_decode(src: &mut BytesMut) -> (packet: Option<Result<Packet, Error>>)
        ensures
            match packet {
                Some(packet) => {
                    &&& contents(*old(src)).len() >= HEADER_BYTES
                    &&& decoded(contents(*old(src)), contents(*final(src)), packet)
                },
                None => {
                    &&& contents(*old(src)).len() < HEADER_BYTES
                    &&& contents(*final(src)) == contents(*old(src))
                },
            },
    {
        if src.len() < HEADER_BYTES {
            return None;
        }
        Some(Packet::decode(src))
    }

    /// Append the bytes of a buffer to the payload.
    pub fn extend(&mut self, bytes: BytesMut)
        requires
            has_room(old(self)@.payload.len(), contents(bytes).len()),
        ensures
            final(self)@ == (PacketModel {
                header: old(self)@.header,
                payload: old(self)@.payload + contents(bytes),
            }),
    {
        extend(&mut self.payload, bytes);
    }

    /// Append the bytes of a slice to the payload.
    pub fn extend_from_slice(&mut self, bytes: &[u8])
        requires
            has_room(old(self)@.payload.len(), bytes@.len()),
        ensures
            final(self)@ == (PacketModel {
                header: old(self)@.header,
                payload: old(self)@.payload + bytes@,
            }),
    {
        extend_from_slice(&mut self.payload, bytes);
    }
}

/// A header is eight bytes on the wire, and no two have the same bytes.
pub proof fn law_header_bytes_are_unambiguous(a: PacketHeader, b: PacketHeader)
    ensures
        header_bytes(a).len() == HEADER_BYTES,
        header_bytes(a) == header_bytes(b) ==> a == b,
{
    if header_bytes(a) == header_bytes(b) {
        let x = header_bytes(a);
        let y = header_bytes(b);
        assert(x[0] == y[0] && x[1] == y[1] && x[2] == y[2] && x[3] == y[3]);
        assert(x[4] == y[4] && x[5] == y[5] && x[6] == y[6] && x[7] == y[7]);
    }
}

/// Reading back what was written gives the packet, with its own length in the
/// header: the wire form starts with a header, and can be read as no other
/// packet.
pub proof fn law_packet_round_trip(packet: PacketModel)
    ensures
        header_room(packet.bytes()) == HEADER_BYTES,
        forall|read: PacketModel| #[trigger]
            header_bytes(read.header) + read.payload == packet.bytes() ==> read
                == packet.measured(),
{
    let sent = packet.measured().header;
    let bytes = packet.bytes();
    law_header_bytes_are_unambiguous(sent, sent);
    assert(bytes[0] == sent.ty.spec_code());
    assert(bytes[1] == sent.status.spec_code());
    assert forall|read: PacketModel| #[trigger]
        header_bytes(read.header) + read.payload == bytes implies read == packet.measured() by {
        law_header_bytes_are_unambiguous(read.header, sent);
        assert(bytes.take(8) =~= header_bytes(sent));
        assert(bytes.take(8) =~= header_bytes(read.header));
        assert(bytes.skip(8) =~= packet.payload);
        assert(bytes.skip(8) =~= read.payload);
    }
}

/// Packets can be written one behind the other: what the buffer held stays as
/// it was, and the new packet carries its own length, wherever it starts.
pub proof fn law_packets_append(before: Seq<u8>, packet: PacketModel)
    requires
        packet.fits(),
    ensures
        ({
            let after = before + packet.bytes();
            let start = before.len() as int;
            &&& after.take(start) == before
            &&& after.len() == start + packet.size()
            &&& after[start + 2] * 256 + after[start + 3] == packet.size()
            &&& after.skip(start + HEADER_BYTES) == packet.payload
        }),
{
    let after = before + packet.bytes();
    let start = before.len() as int;
    let header = header_bytes(packet.measured().header);
    assert(header.len() == 8);
    assert(after.take(start) =~= before);
    assert(after[start + 2] == header[2]);
    assert(after[start + 3] == header[3]);
    assert(after.skip(start + 8) =~= packet.payload);
}

} // verus!
