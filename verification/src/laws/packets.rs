//! Laws of packets on the wire.
use crate::buffer::{big_endian, contents};
use crate::error::Error;
use crate::packet::{
    decoded, encodable, encoded, header_bytes, header_room,
    not_a_header, Packet, PacketHeader, PacketModel, PacketStatus, PacketType,
};
use crate::text::decimal;
use bytes::BytesMut;
use vstd::prelude::*;

verus! {

/// The numbers that stand for packet types.
pub open spec fn type_number(ty: PacketType, number: u8) -> bool {
    match number {
        1 => ty is SqlBatch,
        2 => ty is PreTdsV7Login,
        3 => ty is Rpc,
        4 => ty is TabularResult,
        6 => ty is AttentionSignal,
        7 => ty is BulkLoad,
        8 => ty is Fat,
        14 => ty is TransactionManagerReq,
        16 => ty is TdsV7Login,
        17 => ty is Sspi,
        18 => ty is PreLogin,
        _ => false,
    }
}

/// The numbers that stand for packet statuses.
pub open spec fn status_number(status: PacketStatus, number: u8) -> bool {
    match number {
        0 => status is NormalMessage,
        1 => status is EndOfMessage,
        3 => status is IgnoreEvent,
        8 => status is ResetConnection,
        16 => status is ResetConnectionSkipTran,
        _ => false,
    }
}

/// Whether a number stands for some packet type.
pub open spec fn is_type_number(number: u8) -> bool {
    ||| 1 <= number <= 4
    ||| 6 <= number <= 8
    ||| number == 14
    ||| 16 <= number <= 18
}

/// Whether a number stands for some packet status.
pub open spec fn is_status_number(number: u8) -> bool {
    number == 0 || number == 1 || number == 3 || number == 8 || number == 16
}

/// A packet type and a packet status have their numbers, and no other number
/// stands for one.
pub proof fn law_packet_numbers(ty: PacketType, status: PacketStatus, number: u8)
    ensures
        ty.spec_code() == number <==> type_number(ty, number),
        status.spec_code() == number <==> status_number(status, number),
        PacketType::is_code(number) <==> is_type_number(number),
        PacketStatus::is_code(number) <==> is_status_number(number),
{
    assert(PacketType::SqlBatch.spec_code() == 1);
    assert(PacketType::PreTdsV7Login.spec_code() == 2);
    assert(PacketType::Rpc.spec_code() == 3);
    assert(PacketType::TabularResult.spec_code() == 4);
    assert(PacketType::AttentionSignal.spec_code() == 6);
    assert(PacketType::BulkLoad.spec_code() == 7);
    assert(PacketType::Fat.spec_code() == 8);
    assert(PacketType::TransactionManagerReq.spec_code() == 14);
    assert(PacketType::TdsV7Login.spec_code() == 16);
    assert(PacketType::Sspi.spec_code() == 17);
    assert(PacketType::PreLogin.spec_code() == 18);
    assert(PacketStatus::NormalMessage.spec_code() == 0);
    assert(PacketStatus::EndOfMessage.spec_code() == 1);
    assert(PacketStatus::IgnoreEvent.spec_code() == 3);
    assert(PacketStatus::ResetConnection.spec_code() == 8);
    assert(PacketStatus::ResetConnectionSkipTran.spec_code() == 16);
}

/// A number in big-endian order is two bytes, the higher one first.
pub proof fn law_big_endian(n: u16)
    ensures
        big_endian(n).len() == 2,
        big_endian(n)[0] * 256 + big_endian(n)[1] == n,
{
}

/// The first eight of some bytes are the header: type, status, length, process,
/// packet number and window.
pub open spec fn starts_with_header(bytes: Seq<u8>, header: PacketHeader) -> bool {
    &&& bytes.len() >= 8
    &&& type_number(header.ty, bytes[0])
    &&& status_number(header.status, bytes[1])
    &&& bytes[2] * 256 + bytes[3] == header.length
    &&& bytes[4] * 256 + bytes[5] == header.spid
    &&& bytes[6] == header.id
    &&& bytes[7] == header.window
}

/// A header is written as its eight bytes.
pub proof fn law_header_layout(header: PacketHeader)
    ensures
        header_bytes(header).len() == 8,
        starts_with_header(header_bytes(header), header),
{
    let bytes = header_bytes(header);
    law_packet_numbers(header.ty, header.status, bytes[0]);
    law_packet_numbers(header.ty, header.status, bytes[1]);
    law_big_endian(header.length);
    law_big_endian(header.spid);
    assert(bytes[2] == big_endian(header.length)[0] && bytes[3] == big_endian(header.length)[1]);
    assert(bytes[4] == big_endian(header.spid)[0] && bytes[5] == big_endian(header.spid)[1]);
}

/// A packet is what its parts are.
pub proof fn law_packet_parts(packet: Packet)
    ensures
        packet@.header == packet.header,
        packet@.payload == contents(packet.payload),
{
}

/// Writing a packet succeeds exactly if it is no longer than the length field
/// can say. It then adds the header, with the packet's own length in place of
/// what the header said, and the payload behind what was there. A packet that is
/// too long is refused by its length, and adds nothing.
pub proof fn law_writing_a_packet(
    packet: PacketModel,
    before: Seq<u8>,
    after: Seq<u8>,
    result: Result<(), Error>,
)
    requires
        encoded(packet, before, after, result),
    ensures
        result is Ok <==> packet.payload.len() + 8 <= 65535,
        result is Ok ==> {
            let added = after.skip(before.len() as int);
            &&& after.len() == before.len() + 8 + packet.payload.len()
            &&& after.take(before.len() as int) == before
            &&& type_number(packet.header.ty, added[0])
            &&& status_number(packet.header.status, added[1])
            &&& added[2] * 256 + added[3] == packet.payload.len() + 8
            &&& added[4] * 256 + added[5] == packet.header.spid
            &&& added[6] == packet.header.id
            &&& added[7] == packet.header.window
            &&& added.skip(8) == packet.payload
        },
        result matches Err(error) ==> {
            &&& after == before
            &&& error is Protocol
            &&& error.text() == "packet of "@ + decimal(packet.payload.len() + 8)
                + " bytes exceeds the maximum packet length"@
        },
{
    let header = packet.measured().header;
    law_header_layout(header);
    if result is Ok {
        let added = after.skip(before.len() as int);
        assert(added =~= header_bytes(header) + packet.payload);
        assert(after.take(before.len() as int) =~= before);
        assert(added.skip(8) =~= packet.payload);
        assert forall|i: int| 0 <= i < 8 implies added[i] == header_bytes(header)[i] by {}
    }
}

/// A packet can be written unless the buffer would grow beyond what can be
/// allocated.
pub proof fn law_what_can_be_written(packet: PacketModel, len: nat)
    requires
        packet.payload.len() + 8 <= usize::MAX,
        len + packet.payload.len() + 8 <= isize::MAX / 4,
    ensures
        encodable(packet, len),
{
}

/// Bytes are read as a packet exactly if they start with the number of a type
/// and the number of a status. The packet then has the header that the first
/// eight bytes say and all the rest as its payload, and nothing is left. Bytes
/// that are no packet are refused, by the number where it is that of no type.
pub proof fn law_reading_a_packet(
    before: Seq<u8>,
    after: Seq<u8>,
    result: Result<Packet, Error>,
)
    requires
        before.len() >= header_room(before),
        decoded(before, after, result),
    ensures
        result is Ok <==> is_type_number(before[0]) && is_status_number(before[1]),
        result matches Ok(packet) ==> {
            &&& starts_with_header(before, packet.header)
            &&& contents(packet.payload) == before.skip(8)
            &&& after.len() == 0
        },
        result matches Err(error) ==> {
            &&& error is Protocol
            &&& !is_type_number(before[0]) ==> {
                &&& error.text() == "header: invalid packet type: "@ + decimal(before[0] as nat)
                &&& after == before.skip(1)
            }
            &&& is_type_number(before[0]) ==> {
                &&& error.text() == "header: invalid packet status"@
                &&& after == before.skip(2)
            }
        },
{
    law_packet_numbers(PacketType::Rpc, PacketStatus::NormalMessage, before[0]);
    law_packet_numbers(PacketType::Rpc, PacketStatus::NormalMessage, before[1]);
    if let Ok(packet) = result {
        law_header_layout(packet@.header);
        let head = header_bytes(packet@.header);
        assert(before.skip(8) =~= packet@.payload);
        assert forall|i: int| 0 <= i < 8 implies before[i] == head[i] by {}
    }
}

/// Reading a header takes its eight bytes, and says what they say.
pub proof fn law_reading_a_header(bytes: Seq<u8>, header: PacketHeader)
    requires
        bytes.len() >= 8,
        header_bytes(header) == bytes.take(8),
    ensures
        starts_with_header(bytes, header),
        header_room(bytes) == 8,
{
    law_header_layout(header);
    law_packet_numbers(header.ty, header.status, bytes[0]);
    law_packet_numbers(header.ty, header.status, bytes[1]);
    assert forall|i: int| 0 <= i < 8 implies bytes[i] == header_bytes(header)[i] by {
        assert(bytes.take(8)[i] == bytes[i]);
    }
}

/// Bytes that start with no header are refused on the first number that is
/// wrong.
pub proof fn law_refusing_a_header(bytes: Seq<u8>, error: Error)
    requires
        bytes.len() >= 2,
        not_a_header(bytes, error),
    ensures
        !is_type_number(bytes[0]) ==> header_room(bytes) == 1 && error.text()
            == "header: invalid packet type: "@ + decimal(bytes[0] as nat),
        is_type_number(bytes[0]) ==> header_room(bytes) == 2 && !is_status_number(bytes[1])
            && error.text() == "header: invalid packet status"@,
{
    law_packet_numbers(PacketType::Rpc, PacketStatus::NormalMessage, bytes[0]);
    law_packet_numbers(PacketType::Rpc, PacketStatus::NormalMessage, bytes[1]);
}

/// Eight bytes are always enough to read a header or to refuse it.
pub proof fn law_room_for_a_header(bytes: Seq<u8>)
    ensures
        header_room(bytes) <= 8,
        bytes.len() >= 1 && !is_type_number(bytes[0]) ==> header_room(bytes) == 1,
        bytes.len() >= 2 && is_type_number(bytes[0]) && !is_status_number(bytes[1]) ==> header_room(
            bytes,
        ) == 2,
{
    law_packet_numbers(PacketType::Rpc, PacketStatus::NormalMessage, bytes[0]);
    law_packet_numbers(PacketType::Rpc, PacketStatus::NormalMessage, bytes[1]);
}

/// What a packet is made of is what it is taken apart into, and it is the last
/// one of its message exactly if its header says so.
pub proof fn law_packets_keep_their_parts(
    header: PacketHeader,
    payload: BytesMut,
    packet: Packet,
    last: bool,
    parts: (PacketHeader, BytesMut),
)
    requires
        call_ensures(Packet::new, (header, payload), packet),
        call_ensures(Packet::is_last, (&packet,), last),
        call_ensures(Packet::into_parts, (packet,), parts),
    ensures
        parts.0 == header,
        contents(parts.1) == contents(payload),
        last <==> header.status is EndOfMessage,
{
}

/// The outcome of writing a packet behind the bytes in a buffer.
pub open spec fn is_written(
    header: PacketHeader,
    payload: Seq<u8>,
    before: Seq<u8>,
    after: Seq<u8>,
    result: Result<(), Error>,
) -> bool {
    let added = after.skip(before.len() as int);
    &&& result is Ok <==> payload.len() + 8 <= 65535
    &&& result is Ok ==> {
        &&& after.len() == before.len() + 8 + payload.len()
        &&& after.take(before.len() as int) == before
        &&& type_number(header.ty, added[0])
        &&& status_number(header.status, added[1])
        &&& added[2] * 256 + added[3] == payload.len() + 8
        &&& added[4] * 256 + added[5] == header.spid
        &&& added[6] == header.id
        &&& added[7] == header.window
        &&& added.skip(8) == payload
    }
    &&& result matches Err(error) ==> {
        &&& after == before
        &&& error is Protocol
        &&& error.text() == "packet of "@ + decimal(payload.len() + 8)
            + " bytes exceeds the maximum packet length"@
    }
}

/// A packet that is written goes behind what the buffer held, as its header
/// with its own length and its payload, or is refused for its length.
pub proof fn law_encoding(packet: Packet, dst: &mut BytesMut, result: Result<(), Error>)
    requires
        call_ensures(Packet::encode, (packet, dst), result),
    ensures
        is_written(
            packet.header,
            contents(packet.payload),
            contents(*old(dst)),
            contents(*final(dst)),
            result,
        ),
{
    law_writing_a_packet(packet@, contents(*old(dst)), contents(*final(dst)), result);
}

/// Where there is room, a packet is written in the same way; where there is
/// none, the buffer stays as it is.
pub proof fn law_trying_to_encode(
    packet: Packet,
    dst: &mut BytesMut,
    result: Option<Result<(), Error>>,
)
    requires
        call_ensures(Packet::try_encode, (packet, dst), result),
    ensures
        contents(*old(dst)).len() + contents(packet.payload).len() + 8 <= isize::MAX / 4
            ==> result is Some,
        result matches Some(result) ==> is_written(
            packet.header,
            contents(packet.payload),
            contents(*old(dst)),
            contents(*final(dst)),
            result,
        ),
        result is None ==> contents(*final(dst)) == contents(*old(dst)),
{
    if let Some(result) = result {
        law_writing_a_packet(packet@, contents(*old(dst)), contents(*final(dst)), result);
    }
}

/// The outcome of reading a packet from the bytes of a buffer.
pub open spec fn is_read(before: Seq<u8>, after: Seq<u8>, result: Result<Packet, Error>) -> bool {
    &&& result is Ok <==> is_type_number(before[0]) && is_status_number(before[1])
    &&& result matches Ok(packet) ==> {
        &&& starts_with_header(before, packet.header)
        &&& contents(packet.payload) == before.skip(8)
        &&& after.len() == 0
    }
    &&& result matches Err(error) ==> {
        &&& error is Protocol
        &&& !is_type_number(before[0]) ==> {
            &&& error.text() == "header: invalid packet type: "@ + decimal(before[0] as nat)
            &&& after == before.skip(1)
        }
        &&& is_type_number(before[0]) ==> {
            &&& error.text() == "header: invalid packet status"@
            &&& after == before.skip(2)
        }
    }
}

/// A buffer with at least eight bytes is read as a packet, or refused on the
/// first number that is wrong.
pub proof fn law_decoding(src: &mut BytesMut, result: Result<Packet, Error>)
    requires
        contents(*old(src)).len() >= 8,
        call_ensures(Packet::decode, (src,), result),
    ensures
        is_read(contents(*old(src)), contents(*final(src)), result),
{
    law_room_for_a_header(contents(*old(src)));
    law_reading_a_packet(contents(*old(src)), contents(*final(src)), result);
}

/// A buffer with fewer than eight bytes is left alone; any other is read in the
/// same way.
pub proof fn law_trying_to_decode(src: &mut BytesMut, result: Option<Result<Packet, Error>>)
    requires
        call_ensures(Packet::try_decode, (src,), result),
    ensures
        result is Some <==> contents(*old(src)).len() >= 8,
        result is None ==> contents(*final(src)) == contents(*old(src)),
        result matches Some(result) ==> is_read(
            contents(*old(src)),
            contents(*final(src)),
            result,
        ),
{
    if let Some(result) = result {
        law_room_for_a_header(contents(*old(src)));
        law_reading_a_packet(contents(*old(src)), contents(*final(src)), result);
    }
}

/// What is read back from a buffer that held nothing but one written packet is
/// that packet, with its own length in the header.
pub proof fn law_reading_back(
    packet: Packet,
    dst: &mut BytesMut,
    written: Result<(), Error>,
    src: &mut BytesMut,
    read: Result<Packet, Error>,
)
    requires
        contents(*old(dst)).len() == 0,
        call_ensures(Packet::encode, (packet, dst), written),
        written is Ok,
        contents(*old(src)) == contents(*final(dst)),
        call_ensures(Packet::decode, (src,), read),
    ensures
        read matches Ok(same) && {
            &&& contents(same.payload) == contents(packet.payload)
            &&& same.header.ty == packet.header.ty
            &&& same.header.status == packet.header.status
            &&& same.header.length == contents(packet.payload).len() + 8
            &&& same.header.spid == packet.header.spid
            &&& same.header.id == packet.header.id
            &&& same.header.window == packet.header.window
        },
{
    let bytes = contents(*old(src));
    law_encoding(packet, dst, written);
    assert(bytes.skip(0) =~= bytes);
    law_packet_numbers(packet.header.ty, packet.header.status, bytes[0]);
    law_packet_numbers(packet.header.ty, packet.header.status, bytes[1]);
    law_decoding(src, read);
    if let Ok(same) = read {
        law_packet_numbers(same.header.ty, same.header.status, bytes[0]);
        law_packet_numbers(same.header.ty, same.header.status, bytes[1]);
    }
}

/// Extending a packet adds bytes to the end of its payload, and changes nothing
/// else.
pub proof fn law_extending(packet: &mut Packet, bytes: BytesMut)
    requires
        call_ensures(Packet::extend, (packet, bytes), ()),
    ensures
        final(packet).header == old(packet).header,
        contents(final(packet).payload) == contents(old(packet).payload) + contents(bytes),
{
}

/// Extending a packet by a slice adds its bytes to the end of the payload, and
/// changes nothing else.
pub proof fn law_extending_from_a_slice(packet: &mut Packet, bytes: &[u8])
    requires
        call_ensures(Packet::extend_from_slice, (packet, bytes), ()),
    ensures
        final(packet).header == old(packet).header,
        contents(final(packet).payload) == contents(old(packet).payload) + bytes@,
{
}

} // verus!
