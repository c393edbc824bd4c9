//! What holds of the encoder and the decoder together.
//!
//! The statements are over `OrchardMessage::wire`, which is what `encode`
//! writes, and `decode_spec`, which is what `decode` returns.

use crate::address::{Endpoint, IpAddress};
use crate::message::{
    be16_at, decode_spec, decoded_as, endpoint_at, first_bytes, probe_code, protocol_tag,
    read_limit, reply_code, OrchardMessage, ParseError, ORCHARD_VERSION,
};
use vstd::prelude::*;

verus! {

/// An endpoint record has as many bytes as `wire_len` says, and they are the
/// port, the family tag and the octets.
pub proof fn lemma_endpoint_wire(e: Endpoint)
    ensures
        e.wire().len() == e.wire_len(),
        be16_at(e.wire(), 0) == e.port,
        be16_at(e.wire(), 2) == e.addr.spec_version(),
        e.wire().subrange(4, e.wire_len() as int) == e.addr.spec_octets(),
{
    assert(e.wire().subrange(4, e.wire_len() as int) =~= e.addr.spec_octets());
}

/// A message on the wire has twelve bytes before its body, and the body
/// length that it declares is that of its endpoint records.
pub proof fn lemma_wire_layout(m: OrchardMessage)
    ensures
        m.wire().len() == 12 + m.body_len(),
        m.body_len() <= 40,
        m.wire().subrange(0, 7) == protocol_tag(),
        m.wire()[7] == ORCHARD_VERSION,
        m.wire().subrange(8, 10) == m.type_code(),
        be16_at(m.wire(), 10) == m.body_len(),
        m.wire().subrange(12, m.wire().len() as int) == m.body(),
{
    match m {
        OrchardMessage::NatProbe { sender } => {
            lemma_endpoint_wire(sender);
        },
        OrchardMessage::NatReply { sender, receiver } => {
            lemma_endpoint_wire(sender);
            lemma_endpoint_wire(receiver);
        },
    }
    assert(m.wire().subrange(0, 7) =~= protocol_tag());
    assert(m.wire().subrange(8, 10) =~= m.type_code());
    assert(m.wire().subrange(12, m.wire().len() as int) =~= m.body());
}

/// Where the bytes of an endpoint record stand at `at` and may all be read,
/// reading gives that endpoint.
proof fn lemma_endpoint_read(data: Seq<u8>, at: int, limit: int, e: Endpoint)
    requires
        0 <= at,
        at + e.wire_len() <= limit <= data.len(),
        forall|i: int| 0 <= i < e.wire_len() ==> data[at + i] == e.wire()[i],
    ensures
        endpoint_at(data, at, limit) == Ok::<Endpoint, ParseError>(e),
{
    lemma_endpoint_wire(e);
    assert(data[at] == e.wire()[0]);
    assert(data[at + 1] == e.wire()[1]);
    assert(data[at + 2] == e.wire()[2]);
    assert(data[at + 3] == e.wire()[3]);
    assert(be16_at(data, at) == e.port);
    assert(be16_at(data, at + 2) == e.addr.spec_version());
    assert forall|i: int| 0 <= i < e.addr.spec_len() implies data[at + 4 + i]
        == e.addr.spec_octets()[i] by {
        assert(data[at + (4 + i)] == e.wire()[4 + i]);
    }
    match e.addr {
        IpAddress::V4(a) => {
            let b = [data[at + 4], data[at + 5], data[at + 6], data[at + 7]];
            assert forall|i: int| 0 <= i < 4 implies a[i] == b[i] by {
                assert(data[at + 4 + i] == e.addr.spec_octets()[i]);
            }
            assert(a =~= b);
        },
        IpAddress::V6(a) => {
            let b = [
                data[at + 4],
                data[at + 5],
                data[at + 6],
                data[at + 7],
                data[at + 8],
                data[at + 9],
                data[at + 10],
                data[at + 11],
                data[at + 12],
                data[at + 13],
                data[at + 14],
                data[at + 15],
                data[at + 16],
                data[at + 17],
                data[at + 18],
                data[at + 19],
            ];
            assert forall|i: int| 0 <= i < 16 implies a[i] == b[i] by {
                assert(data[at + 4 + i] == e.addr.spec_octets()[i]);
            }
            assert(a =~= b);
        },
    }
}

/// Where the bytes of an endpoint record start at `at` and the limit falls
/// before the record's end, reading fails for want of bytes.
proof fn lemma_endpoint_cut(data: Seq<u8>, at: int, limit: int, e: Endpoint)
    requires
        0 <= at <= limit,
        limit < at + e.wire_len(),
        limit <= data.len(),
        forall|i: int| 0 <= i < limit - at ==> data[at + i] == e.wire()[i],
    ensures
        endpoint_at(data, at, limit) == Err::<Endpoint, ParseError>(ParseError::Truncated),
{
    lemma_endpoint_wire(e);
    if limit >= at + 4 {
        assert(data[at + 2] == e.wire()[2]);
        assert(data[at + 3] == e.wire()[3]);
        assert(be16_at(data, at + 2) == e.addr.spec_version());
    }
}

/// Where reading at `at` gives an endpoint, its record stands there, before
/// the limit.
proof fn lemma_endpoint_found(data: Seq<u8>, at: int, limit: int, e: Endpoint)
    requires
        0 <= at,
        limit <= data.len(),
        endpoint_at(data, at, limit) == Ok::<Endpoint, ParseError>(e),
    ensures
        at + e.wire_len() <= limit,
        data.subrange(at, at + e.wire_len()) == e.wire(),
{
    lemma_endpoint_wire(e);
    let found = data.subrange(at, at + e.wire_len());
    assert forall|i: int| 0 <= i < e.wire_len() implies found[i] == e.wire()[i] by {
        assert(found[i] == data[at + i]);
        if i >= 4 {
            assert(e.wire()[i] == e.addr.spec_octets()[i - 4]);
        }
    }
    assert(found =~= e.wire());
}

/// Whether an input holds a message: the header and the type code at the
/// start, then a body length that is no less than the message needs, then the
/// message's endpoint records, all within the input. What follows the records
/// is free.
pub open spec fn carries(data: Seq<u8>, m: OrchardMessage) -> bool {
    &&& 12 + m.body_len() <= data.len()
    &&& m.body_len() <= be16_at(data, 10)
    &&& data.subrange(0, 10) == m.wire().subrange(0, 10)
    &&& data.subrange(12, 12 + m.body_len() as int) == m.body()
}

/// The decoder makes nothing up: where it reads a message, the input holds
/// that message.
pub proof fn lemma_decoded_was_carried(data: Seq<u8>, m: OrchardMessage)
    requires
        decode_spec(data) == Ok::<OrchardMessage, ParseError>(m),
    ensures
        carries(data, m),
{
    lemma_wire_layout(m);
    let limit = read_limit(data);
    assert(first_bytes(protocol_tag(), data.len() as int) =~= protocol_tag());
    assert(probe_code() != reply_code()) by {
        assert(probe_code()[1] != reply_code()[1]);
    }
    assert forall|i: int| 0 <= i < 10 implies data[i] == m.wire()[i] by {
        if i < 7 {
            assert(data.subrange(0, 7)[i] == protocol_tag()[i]);
            assert(m.wire().subrange(0, 7)[i] == protocol_tag()[i]);
        } else if i >= 8 {
            assert(data.subrange(8, 10)[i - 8] == m.type_code()[i - 8]);
            assert(m.wire().subrange(8, 10)[i - 8] == m.type_code()[i - 8]);
        }
    }
    assert(data.subrange(0, 10) =~= m.wire().subrange(0, 10));
    match m {
        OrchardMessage::NatProbe { sender } => {
            lemma_endpoint_found(data, 12, limit, sender);
        },
        OrchardMessage::NatReply { sender, receiver } => {
            lemma_endpoint_found(data, 12, limit, sender);
            let at = 12 + sender.wire_len() as int;
            lemma_endpoint_found(data, at, limit, receiver);
            lemma_endpoint_wire(sender);
            lemma_endpoint_wire(receiver);
            assert(data.subrange(12, 12 + m.body_len() as int) =~= data.subrange(12, at)
                + data.subrange(at, at + receiver.wire_len()));
        },
    }
}

/// The decoder misses nothing: an input that holds a message is read as that
/// message.
pub proof fn lemma_carried_is_decoded(data: Seq<u8>, m: OrchardMessage)
    requires
        carries(data, m),
    ensures
        decode_spec(data) == Ok::<OrchardMessage, ParseError>(m),
{
    lemma_wire_layout(m);
    let limit = read_limit(data);
    assert forall|i: int| 0 <= i < 10 implies data[i] == m.wire()[i] by {
        assert(data.subrange(0, 10)[i] == m.wire().subrange(0, 10)[i]);
    }
    assert forall|i: int| 0 <= i < m.body_len() implies data[12 + i] == m.body()[i] by {
        assert(data.subrange(12, 12 + m.body_len() as int)[i] == data[12 + i]);
    }
    assert(first_bytes(data, 7) =~= m.wire().subrange(0, 7));
    assert(first_bytes(protocol_tag(), data.len() as int) =~= protocol_tag());
    assert(data[7] == m.wire()[7]);
    assert(data.subrange(8, 10) =~= m.wire().subrange(8, 10));
    assert(probe_code() != reply_code()) by {
        assert(probe_code()[1] != reply_code()[1]);
    }
    match m {
        OrchardMessage::NatProbe { sender } => {
            lemma_endpoint_wire(sender);
            lemma_endpoint_read(data, 12, limit, sender);
        },
        OrchardMessage::NatReply { sender, receiver } => {
            lemma_endpoint_wire(sender);
            lemma_endpoint_wire(receiver);
            assert forall|i: int| 0 <= i < sender.wire_len() implies data[12 + i]
                == sender.wire()[i] by {
                assert(data[12 + i] == m.body()[i]);
            }
            lemma_endpoint_read(data, 12, limit, sender);
            let at = 12 + sender.wire_len() as int;
            assert forall|i: int| 0 <= i < receiver.wire_len() implies data[at + i]
                == receiver.wire()[i] by {
                assert(data[12 + (sender.wire_len() + i)] == m.body()[sender.wire_len() + i]);
            }
            lemma_endpoint_read(data, at, limit, receiver);
        },
    }
}

/// The reader calls an input anomalous exactly where the input is not, byte
/// for byte, what the encoder writes for the message that was read from it.
pub proof fn lemma_anomalous_iff_not_written(data: Seq<u8>, m: OrchardMessage)
    requires
        data.len() <= usize::MAX,
        decode_spec(data) == Ok::<OrchardMessage, ParseError>(m),
    ensures
        decoded_as(data, m).spec_is_anomalous() <==> data != m.wire(),
{
    lemma_decoded_was_carried(data, m);
    lemma_wire_layout(m);
    let found = decoded_as(data, m);
    if !found.spec_is_anomalous() {
        assert forall|i: int| 0 <= i < data.len() implies data[i] == m.wire()[i] by {
            if i < 10 {
                assert(data.subrange(0, 10)[i] == m.wire().subrange(0, 10)[i]);
            } else if i >= 12 {
                assert(data.subrange(12, 12 + m.body_len() as int)[i - 12] == data[i]);
                assert(m.wire().subrange(12, m.wire().len() as int)[i - 12] == m.wire()[i]);
            }
        }
        assert(data =~= m.wire());
    }
}

/// Reading what was written gives the message back, also where further bytes
/// follow it: they are passed over, and the reader reports how many they are
/// (for every input that a slice can hold).
pub proof fn lemma_decode_leading(m: OrchardMessage, extra: Seq<u8>)
    ensures
        decode_spec(m.wire() + extra) == Ok::<OrchardMessage, ParseError>(m),
        (m.wire() + extra).len() <= usize::MAX ==> decoded_as(m.wire() + extra, m).trailing
            == extra.len(),
        decoded_as(m.wire() + extra, m).length_agrees,
{
    let data = m.wire() + extra;
    lemma_wire_layout(m);
    assert(data.subrange(0, 10) =~= m.wire().subrange(0, 10));
    assert(data.subrange(12, 12 + m.body_len() as int) =~= m.wire().subrange(
        12,
        m.wire().len() as int,
    ));
    assert(data[10] == m.wire()[10]);
    assert(data[11] == m.wire()[11]);
    lemma_carried_is_decoded(data, m);
}

/// Reading what was written gives the message back.
pub proof fn lemma_round_trip(m: OrchardMessage)
    ensures
        decode_spec(m.wire()) == Ok::<OrchardMessage, ParseError>(m),
        decoded_as(m.wire(), m).trailing == 0,
        decoded_as(m.wire(), m).length_agrees,
{
    lemma_decode_leading(m, Seq::<u8>::empty());
    assert(m.wire() + Seq::<u8>::empty() =~= m.wire());
}

/// A written message that is cut short anywhere is refused as truncated.
pub proof fn lemma_prefix_truncated(m: OrchardMessage, k: int)
    requires
        0 <= k < m.wire().len(),
    ensures
        decode_spec(m.wire().subrange(0, k)) == Err::<OrchardMessage, ParseError>(
            ParseError::Truncated,
        ),
{
    let data = m.wire().subrange(0, k);
    lemma_wire_layout(m);
    assert forall|i: int| 0 <= i < k implies data[i] == m.wire()[i] by {}
    assert(first_bytes(data, 7) =~= first_bytes(protocol_tag(), data.len() as int)) by {
        assert forall|i: int| 0 <= i < 7 && i < k implies data[i] == protocol_tag()[i] by {
            assert(m.wire().subrange(0, 7)[i] == m.wire()[i]);
        }
    }
    if k >= 8 {
        assert(data[7] == m.wire()[7]);
    }
    if k >= 10 {
        assert(data.subrange(8, 10) =~= m.wire().subrange(8, 10));
    }
    assert(probe_code() != reply_code()) by {
        assert(probe_code()[1] != reply_code()[1]);
    }
    if k >= 12 {
        assert(data[10] == m.wire()[10]);
        assert(data[11] == m.wire()[11]);
        assert(be16_at(data, 10) == m.body_len());
        assert(read_limit(data) == k);
        match m {
            OrchardMessage::NatProbe { sender } => {
                lemma_endpoint_wire(sender);
                assert forall|i: int| 0 <= i < k - 12 implies data[12 + i]
                    == sender.wire()[i] by {
                    assert(m.wire()[12 + i] == m.body()[i]);
                }
                lemma_endpoint_cut(data, 12, k, sender);
            },
            OrchardMessage::NatReply { sender, receiver } => {
                lemma_endpoint_wire(sender);
                lemma_endpoint_wire(receiver);
                let at = 12 + sender.wire_len() as int;
                if k < at {
                    assert forall|i: int| 0 <= i < k - 12 implies data[12 + i]
                        == sender.wire()[i] by {
                        assert(m.wire()[12 + i] == m.body()[i]);
                    }
                    lemma_endpoint_cut(data, 12, k, sender);
                } else {
                    assert forall|i: int| 0 <= i < sender.wire_len() implies data[12 + i]
                        == sender.wire()[i] by {
                        assert(m.wire()[12 + i] == m.body()[i]);
                    }
                    lemma_endpoint_read(data, 12, k, sender);
                    assert forall|i: int| 0 <= i < k - at implies data[at + i]
                        == receiver.wire()[i] by {
                        assert(m.wire()[12 + (sender.wire_len() + i)] == m.body()[sender.wire_len()
                            + i]);
                    }
                    lemma_endpoint_cut(data, at, k, receiver);
                }
            },
        }
    }
}

/// An input of seven bytes or more whose first seven are not the protocol
/// tag is refused for its magic, whatever follows them.
pub proof fn lemma_bad_magic(data: Seq<u8>)
    requires
        data.len() >= 7,
        data.subrange(0, 7) != protocol_tag(),
    ensures
        decode_spec(data) == Err::<OrchardMessage, ParseError>(ParseError::BadMagic),
{
    assert(first_bytes(protocol_tag(), data.len() as int) =~= protocol_tag());
}

/// A shorter input is refused for its magic as soon as one of its bytes is
/// not the byte that the protocol tag has in that place.
pub proof fn lemma_bad_magic_short(data: Seq<u8>, i: int)
    requires
        0 <= i < data.len(),
        i < 7,
        data[i] != protocol_tag()[i],
    ensures
        decode_spec(data) == Err::<OrchardMessage, ParseError>(ParseError::BadMagic),
{
    assert(first_bytes(data, 7)[i] == data[i]);
    assert(first_bytes(protocol_tag(), data.len() as int)[i] == protocol_tag()[i]);
}

/// Whether the input starts with the tag, a version and a type code that the
/// decoder accepts, and holds a body length.
pub open spec fn header_accepted(data: Seq<u8>) -> bool {
    &&& data.len() >= 12
    &&& data.subrange(0, 7) == protocol_tag()
    &&& data[7] == ORCHARD_VERSION
    &&& (data.subrange(8, 10) == probe_code() || data.subrange(8, 10) == reply_code())
}

/// A family tag other than 4 and 6 in the first endpoint record is refused,
/// in a probe and in a reply.
pub proof fn lemma_bad_sender_family(data: Seq<u8>)
    requires
        header_accepted(data),
        read_limit(data) >= 16,
        be16_at(data, 14) != 4,
        be16_at(data, 14) != 6,
    ensures
        decode_spec(data) == Err::<OrchardMessage, ParseError>(ParseError::BadFamily),
{
    assert(first_bytes(protocol_tag(), data.len() as int) =~= protocol_tag());
}

/// A family tag other than 4 and 6 in the second endpoint record of a reply
/// is refused.
pub proof fn lemma_bad_receiver_family(data: Seq<u8>, sender: Endpoint)
    requires
        header_accepted(data),
        data.subrange(8, 10) == reply_code(),
        endpoint_at(data, 12, read_limit(data)) == Ok::<Endpoint, ParseError>(sender),
        read_limit(data) >= 16 + sender.wire_len(),
        be16_at(data, 14 + sender.wire_len() as int) != 4,
        be16_at(data, 14 + sender.wire_len() as int) != 6,
    ensures
        decode_spec(data) == Err::<OrchardMessage, ParseError>(ParseError::BadFamily),
{
    assert(first_bytes(protocol_tag(), data.len() as int) =~= protocol_tag());
    assert(probe_code() != reply_code()) by {
        assert(probe_code()[1] != reply_code()[1]);
    }
}

} // verus!
