//! The wire format of the probe messages.
//!
//! Every message starts with the seven bytes `ORCHARD` and a version byte.
//! Then come a two-byte type code, a two-byte body length, and one or two
//! endpoint records. An endpoint record is a port, a family tag (4 or 6) and
//! the octets of the address (4 or 16 of them). Numbers of two bytes have the
//! high byte first.

use crate::address::{Endpoint, IpAddress};
use crate::buffer::{freeze, frozen, put_slice, put_u16_be, put_u8, room, with_capacity, written};
use bytes::{Bytes, BytesMut};
use vstd::prelude::*;

verus! {

/// The protocol version that this crate writes and reads.
pub const ORCHARD_VERSION: u8 = 0;

/// The room that the encoder asks for: more than any message needs.
pub const ENCODE_CAPACITY: usize = 1024;

/// Why a byte sequence is no message.
#[derive(Clone, Copy, Debug, PartialEq, Eq, Structural)]
pub enum ParseError {
    /// One of the first seven bytes differs from the protocol tag.
    BadMagic,
    /// The version byte names a version that this crate does not read.
    UnsupportedVersion,
    /// A field needs more bytes than are there, or than the body length grants.
    Truncated,
    /// The type code is neither `NP` nor `NR`.
    UnknownType,
    /// A family tag is neither 4 nor 6.
    BadFamily,
}

/// A probe message.
#[derive(Clone, Copy, Debug, PartialEq, Eq)]
pub enum OrchardMessage {
    /// The endpoint that the sender believes it sends from.
    NatProbe { sender: Endpoint },
    /// The endpoint that a probe named (`sender`), and the one that it was
    /// seen to come from (`receiver`). The two may differ in family.
    NatReply { sender: Endpoint, receiver: Endpoint },
}

/// A message that was read, with what the reader saw around it.
#[derive(Clone, Copy, Debug, PartialEq, Eq)]
pub struct Decoded {
    pub message: OrchardMessage,
    /// The number of bytes that follow the message's last field.
    pub trailing: usize,
    /// Whether the body length in the input is that of the message's fields.
    pub length_agrees: bool,
}

impl Decoded {
    /// Whether the input was more, or declared another length, than the
    /// message that was read from it needs.
    pub open spec fn spec_is_anomalous(self) -> bool {
        self.trailing > 0 || !self.length_agrees
    }

    /// Whether the input was more, or declared another length, than the
    /// message that was read from it needs. Such an input is still read; the
    /// caller may want to note it.
    pub fn is_anomalous(&self) -> (anomalous: bool)
        ensures
            anomalous == self.spec_is_anomalous(),
    {
        self.trailing > 0 || !self.length_agrees
    }
}

/// The seven bytes `ORCHARD`.
pub open spec fn protocol_tag() -> Seq<u8> {
    seq![79u8, 82u8, 67u8, 72u8, 65u8, 82u8, 68u8]
}

/// The two bytes `NP`.
pub open spec fn probe_code() -> Seq<u8> {
    seq![78u8, 80u8]
}

/// The two bytes `NR`.
pub open spec fn reply_code() -> Seq<u8> {
    seq![78u8, 82u8]
}

/// A number of two bytes, the high byte first.
pub open spec fn be16(n: u16) -> Seq<u8> {
    seq![(n / 256) as u8, (n % 256) as u8]
}

/// The number whose two bytes stand at `at`, the high byte first.
pub open spec fn be16_at(data: Seq<u8>, at: int) -> u16 {
    (data[at] as int * 256 + data[at + 1] as int) as u16
}


/// The bytes of `data` before `n`, or all of them where there are fewer.
pub open spec fn first_bytes(data: Seq<u8>, n: int) -> Seq<u8> {
    if data.len() < n {
        data
    } else {
        data.subrange(0, n)
    }
}

/// Whether the first seven bytes of `data`, or as many as there are, differ
/// from the bytes with which the protocol tag starts.
pub open spec fn magic_differs(data: Seq<u8>) -> bool {
    first_bytes(data, 7) != first_bytes(protocol_tag(), data.len() as int)
}

/// The offset up to which the fields of a message may be read: the end of the
/// input or the end of the body that the input declares, whichever is first.
pub open spec fn read_limit(data: Seq<u8>) -> int {
    let declared = 12 + be16_at(data, 10);
    if declared < data.len() {
        declared
    } else {
        data.len() as int
    }
}

/// What reading an endpoint record at `at` gives, where the bytes before
/// `limit` may be read and no others.
pub open spec fn endpoint_at(data: Seq<u8>, at: int, limit: int) -> Result<Endpoint, ParseError> {
    if limit < at + 4 {
        Err(ParseError::Truncated)
    } else if be16_at(data, at + 2) == 4 {
        if limit < at + 8 {
            Err(ParseError::Truncated)
        } else {
            Ok(
                Endpoint {
                    addr: IpAddress::V4(
                        [data[at + 4], data[at + 5], data[at + 6], data[at + 7]],
                    ),
                    port: be16_at(data, at),
                },
            )
        }
    } else if be16_at(data, at + 2) == 6 {
        if limit < at + 20 {
            Err(ParseError::Truncated)
        } else {
            Ok(
                Endpoint {
                    addr: IpAddress::V6(
                        [
                            data[at + 4],
                            data[at + 5],
                            data[at + 6],
                            data[at + 7],
                            data[at + 8],
                            data[at + 9],
                            data[at + 10],
                            data[at + 11],
                            data[at + 12],
                            data[at + 13],
                            data[at + 14],
                            data[at + 15],
                            data[at + 16],
                            data[at + 17],
                            data[at + 18],
                            data[at + 19],
                        ],
                    ),
                    port: be16_at(data, at),
                },
            )
        }
    } else {
        Err(ParseError::BadFamily)
    }
}

/// What reading the endpoint records of a message gives, once the type code
/// is known to be `NP` (`reply` is false) or `NR` (`reply` is true).
pub open spec fn body_at(data: Seq<u8>, reply: bool) -> Result<OrchardMessage, ParseError> {
    match endpoint_at(data, 12, read_limit(data)) {
        Err(e) => Err(e),
        Ok(sender) => if !reply {
            Ok(OrchardMessage::NatProbe { sender })
        } else {
            match endpoint_at(data, 12 + sender.wire_len() as int, read_limit(data)) {
                Err(e) => Err(e),
                Ok(receiver) => Ok(OrchardMessage::NatReply { sender, receiver }),
            }
        },
    }
}

/// The message that a byte sequence stands for, or the reason why it stands
/// for none. The fields are read in their order, and the first that cannot
/// be read or is not accepted gives the error.
pub open spec fn decode_spec(data: Seq<u8>) -> Result<OrchardMessage, ParseError> {
    if magic_differs(data) {
        Err(ParseError::BadMagic)
    } else if data.len() < 8 {
        Err(ParseError::Truncated)
    } else if data[7] != ORCHARD_VERSION {
        Err(ParseError::UnsupportedVersion)
    } else if data.len() < 10 {
        Err(ParseError::Truncated)
    } else if data.subrange(8, 10) != probe_code() && data.subrange(8, 10) != reply_code() {
        Err(ParseError::UnknownType)
    } else if data.len() < 12 {
        Err(ParseError::Truncated)
    } else {
        body_at(data, data.subrange(8, 10) == reply_code())
    }
}

/// What the reader reports of an input that stands for `message`.
pub open spec fn decoded_as(data: Seq<u8>, message: OrchardMessage) -> Decoded {
    Decoded {
        message,
        trailing: (data.len() - 12 - message.body_len()) as usize,
        length_agrees: be16_at(data, 10) == message.body_len(),
    }
}

impl Endpoint {
    /// The record of an endpoint: port, family tag, octets.
    pub open spec fn wire(self) -> Seq<u8> {
        be16(self.port) + be16(self.addr.spec_version()) + self.addr.spec_octets()
    }

    /// The number of bytes of the record: 8 or 20.
    pub open spec fn wire_len(self) -> nat {
        4 + self.addr.spec_len()
    }
}

impl OrchardMessage {
    /// The two bytes that tell the kind of the message.
    pub open spec fn type_code(self) -> Seq<u8> {
        match self {
            OrchardMessage::NatProbe { .. } => probe_code(),
            OrchardMessage::NatReply { .. } => reply_code(),
        }
    }

    /// The number of bytes of the body: all that follows the body length.
    pub open spec fn body_len(self) -> nat {
        match self {
            OrchardMessage::NatProbe { sender } => sender.wire_len(),
            OrchardMessage::NatReply { sender, receiver } => sender.wire_len()
                + receiver.wire_len(),
        }
    }

    /// The endpoint records of the message, in their order.
    pub open spec fn body(self) -> Seq<u8> {
        match self {
            OrchardMessage::NatProbe { sender } => sender.wire(),
            OrchardMessage::NatReply { sender, receiver } => sender.wire() + receiver.wire(),
        }
    }

    /// The message on the wire.
    pub open spec fn wire(self) -> Seq<u8> {
        protocol_tag().push(ORCHARD_VERSION) + self.type_code() + be16(self.body_len() as u16)
            + self.body()
    }

    /// Reads a message. Bytes that follow the message are passed over.
    pub fn decode(data: &[u8]) -> (result: Result<OrchardMessage, ParseError>)
        ensures
            result == decode_spec(data@),
    {
        match OrchardMessage::decode_frame(data) {
            Ok(decoded) => Ok(decoded.message),
            Err(e) => Err(e),
        }
    }

    /// Reads a message, and says how many bytes follow it and whether the
    /// body length in the input is the one that the message has.
    pub fn decode_frame(data: &[u8]) -> (result: Result<Decoded, ParseError>)
        ensures
            match decode_spec(data@) {
                Ok(message) => result == Ok::<Decoded, ParseError>(decoded_as(data@, message))
                    && 12 + message.body_len() <= data@.len(),
                Err(e) => result == Err::<Decoded, ParseError>(e),
            },
    {
        if !starts_as_tag(data) {
            return Err(ParseError::BadMagic);
        }
        if data.len() < 8 {
            return Err(ParseError::Truncated);
        }
        if data[7] != ORCHARD_VERSION {
            return Err(ParseError::UnsupportedVersion);
        }
        if data.len() < 10 {
            return Err(ParseError::Truncated);
        }
        let probe = data[8] == 78 && data[9] == 80;
        let reply = data[8] == 78 && data[9] == 82;
        proof {
            assert(probe == (data@.subrange(8, 10) =~= probe_code()));
            assert(reply == (data@.subrange(8, 10) =~= reply_code()));
        }
        if !probe && !reply {
            return Err(ParseError::UnknownType);
        }
        if data.len() < 12 {
            return Err(ParseError::Truncated);
        }
        let declared = read_u16(data, 10);
        let limit: usize = if (declared as usize) < data.len() - 12 {
            12 + declared as usize
        } else {
            data.len()
        };
        let sender = match read_endpoint(data, 12, limit) {
            Ok(sender) => sender,
            Err(e) => {
                return Err(e);
            },
        };
        let mut end: usize = 16 + sender.addr.len() as usize;
        let message = if probe {
            OrchardMessage::NatProbe { sender }
        } else {
            let receiver = match read_endpoint(data, end, limit) {
                Ok(receiver) => receiver,
                Err(e) => {
                    return Err(e);
                },
            };
            end = end + 4 + receiver.addr.len() as usize;
            OrchardMessage::NatReply { sender, receiver }
        };
        let trailing = data.len() - end;
        let length_agrees = declared as usize == end - 12;
        Ok(Decoded { message, trailing, length_agrees })
    }

    /// Writes the message in its wire format.
    pub fn encode(&self) -> (out: Bytes)
        ensures
            frozen(out) == self.wire(),
            frozen(out).len() == 12 + self.body_len(),
    {
        let mut buf = with_capacity(ENCODE_CAPACITY);
        let tag: [u8; 7] = [79, 82, 67, 72, 65, 82, 68];
        put_slice(&mut buf, tag.as_slice());
        put_u8(&mut buf, ORCHARD_VERSION);
        assert(written(buf) =~= protocol_tag().push(ORCHARD_VERSION));
        match *self {
            OrchardMessage::NatProbe { sender } => {
                let code: [u8; 2] = [78, 80];
                put_slice(&mut buf, code.as_slice());
                put_u16_be(&mut buf, sender.addr.len() + 4);
                assert(written(buf) =~= protocol_tag().push(ORCHARD_VERSION) + probe_code() + be16(
                    self.body_len() as u16,
                ));
                put_endpoint(&mut buf, &sender);
            },
            OrchardMessage::NatReply { sender, receiver } => {
                let code: [u8; 2] = [78, 82];
                put_slice(&mut buf, code.as_slice());
                put_u16_be(&mut buf, sender.addr.len() + receiver.addr.len() + 8);
                assert(written(buf) =~= protocol_tag().push(ORCHARD_VERSION) + reply_code() + be16(
                    self.body_len() as u16,
                ));
                put_endpoint(&mut buf, &sender);
                put_endpoint(&mut buf, &receiver);
            },
        }
        assert(written(buf) =~= self.wire());
        freeze(buf)
    }
}

/// Whether the input starts as the protocol tag does, as far as it goes.
fn starts_as_tag(data: &[u8]) -> (ok: bool)
    ensures
        ok == !magic_differs(data@),
{
    let tag: [u8; 7] = [79, 82, 67, 72, 65, 82, 68];
    let mut i: usize = 0;
    while i < 7 && i < data.len()
        invariant
            i <= 7,
            i <= data@.len(),
            tag@ =~= protocol_tag(),
            forall|j: int| 0 <= j < i ==> data@[j] == protocol_tag()[j],
        decreases 7 - i,
    {
        if data[i] != tag[i] {
            proof {
                let found = first_bytes(data@, 7);
                let wanted = first_bytes(protocol_tag(), data@.len() as int);
                assert(found[i as int] != wanted[i as int]);
            }
            return false;
        }
        i += 1;
    }
    assert(first_bytes(data@, 7) =~= first_bytes(protocol_tag(), data@.len() as int));
    true
}

/// Reads the number of two bytes at `at`.
fn read_u16(data: &[u8], at: usize) -> (n: u16)
    requires
        at + 2 <= data@.len(),
    ensures
        n == be16_at(data@, at as int),
{
    let high: u16 = data[at] as u16;
    let low: u16 = data[at + 1] as u16;
    high * 256 + low
}

/// Reads the endpoint record at `at`, and no byte at or after `limit`.
fn read_endpoint(data: &[u8], at: usize, limit: usize) -> (result: Result<Endpoint, ParseError>)
    requires
        at <= limit <= data@.len(),
    ensures
        result == endpoint_at(data@, at as int, limit as int),
{
    if limit - at < 4 {
        return Err(ParseError::Truncated);
    }
    let port = read_u16(data, at);
    let family = read_u16(data, at + 2);
    if family == 4 {
        if limit - at < 8 {
            return Err(ParseError::Truncated);
        }
        let addr = IpAddress::V4([data[at + 4], data[at + 5], data[at + 6], data[at + 7]]);
        Ok(Endpoint { addr, port })
    } else if family == 6 {
        if limit - at < 20 {
            return Err(ParseError::Truncated);
        }
        let addr = IpAddress::V6(
            [
                data[at + 4],
                data[at + 5],
                data[at + 6],
                data[at + 7],
                data[at + 8],
                data[at + 9],
                data[at + 10],
                data[at + 11],
                data[at + 12],
                data[at + 13],
                data[at + 14],
                data[at + 15],
                data[at + 16],
                data[at + 17],
                data[at + 18],
                data[at + 19],
            ],
        );
        Ok(Endpoint { addr, port })
    } else {
        Err(ParseError::BadFamily)
    }
}

/// Appends the record of one endpoint to the buffer.
fn put_endpoint(buf: &mut BytesMut, endpoint: &Endpoint)
    requires
        written(*old(buf)).len() + 20 <= room(*old(buf)),
    ensures
        written(*final(buf)) == written(*old(buf)) + endpoint.wire(),
        room(*final(buf)) == room(*old(buf)),
{
    put_u16_be(buf, endpoint.port);
    put_u16_be(buf, endpoint.addr.version());
    let octets = endpoint.addr.octets();
    put_slice(buf, octets.as_slice());
    assert(written(*buf) =~= written(*old(buf)) + endpoint.wire());
}

} // verus!
