use vstd::prelude::*;
use crate::packet::{MessageKind, Packet, PacketV};
use crate::CoapError;

verus! {

/// The codec's message-type spelling, declared so that packets can be moved
/// into and out of it.
#[verifier::external_type_specification]
pub struct ExClMessageType(coap_lite::MessageType);

/// Moves a message type into the codec's spelling of it.
fn to_codec_type(t: MessageKind) -> (r: coap_lite::MessageType)
    ensures
        t is Confirmable <==> r is Confirmable,
        t is NonConfirmable <==> r is NonConfirmable,
        t is Acknowledgement <==> r is Acknowledgement,
        t is Reset <==> r is Reset,
{
    match t {
        MessageKind::Confirmable => coap_lite::MessageType::Confirmable,
        MessageKind::NonConfirmable => coap_lite::MessageType::NonConfirmable,
        MessageKind::Acknowledgement => coap_lite::MessageType::Acknowledgement,
        MessageKind::Reset => coap_lite::MessageType::Reset,
    }
}

/// Moves a message type out of the codec's spelling of it.
fn from_codec_type(t: coap_lite::MessageType) -> (r: MessageKind)
    ensures
        t is Confirmable <==> r is Confirmable,
        t is NonConfirmable <==> r is NonConfirmable,
        t is Acknowledgement <==> r is Acknowledgement,
        t is Reset <==> r is Reset,
{
    match t {
        coap_lite::MessageType::Confirmable => MessageKind::Confirmable,
        coap_lite::MessageType::NonConfirmable => MessageKind::NonConfirmable,
        coap_lite::MessageType::Acknowledgement => MessageKind::Acknowledgement,
        coap_lite::MessageType::Reset => MessageKind::Reset,
    }
}

/// The bytes the codec writes for a packet, or nothing where it refuses one
/// (an over-long message, an over-long option value).  The bytes depend on
/// the packet's fields alone.
pub uninterp spec fn packet_encoding(p: PacketV) -> Option<Seq<u8>>;

/// What the codec reads back from a byte string: a packet, or nothing where
/// the bytes are not a well-formed PDU.  The value depends on the bytes
/// alone.
pub uninterp spec fn packet_decoding(b: Seq<u8>) -> Option<PacketV>;

/// Relies on `coap_lite`: `CoapRequest::set_path` to lay the path down as
/// path options, `Packet::set_token` (whence the token bound: it refuses
/// more than eight bytes), `Packet::add_option` for the observe option, and
/// `Packet::to_bytes` for the encoding itself.
#[verifier::external_body]
fn encode_with_codec(p: &Packet) -> (r: Option<Vec<u8>>)
    requires
        p.token@.len() <= 8,
    ensures
        r is Some <==> packet_encoding(p@) is Some,
        r matches Some(b) ==> packet_encoding(p@) == Some(b@),
{
    let mut q: coap_lite::CoapRequest<()> = coap_lite::CoapRequest::new();
    q.message.header.set_type(to_codec_type(p.mtype));
    q.message.header.code = coap_lite::MessageClass::from(p.code);
    q.message.header.message_id = p.message_id;
    q.message.set_token(p.token.clone());
    if let Some(v) = &p.observe {
        q.message.add_option(coap_lite::CoapOption::Observe, v.clone());
    }
    q.set_path(p.path.as_str());
    q.message.payload = p.payload.clone();
    q.message.to_bytes().ok()
}

/// Relies on `coap_lite`: `Packet::from_bytes` for the decoding,
/// `CoapRequest::from_packet` and `get_path` to read the path options back,
/// `get_token`, `get_first_option` and the header accessors for the rest.
#[verifier::external_body]
fn decode_with_codec(b: &[u8]) -> (r: Option<Packet>)
    ensures
        r is Some <==> packet_decoding(b@) is Some,
        r matches Some(p) ==> packet_decoding(b@) == Some(p@),
{
    let q = match coap_lite::Packet::from_bytes(b) {
        Ok(q) => q,
        Err(_) => return None,
    };
    let req: coap_lite::CoapRequest<()> = coap_lite::CoapRequest::from_packet(q, ());
    Some(Packet {
        mtype: from_codec_type(req.message.header.get_type()),
        code: u8::from(req.message.header.code),
        message_id: req.message.header.message_id,
        token: req.message.get_token().to_vec(),
        observe: req.message.get_first_option(coap_lite::CoapOption::Observe).cloned(),
        path: req.get_path(),
        payload: req.message.payload.clone(),
    })
}

/// Encodes a packet to its wire bytes.  Fails with `invalid-input` exactly
/// where the codec refuses the packet.  The token is bounded by the PDU's
/// own eight-byte limit.
pub fn packet_to_bytes(p: &Packet) -> (r: Result<Vec<u8>, CoapError>)
    requires
        p.token@.len() <= 8,
    ensures
        r is Ok <==> packet_encoding(p@) is Some,
        r matches Ok(b) ==> packet_encoding(p@) == Some(b@),
        r matches Err(e) ==> e == CoapError::InvalidInput,
{
    match encode_with_codec(p) {
        Some(b) => Ok(b),
        None => Err(CoapError::InvalidInput),
    }
}

/// Decodes one datagram's bytes into a packet.  Fails with `invalid-input`
/// exactly where the bytes are not a well-formed PDU — among them a datagram
/// that was truncated by the receive buffer.
pub fn packet_from_bytes(b: &[u8]) -> (r: Result<Packet, CoapError>)
    ensures
        r is Ok <==> packet_decoding(b@) is Some,
        r matches Ok(p) ==> packet_decoding(b@) == Some(p@),
        r matches Err(e) ==> e == CoapError::InvalidInput,
{
    match decode_with_codec(b) {
        Some(p) => Ok(p),
        None => Err(CoapError::InvalidInput),
    }
}

/// Judges a write's reported length: the whole encoding must have gone out
/// in one record, a partial length is the `other` error.
pub fn check_send_length(written: usize, expected: usize) -> (r: Result<(), CoapError>)
    ensures
        r is Ok <==> written == expected,
        r matches Err(e) ==> e == CoapError::Other,
{
    if written == expected {
        Ok(())
    } else {
        Err(CoapError::Other)
    }
}

} // verus!
