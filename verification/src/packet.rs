use vstd::prelude::*;
use vstd::slice::slice_to_vec;

verus! {

/// The four message types of the protocol PDU.
#[derive(Clone, Copy, Debug, PartialEq, Eq, Structural)]
pub enum MessageKind {
    Confirmable,
    NonConfirmable,
    Acknowledgement,
    Reset,
}

/// The observe option's single-byte marker.
#[derive(Clone, Copy, Debug, PartialEq, Eq, Structural)]
pub enum ObserveOption {
    Register,
    Deregister,
}

/// The byte each observe marker puts on the wire: `0` registers, `1`
/// deregisters.
pub open spec fn observe_marker(o: ObserveOption) -> u8 {
    match o {
        ObserveOption::Register => 0,
        ObserveOption::Deregister => 1,
    }
}

/// Returns the wire byte of an observe marker.
pub fn observe_option_byte(o: ObserveOption) -> (r: u8)
    ensures
        r == observe_marker(o),
{
    match o {
        ObserveOption::Register => 0,
        ObserveOption::Deregister => 1,
    }
}

/// The classification a response's code carries.  A code is one byte,
/// class in the upper three bits and detail in the lower five; `Content`
/// is class 2 detail 5.
#[derive(Clone, Copy, Debug, PartialEq, Eq, Structural)]
pub enum Status {
    Content,
    OtherSuccess,
    ClientError,
    ServerError,
    Other,
}

/// Classifies a response code byte.
pub open spec fn status_of(code: u8) -> Status {
    if code == 0x45 {
        Status::Content
    } else if 0x40 <= code && code <= 0x5F {
        Status::OtherSuccess
    } else if 0x80 <= code && code <= 0x9F {
        Status::ClientError
    } else if 0xA0 <= code && code <= 0xBF {
        Status::ServerError
    } else {
        Status::Other
    }
}

/// The mathematical picture of a PDU: every field as a plain value.
#[verifier::ext_equal]
pub ghost struct PacketV {
    pub mtype: MessageKind,
    pub code: u8,
    pub message_id: u16,
    pub token: Seq<u8>,
    pub observe: Option<Seq<u8>>,
    pub path: Seq<char>,
    pub payload: Seq<u8>,
}

/// The protocol PDU as the client reads and writes it: message type, code,
/// message id, token, the observe option if present, the resource path, and
/// the payload.  The wire encoding is the codec's business; see the codec
/// module.
#[derive(Clone, Debug)]
pub struct Packet {
    pub mtype: MessageKind,
    pub code: u8,
    pub message_id: u16,
    /// Opaque correlator, at most 8 bytes on the wire.
    pub token: Vec<u8>,
    /// The observe option's value, when the option is present.
    pub observe: Option<Vec<u8>>,
    /// The resource path, empty when no path option is present.
    pub path: String,
    pub payload: Vec<u8>,
}

impl View for Packet {
    type V = PacketV;

    open spec fn view(&self) -> PacketV {
        PacketV {
            mtype: self.mtype,
            code: self.code,
            message_id: self.message_id,
            token: self.token@,
            observe: match self.observe {
                Some(v) => Some(v@),
                None => None,
            },
            path: self.path@,
            payload: self.payload@,
        }
    }
}

/// The empty PDU: confirmable, code `0.00`, message id zero, nothing else.
pub open spec fn empty_packet() -> PacketV {
    PacketV {
        mtype: MessageKind::Confirmable,
        code: 0,
        message_id: 0,
        token: Seq::empty(),
        observe: None,
        path: Seq::empty(),
        payload: Seq::empty(),
    }
}

impl Packet {
    /// A fresh, empty PDU.
    pub fn new() -> (r: Packet)
        ensures
            r@ == empty_packet(),
    {
        let r = Packet {
            mtype: MessageKind::Confirmable,
            code: 0,
            message_id: 0,
            token: Vec::new(),
            observe: None,
            path: String::new(),
            payload: Vec::new(),
        };
        proof {
            assert(r@ =~= empty_packet());
        }
        r
    }
}

/// Whether an incoming notification admits a response envelope, and so owes
/// an acknowledgement: confirmable and non-confirmable messages do,
/// acknowledgements and resets do not.
pub open spec fn needs_ack(p: PacketV) -> bool {
    p.mtype is Confirmable || p.mtype is NonConfirmable
}

/// The acknowledgement synthesised for an incoming notification: the
/// incoming message's type, message id and token, with no options and no
/// payload, code `0.00`.
pub open spec fn ack_for(p: PacketV) -> PacketV {
    PacketV {
        mtype: p.mtype,
        code: 0,
        message_id: p.message_id,
        token: p.token,
        observe: None,
        path: Seq::empty(),
        payload: Seq::empty(),
    }
}

/// Synthesises the acknowledgement for an incoming notification.  The
/// acknowledgement carries the incoming message's type, message id and
/// token unchanged, and nothing else.
pub fn make_ack(received: &Packet) -> (r: Packet)
    ensures
        r@ == ack_for(received@),
        r.mtype == received.mtype,
        r.message_id == received.message_id,
        r.token@ == received.token@,
        r.observe is None,
        r.payload@ == Seq::<u8>::empty(),
{
    let r = Packet {
        mtype: received.mtype,
        code: 0,
        message_id: received.message_id,
        token: slice_to_vec(received.token.as_slice()),
        observe: None,
        path: String::new(),
        payload: Vec::new(),
    };
    proof {
        assert(r@ =~= ack_for(received@));
    }
    r
}

/// Returns whether an incoming message owes an acknowledgement.
pub fn packet_needs_ack(p: &Packet) -> (r: bool)
    ensures
        r == needs_ack(p@),
{
    match p.mtype {
        MessageKind::Confirmable => true,
        MessageKind::NonConfirmable => true,
        _ => false,
    }
}

/// A request envelope: a PDU plus the convenience setters the client uses to
/// shape it.
#[derive(Clone, Debug)]
pub struct CoAPRequest {
    pub message: Packet,
}

/// The PDU a fresh request starts from: a confirmable GET (code `0.01`).
pub open spec fn fresh_request() -> PacketV {
    PacketV { code: 1, ..empty_packet() }
}

impl CoAPRequest {
    /// A fresh request: confirmable GET, message id zero, no options.
    pub fn new() -> (r: CoAPRequest)
        ensures
            r.message@ == fresh_request(),
    {
        let mut message = Packet::new();
        message.code = 1;
        proof {
            assert(message@ =~= fresh_request());
        }
        CoAPRequest { message }
    }

    /// Sets the target resource path.
    pub fn set_path(&mut self, path: &str)
        ensures
            final(self).message@ == (PacketV { path: path@, ..old(self).message@ }),
    {
        self.message.path = path.to_owned();
        proof {
            assert(self.message@ =~= (PacketV { path: path@, ..old(self).message@ }));
        }
    }

    /// Sets the observe option's value.
    pub fn set_observe(&mut self, value: Vec<u8>)
        ensures
            final(self).message@ == (PacketV { observe: Some(value@), ..old(self).message@ }),
    {
        self.message.observe = Some(value);
        proof {
            assert(self.message@ =~= (PacketV { observe: Some(value@), ..old(self).message@ }));
        }
    }

    /// Sets the message id.
    pub fn set_message_id(&mut self, message_id: u16)
        ensures
            final(self).message@ == (PacketV { message_id, ..old(self).message@ }),
    {
        self.message.message_id = message_id;
        proof {
            assert(self.message@ =~= (PacketV { message_id, ..old(self).message@ }));
        }
    }
}

/// A response envelope: a PDU plus its derived status classification.
#[derive(Clone, Debug)]
pub struct CoAPResponse {
    pub message: Packet,
}

impl CoAPResponse {
    /// The status classification the response's code derives to.
    pub fn get_status(&self) -> (r: Status)
        ensures
            r == status_of(self.message.code),
    {
        let code = self.message.code;
        if code == 0x45 {
            Status::Content
        } else if 0x40 <= code && code <= 0x5F {
            Status::OtherSuccess
        } else if 0x80 <= code && code <= 0x9F {
            Status::ClientError
        } else if 0xA0 <= code && code <= 0xBF {
            Status::ServerError
        } else {
            Status::Other
        }
    }
}

} // verus!
