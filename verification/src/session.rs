use vstd::prelude::*;
use crate::addr::{wildcard_for, SocketAddress, UDPWrapper};
use crate::packet::{
    ack_for, make_ack, needs_ack, observe_marker, packet_needs_ack, status_of, CoAPRequest,
    CoAPResponse, MessageKind, ObserveOption, Packet, PacketV, Status,
};
use crate::CoapError;

verus! {

/// The default port of the protocol.
pub const DEFAULT_PORT: u16 = 5683;

/// The default receive timeout, one second.
pub const DEFAULT_RECEIVE_TIMEOUT_MS: u64 = 1000;

/// The receive buffer's size: one datagram's worst case on typical links.
/// A larger datagram is truncated and surfaces as a decode error.
pub const RECEIVE_BUFFER_SIZE: usize = 1500;

/// The cipher list the DTLS connector is restricted to: the PSK-compatible
/// suites, and nothing else.
pub const PSK_CIPHER_LIST: &'static str = "ECDHE-PSK-AES128-CBC-SHA256:PSK-AES128-CCM8:ECDHE-ECDSA-AES128-CCM8";

/// The peer name passed at handshake.  PSK authentication does not rely on
/// certificate name matching, so it is fixed.
pub const HANDSHAKE_PEER_NAME: &'static str = "localhost";

/// The message id that follows a given one: one more, wrapping around after
/// the 16-bit maximum.
pub open spec fn next_message_id(id: u16) -> u16 {
    if id == 0xFFFF {
        0
    } else {
        (id + 1) as u16
    }
}

/// Steps the message-id counter and returns the fresh id.
pub fn gen_message_id(message_id: &mut u16) -> (r: u16)
    ensures
        *final(message_id) == next_message_id(*old(message_id)),
        r == *final(message_id),
{
    if *message_id == 0xFFFF {
        *message_id = 0;
    } else {
        *message_id = *message_id + 1;
    }
    *message_id
}

/// Successive message ids increase strictly modulo 2^16: each is one more
/// than the last in that ring, and in particular never repeats it.
pub proof fn lemma_message_id_monotonic(id: u16)
    ensures
        next_message_id(id) as int == (id as int + 1) % 0x10000,
        next_message_id(id) != id,
        id < 0xFFFF ==> next_message_id(id) > id,
{
    if id == 0xFFFF {
        assert((0xFFFF as int + 1) % 0x10000 == 0);
    } else {
        assert((id as int + 1) % 0x10000 == id as int + 1);
    }
}

/// The state the observe worker carries: the registered path and the
/// message-id counter scoped to this observation.
pub struct WorkerState {
    pub path: String,
    pub message_id: u16,
}

/// The request that registers or deregisters an observation of `path`:
/// a confirmable GET carrying the observe marker and the given message id.
pub open spec fn observe_request(
    o: ObserveOption,
    path: Seq<char>,
    message_id: u16,
) -> PacketV {
    PacketV {
        mtype: MessageKind::Confirmable,
        code: 1,
        message_id,
        token: Seq::empty(),
        observe: Some(seq![observe_marker(o)]),
        path,
        payload: Seq::empty(),
    }
}

/// Builds the registration request for `path` — observe marker `0`, a fresh
/// message id drawn from a counter that starts at zero — together with the
/// state the observe worker starts from.
pub fn make_register_request(path: &str) -> (r: (CoAPRequest, WorkerState))
    ensures
        r.0.message@ == observe_request(ObserveOption::Register, path@, next_message_id(0)),
        r.1.path@ == path@,
        r.1.message_id == next_message_id(0),
{
    let mut message_id: u16 = 0;
    let mid = gen_message_id(&mut message_id);
    let mut request = CoAPRequest::new();
    let mut marker: Vec<u8> = Vec::new();
    marker.push(crate::packet::observe_option_byte(ObserveOption::Register));
    request.set_observe(marker);
    request.set_message_id(mid);
    request.set_path(path);
    proof {
        assert(request.message@ =~= observe_request(
            ObserveOption::Register,
            path@,
            next_message_id(0),
        ));
    }
    (request, WorkerState { path: path.to_owned(), message_id })
}

/// Judges the response to a registration: anything but a `Content` status
/// fails the observation with `not-found`.
pub fn check_registration_response(response: &CoAPResponse) -> (r: Result<(), CoapError>)
    ensures
        r is Ok <==> status_of(response.message.code) is Content,
        r matches Err(e) ==> e == CoapError::NotFound,
{
    match response.get_status() {
        Status::Content => Ok(()),
        _ => Err(CoapError::NotFound),
    }
}

/// What one read on the worker's channel came to.
pub enum ReadOutcome {
    /// A whole packet was read and decoded.
    Received(Packet),
    /// The read timeout elapsed without data.
    TimedOut,
    /// The read failed for another reason.
    Failed,
}

/// What one turn of the worker loop tells its caller to do, in this order:
/// hand `deliver` to the user handler; send `ack` back on the worker's own
/// channel; send `deregister` on that channel, read one packet to drain the
/// acknowledgement best-effort, and stop the loop when `exit` is set.
pub struct WorkerStep {
    pub deliver: Option<Packet>,
    pub ack: Option<Packet>,
    pub deregister: Option<Packet>,
    pub exit: bool,
}

/// One turn of the observe worker's loop: route a received notification to
/// the handler and acknowledge it where one is owed; swallow timeouts and
/// read errors; on the termination signal, produce the deregistration
/// request — observe marker `1`, a fresh message id, the registered path —
/// and stop.
pub fn observe_worker_step(state: &mut WorkerState, read: ReadOutcome, terminate: bool) -> (r:
    WorkerStep)
    ensures
        (match read {
            ReadOutcome::Received(p) => r.deliver == Some(p) && (if needs_ack(p@) {
                r.ack matches Some(a) && a@ == ack_for(p@)
            } else {
                r.ack is None
            }),
            _ => r.deliver is None && r.ack is None,
        }),
        r.exit == terminate,
        final(state).path@ == old(state).path@,
        terminate ==> final(state).message_id == next_message_id(old(state).message_id)
            && (r.deregister matches Some(d) && d@ == observe_request(
            ObserveOption::Deregister,
            old(state).path@,
            next_message_id(old(state).message_id),
        )),
        !terminate ==> final(state).message_id == old(state).message_id && r.deregister is None,
{
    let (deliver, ack) = match read {
        ReadOutcome::Received(p) => {
            let ack = if packet_needs_ack(&p) {
                Some(make_ack(&p))
            } else {
                None
            };
            (Some(p), ack)
        },
        _ => (None, None),
    };
    let deregister = if terminate {
        let mid = gen_message_id(&mut state.message_id);
        let mut request = CoAPRequest::new();
        request.set_message_id(mid);
        let mut marker: Vec<u8> = Vec::new();
        marker.push(crate::packet::observe_option_byte(ObserveOption::Deregister));
        request.set_observe(marker);
        request.set_path(state.path.as_str());
        proof {
            assert(request.message@ =~= observe_request(
                ObserveOption::Deregister,
                old(state).path@,
                next_message_id(old(state).message_id),
            ));
        }
        Some(request.message)
    } else {
        None
    };
    WorkerStep { deliver, ack, deregister, exit: terminate }
}

/// For every incoming notification that owes an acknowledgement, the
/// synthesised acknowledgement carries the incoming message's type, message
/// id and token byte for byte.
pub proof fn lemma_observe_ack_fidelity(p: PacketV)
    ensures
        needs_ack(p) ==> ack_for(p).mtype == p.mtype && ack_for(p).message_id == p.message_id
            && ack_for(p).token == p.token && ack_for(p).observe is None && ack_for(
            p,
        ).payload.len() == 0,
{
}

/// One session: the binding between a datagram endpoint and the protocol
/// channel over it.  It records the transport's bookkeeping, the peer it
/// was opened to, and the path of the active observation, if one is active;
/// at most one observation is active at a time.
pub struct Session {
    pub transport: UDPWrapper,
    pub peer: SocketAddress,
    /// The path of the active observation; `None` when none is active.
    pub observing: Option<String>,
}

impl Session {
    /// Opens a session to `peer_addr` bound to the explicit `bind_addr`,
    /// with the default one-second receive timeout installed and no
    /// observation active.
    pub fn new_with_specific_source(bind_addr: SocketAddress, peer_addr: SocketAddress) -> (r:
        Session)
        ensures
            r.transport.peer == peer_addr,
            r.transport.bound == bind_addr,
            r.transport.read_timeout_ms == Some(DEFAULT_RECEIVE_TIMEOUT_MS),
            r.peer == peer_addr,
            r.observing is None,
    {
        let mut transport = UDPWrapper::connect(&peer_addr, &bind_addr);
        transport.set_read_timeout(Some(DEFAULT_RECEIVE_TIMEOUT_MS));
        Session { transport, peer: peer_addr, observing: None }
    }

    /// Opens a session to `peer_addr` bound to the wildcard address of the
    /// peer's own family.
    pub fn new(peer_addr: SocketAddress) -> (r: Session)
        ensures
            r.transport.peer == peer_addr,
            r.transport.bound == wildcard_for(peer_addr),
            r.transport.read_timeout_ms == Some(DEFAULT_RECEIVE_TIMEOUT_MS),
            r.peer == peer_addr,
            r.observing is None,
    {
        let bind_addr = crate::addr::wildcard_bind(&peer_addr);
        Session::new_with_specific_source(bind_addr, peer_addr)
    }

    /// Installs a receive timeout on the session's transport; `None` blocks
    /// indefinitely.
    pub fn set_receive_timeout(&mut self, dur_ms: Option<u64>)
        ensures
            final(self).transport.read_timeout_ms == dur_ms,
            final(self).transport.peer == old(self).transport.peer,
            final(self).transport.bound == old(self).transport.bound,
            final(self).peer == old(self).peer,
            final(self).observing == old(self).observing,
    {
        self.transport.set_read_timeout(dur_ms);
    }

    /// Records that an observation of `path` is now active.  A session
    /// carries at most one: while one is active a second is rejected with
    /// the `other` error and nothing changes.
    pub fn record_observe(&mut self, path: &str) -> (r: Result<(), CoapError>)
        ensures
            old(self).observing is Some ==> (r matches Err(e) && e == CoapError::Other)
                && final(self).observing == old(self).observing,
            old(self).observing is None ==> r is Ok && (final(self).observing matches Some(q)
                && q@ == path@),
            final(self).transport == old(self).transport,
            final(self).peer == old(self).peer,
    {
        match self.observing {
            Some(_) => Err(CoapError::Other),
            None => {
                self.observing = Some(path.to_owned());
                Ok(())
            },
        }
    }

    /// Forgets the active observation, if any; returns whether one was
    /// active, so that the caller knows to signal and join its worker.
    /// Calling it again is a no-op: deregistration is idempotent, and after
    /// it returns no observation is active.
    pub fn unobserve(&mut self) -> (r: bool)
        ensures
            r == (old(self).observing is Some),
            final(self).observing is None,
            final(self).transport == old(self).transport,
            final(self).peer == old(self).peer,
    {
        match self.observing.take() {
            Some(_) => true,
            None => false,
        }
    }
}

} // verus!
