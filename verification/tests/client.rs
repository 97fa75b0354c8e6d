use coap_dtls::addr::{first_resolved, IpAddress, SocketAddress, UDPWrapper};
use coap_dtls::codec::{packet_from_bytes, packet_to_bytes};
use coap_dtls::packet::{
    make_ack, observe_option_byte, packet_needs_ack, CoAPRequest, CoAPResponse, MessageKind,
    ObserveOption, Packet, Status,
};
use coap_dtls::session::{
    check_registration_response, gen_message_id, make_register_request, observe_worker_step,
    ReadOutcome, Session, WorkerState, DEFAULT_PORT, DEFAULT_RECEIVE_TIMEOUT_MS, PSK_CIPHER_LIST,
};
use coap_dtls::url_parse::parse_coap_url;
use coap_dtls::CoapError;

#[test]
fn test_parse_coap_url_good_url() {
    assert!(parse_coap_url("coap://127.0.0.1").is_ok());
    assert!(parse_coap_url("coap://127.0.0.1:5683").is_ok());
    assert!(parse_coap_url("coap://[::1]").is_ok());
    assert!(parse_coap_url("coap://[::1]:5683").is_ok());
    assert!(parse_coap_url("coap://[bbbb::9329:f033:f558:7418]").is_ok());
    assert!(parse_coap_url("coap://[bbbb::9329:f033:f558:7418]:5683").is_ok());
}

#[test]
fn test_parse_coap_url_bad_url() {
    assert!(parse_coap_url("coap://127.0.0.1:65536").is_err());
    assert!(parse_coap_url("coap://").is_err());
    assert!(parse_coap_url("coap://:5683").is_err());
    assert!(parse_coap_url("127.0.0.1").is_err());
}

#[test]
fn parse_defaults_port_and_keeps_explicit_port() {
    let (host, port, path) = parse_coap_url("coap://127.0.0.1").unwrap();
    assert_eq!(host, "127.0.0.1");
    assert_eq!(port, DEFAULT_PORT);
    assert_eq!(path, "");

    let (host, port, path) = parse_coap_url("coap://coap.me:1234/hello").unwrap();
    assert_eq!(host, "coap.me");
    assert_eq!(port, 1234);
    assert_eq!(path, "/hello");
}

#[test]
fn parse_strips_ipv6_brackets() {
    let (host, port, _) = parse_coap_url("coap://[bbbb::9329:f033:f558:7418]:5683/temp").unwrap();
    assert_eq!(host, "bbbb::9329:f033:f558:7418");
    assert_eq!(port, 5683);

    let (host, _, _) = parse_coap_url("coap://[::1]").unwrap();
    assert_eq!(host, "::1");
}

#[test]
fn parse_failures_are_invalid_input() {
    assert_eq!(parse_coap_url("coap://").unwrap_err(), CoapError::InvalidInput);
    assert_eq!(parse_coap_url("127.0.0.1").unwrap_err(), CoapError::InvalidInput);
}

#[test]
fn observe_markers() {
    assert_eq!(observe_option_byte(ObserveOption::Register), 0);
    assert_eq!(observe_option_byte(ObserveOption::Deregister), 1);
}

#[test]
fn message_id_counts_up_and_wraps() {
    let mut id: u16 = 0;
    assert_eq!(gen_message_id(&mut id), 1);
    assert_eq!(gen_message_id(&mut id), 2);
    assert_eq!(gen_message_id(&mut id), 3);

    let mut id: u16 = 0xFFFE;
    assert_eq!(gen_message_id(&mut id), 0xFFFF);
    assert_eq!(gen_message_id(&mut id), 0);
}

#[test]
fn ack_copies_type_id_and_token() {
    let mut p = Packet::new();
    p.mtype = MessageKind::NonConfirmable;
    p.message_id = 0xBEEF;
    p.token = vec![1, 2, 3, 4];
    p.payload = vec![9, 9];
    let ack = make_ack(&p);
    assert_eq!(ack.mtype, MessageKind::NonConfirmable);
    assert_eq!(ack.message_id, 0xBEEF);
    assert_eq!(ack.token, vec![1, 2, 3, 4]);
    assert!(ack.observe.is_none());
    assert!(ack.payload.is_empty());
    assert_eq!(ack.code, 0);
}

#[test]
fn only_confirmable_and_non_confirmable_owe_acks() {
    let mut p = Packet::new();
    p.mtype = MessageKind::Confirmable;
    assert!(packet_needs_ack(&p));
    p.mtype = MessageKind::NonConfirmable;
    assert!(packet_needs_ack(&p));
    p.mtype = MessageKind::Acknowledgement;
    assert!(!packet_needs_ack(&p));
    p.mtype = MessageKind::Reset;
    assert!(!packet_needs_ack(&p));
}

#[test]
fn status_classification() {
    let mut response = CoAPResponse { message: Packet::new() };
    response.message.code = 0x45;
    assert_eq!(response.get_status(), Status::Content);
    response.message.code = 0x41;
    assert_eq!(response.get_status(), Status::OtherSuccess);
    response.message.code = 0x84;
    assert_eq!(response.get_status(), Status::ClientError);
    response.message.code = 0xA0;
    assert_eq!(response.get_status(), Status::ServerError);
    response.message.code = 0x01;
    assert_eq!(response.get_status(), Status::Other);
}

#[test]
fn registration_rejected_with_not_found_on_client_error() {
    let mut response = CoAPResponse { message: Packet::new() };
    response.message.code = 0x84;
    assert_eq!(check_registration_response(&response).unwrap_err(), CoapError::NotFound);
    response.message.code = 0x45;
    assert!(check_registration_response(&response).is_ok());
}

#[test]
fn register_request_shape() {
    let (request, state) = make_register_request("/temp");
    assert_eq!(request.message.observe, Some(vec![0]));
    assert_eq!(request.message.message_id, 1);
    assert_eq!(request.message.path, "/temp");
    assert_eq!(request.message.mtype, MessageKind::Confirmable);
    assert_eq!(request.message.code, 1);
    assert_eq!(state.path, "/temp");
    assert_eq!(state.message_id, 1);
}

#[test]
fn worker_delivers_and_acknowledges() {
    let mut state = WorkerState { path: String::from("/temp"), message_id: 1 };
    let mut p = Packet::new();
    p.mtype = MessageKind::Confirmable;
    p.message_id = 77;
    p.token = vec![5, 6];
    p.payload = vec![49];
    let step = observe_worker_step(&mut state, ReadOutcome::Received(p), false);
    let delivered = step.deliver.unwrap();
    assert_eq!(delivered.payload, vec![49]);
    let ack = step.ack.unwrap();
    assert_eq!(ack.mtype, MessageKind::Confirmable);
    assert_eq!(ack.message_id, 77);
    assert_eq!(ack.token, vec![5, 6]);
    assert!(step.deregister.is_none());
    assert!(!step.exit);
    assert_eq!(state.message_id, 1);
}

#[test]
fn worker_swallows_timeouts_and_errors() {
    let mut state = WorkerState { path: String::from("/temp"), message_id: 1 };
    let step = observe_worker_step(&mut state, ReadOutcome::TimedOut, false);
    assert!(step.deliver.is_none());
    assert!(step.ack.is_none());
    assert!(step.deregister.is_none());
    assert!(!step.exit);
    let step = observe_worker_step(&mut state, ReadOutcome::Failed, false);
    assert!(step.deliver.is_none());
    assert!(step.ack.is_none());
    assert!(!step.exit);
}

#[test]
fn worker_deregisters_on_terminate() {
    let mut state = WorkerState { path: String::from("/temp"), message_id: 1 };
    let step = observe_worker_step(&mut state, ReadOutcome::TimedOut, true);
    assert!(step.exit);
    let deregister = step.deregister.unwrap();
    assert_eq!(deregister.observe, Some(vec![1]));
    assert_eq!(deregister.message_id, 2);
    assert_eq!(deregister.path, "/temp");
    assert_eq!(state.message_id, 2);
}

#[test]
fn session_binds_family_matched_wildcard() {
    let peer4 = SocketAddress { ip: IpAddress::V4(127, 0, 0, 1), port: 5683 };
    let session = Session::new(peer4);
    assert_eq!(session.transport.bound, SocketAddress { ip: IpAddress::V4(0, 0, 0, 0), port: 0 });
    assert_eq!(session.transport.read_timeout_ms, Some(DEFAULT_RECEIVE_TIMEOUT_MS));
    assert!(session.observing.is_none());

    let peer6 = SocketAddress { ip: IpAddress::V6(0xbbbb, 0, 0, 0, 0, 0, 0, 1), port: 5683 };
    let session = Session::new(peer6);
    assert_eq!(
        session.transport.bound,
        SocketAddress { ip: IpAddress::V6(0, 0, 0, 0, 0, 0, 0, 0), port: 0 }
    );
}

#[test]
fn session_allows_one_observation_and_unobserve_is_idempotent() {
    let peer = SocketAddress { ip: IpAddress::V4(127, 0, 0, 1), port: 5683 };
    let mut session = Session::new(peer);
    assert!(session.record_observe("/temp").is_ok());
    assert_eq!(session.record_observe("/other").unwrap_err(), CoapError::Other);
    assert_eq!(session.observing.as_deref(), Some("/temp"));
    assert!(session.unobserve());
    assert!(session.observing.is_none());
    assert!(!session.unobserve());
    assert!(session.observing.is_none());
}

#[test]
fn resolution_takes_the_first_address_or_fails() {
    let a = SocketAddress { ip: IpAddress::V4(10, 0, 0, 1), port: 5683 };
    let b = SocketAddress { ip: IpAddress::V4(10, 0, 0, 2), port: 5683 };
    assert_eq!(first_resolved(&vec![a, b]).unwrap(), a);
    assert_eq!(first_resolved(&vec![]).unwrap_err(), CoapError::NoAddress);
}

#[test]
fn transport_bookkeeping() {
    let peer = SocketAddress { ip: IpAddress::V4(10, 0, 0, 1), port: 5683 };
    let bind = SocketAddress { ip: IpAddress::V4(0, 0, 0, 0), port: 0 };
    let mut w = UDPWrapper::connect(&peer, &bind);
    assert_eq!(w.peer, peer);
    assert_eq!(w.bound, bind);
    assert_eq!(w.read_timeout_ms, None);
    w.set_read_timeout(Some(250));
    assert_eq!(w.read_timeout_ms, Some(250));
    let c = w.try_clone();
    assert_eq!(c.peer, peer);
    assert_eq!(c.read_timeout_ms, Some(250));
}

#[test]
fn codec_round_trips_a_request() {
    let mut request = CoAPRequest::new();
    request.set_path("/temp");
    request.set_message_id(42);
    request.set_observe(vec![0]);
    let bytes = packet_to_bytes(&request.message).unwrap();
    assert!(bytes.len() > 4);
    let back = packet_from_bytes(bytes.as_slice()).unwrap();
    assert_eq!(back.mtype, MessageKind::Confirmable);
    assert_eq!(back.code, 1);
    assert_eq!(back.message_id, 42);
    // the codec stores the path as options, without the leading separator
    assert_eq!(back.path, "temp");
    assert_eq!(back.observe, Some(vec![0]));
    assert!(back.payload.is_empty());
}

#[test]
fn codec_round_trips_payload_and_token() {
    let mut p = Packet::new();
    p.mtype = MessageKind::NonConfirmable;
    p.code = 0x45;
    p.message_id = 7;
    p.token = vec![0xDE, 0xAD];
    p.payload = vec![b'w', b'o', b'r', b'l', b'd'];
    let bytes = packet_to_bytes(&p).unwrap();
    let back = packet_from_bytes(bytes.as_slice()).unwrap();
    assert_eq!(back.mtype, MessageKind::NonConfirmable);
    assert_eq!(back.code, 0x45);
    assert_eq!(back.message_id, 7);
    assert_eq!(back.token, vec![0xDE, 0xAD]);
    assert_eq!(back.payload, b"world".to_vec());
}

#[test]
fn oversized_packet_fails_to_encode_with_invalid_input() {
    let mut p = Packet::new();
    p.payload = vec![0; 4000];
    assert_eq!(packet_to_bytes(&p).unwrap_err(), CoapError::InvalidInput);
}

#[test]
fn truncated_datagram_fails_to_decode_with_invalid_input() {
    let mut request = CoAPRequest::new();
    request.set_path("/temp");
    let bytes = packet_to_bytes(&request.message).unwrap();
    let cut = &bytes[..3];
    assert_eq!(packet_from_bytes(cut).unwrap_err(), CoapError::InvalidInput);
}

#[test]
fn cipher_list_is_psk_restricted() {
    assert_eq!(
        PSK_CIPHER_LIST,
        "ECDHE-PSK-AES128-CBC-SHA256:PSK-AES128-CCM8:ECDHE-ECDSA-AES128-CCM8"
    );
}
