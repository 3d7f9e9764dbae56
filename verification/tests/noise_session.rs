use oxy::inner::{frame, FrameAssembler};
use oxy::mid::PAYLOAD_SIZE;
use oxy::noise::{
    fake_tag_payload, handshake_read_outcome, open_outcome, recv_mid, seal_frame, sealed_outcome,
    start_handshake, MidError, MidEvent, NoiseSession, Phase, NOISE_PATTERN,
};
use oxy::mid::{get_conversation_id, get_sequence_number};
use oxy::oxy::{greet_after_handshake, send_inner_packet, send_inner_packet_fake_tag, MidSender};

struct Keys {
    client_private: Vec<u8>,
    client_public: Vec<u8>,
    server_private: Vec<u8>,
    server_public: Vec<u8>,
}

fn keys() -> Keys {
    let builder = snow::Builder::new(NOISE_PATTERN.parse().unwrap());
    let client = builder.generate_keypair().unwrap();
    let server = builder.generate_keypair().unwrap();
    Keys {
        client_private: client.private,
        client_public: client.public,
        server_private: server.private,
        server_public: server.public,
    }
}

fn sessions(k: &Keys) -> (NoiseSession, NoiseSession) {
    let client = NoiseSession::new_initiator(&k.client_private, &k.server_public).unwrap();
    let server = NoiseSession::new_responder(&k.server_private, &k.client_public).unwrap();
    (client, server)
}

fn handshake_packet(sender: &mut MidSender, message: &[u8]) -> Vec<u8> {
    let frames = frame(message);
    assert_eq!(frames.len(), 1);
    sender.next_mid_packet(&fake_tag_payload(&frames[0]))
}

fn connected() -> (NoiseSession, NoiseSession, MidSender, MidSender) {
    let k = keys();
    let (mut client, mut server) = sessions(&k);
    assert!(client.is_initiator());
    assert!(!server.is_initiator());
    assert_eq!(client.phase(), Phase::Handshake);
    let mut client_sender = MidSender::new();
    let mut server_sender = MidSender::new();
    let first = start_handshake(&mut client).unwrap();
    assert_eq!(first.len(), 96);
    let packet = handshake_packet(&mut client_sender, &first);
    let event = match recv_mid(&mut server, &packet) {
        Ok(r) => r,
        Err(e) => panic!("server refused the handshake: {:?}", e),
    };
    let reply = match event {
        MidEvent::HandshakeDone { reply: Some(reply) } => reply,
        _ => panic!("the responder must answer"),
    };
    assert_eq!(reply.len(), 48);
    let packet = handshake_packet(&mut server_sender, &reply);
    let event = match recv_mid(&mut client, &packet) {
        Ok(r) => r,
        Err(e) => panic!("client refused the answer: {:?}", e),
    };
    assert!(matches!(event, MidEvent::HandshakeDone { reply: None }));
    assert_eq!(client.phase(), Phase::Transport);
    assert_eq!(server.phase(), Phase::Transport);
    (client, server, client_sender, server_sender)
}

#[test]
fn handshake_then_frames_travel_sealed() {
    let (mut client, mut server, mut client_sender, _) = connected();
    let frames = frame(b"hello, server");
    let sealed = seal_frame(&mut client, &frames[0]).unwrap();
    assert_eq!(sealed.len(), PAYLOAD_SIZE);
    assert_ne!(&sealed[..frames[0].len()], &frames[0][..]);
    let packet = client_sender.next_mid_packet(&sealed);
    let event = match recv_mid(&mut server, &packet) {
        Ok(r) => r,
        Err(e) => panic!("server refused the frame: {:?}", e),
    };
    let opened = match event {
        MidEvent::Frame(f) => f,
        _ => panic!("a frame was expected"),
    };
    assert_eq!(opened, frames[0]);
    let mut assembler = FrameAssembler::new();
    assert_eq!(assembler.recv_inner(&opened), Some(b"hello, server".to_vec()));
}

#[test]
fn handshake_length_other_than_96_or_48_is_refused() {
    let k = keys();
    let (_, mut server) = sessions(&k);
    let mut payload = vec![0u8; PAYLOAD_SIZE];
    payload[0] = 50;
    let packet = MidSender::new().next_mid_packet(&payload);
    match recv_mid(&mut server, &packet) {
        Err(e) => assert_eq!(e, MidError::BadHandshakeLength(50)),
        Ok(_) => panic!("the packet must be refused"),
    }
    assert_eq!(server.phase(), Phase::Handshake);
}

#[test]
fn tampered_frame_is_refused() {
    let (mut client, mut server, mut client_sender, _) = connected();
    let frames = frame(b"x");
    let mut sealed = seal_frame(&mut client, &frames[0]).unwrap();
    sealed[3] ^= 1;
    let packet = client_sender.next_mid_packet(&sealed);
    match recv_mid(&mut server, &packet) {
        Err(e) => assert_eq!(e, MidError::Noise),
        Ok(_) => panic!("a tampered frame must be refused"),
    }
}

#[test]
fn fake_tag_is_sixteen_zero_bytes() {
    let f = vec![3u8; 256];
    let p = fake_tag_payload(&f);
    assert_eq!(p.len(), PAYLOAD_SIZE);
    assert_eq!(&p[..256], &f[..]);
    assert!(p[256..].iter().all(|b| *b == 0));
}

#[test]
fn message_travels_in_sealed_packets() {
    let (mut client, mut server, mut client_sender, _) = connected();
    let message: Vec<u8> = (0..600u32).map(|i| (i % 256) as u8).collect();
    let packets = send_inner_packet(&mut client, &mut client_sender, &message).unwrap();
    assert_eq!(packets.len(), 3);
    assert_eq!(client_sender.next_sequence_number(), 4);
    let mut assembler = FrameAssembler::new();
    let mut delivered = None;
    for (i, packet) in packets.iter().enumerate() {
        assert_eq!(get_conversation_id(packet), 0);
        assert_eq!(get_sequence_number(packet), 1 + i as u32);
        let event = match recv_mid(&mut server, packet) {
            Ok(r) => r,
            Err(e) => panic!("refused: {:?}", e),
        };
        if let MidEvent::Frame(f) = event {
            delivered = assembler.recv_inner(&f);
        }
    }
    assert_eq!(delivered, Some(message));

    let mut sender = MidSender::new();
    let clear = send_inner_packet_fake_tag(&mut sender, b"hello");
    assert_eq!(clear.len(), 1);
    assert_eq!(clear[0][20], 5);
    assert_eq!(&clear[0][21..26], b"hello");
    assert!(clear[0][276..].iter().all(|b| *b == 0));
}

#[test]
fn wizard_makes_a_server_config() {
    let config = oxy::config_wizard::init_server_config().unwrap();
    assert_eq!(config.mode, Some(oxy::config::Mode::Server));
    assert_eq!(config.outer_key.as_ref().map(|k| k.len()), Some(32));
    assert_eq!(config.local_private_key.as_ref().map(|k| k.len()), Some(32));
    assert_eq!(config.local_public_key.as_ref().map(|k| k.len()), Some(32));
    let port = config.port_number.unwrap();
    assert!(port >= 1025);
    assert_eq!(config.destination, None);
    let again = oxy::config_wizard::init_server_config().unwrap();
    assert_ne!(config.outer_key, again.outer_key);
    assert_ne!(config.local_private_key, again.local_private_key);
}

#[test]
fn server_config_holds_what_was_drawn() {
    let c = oxy::config_wizard::server_config(vec![1; 32], vec![2; 32], vec![3; 32], 2599);
    assert_eq!(c.mode, Some(oxy::config::Mode::Server));
    assert_eq!(c.outer_key, Some(vec![1; 32]));
    assert_eq!(c.local_private_key, Some(vec![2; 32]));
    assert_eq!(c.local_public_key, Some(vec![3; 32]));
    assert_eq!(c.port_number, Some(2600));
    assert_eq!(c.destination, None);
    assert_eq!(c.remote_public_key, None);
    let top = oxy::config_wizard::server_config(vec![], vec![], vec![], 65534);
    assert_eq!(top.port_number, Some(65535));
}

#[test]
fn outcomes_of_the_noise_calls() {
    let buf: Vec<u8> = (0..1024u32).map(|i| (i % 251) as u8).collect();
    match open_outcome(256, &buf) {
        Ok(f) => assert_eq!(f, buf[..256].to_vec()),
        Err(e) => panic!("256 bytes are a frame: {:?}", e),
    }
    assert_eq!(open_outcome(255, &buf).err(), Some(MidError::UnexpectedLength(255)));
    assert_eq!(open_outcome(0, &buf).err(), Some(MidError::UnexpectedLength(0)));
    assert_eq!(handshake_read_outcome(0), Ok(()));
    assert_eq!(handshake_read_outcome(5), Err(MidError::UnexpectedHandshakePayload(5)));
    let sealed = vec![9u8; PAYLOAD_SIZE];
    assert_eq!(sealed_outcome(PAYLOAD_SIZE, sealed.clone()), Ok(sealed.clone()));
    assert_eq!(sealed_outcome(271, sealed), Err(MidError::UnexpectedLength(271)));
}

#[test]
fn responder_answers_the_first_message() {
    let k = keys();
    let (mut client, mut server) = sessions(&k);
    let first = start_handshake(&mut client).unwrap();
    let packet = handshake_packet(&mut MidSender::new(), &first);
    match recv_mid(&mut server, &packet) {
        Ok(MidEvent::HandshakeDone { reply: Some(_) }) => {}
        _ => panic!("the responder answers"),
    }
    assert!(server.phase() == Phase::Transport);
    assert!(!server.is_initiator());
}

#[test]
fn frame_of_wrong_size_is_not_sealed() {
    let (mut client, _, mut client_sender, _) = connected();
    match seal_frame(&mut client, &[0u8; 300]) {
        Err(e) => assert_eq!(e, MidError::Noise),
        Ok(_) => panic!("a frame too large must be refused"),
    }
    match seal_frame(&mut client, &[0u8; 10]) {
        Err(e) => assert_eq!(e, MidError::UnexpectedLength(26)),
        Ok(_) => panic!("a short frame must be refused"),
    }
    assert_eq!(client.phase(), Phase::Transport);
    let before = client_sender.next_sequence_number();
    let packets = send_inner_packet(&mut client, &mut client_sender, b"").unwrap();
    assert!(packets.is_empty());
    assert_eq!(client_sender.next_sequence_number(), before);
}

#[test]
fn responder_answers_then_greets() {
    let k = keys();
    let (mut client, mut server) = sessions(&k);
    let mut client_sender = MidSender::new();
    let mut server_sender = MidSender::new();
    let first = start_handshake(&mut client).unwrap();
    let packet = handshake_packet(&mut client_sender, &first);
    let reply = match recv_mid(&mut server, &packet) {
        Ok(MidEvent::HandshakeDone { reply }) => reply,
        _ => panic!("the responder answers"),
    };
    let (clear, sealed) =
        greet_after_handshake(&mut server, &mut server_sender, &reply, b"greetings");
    let sealed = sealed.unwrap();
    assert_eq!(clear.len(), 1);
    assert_eq!(sealed.len(), 1);
    assert_eq!(get_sequence_number(&clear[0]), 0);
    assert_eq!(get_sequence_number(&sealed[0]), 1);
    assert_eq!(server_sender.next_sequence_number(), 2);
    match recv_mid(&mut client, &clear[0]) {
        Ok(MidEvent::HandshakeDone { reply: None }) => {}
        _ => panic!("the initiator reads the answer"),
    }
    let frame = match recv_mid(&mut client, &sealed[0]) {
        Ok(MidEvent::Frame(f)) => f,
        _ => panic!("the greeting arrives sealed"),
    };
    let mut assembler = FrameAssembler::new();
    assert_eq!(assembler.recv_inner(&frame), Some(b"greetings".to_vec()));

    let (none, _) = greet_after_handshake(&mut client, &mut client_sender, &None, b"hi");
    assert!(none.is_empty());
}

#[test]
fn short_keys_still_build_a_session() {
    let short = vec![7u8; 16];
    let client = NoiseSession::new_initiator(&short, &short).unwrap();
    assert!(client.is_initiator());
    assert_eq!(client.phase(), Phase::Handshake);
    let server = NoiseSession::new_responder(&[], &[]).unwrap();
    assert!(!server.is_initiator());
}

#[test]
fn wizard_key_pair_belongs_together() {
    let server_config = oxy::config_wizard::init_server_config().unwrap();
    let server_private = server_config.local_private_key.unwrap();
    let server_public = server_config.local_public_key.unwrap();
    let client = keys();
    let mut initiator =
        NoiseSession::new_initiator(&client.client_private, &server_public).unwrap();
    let mut responder =
        NoiseSession::new_responder(&server_private, &client.client_public).unwrap();
    let first = start_handshake(&mut initiator).unwrap();
    let packet = handshake_packet(&mut MidSender::new(), &first);
    match recv_mid(&mut responder, &packet) {
        Ok(MidEvent::HandshakeDone { reply: Some(_) }) => {}
        _ => panic!("the responder's key pair must match"),
    }
    assert_eq!(responder.phase(), Phase::Transport);
}

#[test]
fn handshake_is_not_finished_by_one_message() {
    let k = keys();
    let (mut client, _) = sessions(&k);
    let first = start_handshake(&mut client).unwrap();
    assert_eq!(first.len(), 96);
    assert_eq!(client.phase(), Phase::Handshake);
    let mut payload = vec![0u8; PAYLOAD_SIZE];
    payload[0] = 48;
    let packet = MidSender::new().next_mid_packet(&payload);
    match recv_mid(&mut client, &packet) {
        Err(e) => assert_eq!(e, MidError::Noise),
        Ok(_) => panic!("a forged answer must be refused"),
    }
    assert_eq!(client.phase(), Phase::Handshake);
}
