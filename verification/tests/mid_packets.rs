use oxy::mid::{
    build_mid_packet, get_acknowledgement_number, get_buffer_size, get_conversation_id,
    get_payload, get_payload_mut, get_sequence_number, set_acknowledgement_number,
    set_buffer_size, set_conversation_id, set_sequence_number, MID_PACKET_SIZE, PAYLOAD_SIZE,
};

#[test]
fn conversation_id_is_little_endian() {
    let mut packet = [0u8; MID_PACKET_SIZE];
    set_conversation_id(&mut packet, 0x0102_0304_0506_0708);
    assert_eq!(&packet[..8], &[8, 7, 6, 5, 4, 3, 2, 1]);
    assert_eq!(get_conversation_id(&packet), 0x0102_0304_0506_0708);
}

#[test]
fn header_fields_read_back_and_do_not_overlap() {
    let mut packet = [0xaau8; MID_PACKET_SIZE];
    set_conversation_id(&mut packet, 7);
    set_sequence_number(&mut packet, 0xdead_beef);
    set_acknowledgement_number(&mut packet, 42);
    set_buffer_size(&mut packet, 0x1234);
    assert_eq!(get_conversation_id(&packet), 7);
    assert_eq!(get_sequence_number(&packet), 0xdead_beef);
    assert_eq!(get_acknowledgement_number(&packet), 42);
    assert_eq!(get_buffer_size(&packet), 0x1234);
    assert_eq!(&packet[8..12], &[0xef, 0xbe, 0xad, 0xde]);
    assert_eq!(&packet[12..16], &[42, 0, 0, 0]);
    assert_eq!(&packet[16..18], &[0xaa, 0xaa]);
    assert_eq!(&packet[18..20], &[0x34, 0x12]);
    assert!(get_payload(&packet).iter().all(|b| *b == 0xaa));
}

#[test]
fn payload_is_bytes_20_to_292() {
    let mut packet = [0u8; MID_PACKET_SIZE + 3];
    for (i, b) in packet.iter_mut().enumerate() {
        *b = i as u8;
    }
    assert_eq!(get_payload(&packet).len(), PAYLOAD_SIZE);
    assert_eq!(get_payload(&packet)[0], 20);
    {
        let payload = get_payload_mut(&mut packet);
        payload[0] = 0xff;
        payload[PAYLOAD_SIZE - 1] = 0xfe;
    }
    assert_eq!(packet[19], 19);
    assert_eq!(packet[20], 0xff);
    assert_eq!(packet[291], 0xfe);
    assert_eq!(packet[292], 36);
}

#[test]
fn built_packet_has_zero_header_but_sequence_number() {
    let payload: Vec<u8> = (0..PAYLOAD_SIZE).map(|i| (i % 251) as u8).collect();
    let packet = build_mid_packet(5, &payload);
    assert_eq!(packet.len(), MID_PACKET_SIZE);
    assert_eq!(&packet[..20], &[0, 0, 0, 0, 0, 0, 0, 0, 5, 0, 0, 0, 0, 0, 0, 0, 0, 0, 0, 0]);
    assert_eq!(get_payload(&packet), &payload[..]);
}
