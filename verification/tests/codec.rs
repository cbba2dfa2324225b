use egpms::codec::{decode_status, encode_set, from_id_to_device, state_label, LineStatus, SocketState};

#[test]
fn address_for_each_socket() {
    assert_eq!(from_id_to_device(1), 3);
    assert_eq!(from_id_to_device(2), 6);
    assert_eq!(from_id_to_device(3), 9);
    assert_eq!(from_id_to_device(4), 12);
}

#[test]
fn encode_set_all_sockets_and_states() {
    for id in 1u8..=4 {
        let on = encode_set(id, SocketState::On);
        assert_eq!(on[0], from_id_to_device(id));
        assert_eq!(on[1], 1);
        let off = encode_set(id, SocketState::Off);
        assert_eq!(off[0], from_id_to_device(id));
        assert_eq!(off[1], 0);
    }
}

#[test]
fn encode_set_twice_gives_same_payload() {
    for id in 1u8..=4 {
        let first = encode_set(id, SocketState::On);
        let second = encode_set(id, SocketState::On);
        assert_eq!(first, second);
        let first_off = encode_set(id, SocketState::Off);
        let second_off = encode_set(id, SocketState::Off);
        assert_eq!(first_off, second_off);
    }
}

#[test]
fn decode_status_zero_is_offline_for_any_first_byte() {
    assert_eq!(decode_status(&[0x00, 0x00]), LineStatus::Offline);
    assert_eq!(decode_status(&[0x02, 0x00]), LineStatus::Offline);
    assert_eq!(decode_status(&[0xff, 0x00]), LineStatus::Offline);
}

#[test]
fn decode_status_nonzero_is_online_for_any_first_byte() {
    assert_eq!(decode_status(&[0x00, 0x01]), LineStatus::Online);
    assert_eq!(decode_status(&[0x02, 0x03]), LineStatus::Online);
    assert_eq!(decode_status(&[0xff, 0xff]), LineStatus::Online);
    assert_eq!(decode_status(&[0x00, 0x80]), LineStatus::Online);
}

#[test]
fn state_labels() {
    assert_eq!(state_label(LineStatus::Online), "online");
    assert_eq!(state_label(LineStatus::Offline), "offline");
}
