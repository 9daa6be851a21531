use rust3270::server::telnet::{frame_record, TelnetError, TelnetEvent, TelnetState};

#[test]
fn frame_plain_record() {
    assert_eq!(frame_record(&[0x01, 0x02]), vec![0x01, 0x02, 0xFF, 0xEF]);
    assert_eq!(frame_record(&[]), vec![0xFF, 0xEF]);
}

#[test]
fn frame_escapes_iac() {
    assert_eq!(frame_record(&[0x01, 0xFF, 0x02]), vec![0x01, 0xFF, 0xFF, 0x02, 0xFF, 0xEF]);
    assert_eq!(frame_record(&[0xFF, 0xFF]), vec![0xFF, 0xFF, 0xFF, 0xFF, 0xFF, 0xEF]);
}

#[test]
fn records_come_out_in_order() {
    let mut state = TelnetState::new();
    let mut out = Vec::new();
    for r in [vec![1u8], vec![2u8, 3], vec![4u8]] {
        assert!(state.handle_event(&TelnetEvent::DataReceive(r), &mut out).is_ok());
        assert!(state.handle_event(&TelnetEvent::Iac(0xEF), &mut out).is_ok());
    }
    assert_eq!(state.pop_record(), Some(vec![1]));
    assert_eq!(state.pop_record(), Some(vec![2, 3]));
    assert_eq!(state.pop_record(), Some(vec![4]));
    assert_eq!(state.pop_record(), None);
    assert!(out.is_empty());
}

#[test]
fn records_from_one_read() {
    let mut state = TelnetState::new();
    let mut out = Vec::new();
    let wire = [b'A', 0xFF, 0xEF, b'B', b'C', 0xFF, 0xEF, b'D', 0xFF, 0xEF];
    assert!(state.receive(&wire, &mut out).is_ok());
    assert_eq!(state.pop_record(), Some(vec![b'A']));
    assert_eq!(state.pop_record(), Some(vec![b'B', b'C']));
    assert_eq!(state.pop_record(), Some(vec![b'D']));
    assert_eq!(state.pop_record(), None);
}

#[test]
fn partial_record_waits_for_eor() {
    let mut state = TelnetState::new();
    let mut out = Vec::new();
    assert!(state.handle_event(&TelnetEvent::DataReceive(vec![9]), &mut out).is_ok());
    assert_eq!(state.pop_record(), None);
    assert!(state.handle_event(&TelnetEvent::Iac(0xF1), &mut out).is_ok());
    assert_eq!(state.pop_record(), None);
    assert!(state.handle_event(&TelnetEvent::Iac(0xEF), &mut out).is_ok());
    assert_eq!(state.pop_record(), Some(vec![9]));
}

#[test]
fn negotiation_opens_with_terminal_type() {
    let mut state = TelnetState::new();
    let mut out = Vec::new();
    state.start_negotiation(&mut out);
    assert_eq!(out, vec![0xFF, 0xFD, 0x18, 0xFF, 0xFB, 0x18]);
    assert!(!state.is_ready());
}

#[test]
fn terminal_type_reply_is_recorded() {
    let mut state = TelnetState::new();
    let mut out = Vec::new();
    let r = state.handle_event(&TelnetEvent::Subnegotiation(0x18, vec![0, b'I', b'B', b'M']), &mut out);
    assert!(r.is_ok());
    assert_eq!(state.term_type(), Some(&vec![b'I', b'B', b'M']));
    assert!(!state.is_ready());
}

#[test]
fn full_negotiation_makes_session_ready() {
    let mut state = TelnetState::new();
    let mut out = Vec::new();
    state.start_negotiation(&mut out);
    out.clear();
    assert!(state.receive(&[0xFF, 0xFB, 0x18], &mut out).is_ok());
    assert!(!out.is_empty());
    out.clear();
    let reply = [0xFF, 0xFA, 0x18, 0x00, b'I', b'B', b'M', 0xFF, 0xF0];
    assert!(state.receive(&reply, &mut out).is_ok());
    assert_eq!(state.term_type(), Some(&vec![b'I', b'B', b'M']));
    out.clear();
    let agree = [0xFF, 0xFD, 0x19, 0xFF, 0xFB, 0x19, 0xFF, 0xFD, 0x00, 0xFF, 0xFB, 0x00];
    assert!(state.receive(&agree, &mut out).is_ok());
    assert!(state.is_ready());
}

#[test]
fn send_event_goes_to_output() {
    let mut state = TelnetState::new();
    let mut out = vec![7];
    assert!(state.handle_event(&TelnetEvent::DataSend(vec![1, 2]), &mut out).is_ok());
    assert_eq!(out, vec![7, 1, 2]);
}

#[test]
fn compression_is_refused() {
    let mut state = TelnetState::new();
    let mut out = Vec::new();
    assert_eq!(
        state.handle_event(&TelnetEvent::DecompressImmediate(vec![1]), &mut out),
        Err(TelnetError::CompressionUnsupported)
    );
}

#[test]
fn terminal_type_offer_is_answered_with_send_request() {
    let mut state = TelnetState::new();
    let mut out = Vec::new();
    state.start_negotiation(&mut out);
    out.clear();
    assert!(state.handle_event(&TelnetEvent::Negotiation(0xFB, 0x18), &mut out).is_ok());
    assert_eq!(out, vec![0xFF, 0xFA, 0x18, 0x01, 0xFF, 0xF0]);
}

#[test]
fn terminal_type_reply_offers_eor_and_binary() {
    let mut state = TelnetState::new();
    let mut out = Vec::new();
    let r = state.handle_event(&TelnetEvent::Subnegotiation(0x18, vec![0, b'X']), &mut out);
    assert!(r.is_ok());
    assert_eq!(out, vec![0xFF, 0xFB, 0x19, 0xFF, 0xFD, 0x19, 0xFF, 0xFB, 0x00, 0xFF, 0xFD, 0x00]);
}

#[test]
fn events_stop_at_first_failure() {
    let mut state = TelnetState::new();
    let mut out = Vec::new();
    let events = vec![
        TelnetEvent::DataSend(vec![5]),
        TelnetEvent::DecompressImmediate(vec![1]),
        TelnetEvent::DataSend(vec![6]),
    ];
    assert_eq!(state.handle_events(&events, &mut out), Err(TelnetError::CompressionUnsupported));
    assert_eq!(out, vec![5]);
}
