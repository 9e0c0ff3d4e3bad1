use usbarmory::usbd::bus::{
    buffer_class, check_write, classify_setup, configure_endptctrl, device_address_value, dqh_slot,
    enable_endptctrl, received_len, reset_endptctrl, transfer_failed, transfer_token, BufferClass,
    BusState, EndpointError, EndpointKind, PollOutcome, SetupRequest, ENDPTCTRL_RXE, ENDPTCTRL_RXR,
    ENDPTCTRL_TXE, ENDPTCTRL_TXR, USBSTS_PCI, USBSTS_URI,
};
use usbarmory::usbd::token::Token;
use usbarmory::usbd::util::{dqhidx2epaddr, epaddr2dqhidx, epaddr2endptmask, Hex, OneIndices};

#[test]
fn endpoint_address_mapping() {
    assert_eq!(epaddr2dqhidx(0x00), 0);
    assert_eq!(epaddr2dqhidx(0x80), 1);
    assert_eq!(epaddr2dqhidx(0x01), 2);
    assert_eq!(epaddr2dqhidx(0x81), 3);
    assert_eq!(dqhidx2epaddr(0), 0x00);
    assert_eq!(dqhidx2epaddr(1), 0x80);
    assert_eq!(dqhidx2epaddr(2), 0x01);
    assert_eq!(dqhidx2epaddr(3), 0x81);
    for idx in 0..8 {
        assert_eq!(epaddr2dqhidx(dqhidx2epaddr(idx)), idx);
    }
}

#[test]
fn endpoint_masks() {
    assert_eq!(epaddr2endptmask(0x00), 1);
    assert_eq!(epaddr2endptmask(0x01), 2);
    assert_eq!(epaddr2endptmask(0x80), 1 << 16);
    assert_eq!(epaddr2endptmask(0x81), 1 << 17);
}

#[test]
fn one_indices_visit_set_bits_in_order() {
    let mut it = OneIndices::of(0b1010_0101);
    let mut seen = Vec::new();
    while let Some(i) = it.next() {
        seen.push(i);
    }
    assert_eq!(seen, vec![0, 2, 5, 7]);
    assert_eq!(it.next(), None);
    let mut empty = OneIndices::of(0);
    assert_eq!(empty.next(), None);
}

#[test]
fn alloc_picks_lowest_free_endpoint() {
    let mut s = BusState::new();
    let setup = s.alloc_ep(false, None, EndpointKind::Bulk, 512).ok().unwrap();
    assert_eq!(setup.ep_addr, 0x01);
    assert!(setup.configure);
    assert!(setup.buffer == Some(BufferClass::Large));
    let setup = s.alloc_ep(true, None, EndpointKind::Bulk, 64).ok().unwrap();
    assert_eq!(setup.ep_addr, 0x81);
    assert!(setup.buffer.is_none());
    // both queue heads of endpoint 1 are now in use
    assert!(s.alloc_ep(false, None, EndpointKind::Bulk, 64).err() == Some(EndpointError::EndpointOverflow));
}

#[test]
fn alloc_requested_endpoint_once() {
    let mut s = BusState::new();
    let setup = s.alloc_ep(false, Some(0x00), EndpointKind::Control, 64).ok().unwrap();
    assert_eq!(setup.ep_addr, 0x00);
    assert!(!setup.configure);
    assert!(setup.buffer.is_none());
    assert!(s.is_ep_being_used(0x00));
    assert!(s.alloc_ep(false, Some(0x00), EndpointKind::Control, 64).err() == Some(EndpointError::InvalidEndpoint));
    assert!(s.alloc_ep(false, Some(0x02), EndpointKind::Bulk, 64).err() == Some(EndpointError::EndpointOverflow));
    let eps = s.allocated_eps();
    assert_eq!(eps, vec![0x00]);
}

#[test]
fn allocated_endpoints_listed_by_queue_head() {
    let mut s = BusState::new();
    s.mark_ep_as_used(0x81);
    s.mark_ep_as_used(0x00);
    s.mark_ep_as_used(0x01);
    assert_eq!(s.allocated_eps(), vec![0x00, 0x01, 0x81]);
}

#[test]
fn buffer_classes() {
    assert!(buffer_class(8) == BufferClass::Small);
    assert!(buffer_class(64) == BufferClass::Small);
    assert!(buffer_class(65) == BufferClass::Large);
    assert!(buffer_class(512) == BufferClass::Large);
}

#[test]
fn poll_reports_reset_first() {
    let mut s = BusState::new();
    s.ep_in_complete = Some(1);
    let d = s.poll(USBSTS_URI | USBSTS_PCI, 1, 1);
    assert!(matches!(d.outcome, PollOutcome::Reset));
    assert!(!d.port_change);
    assert_eq!(s.ep_in_complete, Some(1));
}

#[test]
fn poll_nothing_then_quiet() {
    let mut s = BusState::new();
    let d = s.poll(0, 0, 0);
    assert!(matches!(d.outcome, PollOutcome::Nothing));
    assert!(d.first_empty);
    let d = s.poll(0, 0, 0);
    assert!(matches!(d.outcome, PollOutcome::Nothing));
    assert!(!d.first_empty);
}

#[test]
fn poll_reports_setup_and_out() {
    let mut s = BusState::new();
    let d = s.poll(USBSTS_PCI, 1, 2);
    assert!(d.port_change);
    match d.outcome {
        PollOutcome::Data(data) => {
            assert_eq!(data.ep_setup, 1);
            assert_eq!(data.ep_out, 2);
            assert_eq!(data.ep_in_complete, 0);
        }
        _ => panic!("expected data"),
    }
    assert_eq!(s.setupstat, Some(1));
}

#[test]
fn status_out_follows_data_stage() {
    let mut s = BusState::new();
    s.apply_setup(SetupRequest::GetDescriptor);
    assert_eq!(s.pre_status_out, 1);
    let d = s.poll(0, 0, 1 << 16);
    assert_eq!(d.tx_complete, 1);
    match d.outcome {
        PollOutcome::Data(data) => {
            assert_eq!(data.ep_in_complete, 1);
            assert_eq!(data.ep_out, 0);
        }
        _ => panic!("expected data"),
    }
    assert_eq!(s.status_out, 1);
    let d = s.poll(0, 0, 0);
    match d.outcome {
        PollOutcome::Data(data) => {
            assert_eq!(data.ep_in_complete, 0);
            assert_eq!(data.ep_out, 1);
        }
        _ => panic!("expected data"),
    }
    assert_eq!(s.status_out, 0);
    let d = s.poll(0, 0, 0);
    assert!(matches!(d.outcome, PollOutcome::Nothing));
}

#[test]
fn record_in_complete_moves_status_stage() {
    let mut s = BusState::new();
    s.pre_status_out = 1;
    s.record_in_complete(1);
    assert_eq!(s.ep_in_complete, Some(2));
    assert_eq!(s.pre_status_out, 1);
    s.record_in_complete(0);
    assert_eq!(s.ep_in_complete, Some(3));
    assert_eq!(s.pre_status_out, 0);
    assert_eq!(s.status_out, 1);
}

#[test]
fn setup_bits_taken_once() {
    let mut s = BusState::new();
    s.poll(0, 0b11, 0);
    assert_eq!(s.take_setup(0), Some(1));
    assert_eq!(s.take_setup(0), None);
    assert_eq!(s.setupstat, Some(2));
    assert_eq!(s.take_setup(1), Some(2));
    assert_eq!(s.setupstat, None);
    assert_eq!(s.take_setup(1), None);
}

#[test]
fn setup_requests_classified() {
    assert!(classify_setup(&[0, 5, 3, 0, 0, 0, 0, 0]) == SetupRequest::SetAddress);
    assert!(classify_setup(&[0, 9, 1, 0, 0, 0, 0, 0]) == SetupRequest::ResetEndpoints);
    assert!(classify_setup(&[1, 11, 0, 0, 0, 0, 0, 0]) == SetupRequest::ResetEndpoints);
    assert!(classify_setup(&[128, 6, 0, 1, 0, 0, 64, 0]) == SetupRequest::GetDescriptor);
    assert!(classify_setup(&[128, 0, 0, 0, 0, 0, 2, 0]) == SetupRequest::Unsupported);
    let mut s = BusState::new();
    s.apply_setup(SetupRequest::SetAddress);
    assert_eq!(s.pre_status_out, 0);
}

#[test]
fn endpoint_control_values() {
    // OUT bulk with TX disabled: the TX direction becomes bulk as well
    assert_eq!(configure_endptctrl(0, true, EndpointKind::Bulk), (0b10 << 2) | (0b10 << 18));
    // OUT interrupt with TX enabled: only the RX type is written
    assert_eq!(
        configure_endptctrl(ENDPTCTRL_TXE, true, EndpointKind::Interrupt),
        ENDPTCTRL_TXE | (0b11 << 2)
    );
    // IN bulk with RX disabled
    assert_eq!(configure_endptctrl(0, false, EndpointKind::Bulk), (0b10 << 18) | (0b10 << 2));
    // IN replaces the previous TX type
    assert_eq!(
        configure_endptctrl((0b11 << 18) | ENDPTCTRL_RXE, false, EndpointKind::Bulk),
        (0b10 << 18) | ENDPTCTRL_RXE
    );
    assert_eq!(enable_endptctrl(0, true), ENDPTCTRL_RXE);
    assert_eq!(enable_endptctrl(0, false), ENDPTCTRL_TXE);
    assert_eq!(reset_endptctrl(ENDPTCTRL_RXE, true), ENDPTCTRL_RXE | ENDPTCTRL_RXR);
    assert_eq!(reset_endptctrl(ENDPTCTRL_TXE, false), ENDPTCTRL_TXE | ENDPTCTRL_TXR);
}

#[test]
fn device_address_register() {
    assert_eq!(device_address_value(5), 5 << 25);
    assert_eq!(device_address_value(127), 127 << 25);
}

#[test]
fn queue_head_slots() {
    assert_eq!(dqh_slot(0x00), Some(0));
    assert_eq!(dqh_slot(0x81), Some(3));
    assert_eq!(dqh_slot(0x02), None);
    assert_eq!(dqh_slot(0x82), None);
}

#[test]
fn write_checks() {
    assert!(check_write(64, 64, false).is_ok());
    assert!(check_write(65, 64, false).err() == Some(EndpointError::EndpointMemoryOverflow));
    assert!(check_write(65, 64, true).err() == Some(EndpointError::EndpointMemoryOverflow));
    assert!(check_write(8, 64, true).err() == Some(EndpointError::WouldBlock));
}

#[test]
fn transfer_tokens() {
    let t = transfer_token(512);
    assert_eq!(t.get_total_bytes(), 512);
    assert!(t.get_status().is_active());
    assert!(transfer_failed(t.get_status()));
    let done = Token::empty();
    assert!(!transfer_failed(done.get_status()));
    assert_eq!(received_len(64, 0), 64);
    assert_eq!(received_len(64, 60), 4);
}

#[test]
fn hex_text_of_u16() {
    assert_eq!(Hex(0x5u16).to_ascii(), b"0x05".to_vec());
    assert_eq!(Hex(0xffu16).to_ascii(), b"0xff".to_vec());
    assert_eq!(Hex(0x100u16).to_ascii(), b"0x0100".to_vec());
    assert_eq!(Hex(0xbeefu16).to_ascii(), b"0xbeef".to_vec());
}

#[test]
fn hex_text_of_u32() {
    assert_eq!(Hex(0u32).to_ascii(), b"0x00".to_vec());
    assert_eq!(Hex(0x1234u32).to_ascii(), b"0x1234".to_vec());
    assert_eq!(Hex(0x1_0000u32).to_ascii(), b"0x0001_0000".to_vec());
    assert_eq!(Hex(0xdead_beefu32).to_ascii(), b"0xdead_beef".to_vec());
}

#[test]
fn refused_allocation_ignores_packet_size() {
    let mut s = BusState::new();
    // endpoint 0 OUT is free; an address beyond the queue heads is refused
    // before the packet size matters
    assert!(s.alloc_ep(false, Some(0x05), EndpointKind::Bulk, 0x800).err() == Some(EndpointError::EndpointOverflow));
    assert!(s.alloc_ep(false, Some(0x00), EndpointKind::Control, 64).is_ok());
    assert!(s.alloc_ep(false, Some(0x00), EndpointKind::Control, 0x800).err() == Some(EndpointError::InvalidEndpoint));
    assert_eq!(s.used_dqhs, 1);
}

#[test]
fn no_pending_setup_any_index() {
    let mut s = BusState::new();
    assert_eq!(s.take_setup(20), None);
    assert!(s.setupstat.is_none());
}

#[test]
fn empty_masks_are_never_cached() {
    let mut s = BusState::new();
    // a poll with no SETUP packet does not record an empty set
    let _ = s.poll(0, 0, 0);
    assert!(s.setupstat.is_none());
    assert!(s.ep_in_complete.is_none());
    let _ = s.poll(0, 0b1, 0);
    assert_eq!(s.take_setup(0), Some(1));
    assert!(s.setupstat.is_none());
}
