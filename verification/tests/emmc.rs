use usbarmory::emmc::card::{Csd, State, Status, STATUS_ERROR_MASK};
use usbarmory::emmc::cmd::{Command, Rca, Response};
use usbarmory::emmc::{
    booted_from_usd, bus_width_switch_arg, card_powered_up, check_block_access, check_response,
    check_transfer_state, classify_phase, command_finished, command_xfr_typ, ext_csd_sector_count,
    mix_ctrl_value, must_wait_for_programming, prot_ctrl_with_width, read_command, rom_rca,
    single_block_attributes, sys_ctrl_with_clock, transfer_finished, Error, Frequency, Width,
    INT_STATUS_CC, INT_STATUS_CTOE, INT_STATUS_DCE, INT_STATUS_DINT, INT_STATUS_TC,
};

fn rca2() -> Rca {
    Rca::new(2).unwrap()
}

#[test]
fn rca_is_never_zero() {
    assert!(Rca::new(0).is_none());
    assert_eq!(Rca::new(7).unwrap().get(), 7);
    assert_eq!(rom_rca().get(), 2);
}

#[test]
fn command_table_entries() {
    let c = Command::SendOpCond { ocr: 0xC0FF_8000 };
    assert_eq!(c.index(), 1);
    assert_eq!(c.arg(), 0x40FF_8000);
    assert!(c.response() == Response::R3);
    assert!(!c.data_present());
    assert_eq!(c.response_type(), 0b10);
    assert!(!c.cicen());
    assert!(!c.cccen());

    let c = Command::SetRelativeAddr { rca: rca2() };
    assert_eq!(c.index(), 3);
    assert_eq!(c.arg(), 2 << 16);
    assert!(c.response() == Response::R1);

    let c = Command::SelectCard { rca: None };
    assert_eq!(c.index(), 7);
    assert_eq!(c.arg(), 0);
    let c = Command::SelectCard { rca: Some(rca2()) };
    assert_eq!(c.arg(), 0x2_0000);

    let c = Command::Switch { data: 0x03B7_0200 };
    assert_eq!(c.index(), 6);
    assert!(c.response() == Response::R1b);
    assert!(c.uses_data_line());
    assert!(!c.data_present());
    assert_eq!(c.response_type(), 0b11);

    let c = Command::ReadSingleBlock { block_nr: 42 };
    assert_eq!(c.index(), 17);
    assert_eq!(c.arg(), 42);
    assert!(c.data_present());
    assert!(c.uses_data_line());
    assert_eq!(c.cmdtyp(), 0);

    let c = Command::WriteSingleBlock { block_nr: 9 };
    assert_eq!(c.index(), 24);

    let c = Command::GoIdleState;
    assert!(c.response() == Response::NoResponse);
    assert_eq!(c.response_type(), 0);

    let c = Command::SendCsd { rca: rca2() };
    assert_eq!(c.index(), 9);
    assert!(c.response() == Response::R2);
    assert_eq!(c.response_type(), 0b01);
    assert!(!c.cicen());
    assert!(c.cccen());

    assert_eq!(Command::AllSendCid.index(), 2);
    assert_eq!(Command::SendExtCsd.index(), 8);
    assert_eq!(Command::SendStatus { rca: rca2() }.index(), 13);
    assert_eq!(Command::SetBlockLen { len: 512 }.arg(), 512);
}

#[test]
fn command_transfer_type_word() {
    // CMD17: index 17, data present, index and CRC checks, 48-bit response
    let w = command_xfr_typ(&Command::ReadSingleBlock { block_nr: 1 });
    assert_eq!(w, (17 << 24) | (1 << 21) | (1 << 20) | (1 << 19) | (0b10 << 16));
    // CMD0: no response, nothing checked
    assert_eq!(command_xfr_typ(&Command::GoIdleState), 0);
    // CMD2: 136-bit response with CRC check
    assert_eq!(command_xfr_typ(&Command::AllSendCid), (2 << 24) | (1 << 19) | (0b01 << 16));
}

#[test]
fn card_status_decoding() {
    let bits = (4 << 9) | (1 << 8);
    let s = match Status::from(bits) {
        Ok(s) => s,
        Err(_) => panic!("no error bit is set"),
    };
    assert!(s.state == State::Transfer);
    assert!(s.ready_for_data);
    assert!(!s.app_cmd);
    assert!(check_transfer_state(&s).is_ok());

    let bad = (7 << 9) | (1 << 22);
    match Status::from(bad) {
        Err(s) => {
            assert!(s.illegal_command);
            assert!(s.state == State::Programming);
            assert!(must_wait_for_programming(&s));
            assert!(check_transfer_state(&s) == Err(Error::NotInTransferState));
        }
        Ok(_) => panic!("illegal command is an error"),
    }
    match Status::from(15 << 9) {
        Ok(s) => assert!(s.state == State::Other),
        Err(_) => panic!("no error"),
    }
    assert!(Status::from(STATUS_ERROR_MASK).is_err());
    assert!(Status::from(!STATUS_ERROR_MASK).is_ok());
    let a = Status::from(1 << 8).ok().unwrap();
    let b = Status::from(1 << 8).ok().unwrap();
    assert!(a == b);
}

#[test]
fn csd_decoding() {
    // SPEC_VERS = 4 at bit 122, WRITE_BL_LEN = 9 at bit 22, READ_BL_LEN = 9 at
    // bit 80, C_SIZE low bits at 62, C_SIZE_MULT = 7 at bit 47
    let mut r = [0u32; 4];
    r[3] |= 4 << (114 - 96);
    r[0] |= 9 << 14;
    r[2] |= 9 << 8;
    r[1] |= 0x3ff << 22;
    r[1] |= 7 << 7;
    let csd = Csd::from_response(r);
    assert_eq!(csd.version(), 4);
    assert_eq!(csd.max_read_block_size(), 512);
    assert_eq!(csd.max_write_block_size(), 512);
    assert_eq!(csd.number_of_blocks(), (1 << 9) * (0x3ff + 1));
}

#[test]
fn phase_classification() {
    assert!(command_finished(INT_STATUS_CC));
    assert!(command_finished(INT_STATUS_CTOE));
    assert!(!command_finished(INT_STATUS_TC));
    let o = classify_phase(INT_STATUS_CTOE | INT_STATUS_DCE, false);
    assert!(o.result == Err(Error::Timeout));
    assert_eq!(o.clear, INT_STATUS_CTOE);
    let o = classify_phase(INT_STATUS_DCE | INT_STATUS_CC, false);
    assert!(o.result == Err(Error::Other));
    assert_eq!(o.clear, INT_STATUS_DCE);
    let o = classify_phase(INT_STATUS_CC, false);
    assert!(o.result.is_ok());
    assert_eq!(o.clear, INT_STATUS_CC);
    let o = classify_phase(INT_STATUS_TC | INT_STATUS_DINT, true);
    assert!(o.result.is_ok());
    assert_eq!(o.clear, INT_STATUS_TC | INT_STATUS_DINT);
    assert!(transfer_finished(INT_STATUS_TC | INT_STATUS_DINT));
    assert!(!transfer_finished(INT_STATUS_TC));
    assert!(transfer_finished(INT_STATUS_DCE));
}

#[test]
fn response_status_checked_for_r1() {
    let read = Command::ReadSingleBlock { block_nr: 0 };
    assert!(check_response(&read, 4 << 9).is_ok());
    match check_response(&read, 1 << 31) {
        Err(Error::Card(s)) => assert!(s.address_out_of_range),
        _ => panic!("card error expected"),
    }
    // R2 responses carry no status
    assert!(check_response(&Command::AllSendCid, 1 << 31).is_ok());
}

#[test]
fn controller_register_values() {
    assert_eq!(mix_ctrl_value(Width::B8, true), (1 << 31) | (1 << 4) | 1);
    assert_eq!(mix_ctrl_value(Width::B1, false), (1 << 31) | 1);
    assert_eq!(single_block_attributes(), (1 << 16) | 512);
    assert_eq!(bus_width_switch_arg(Width::B8), 0x03B7_0200);
    assert_eq!(bus_width_switch_arg(Width::B1), 0x03B7_0000);
    assert_eq!(prot_ctrl_with_width(0xffff_ffff, Width::B1), 0xffff_fff9);
    assert_eq!(prot_ctrl_with_width(0, Width::B8), 0b100);
    assert_eq!(Width::B8.dtw(), 0b10);
    assert!(!Width::B8.ddr());
    assert_eq!(sys_ctrl_with_clock(0xf, Frequency::M20), 0xf | (4 << 4) | (1 << 8));
    assert_eq!(sys_ctrl_with_clock(0xffff_ffff, Frequency::K400), 0xffff_008f | (0x20 << 8));
}

#[test]
fn ext_csd_and_boot_mode() {
    let mut ext = [0u8; 512];
    ext[212] = 0x00;
    ext[213] = 0x80;
    ext[214] = 0x3a;
    ext[215] = 0x00;
    assert_eq!(ext_csd_sector_count(&ext), 0x003a_8000);
    assert!(booted_from_usd(0b0100_0000));
    assert!(booted_from_usd(0b0101_1111));
    assert!(!booted_from_usd(0b0110_0000));
    assert!(card_powered_up(0x80FF_8000));
    assert!(!card_powered_up(0x00FF_8000));
}

#[test]
fn block_access_range() {
    assert!(check_block_access(0, 10) == Ok(0));
    assert!(check_block_access(9, 10) == Ok(9));
    assert!(check_block_access(10, 10) == Err(Error::Other));
    assert!(check_block_access(u64::MAX, 10) == Err(Error::Other));
    assert!(matches!(read_command(Some(5)), Command::ReadSingleBlock { block_nr: 5 }));
    assert!(matches!(read_command(None), Command::SendExtCsd));
}

#[test]
fn card_error_converts() {
    let s = Status::from(1 << 19).err().unwrap();
    let e = Error::from(s);
    assert!(e == Error::Card(s));
}

#[test]
fn csd_size_spans_two_words() {
    // C_SIZE is bits 62..=73: the low 10 bits end the second word, the top
    // two bits start the third
    let mut r = [0u32; 4];
    r[1] |= 0x3ff << 22;
    r[2] |= 0b01;
    let csd = Csd::from_response(r);
    // C_SIZE_MULT = 0: 4 blocks per unit
    assert_eq!(csd.number_of_blocks(), 4 * (0x7ff + 1));
    r[2] |= 0b11;
    assert_eq!(Csd::from_response(r).number_of_blocks(), 4 * (0xfff + 1));
    r[1] = 0;
    assert_eq!(Csd::from_response(r).number_of_blocks(), 4 * (0xc00 + 1));
}
