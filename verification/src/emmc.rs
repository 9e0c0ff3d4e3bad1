//! Low level access to the eMMC: the values written to the uSDHC and the
//! decisions taken on what it reports.

pub mod card;
pub mod cmd;

use crate::storage::{le_u32, read_le_u32, BLOCK_SIZE};
use card::State;
use cmd::{command_table, response_bits, Command, Rca, Response, Type};
use vstd::prelude::*;

verus! {

/// INT_STATUS: command complete.
pub const INT_STATUS_CC: u32 = 1;

/// INT_STATUS: transfer complete.
pub const INT_STATUS_TC: u32 = 1 << 1;

/// INT_STATUS: DMA interrupt.
pub const INT_STATUS_DINT: u32 = 1 << 3;

/// INT_STATUS: command timeout error.
pub const INT_STATUS_CTOE: u32 = 1 << 16;

/// INT_STATUS: command CRC error.
pub const INT_STATUS_CCE: u32 = 1 << 17;

/// INT_STATUS: command end bit error.
pub const INT_STATUS_CEBE: u32 = 1 << 18;

/// INT_STATUS: command index error.
pub const INT_STATUS_CIE: u32 = 1 << 19;

/// INT_STATUS: data timeout error.
pub const INT_STATUS_DTOE: u32 = 1 << 20;

/// INT_STATUS: data CRC error.
pub const INT_STATUS_DCE: u32 = 1 << 21;

/// INT_STATUS: data end bit error.
pub const INT_STATUS_DEBE: u32 = 1 << 22;

/// INT_STATUS: DMA error.
pub const INT_STATUS_DMAE: u32 = 1 << 28;

/// Every error bit of INT_STATUS.
pub const INT_STATUS_ANY_ERROR: u32 = INT_STATUS_CTOE | INT_STATUS_CCE | INT_STATUS_CEBE
    | INT_STATUS_CIE | INT_STATUS_DTOE | INT_STATUS_DCE | INT_STATUS_DEBE | INT_STATUS_DMAE;

/// PRES_STATE: command inhibit (DATA).
pub const PRES_STATE_CDIHB: u32 = 1 << 1;

/// PRES_STATE: command inhibit.
pub const PRES_STATE_CIHB: u32 = 1;

/// PRES_STATE: data line active.
pub const PRES_STATE_DLA: u32 = 1 << 2;

/// PRES_STATE: SD clock stable.
pub const PRES_STATE_SDSTB: u32 = 1 << 3;

/// MIX_CTRL: bit that must always be one.
pub const MIX_CTRL_RESERVED: u32 = 1 << 31;

/// MIX_CTRL: single block transfer.
pub const MIX_CTRL_MBSEL_SINGLE: u32 = 0;

/// MIX_CTRL: enable the DMA.
pub const MIX_CTRL_DMAEN_ENABLE: u32 = 1;

/// MIX_CTRL: dual data rate.
pub const MIX_CTRL_DDR_EN: u32 = 1 << 3;

/// MIX_CTRL: data transfer direction card to host.
pub const MIX_CTRL_DTDSEL_READ: u32 = 1 << 4;

/// MIX_CTRL: data transfer direction host to card.
pub const MIX_CTRL_DTDSEL_WRITE: u32 = 0;

/// VEND_SPEC: SD clock enable.
pub const VEND_SPEC_CKEN: u32 = 1 << 14;

/// CMD_XFR_TYP: offset of the response type.
pub const RSTYP_OFFSET: u32 = 16;

/// CMD_XFR_TYP: check the command index of the response.
pub const CICEN: u32 = 1 << 20;

/// CMD_XFR_TYP: check the CRC of the response.
pub const CCCEN: u32 = 1 << 19;

/// CMD_XFR_TYP: data present.
pub const DPSEL: u32 = 1 << 21;

/// CMD_XFR_TYP: offset of the command type.
pub const CMDTYP_OFFSET: u32 = 22;

/// CMD_XFR_TYP: offset of the command index.
pub const CMDINX_OFFSET: u32 = 24;

/// OCR: the card has finished powering up.
pub const OCR_RDY: u32 = 1 << 31;

/// The voltage window the host asks for in CMD1.
pub const TARGET_OCR: u32 = 0x00FF_8000;

/// Command error.
#[derive(Clone, Copy, PartialEq)]
pub enum Error {
    /// Card did not respond in time.
    Timeout,
    /// Card is not in the transfer state (data cannot be accessed).
    NotInTransferState,
    /// Unclassified error.
    Other,
    /// Error condition in the card.
    Card(card::Status),
}

impl From<card::Status> for Error {
    fn from(s: card::Status) -> (r: Error) {
        Error::Card(s)
    }
}

impl vstd::std_specs::convert::FromSpecImpl<card::Status> for Error {
    open spec fn obeys_from_spec() -> bool {
        true
    }

    open spec fn from_spec(s: card::Status) -> Error {
        Error::Card(s)
    }
}

/// Data bus width.
#[derive(Clone, Copy, PartialEq, Eq, Structural)]
pub enum Width {
    /// 1-bit
    B1,
    /// 8-bit
    B8,
}

impl Width {
    /// The DTW field of PROT_CTRL for this width.
    pub fn dtw(self) -> (r: u8)
        ensures
            r == match self {
                Width::B1 => 0b00u8,
                Width::B8 => 0b10u8,
            },
    {
        match self {
            Width::B1 => 0b00,
            Width::B8 => 0b10,
        }
    }

    /// Whether this is a dual data rate mode (none of the supported ones
    /// is).
    pub fn ddr(self) -> (r: bool)
        ensures
            !r,
    {
        false
    }
}

/// SD clock frequency.
#[derive(Clone, Copy, PartialEq, Eq, Structural)]
pub enum Frequency {
    /// 200 MHz / 64 / 9 = 347.222 KHz
    K400,
    /// 200 MHz / 2 / 5 = 20 MHz
    M20,
}

/// The relative address that the ROM bootloader assigned to the eMMC.
pub fn rom_rca() -> (r: Rca)
    ensures
        r.value() == 2,
{
    Rca::new(0x02).unwrap()
}

/// The CMD_XFR_TYP value that issues a command.
pub open spec fn xfr_typ(cmd: Command) -> u32 {
    let (index, ty, _, resp) = command_table(cmd);
    let (rstyp, cicen, cccen) = response_bits(resp);
    ((index as u32) << CMDINX_OFFSET) | ((if index == 12 { 0b11u32 } else { 0u32 }) << CMDTYP_OFFSET)
        | (if ty == Type::adtc { DPSEL } else { 0 }) | (if cicen == 1 { CICEN } else { 0 }) | (
    if cccen == 1 {
        CCCEN
    } else {
        0
    }) | ((rstyp as u32) << RSTYP_OFFSET)
}

/// Computes the CMD_XFR_TYP value that issues `cmd`.
pub fn command_xfr_typ(cmd: &Command) -> (r: u32)
    ensures
        r == xfr_typ(*cmd),
{
    let mut w = (cmd.index() as u32) << CMDINX_OFFSET;
    w = w | ((cmd.cmdtyp() as u32) << CMDTYP_OFFSET);
    if cmd.data_present() {
        w = w | DPSEL;
    }
    if cmd.cicen() {
        w = w | CICEN;
    }
    if cmd.cccen() {
        w = w | CCCEN;
    }
    w = w | ((cmd.response_type() as u32) << RSTYP_OFFSET);
    proof {
        let (index, ty, _, resp) = command_table(*cmd);
        let (rstyp, ci, cc) = response_bits(resp);
        let a = (index as u32) << 24u32;
        let b = (if index == 12 { 0b11u32 } else { 0u32 }) << 22u32;
        let c = if ty == Type::adtc { DPSEL } else { 0 };
        let d = if ci == 1 { CICEN } else { 0 };
        let e = if cc == 1 { CCCEN } else { 0 };
        let f = (rstyp as u32) << 16u32;
        assert(a | b | 0u32 == a | b) by (bit_vector);
        assert((a | b | c) | 0u32 == a | b | c) by (bit_vector);
        assert((a | b | c | d) | 0u32 == a | b | c | d) by (bit_vector);
    }
    w
}

/// Whether INT_STATUS reports that a command completed or failed.
pub fn command_finished(int_status: u32) -> (r: bool)
    ensures
        r == (int_status & (INT_STATUS_ANY_ERROR | INT_STATUS_CC) != 0),
{
    int_status & (INT_STATUS_ANY_ERROR | INT_STATUS_CC) != 0
}

/// Whether INT_STATUS reports that a data transfer completed or failed.
pub fn transfer_finished(int_status: u32) -> (r: bool)
    ensures
        r == (int_status & INT_STATUS_ANY_ERROR != 0 || int_status & (INT_STATUS_TC
            | INT_STATUS_DINT) == (INT_STATUS_TC | INT_STATUS_DINT)),
{
    int_status & INT_STATUS_ANY_ERROR != 0 || int_status & (INT_STATUS_TC | INT_STATUS_DINT) == (
    INT_STATUS_TC | INT_STATUS_DINT)
}

/// The outcome of a finished command or data phase, and the INT_STATUS bits
/// to clear.
#[derive(Clone, Copy)]
pub struct PhaseOutcome {
    pub result: Result<(), Error>,
    pub clear: u32,
}

/// Classifies a finished phase from INT_STATUS: a command timeout, any other
/// error, or success, in which case `done` is cleared.
pub open spec fn phase_outcome(int_status: u32, done: u32) -> (Result<(), Error>, u32) {
    if int_status & INT_STATUS_CTOE != 0 {
        (Err(Error::Timeout), INT_STATUS_CTOE)
    } else if int_status & INT_STATUS_ANY_ERROR != 0 {
        (Err(Error::Other), int_status & INT_STATUS_ANY_ERROR)
    } else {
        (Ok(()), done)
    }
}

/// Classifies a finished command (`data == false`, success clears CC) or data
/// phase (success clears TC and DINT).
pub fn classify_phase(int_status: u32, data: bool) -> (r: PhaseOutcome)
    ensures
        (r.result, r.clear) == phase_outcome(
            int_status,
            if data { INT_STATUS_TC | INT_STATUS_DINT } else { INT_STATUS_CC },
        ),
{
    if int_status & INT_STATUS_CTOE != 0 {
        PhaseOutcome { result: Err(Error::Timeout), clear: INT_STATUS_CTOE }
    } else if int_status & INT_STATUS_ANY_ERROR != 0 {
        PhaseOutcome { result: Err(Error::Other), clear: int_status & INT_STATUS_ANY_ERROR }
    } else if data {
        PhaseOutcome { result: Ok(()), clear: INT_STATUS_TC | INT_STATUS_DINT }
    } else {
        PhaseOutcome { result: Ok(()), clear: INT_STATUS_CC }
    }
}

/// Checks the card status carried by the response of `cmd`: only R1 and R1b
/// responses carry one, and an error bit in it fails the command.
pub fn check_response(cmd: &Command, rsp: u32) -> (r: Result<(), Error>)
    ensures
        r == if (command_table(*cmd).3 == Response::R1 || command_table(*cmd).3 == Response::R1b)
            && rsp & card::STATUS_ERROR_MASK != 0 {
            Err(Error::Card(card::status_of(rsp)))
        } else {
            Ok(())
        },
{
    let rspty = cmd.response();
    if rspty == Response::R1 || rspty == Response::R1b {
        match card::Status::from(rsp) {
            Ok(_) => Ok(()),
            Err(s) => Err(Error::Card(s)),
        }
    } else {
        Ok(())
    }
}

/// Whether the card can exchange data: ready for data and in the transfer
/// state.
pub fn check_transfer_state(status: &card::Status) -> (r: Result<(), Error>)
    ensures
        r == if status.ready_for_data && status.state == State::Transfer {
            Ok(())
        } else {
            Err(Error::NotInTransferState)
        },
{
    if !status.ready_for_data || status.state != State::Transfer {
        Err(Error::NotInTransferState)
    } else {
        Ok(())
    }
}

/// The MIX_CTRL value for a single block DMA transfer in the given direction.
pub fn mix_ctrl_value(width: Width, read: bool) -> (r: u32)
    ensures
        r == MIX_CTRL_RESERVED | MIX_CTRL_MBSEL_SINGLE | (if read {
            MIX_CTRL_DTDSEL_READ
        } else {
            MIX_CTRL_DTDSEL_WRITE
        }) | MIX_CTRL_DMAEN_ENABLE,
{
    let ddr = if width.ddr() { MIX_CTRL_DDR_EN } else { 0 };
    let dir = if read { MIX_CTRL_DTDSEL_READ } else { MIX_CTRL_DTDSEL_WRITE };
    let r = MIX_CTRL_RESERVED | ddr | MIX_CTRL_MBSEL_SINGLE | dir | MIX_CTRL_DMAEN_ENABLE;
    assert(r == MIX_CTRL_RESERVED | MIX_CTRL_MBSEL_SINGLE | dir | MIX_CTRL_DMAEN_ENABLE)
        by (bit_vector)
        requires
            r == MIX_CTRL_RESERVED | ddr | MIX_CTRL_MBSEL_SINGLE | dir | MIX_CTRL_DMAEN_ENABLE,
            ddr == 0u32,
    ;
    r
}

/// The BLK_ATT value for one block of `BLOCK_SIZE` bytes.
pub fn single_block_attributes() -> (r: u32)
    ensures
        r == (1u32 << 16) | 512,
{
    (1u32 << 16u32) | (BLOCK_SIZE as u32)
}

/// The argument of the SWITCH command that sets the bus width of the card.
pub fn bus_width_switch_arg(width: Width) -> (r: u32)
    ensures
        r == match width {
            Width::B1 => 0x03B7_0000u32,
            Width::B8 => 0x03B7_0200u32,
        },
{
    match width {
        Width::B1 => 0x03B7_0000,
        Width::B8 => 0x03B7_0200,
    }
}

/// PROT_CTRL with its data transfer width field set for `width`.
pub fn prot_ctrl_with_width(prot_ctrl: u32, width: Width) -> (r: u32)
    ensures
        r == (prot_ctrl & !(0b11u32 << 1)) | ((match width {
            Width::B1 => 0b00u32,
            Width::B8 => 0b10u32,
        }) << 1),
{
    (prot_ctrl & !(0b11u32 << 1u32)) | ((width.dtw() as u32) << 1u32)
}

/// The prescaler and divisor of a clock frequency.
pub open spec fn clock_dividers(f: Frequency) -> (u32, u32) {
    match f {
        Frequency::K400 => (0x20, 8),
        Frequency::M20 => (0x01, 4),
    }
}

/// SYS_CTRL with the SD clock divisor and prescaler set for `f`.
pub fn sys_ctrl_with_clock(sys_ctrl: u32, f: Frequency) -> (r: u32)
    ensures
        ({
            let (sdclkfs, dvs) = clock_dividers(f);
            r == (((sys_ctrl & !(0xfu32 << 4)) | (dvs << 4)) & !(0xffu32 << 8)) | (sdclkfs << 8)
        }),
{
    let (sdclkfs, dvs): (u32, u32) = match f {
        Frequency::K400 => (0x20, 8),
        Frequency::M20 => (0x01, 4),
    };
    let mut r = sys_ctrl;
    r = r & !(0xfu32 << 4u32);
    r = r | (dvs << 4u32);
    r = r & !(0xffu32 << 8u32);
    r = r | (sdclkfs << 8u32);
    r
}

/// The number of sectors of the card, from bytes 212..=215 of EXT_CSD.
pub fn ext_csd_sector_count(ext_csd: &[u8; 512]) -> (r: u32)
    ensures
        r == le_u32(ext_csd@, 212),
{
    read_le_u32(ext_csd.as_slice(), 212)
}

/// Whether the boot mode register says the SoC booted from the microSD card,
/// a mode this driver does not support.
pub fn booted_from_usd(sbmr1: u32) -> (r: bool)
    ensures
        r == (sbmr1 & 0b1110_0000 == 0b0100_0000),
{
    sbmr1 & 0b1110_0000 == 0b0100_0000
}

/// Whether a CMD1 response says the card finished powering up.
pub fn card_powered_up(ocr: u32) -> (r: bool)
    ensures
        r == (ocr & OCR_RDY != 0),
{
    ocr & OCR_RDY != 0
}

/// The command that reads one block, or the EXT_CSD register for `None`.
pub fn read_command(block_nr: Option<u32>) -> (r: Command)
    ensures
        r == match block_nr {
            Some(n) => Command::ReadSingleBlock { block_nr: n },
            None => Command::SendExtCsd,
        },
{
    match block_nr {
        Some(n) => Command::ReadSingleBlock { block_nr: n },
        None => Command::SendExtCsd,
    }
}

/// Checks a block access of a card with `blocks` blocks: the block number, or
/// `Other` when it lies outside the card.
pub fn check_block_access(lba: u64, blocks: u32) -> (r: Result<u32, Error>)
    ensures
        r == if lba < blocks { Ok::<u32, Error>(lba as u32) } else { Err(Error::Other) },
{
    if lba >= blocks as u64 {
        Err(Error::Other)
    } else {
        Ok(lba as u32)
    }
}

/// Whether a write must wait for the card to finish programming: the card
/// status that the write command returned is in the programming state.
pub fn must_wait_for_programming(status: &card::Status) -> (r: bool)
    ensures
        r == (status.state == State::Programming),
{
    status.state == State::Programming
}

} // verus!
