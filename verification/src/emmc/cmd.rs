//! eMMC commands (table 56-3 of the ULRM; tables 22-25 of JESD84-A441).

use vstd::prelude::*;

verus! {

/// Relative card address: never zero.
#[derive(Clone, Copy)]
pub struct Rca {
    value: u16,
}

impl Rca {
    #[verifier::type_invariant]
    spec fn non_zero(self) -> bool {
        self.value != 0
    }

    /// The address.
    pub closed spec fn value(self) -> u16 {
        self.value
    }

    /// The relative address `value`, or `None` for zero.
    pub fn new(value: u16) -> (r: Option<Rca>)
        ensures
            r is Some <==> value != 0,
            r matches Some(a) ==> a.value() == value,
    {
        if value == 0 {
            None
        } else {
            Some(Rca { value })
        }
    }

    /// The address.
    pub fn get(&self) -> (r: u16)
        ensures
            r == self.value(),
            r != 0,
    {
        proof {
            use_type_invariant(self);
        }
        self.value
    }
}

/// A command sent to the card.
#[allow(inconsistent_fields)]
#[derive(Clone, Copy)]
pub enum Command {
    /// CMD0
    GoIdleState,
    /// CMD1: `ocr` bits 8..=23 give the voltage range (2.0V to 3.6V in 0.1V
    /// steps); 0 queries the range supported by all cards.
    SendOpCond { ocr: u32 },
    /// CMD2
    AllSendCid,
    /// CMD3
    SetRelativeAddr { rca: Rca },
    /// CMD6 (MMC variant)
    Switch { data: u32 },
    /// CMD7
    SelectCard { rca: Option<Rca> },
    /// CMD8
    SendExtCsd,
    /// CMD9
    SendCsd { rca: Rca },
    /// CMD13
    SendStatus { rca: Rca },
    /// CMD16
    SetBlockLen { len: u32 },
    /// CMD17: `block_nr` is a block number (times 512 for the byte address).
    ReadSingleBlock { block_nr: u32 },
    /// CMD24: `block_nr` is a block number (times 512 for the byte address).
    WriteSingleBlock { block_nr: u32 },
}

/// The command type.
#[allow(non_camel_case_types)]
#[derive(Clone, Copy, PartialEq, Eq, Structural)]
pub enum Type {
    /// Broadcast command with no response
    bc,
    /// Broadcast command with response
    bcr,
    /// Addressed command
    ac,
    /// Addressed data transfer command
    adtc,
}

/// The response a command expects.
#[derive(Clone, Copy, PartialEq, Eq, Structural)]
pub enum Response {
    /// No response (called `None` in the card specification).
    NoResponse,
    R1,
    R1b,
    R2,
    R3,
    R4,
    R5,
    R6,
}

/// The busy bit of an OCR, which the host never sets in CMD1.
pub const OCR_BUSY: u32 = 0x8000_0000;

/// The relative address, or 0 for none, placed in bits 16..=31 of the
/// argument.
pub open spec fn rca_arg(rca: u16) -> u32 {
    (rca as u32) << 16
}

/// Index, type, argument and expected response of each command.
pub open spec fn command_table(cmd: Command) -> (u8, Type, u32, Response) {
    match cmd {
        Command::GoIdleState => (0, Type::bc, 0, Response::NoResponse),
        Command::SendOpCond { ocr } => (1, Type::bcr, ocr & !OCR_BUSY, Response::R3),
        Command::AllSendCid => (2, Type::bcr, 0, Response::R2),
        Command::SetRelativeAddr { rca } => (3, Type::ac, rca_arg(rca.value()), Response::R1),
        Command::Switch { data } => (6, Type::ac, data, Response::R1b),
        Command::SelectCard { rca } => (
            7,
            Type::ac,
            rca_arg(
                match rca {
                    Some(a) => a.value(),
                    None => 0,
                },
            ),
            Response::R1,
        ),
        Command::SendExtCsd => (8, Type::adtc, 0, Response::R1),
        Command::SendCsd { rca } => (9, Type::ac, rca_arg(rca.value()), Response::R2),
        Command::SendStatus { rca } => (13, Type::ac, rca_arg(rca.value()), Response::R1),
        Command::SetBlockLen { len } => (16, Type::ac, len, Response::R1),
        Command::ReadSingleBlock { block_nr } => (17, Type::adtc, block_nr, Response::R1),
        Command::WriteSingleBlock { block_nr } => (24, Type::adtc, block_nr, Response::R1),
    }
}

/// Response type, index check and CRC check bits for a response (table 56-6
/// of the ULRM).
pub open spec fn response_bits(resp: Response) -> (u8, u8, u8) {
    match resp {
        Response::NoResponse => (0b00, 0, 0),
        Response::R2 => (0b01, 0, 1),
        Response::R3 | Response::R4 => (0b10, 0, 0),
        Response::R1 | Response::R5 | Response::R6 => (0b10, 1, 1),
        Response::R1b => (0b11, 1, 1),
    }
}

impl Command {
    /// The index of this command (6 bits).
    pub fn index(&self) -> (r: u8)
        ensures
            r == command_table(*self).0,
            r < 64,
    {
        self.index_type_arg_resp().0
    }

    fn index_type_arg_resp(&self) -> (r: (u8, Type, u32, Response))
        ensures
            r == command_table(*self),
    {
        match self {
            Command::GoIdleState => (0, Type::bc, 0, Response::NoResponse),
            Command::SendOpCond { ocr } => (1, Type::bcr, *ocr & !OCR_BUSY, Response::R3),
            Command::AllSendCid => (2, Type::bcr, 0, Response::R2),
            Command::SetRelativeAddr { rca } => (3, Type::ac, (rca.get() as u32) << 16u32, Response::R1),
            Command::Switch { data } => (6, Type::ac, *data, Response::R1b),
            Command::SelectCard { rca } => {
                let a: u16 = match rca {
                    Some(a) => a.get(),
                    None => 0,
                };
                (7, Type::ac, (a as u32) << 16u32, Response::R1)
            },
            Command::SendExtCsd => (8, Type::adtc, 0, Response::R1),
            Command::SendCsd { rca } => (9, Type::ac, (rca.get() as u32) << 16u32, Response::R2),
            Command::SendStatus { rca } => (13, Type::ac, (rca.get() as u32) << 16u32, Response::R1),
            Command::SetBlockLen { len } => (16, Type::ac, *len, Response::R1),
            Command::ReadSingleBlock { block_nr } => (17, Type::adtc, *block_nr, Response::R1),
            Command::WriteSingleBlock { block_nr } => (24, Type::adtc, *block_nr, Response::R1),
        }
    }

    /// The response this command expects.
    pub fn response(&self) -> (r: Response)
        ensures
            r == command_table(*self).3,
    {
        self.index_type_arg_resp().3
    }

    fn type_(&self) -> (r: Type)
        ensures
            r == command_table(*self).1,
    {
        self.index_type_arg_resp().1
    }

    /// The argument of this command.
    pub fn arg(&self) -> (r: u32)
        ensures
            r == command_table(*self).2,
    {
        self.index_type_arg_resp().2
    }

    /// The command type field (2 bits): 0b11 for CMD12, 0b00 otherwise.
    pub fn cmdtyp(&self) -> (r: u8)
        ensures
            r == if command_table(*self).0 == 12 { 0b11u8 } else { 0b00u8 },
    {
        let idx = self.index();
        if idx == 12 {
            0b11
        } else {
            0b00
        }
    }

    /// Whether this command uses any of the data lines: data transfer
    /// commands do, and R1b commands signal busy on DATA0.
    pub fn uses_data_line(&self) -> (r: bool)
        ensures
            r == (command_table(*self).1 == Type::adtc || command_table(*self).3 == Response::R1b),
    {
        let resp = self.response();
        self.data_present() || resp == Response::R1b
    }

    /// Whether this command transfers data (in either direction).
    pub fn data_present(&self) -> (r: bool)
        ensures
            r == (command_table(*self).1 == Type::adtc),
    {
        self.type_() == Type::adtc
    }

    fn resp_cicen_cccen(&self) -> (r: (u8, u8, u8))
        ensures
            r == response_bits(command_table(*self).3),
    {
        match self.response() {
            Response::NoResponse => (0b00, 0, 0),
            Response::R2 => (0b01, 0, 1),
            Response::R3 | Response::R4 => (0b10, 0, 0),
            Response::R1 | Response::R5 | Response::R6 => (0b10, 1, 1),
            Response::R1b => (0b11, 1, 1),
        }
    }

    /// The response type that this command expects.
    pub fn response_type(&self) -> (r: u8)
        ensures
            r == response_bits(command_table(*self).3).0,
    {
        self.resp_cicen_cccen().0
    }

    /// Whether the command index in the response is checked.
    pub fn cicen(&self) -> (r: bool)
        ensures
            r == (response_bits(command_table(*self).3).1 == 1),
    {
        self.resp_cicen_cccen().1 == 1
    }

    /// Whether the CRC of the response is checked.
    pub fn cccen(&self) -> (r: bool)
        ensures
            r == (response_bits(command_table(*self).3).2 == 1),
    {
        self.resp_cicen_cccen().2 == 1
    }
}

proof fn lemma_rca_in_upper_half(v: u16)
    ensures
        rca_arg(v) >> 16 == v as u32,
        rca_arg(v) & 0xffff == 0,
        rca_arg(v) == (v as u32) * 0x1_0000,
{
    assert(((v as u32) << 16) >> 16 == v as u32 && ((v as u32) << 16) & 0xffff == 0 && (v as u32)
        << 16 == (v as u32) * 0x1_0000) by (bit_vector);
}

/// Commands that address a card carry its relative address in the upper
/// half of the argument, with the lower half (stuff bits) clear; SELECT_CARD
/// with no address deselects with an all-zero argument.
pub proof fn law_rca_argument(rca: Rca)
    ensures
        command_table(Command::SetRelativeAddr { rca }).2 == (rca.value() as u32) * 0x1_0000,
        command_table(Command::SelectCard { rca: Some(rca) }).2 == (rca.value() as u32) * 0x1_0000,
        command_table(Command::SendCsd { rca }).2 == (rca.value() as u32) * 0x1_0000,
        command_table(Command::SendStatus { rca }).2 == (rca.value() as u32) * 0x1_0000,
        command_table(Command::SendStatus { rca }).2 >> 16 == rca.value() as u32,
        command_table(Command::SendStatus { rca }).2 & 0xffff == 0,
        command_table(Command::SelectCard { rca: None }).2 == 0,
{
    lemma_rca_in_upper_half(rca.value());
    lemma_rca_in_upper_half(0);
}

/// The response checks are consistent: a response whose index is checked
/// also has its CRC checked, a command with no response checks neither, and
/// exactly the data transfer commands and the busy-signalling ones use the
/// data lines.
pub proof fn law_response_checks(cmd: Command)
    ensures
        response_bits(command_table(cmd).3).1 == 1 ==> response_bits(command_table(cmd).3).2 == 1,
        command_table(cmd).3 == Response::NoResponse <==> response_bits(command_table(cmd).3).0 == 0,
        command_table(cmd).1 == Type::adtc ==> command_table(cmd).3 == Response::R1,
        command_table(cmd).0 != 12 && command_table(cmd).0 != 52,
{
}

} // verus!
