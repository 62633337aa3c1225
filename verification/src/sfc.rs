//! The SFC v150 serial flash controller: registers, commands and polls.

use vstd::prelude::*;

use crate::bus::{BusOp, Plan, Routine, Step};
use crate::error::Error;
use crate::plan;

verus! {

pub const SFC_BASE: u32 = 0x4800_0000;

/// `[0]` start, `[1]` sel_cs, `[3]` addr_en, `[7]` data_en, `[8]` rw,
/// `[9:14]` data_cnt, `[17:19]` mem_if_type.
pub const CMD_CONFIG: u32 = SFC_BASE + 0x300;

/// `[7:0]` opcode.
pub const CMD_INS: u32 = SFC_BASE + 0x308;

/// Flash chip offset.
pub const CMD_ADDR: u32 = SFC_BASE + 0x30C;

/// First of sixteen data words.
pub const CMD_DATABUF: u32 = SFC_BASE + 0x400;

/// Bus-mode configuration, which holds the opcode that bus writes use.
pub const BUS_CONFIG1: u32 = SFC_BASE + 0x200;

pub const BUS_DMA_CTRL: u32 = SFC_BASE + 0x240;

pub const BUS_DMA_MEM_SADDR: u32 = SFC_BASE + 0x244;

pub const BUS_DMA_FLASH_SADDR: u32 = SFC_BASE + 0x248;

pub const BUS_DMA_LEN: u32 = SFC_BASE + 0x24C;

pub const BUS_DMA_AHB_CTRL: u32 = SFC_BASE + 0x250;

pub const RW_WRITE: u32 = 0;

pub const RW_READ: u32 = 1;

/// Standard (1-1-1) SPI.
pub const IF_STD: u32 = 0;

/// Budget of the polls that wait for the chip or for a command. A poll of the
/// write-in-progress bit takes at most this many samples.
pub const WIP_POLL_LIMIT: u32 = 16_384;

/// Budget of the poll that waits for a bus-DMA transfer, which can take much
/// longer than one register-mode command.
pub const DMA_POLL_LIMIT: u32 = 50_000_000;

/// The word for `cmd_config`: the start bit, chip select 1, and the given fields.
/// `rw` counts modulo 2 and `data_cnt` modulo 64; the interface is standard SPI.
pub open spec fn config_word(addr_en: bool, data_en: bool, rw: int, data_cnt: int) -> int {
    1 + 2 + (if addr_en { 8int } else { 0 }) + (if data_en { 128int } else { 0 })
        + 256 * (rw % 2) + 512 * (data_cnt % 64)
}

/// Assembles `cmd_config`. The start bit is always set, and `sel_cs` is 1.
pub fn cmd_config(addr_en: bool, data_en: bool, rw: u32, data_cnt: u32) -> (word: u32)
    ensures
        word == config_word(addr_en, data_en, rw as int, data_cnt as int),
        // Field by field, from bit 0 up: start, sel_cs, addr_en, data_en, rw, data_cnt.
        word % 2 == 1,
        word / 2 % 4 == 1,
        word / 8 % 16 == (if addr_en { 1int } else { 0 }),
        word / 128 % 2 == (if data_en { 1int } else { 0 }),
        word / 256 % 2 == rw % 2,
        word / 512 % 64 == data_cnt % 64,
        word / 0x8000 == 0,
{
    let addr_bit: u32 = if addr_en { 1 } else { 0 };
    let data_bit: u32 = if data_en { 1 } else { 0 };
    assert((1u32 | (1u32 << 1) | (addr_bit << 3) | (data_bit << 7) | ((rw & 0x1) << 8)
        | ((data_cnt & 0x3f) << 9) | ((0u32 & 0x7) << 17)) == 3 + 8 * addr_bit + 128 * data_bit
        + 256 * (rw % 2) + 512 * (data_cnt % 64)) by (bit_vector)
        requires
            addr_bit <= 1,
            data_bit <= 1,
    ;
    1 | (1 << 1) | (addr_bit << 3) | (data_bit << 7) | ((rw & 0x1) << 8) | ((data_cnt & 0x3f) << 9)
        | ((IF_STD & 0x7) << 17)
}

/// Waits until the controller has finished its command, within a budget.
#[derive(Clone, Copy, Debug)]
pub enum WaitCmdDone {
    Start,
    /// One more sample was asked for; `left` may follow.
    Polled { left: u32 },
}

impl Routine for WaitCmdDone {
    type Output = ();

    open spec fn plan(self, reply: u32) -> Plan<()> {
        match self {
            WaitCmdDone::Start => plan::wait_cmd_done(),
            WaitCmdDone::Polled { left } => plan::cmd_done_seen(left as nat, reply),
        }
    }

    fn resume(&mut self, reply: u32) -> (step: Step<()>) {
        match *self {
            WaitCmdDone::Start => {
                *self = WaitCmdDone::Polled { left: WIP_POLL_LIMIT };
                Step::Do(BusOp::Read { addr: CMD_CONFIG })
            },
            WaitCmdDone::Polled { left } => if reply & 1 == 0 || left == 0 {
                Step::Finish(())
            } else {
                *self = WaitCmdDone::Polled { left: left - 1 };
                Step::Do(BusOp::Read { addr: CMD_CONFIG })
            },
        }
    }
}

/// Polls the start bit until the controller has finished its command. The poll is
/// bounded: it ends even if the bit never clears.
pub fn wait_cmd_done() -> (routine: WaitCmdDone)
    ensures
        forall|reply: u32| #[trigger] routine.plan(reply) == plan::wait_cmd_done(),
{
    WaitCmdDone::Start
}

/// The bytes that a command moves besides opcode and address.
#[derive(Clone, Copy, Debug, PartialEq, Eq, Structural)]
pub enum Transfer {
    Nothing,
    /// One byte from the chip, into the data buffer.
    ReadByte,
    /// One byte to the chip.
    WriteByte(u8),
    /// Two bytes to the chip, in this order.
    WriteBytes(u8, u8),
}

/// One SPI command in register mode.
#[derive(Clone, Copy, Debug, PartialEq, Eq, Structural)]
pub struct Command {
    pub opcode: u32,
    /// The chip offset, where the command takes one.
    pub addr: Option<u32>,
    pub transfer: Transfer,
}

impl Command {
    /// What the data buffer must hold before the command starts.
    pub open spec fn data_word(self) -> Option<u32> {
        match self.transfer {
            Transfer::WriteByte(byte) => Some(byte as u32),
            Transfer::WriteBytes(first, second) => Some((first + 256 * second) as u32),
            _ => None,
        }
    }

    /// What `cmd_config` must hold to start the command.
    pub open spec fn config(self) -> u32 {
        let word = match self.transfer {
            Transfer::Nothing => config_word(self.addr is Some, false, RW_WRITE as int, 0),
            Transfer::ReadByte => config_word(self.addr is Some, true, RW_READ as int, 0),
            Transfer::WriteByte(_) => config_word(self.addr is Some, true, RW_WRITE as int, 0),
            Transfer::WriteBytes(_, _) => config_word(self.addr is Some, true, RW_WRITE as int, 1),
        };
        word as u32
    }

    /// The word for the data buffer, where the command writes data.
    pub fn databuf(&self) -> (word: Option<u32>)
        ensures
            word == self.data_word(),
            match self.transfer {
                Transfer::Nothing => word is None,
                Transfer::ReadByte => word is None,
                Transfer::WriteByte(byte) => word is Some && word->0 == byte,
                Transfer::WriteBytes(first, second) => word is Some && word->0 % 256 == first
                    && word->0 / 256 == second,
            },
    {
        match self.transfer {
            Transfer::WriteByte(byte) => Some(byte as u32),
            Transfer::WriteBytes(first, second) => {
                assert(((second as u32) << 8) | (first as u32) == first + 256 * second)
                    by (bit_vector);
                Some(((second as u32) << 8) | (first as u32))
            },
            _ => None,
        }
    }

    /// The word for `cmd_config`.
    pub fn start_word(&self) -> (word: u32)
        ensures
            word == self.config(),
            word == 3 + (if self.addr is Some { 8int } else { 0 }) + match self.transfer {
                Transfer::Nothing => 0int,
                Transfer::ReadByte => 0x180,
                Transfer::WriteByte(_) => 0x80,
                Transfer::WriteBytes(_, _) => 0x280,
            },
    {
        let addr_en: bool = match self.addr {
            Some(_) => true,
            None => false,
        };
        match self.transfer {
            Transfer::Nothing => cmd_config(addr_en, false, RW_WRITE, 0),
            Transfer::ReadByte => cmd_config(addr_en, true, RW_READ, 0),
            Transfer::WriteByte(_) => cmd_config(addr_en, true, RW_WRITE, 0),
            Transfer::WriteBytes(_, _) => cmd_config(addr_en, true, RW_WRITE, 1),
        }
    }

    /// Issues the command and waits until the controller has finished it.
    pub fn issue(self) -> (routine: CommandRun)
        ensures
            forall|reply: u32| #[trigger] routine.plan(reply) == plan::command(self),
    {
        CommandRun { command: self, stage: CommandStage::Start }
    }
}

/// How far a [`CommandRun`] has come: the register write that it asked for last.
#[derive(Clone, Copy, Debug)]
pub enum CommandStage {
    Start,
    Data,
    Opcode,
    Addr,
    Wait(WaitCmdDone),
}

/// Issues one command and waits for it.
#[derive(Clone, Copy, Debug)]
pub struct CommandRun {
    pub command: Command,
    pub stage: CommandStage,
}

impl Routine for CommandRun {
    type Output = ();

    open spec fn plan(self, reply: u32) -> Plan<()> {
        match self.stage {
            CommandStage::Start => plan::command(self.command),
            CommandStage::Data => plan::command_opcode(self.command),
            CommandStage::Opcode => plan::command_addr(self.command),
            CommandStage::Addr => plan::command_start(self.command),
            CommandStage::Wait(wait) => wait.plan(reply),
        }
    }

    fn resume(&mut self, reply: u32) -> (step: Step<()>) {
        match self.stage {
            CommandStage::Start => match self.command.databuf() {
                Some(val) => {
                    self.stage = CommandStage::Data;
                    Step::Do(BusOp::Write { addr: CMD_DATABUF, val })
                },
                None => {
                    self.stage = CommandStage::Opcode;
                    Step::Do(BusOp::Write { addr: CMD_INS, val: self.command.opcode })
                },
            },
            CommandStage::Data => {
                self.stage = CommandStage::Opcode;
                Step::Do(BusOp::Write { addr: CMD_INS, val: self.command.opcode })
            },
            CommandStage::Opcode => match self.command.addr {
                Some(val) => {
                    self.stage = CommandStage::Addr;
                    Step::Do(BusOp::Write { addr: CMD_ADDR, val })
                },
                None => {
                    self.stage = CommandStage::Wait(wait_cmd_done());
                    Step::Do(BusOp::Write { addr: CMD_CONFIG, val: self.command.start_word() })
                },
            },
            CommandStage::Addr => {
                self.stage = CommandStage::Wait(wait_cmd_done());
                Step::Do(BusOp::Write { addr: CMD_CONFIG, val: self.command.start_word() })
            },
            CommandStage::Wait(wait) => {
                let mut wait = wait;
                let step = wait.resume(reply);
                self.stage = CommandStage::Wait(wait);
                step
            },
        }
    }
}

/// Waits until the bus-DMA engine has finished its transfer, within a budget.
#[derive(Clone, Copy, Debug)]
pub enum WaitDmaDone {
    Start,
    /// A sample was asked for; with it, `left` remain.
    Polled { left: u32 },
}

impl Routine for WaitDmaDone {
    type Output = Result<(), Error>;

    open spec fn plan(self, reply: u32) -> Plan<Result<(), Error>> {
        match self {
            WaitDmaDone::Start => plan::wait_dma_done(),
            WaitDmaDone::Polled { left } => plan::dma_done_seen(left as nat, reply),
        }
    }

    fn resume(&mut self, reply: u32) -> (step: Step<Result<(), Error>>) {
        match *self {
            WaitDmaDone::Start => {
                *self = WaitDmaDone::Polled { left: DMA_POLL_LIMIT };
                Step::Do(BusOp::Read { addr: BUS_DMA_CTRL })
            },
            WaitDmaDone::Polled { left } => if reply & 1 == 0 {
                Step::Finish(Ok(()))
            } else if left <= 1 {
                Step::Finish(Err(Error::DmaTimeout))
            } else {
                *self = WaitDmaDone::Polled { left: left - 1 };
                Step::Do(BusOp::Read { addr: BUS_DMA_CTRL })
            },
        }
    }
}

/// Polls the start bit of the bus-DMA engine; an error if it stays set for the
/// whole budget.
pub fn wait_dma_done() -> (routine: WaitDmaDone)
    ensures
        forall|reply: u32| #[trigger] routine.plan(reply) == plan::wait_dma_done(),
{
    WaitDmaDone::Start
}

} // verus!
