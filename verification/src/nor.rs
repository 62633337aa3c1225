//! Operations on the NOR chip behind the controller: status registers, erase and
//! program sequences, software reset.

use vstd::prelude::*;

use crate::bus::{chain, BusOp, Plan, Routine, Step};
use crate::error::Error;
use crate::plan;
use crate::sfc::{
    wait_dma_done, Command, CommandRun, Transfer, WaitDmaDone, BUS_DMA_AHB_CTRL, BUS_DMA_CTRL,
    BUS_DMA_FLASH_SADDR, BUS_DMA_LEN, BUS_DMA_MEM_SADDR, CMD_DATABUF, WIP_POLL_LIMIT,
};

verus! {

/// Write enable: sets the latch that erase, program and non-volatile status
/// writes need.
pub const OP_WREN: u32 = 0x06;

/// Write enable for the volatile status register: the status write that follows
/// it leaves the non-volatile bits alone.
pub const OP_WRVSR: u32 = 0x50;

/// Read status register 1.
pub const OP_RDSR: u32 = 0x05;

/// Read status register 2.
pub const OP_RDSR2: u32 = 0x35;

/// Read status register 3.
pub const OP_RDSR3: u32 = 0x15;

/// Write status register 1, or 1 and 2 together.
pub const OP_WRSR: u32 = 0x01;

/// Write status register 3.
pub const OP_WRSR3: u32 = 0x11;

/// Erase a 4 KiB sector.
pub const OP_SE_4K: u32 = 0x20;

/// Erase a 64 KiB block.
pub const OP_BE_64K: u32 = 0xD8;

/// Program a page.
pub const OP_PP: u32 = 0x02;

/// Reset enable; the reset itself must be the next command.
pub const OP_RSTEN: u32 = 0x66;

/// Reset the chip.
pub const OP_RST: u32 = 0x99;

/// Microseconds between two samples of the write-in-progress bit. Without the
/// pause the poll of a 64 KiB erase is over before the chip is.
pub const WIP_SAMPLE_PAUSE_US: u32 = 100;

/// Enables INCR4, INCR8 and INCR16 bursts of the bus-DMA engine.
pub const BUS_DMA_AHB_BURSTS: u32 = 0x7;

/// Starts a bus-DMA write on chip select 1.
pub const BUS_DMA_CTRL_START_WRITE_CS1: u32 = 0x11;

impl Command {
    /// A command that is an opcode and nothing else.
    #[verifier::allow_in_spec]
    pub fn bare(opcode: u32) -> (command: Command)
        returns
            (Command { opcode, addr: None, transfer: Transfer::Nothing }),
    {
        Command { opcode, addr: None, transfer: Transfer::Nothing }
    }

    /// A command on the part of the chip at offset `addr`.
    #[verifier::allow_in_spec]
    pub fn at(opcode: u32, addr: u32) -> (command: Command)
        returns
            (Command { opcode, addr: Some(addr), transfer: Transfer::Nothing }),
    {
        Command { opcode, addr: Some(addr), transfer: Transfer::Nothing }
    }

    /// A command with a data transfer and no address.
    #[verifier::allow_in_spec]
    pub fn with(opcode: u32, transfer: Transfer) -> (command: Command)
        returns
            (Command { opcode, addr: None, transfer }),
    {
        Command { opcode, addr: None, transfer }
    }
}

/// Sets the write-enable latch. Required before every erase and program.
pub fn write_enable() -> (routine: CommandRun)
    ensures
        forall|reply: u32| #[trigger] routine.plan(reply) == plan::write_enable(),
{
    Command::bare(OP_WREN).issue()
}

/// Reads one status register.
#[derive(Clone, Copy, Debug)]
pub enum ReadStatus {
    Issue(CommandRun),
    Data,
}

impl Routine for ReadStatus {
    type Output = u8;

    open spec fn plan(self, reply: u32) -> Plan<u8> {
        match self {
            ReadStatus::Issue(run) => chain(run.plan(reply), |_done: ()| plan::status_byte()),
            ReadStatus::Data => Plan::Return((reply & 0xFF) as u8),
        }
    }

    fn resume(&mut self, reply: u32) -> (step: Step<u8>) {
        match *self {
            ReadStatus::Issue(run) => {
                let mut run = run;
                match run.resume(reply) {
                    Step::Do(op) => {
                        *self = ReadStatus::Issue(run);
                        Step::Do(op)
                    },
                    Step::Finish(()) => {
                        *self = ReadStatus::Data;
                        Step::Do(BusOp::Read { addr: CMD_DATABUF })
                    },
                }
            },
            ReadStatus::Data => Step::Finish((reply & 0xFF) as u8),
        }
    }
}

/// Reads the status register that belongs to the given opcode.
pub fn read_status_register_op(rdsr_op: u32) -> (routine: ReadStatus)
    ensures
        forall|reply: u32| #[trigger]
            routine.plan(reply) == plan::read_status_register_op(rdsr_op),
{
    ReadStatus::Issue(Command::with(rdsr_op, Transfer::ReadByte).issue())
}

/// How far the sample that a [`WaitReady`] takes has come.
#[derive(Clone, Copy, Debug)]
pub enum SampleStage {
    Issue(CommandRun),
    Data,
    Pause,
}

/// Samples the write-in-progress bit until it is clear, within a budget.
#[derive(Clone, Copy, Debug)]
pub struct WaitReady {
    /// The samples left, counting the one under way.
    pub left: u32,
    pub stage: SampleStage,
}

impl Routine for WaitReady {
    type Output = Result<(), Error>;

    open spec fn plan(self, reply: u32) -> Plan<Result<(), Error>> {
        match self.stage {
            SampleStage::Issue(run) => chain(
                run.plan(reply),
                |_done: ()| plan::wip_data(self.left as nat),
            ),
            SampleStage::Data => plan::wip_seen(self.left as nat, reply),
            SampleStage::Pause => plan::wip_poll(self.left as nat),
        }
    }

    fn resume(&mut self, reply: u32) -> (step: Step<Result<(), Error>>) {
        match self.stage {
            SampleStage::Issue(run) => {
                let mut run = run;
                match run.resume(reply) {
                    Step::Do(op) => {
                        self.stage = SampleStage::Issue(run);
                        Step::Do(op)
                    },
                    Step::Finish(()) => {
                        self.stage = SampleStage::Data;
                        Step::Do(BusOp::Read { addr: CMD_DATABUF })
                    },
                }
            },
            SampleStage::Data => if reply & 1 == 0 {
                Step::Finish(Ok(()))
            } else if self.left <= 1 {
                Step::Finish(Err(Error::WipTimeout))
            } else {
                self.left = self.left - 1;
                self.stage = SampleStage::Pause;
                Step::Do(BusOp::Delay { micros: WIP_SAMPLE_PAUSE_US })
            },
            SampleStage::Pause => {
                let mut run = Command::with(OP_RDSR, Transfer::ReadByte).issue();
                match run.resume(0) {
                    Step::Do(op) => {
                        self.stage = SampleStage::Issue(run);
                        Step::Do(op)
                    },
                    Step::Finish(()) => {
                        self.stage = SampleStage::Data;
                        Step::Do(BusOp::Read { addr: CMD_DATABUF })
                    },
                }
            },
        }
    }
}

/// Waits until the chip reports no write in progress; an error if it still does
/// at the end of the budget.
pub fn wait_ready() -> (routine: WaitReady)
    ensures
        forall|reply: u32| #[trigger] routine.plan(reply) == plan::wait_ready(),
{
    WaitReady {
        left: WIP_POLL_LIMIT,
        stage: SampleStage::Issue(Command::with(OP_RDSR, Transfer::ReadByte).issue()),
    }
}

/// How far a [`CommandPair`] has come.
#[derive(Clone, Copy, Debug)]
pub enum PairStage {
    First(CommandRun),
    Second(CommandRun),
    Ready(WaitReady),
}

impl PairStage {
    /// How many stages are still to come.
    pub open spec fn rank(self) -> nat {
        match self {
            PairStage::First(_) => 2,
            PairStage::Second(_) => 1,
            PairStage::Ready(_) => 0,
        }
    }
}

/// Two commands in a row, the first of which enables the second, and then a wait
/// for the chip whose outcome does not matter.
///
/// The command path can stop answering status reads after an erase. The chip has
/// accepted the command by then, so the poll is bounded and the host goes on; a
/// later readback or verify catches a command that really failed.
#[derive(Clone, Copy, Debug)]
pub struct CommandPair {
    pub second: Command,
    pub stage: PairStage,
}

impl Routine for CommandPair {
    type Output = ();

    open spec fn plan(self, reply: u32) -> Plan<()> {
        match self.stage {
            PairStage::First(run) => chain(
                run.plan(reply),
                |_done: ()| plan::command_then_ready(self.second),
            ),
            PairStage::Second(run) => chain(
                run.plan(reply),
                |_done: ()| plan::wait_ready_best_effort(),
            ),
            PairStage::Ready(wait) => chain(
                wait.plan(reply),
                |_ready: Result<(), Error>| Plan::Return(()),
            ),
        }
    }

    fn resume(&mut self, reply: u32) -> (step: Step<()>) {
        loop
            invariant
                self.plan(reply) == old(self).plan(reply),
            decreases self.stage.rank(),
        {
            match self.stage {
                PairStage::First(run) => {
                    let mut run = run;
                    match run.resume(reply) {
                        Step::Do(op) => {
                            self.stage = PairStage::First(run);
                            return Step::Do(op);
                        },
                        Step::Finish(()) => {
                            self.stage = PairStage::Second(self.second.issue());
                        },
                    }
                },
                PairStage::Second(run) => {
                    let mut run = run;
                    match run.resume(reply) {
                        Step::Do(op) => {
                            self.stage = PairStage::Second(run);
                            return Step::Do(op);
                        },
                        Step::Finish(()) => {
                            self.stage = PairStage::Ready(wait_ready());
                        },
                    }
                },
                PairStage::Ready(wait) => {
                    let mut wait = wait;
                    match wait.resume(reply) {
                        Step::Do(op) => {
                            self.stage = PairStage::Ready(wait);
                            return Step::Do(op);
                        },
                        Step::Finish(_) => {
                            return Step::Finish(());
                        },
                    }
                },
            }
        }
    }
}

/// Issues `first` and `second`, then waits for the chip.
pub fn command_pair(first: Command, second: Command) -> (routine: CommandPair)
    ensures
        forall|reply: u32| #[trigger] routine.plan(reply) == plan::command_pair(first, second),
{
    CommandPair { second, stage: PairStage::First(first.issue()) }
}

/// Resets the chip: reset enable and, directly after it, reset. This returns the
/// chip to its power-on state.
pub fn flash_software_reset() -> (routine: CommandPair)
    ensures
        forall|reply: u32| #[trigger] routine.plan(reply) == plan::flash_software_reset(),
{
    command_pair(Command::bare(OP_RSTEN), Command::bare(OP_RST))
}

/// Writes one status register with the given opcode, non-volatile bits included.
pub fn write_status_register_op(wrsr_op: u32, val: u8) -> (routine: CommandPair)
    ensures
        forall|reply: u32| #[trigger]
            routine.plan(reply) == plan::write_status_register_op(wrsr_op, val),
{
    command_pair(Command::bare(OP_WREN), Command::with(wrsr_op, Transfer::WriteByte(val)))
}

/// Writes status registers 1 and 2 together, non-volatile bits included. Some
/// chips take only this two-byte form.
pub fn write_status_registers_sr1_sr2(sr1: u8, sr2: u8) -> (routine: CommandPair)
    ensures
        forall|reply: u32| #[trigger]
            routine.plan(reply) == plan::write_status_registers_sr1_sr2(sr1, sr2),
{
    command_pair(Command::bare(OP_WREN), Command::with(OP_WRSR, Transfer::WriteBytes(sr1, sr2)))
}

/// Writes the volatile bits of status register 1 and no others, which costs the
/// status flash no wear.
pub fn write_volatile_status_register(val: u8) -> (routine: CommandPair)
    ensures
        forall|reply: u32| #[trigger]
            routine.plan(reply) == plan::write_volatile_status_register(val),
{
    command_pair(Command::bare(OP_WRVSR), Command::with(OP_WRSR, Transfer::WriteByte(val)))
}

/// How far a [`DmaWrite`] has come: the routine under way, or the register write
/// that it asked for last.
#[derive(Clone, Copy, Debug)]
pub enum DmaStage {
    Start,
    Enable(CommandRun),
    FlashAddr,
    MemAddr,
    Len,
    Bursts,
    Wait(WaitDmaDone),
}

/// Programs bytes of SRAM through the bus-DMA engine.
#[derive(Clone, Copy, Debug)]
pub struct DmaWrite {
    pub flash_offset: u32,
    /// Where the bytes start in SRAM.
    pub source: u32,
    pub len: u32,
    pub stage: DmaStage,
}

impl Routine for DmaWrite {
    type Output = Result<(), Error>;

    open spec fn plan(self, reply: u32) -> Plan<Result<(), Error>> {
        let (offset, source, len) = (self.flash_offset, self.source, self.len);
        match self.stage {
            DmaStage::Start => plan::dma_write(offset, source, len),
            DmaStage::Enable(run) => chain(
                run.plan(reply),
                |_done: ()| plan::dma_transfer(offset, source, len),
            ),
            DmaStage::FlashAddr => plan::dma_source(source, len),
            DmaStage::MemAddr => plan::dma_len(len),
            DmaStage::Len => plan::dma_bursts(),
            DmaStage::Bursts => plan::dma_start(),
            DmaStage::Wait(wait) => wait.plan(reply),
        }
    }

    fn resume(&mut self, reply: u32) -> (step: Step<Result<(), Error>>) {
        match self.stage {
            DmaStage::Start => if self.len == 0 {
                Step::Finish(Ok(()))
            } else {
                let mut run = write_enable();
                match run.resume(reply) {
                    Step::Do(op) => {
                        self.stage = DmaStage::Enable(run);
                        Step::Do(op)
                    },
                    Step::Finish(()) => {
                        self.stage = DmaStage::FlashAddr;
                        Step::Do(BusOp::Write { addr: BUS_DMA_FLASH_SADDR, val: self.flash_offset })
                    },
                }
            },
            DmaStage::Enable(run) => {
                let mut run = run;
                match run.resume(reply) {
                    Step::Do(op) => {
                        self.stage = DmaStage::Enable(run);
                        Step::Do(op)
                    },
                    Step::Finish(()) => {
                        self.stage = DmaStage::FlashAddr;
                        Step::Do(BusOp::Write { addr: BUS_DMA_FLASH_SADDR, val: self.flash_offset })
                    },
                }
            },
            DmaStage::FlashAddr => {
                self.stage = DmaStage::MemAddr;
                Step::Do(BusOp::Write { addr: BUS_DMA_MEM_SADDR, val: self.source })
            },
            DmaStage::MemAddr => {
                self.stage = DmaStage::Len;
                Step::Do(BusOp::Write { addr: BUS_DMA_LEN, val: self.len.wrapping_sub(1) })
            },
            DmaStage::Len => {
                self.stage = DmaStage::Bursts;
                Step::Do(BusOp::Write { addr: BUS_DMA_AHB_CTRL, val: BUS_DMA_AHB_BURSTS })
            },
            DmaStage::Bursts => {
                self.stage = DmaStage::Wait(wait_dma_done());
                Step::Do(BusOp::Write { addr: BUS_DMA_CTRL, val: BUS_DMA_CTRL_START_WRITE_CS1 })
            },
            DmaStage::Wait(wait) => {
                let mut wait = wait;
                let step = wait.resume(reply);
                self.stage = DmaStage::Wait(wait);
                step
            },
        }
    }
}

/// Programs the `len` bytes of SRAM at `source` to the chip at `flash_offset`, in
/// one transfer of the bus-DMA engine. Nothing happens where `len` is zero.
pub fn dma_write(flash_offset: u32, source: u32, len: u32) -> (routine: DmaWrite)
    ensures
        forall|reply: u32| #[trigger]
            routine.plan(reply) == plan::dma_write(flash_offset, source, len),
{
    DmaWrite { flash_offset, source, len, stage: DmaStage::Start }
}

} // verus!
