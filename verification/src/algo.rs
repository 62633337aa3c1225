//! The flash algorithm: initialise, erase, program, verify, uninitialise.

use vstd::prelude::*;

use crate::bus::{chain, BusOp, Plan, Routine, Step};
use crate::error::Error;
use crate::nor::{
    command_pair, dma_write, flash_software_reset, read_status_register_op, wait_ready,
    write_status_register_op, write_status_registers_sr1_sr2, write_volatile_status_register,
    CommandPair, DmaWrite, ReadStatus, WaitReady, OP_BE_64K, OP_RDSR, OP_RDSR2, OP_RDSR3, OP_SE_4K,
    OP_WREN, OP_WRSR3,
};
use crate::plan;
use crate::sfc::{
    wait_cmd_done, wait_dma_done, Command, WaitCmdDone, WaitDmaDone, BUS_CONFIG1,
    BUS_DMA_AHB_CTRL, BUS_DMA_CTRL, CMD_CONFIG,
};

verus! {

/// The CPU address at which chip offset 0 is mapped.
pub const XIP_BASE: u32 = 0x0020_0000;

/// Size of the mapped flash.
pub const FLASH_SIZE: u32 = 0x0080_0000;

/// Bytes that the host hands over at a time.
pub const PAGE_SIZE: u32 = 0x0001_0000;

/// What an erased byte reads as.
pub const EMPTY_VALUE: u8 = 0xFF;

/// Size of the sectors outside the block area.
pub const SECTOR_SIZE: u32 = 0x1000;

/// Size of the sectors in the block area.
pub const BLOCK_SIZE: u32 = 0x0001_0000;

/// Where the block area starts, as a CPU address.
pub const BLOCK_AREA_START: u32 = 0x0023_0000;

/// Where the block area ends, as a CPU address. From here on sectors are small
/// again, so that no block erase reaches the NV partition.
pub const BLOCK_AREA_END: u32 = 0x005F_0000;

/// Where the NV partition starts, as a CPU address.
pub const NV_START: u32 = 0x005F_C000;

/// The block-protect bits BP0 to BP2 of status register 1. While one is set, the
/// chip silently ignores erase and program.
pub const BLOCK_PROTECT_MASK: u8 = 0x1C;

/// The value for status register 1 where the one found was zero: block protect on.
pub const EXPECTED_SR1: u8 = 0x1C;

/// The value for status register 2 where the one found was zero.
pub const EXPECTED_SR2: u8 = 0x02;

/// The value for status register 3 where the one found was zero.
pub const EXPECTED_SR3: u8 = 0x20;

/// The fields of `bus_config1` that say how the bus writes: two mode fields
/// `[16:18]` and `[19:21]`, the opcode `[22:29]` and the enable bit `[30]`.
pub const BUS_CONFIG1_WRITE_MASK: u32 = 0x7FFF_0000;

/// Standard page program in those fields, enabled.
pub const BUS_CONFIG1_STANDARD_PP: u32 = 0x4080_0000;

/// The chip offset that is mapped at `address`, modulo the size of the address space.
pub open spec fn flash_offset(address: u32) -> u32 {
    if address >= XIP_BASE {
        (address - XIP_BASE) as u32
    } else {
        (address - XIP_BASE + 0x1_0000_0000) as u32
    }
}

/// A block of the block area starts at `address`.
pub open spec fn starts_block(address: u32) -> bool {
    BLOCK_AREA_START <= address < BLOCK_AREA_END && address % BLOCK_SIZE == 0
}

/// The opcode that erases the sector at `address`.
pub open spec fn sector_opcode(address: u32) -> u32 {
    if starts_block(address) {
        OP_BE_64K
    } else {
        OP_SE_4K
    }
}

/// The size of the sector that is erased at `address`.
pub open spec fn sector_size(address: u32) -> u32 {
    if starts_block(address) {
        BLOCK_SIZE
    } else {
        SECTOR_SIZE
    }
}

/// A part of the flash that is divided into sectors of one size, in CPU addresses.
pub struct Area {
    pub start: u32,
    pub end: u32,
    pub sector_size: u32,
}

/// The area that `address` lies in, as the host is told: small sectors, blocks in
/// the block area, small sectors again.
pub open spec fn area(address: u32) -> Area {
    if address < BLOCK_AREA_START {
        Area { start: XIP_BASE, end: BLOCK_AREA_START, sector_size: SECTOR_SIZE }
    } else if address < BLOCK_AREA_END {
        Area { start: BLOCK_AREA_START, end: BLOCK_AREA_END, sector_size: BLOCK_SIZE }
    } else {
        Area {
            start: BLOCK_AREA_END,
            end: (XIP_BASE + FLASH_SIZE) as u32,
            sector_size: SECTOR_SIZE,
        }
    }
}

/// A sector that the host knows of starts at `address`.
pub open spec fn starts_sector(address: u32) -> bool {
    &&& XIP_BASE <= address < XIP_BASE + FLASH_SIZE
    &&& (address - area(address).start) % area(address).sector_size as int == 0
}

/// Picks the erase command for the sector at `address`: 64 KiB for a block of the
/// block area, 4 KiB elsewhere.
pub fn erase_opcode(address: u32) -> (opcode: u32)
    ensures
        opcode == sector_opcode(address),
        0x23_0000 <= address < 0x5F_0000 && address % 0x1_0000 == 0 ==> opcode == 0xD8,
        !(0x23_0000 <= address < 0x5F_0000 && address % 0x1_0000 == 0) ==> opcode == 0x20,
{
    if BLOCK_AREA_START <= address && address < BLOCK_AREA_END && address % BLOCK_SIZE == 0 {
        OP_BE_64K
    } else {
        OP_SE_4K
    }
}

/// `saved` with the write fields replaced by standard page program.
pub open spec fn page_program_config(saved: u32) -> u32 {
    (saved & !BUS_CONFIG1_WRITE_MASK) | BUS_CONFIG1_STANDARD_PP
}

/// The value for `bus_config1` that makes bus writes standard page programs and
/// keeps everything else.
pub fn bus_write_config(saved: u32) -> (config: u32)
    ensures
        config == page_program_config(saved),
        // The mode fields, the opcode and the enable bit.
        (config >> 16) & 0x7 == 0,
        (config >> 19) & 0x7 == 0,
        (config >> 22) & 0xFF == 0x02,
        (config >> 30) & 0x1 == 1,
        // The other bits.
        config % 0x1_0000 == saved % 0x1_0000,
        config >> 31 == saved >> 31,
{
    let config: u32 = (saved & !BUS_CONFIG1_WRITE_MASK) | BUS_CONFIG1_STANDARD_PP;
    assert((config >> 16) & 0x7 == 0 && (config >> 19) & 0x7 == 0 && (config >> 22) & 0xFF == 0x02
        && (config >> 30) & 0x1 == 1 && config % 0x1_0000 == saved % 0x1_0000 && config >> 31
        == saved >> 31) by (bit_vector)
        requires
            config == (saved & !0x7FFF_0000u32) | 0x4080_0000u32,
    ;
    config
}

/// The value to restore a status register to: the one found, or `expected` where
/// that was zero.
pub open spec fn status_to_restore(found: u8, expected: u8) -> u8 {
    if found != 0 {
        found
    } else {
        expected
    }
}

/// Picks the value to restore a status register to.
pub fn restored_status(found: u8, expected: u8) -> (status: u8)
    ensures
        status == status_to_restore(found, expected),
        found != 0 ==> status == found,
        found == 0 ==> status == expected,
{
    if found != 0 {
        found
    } else {
        expected
    }
}

/// What [`Ws63Algo::new`] found and [`Ws63Algo::drop`] restores.
#[derive(Clone, Copy, Debug, PartialEq, Eq, Structural)]
pub struct Ws63Algo {
    pub saved_sr1: u8,
    pub saved_sr2: u8,
    pub saved_sr3: u8,
    pub saved_bus_config1: u32,
    pub saved_bus_dma_ahb_ctrl: u32,
}

/// How far an [`Init`] has come: the routine under way, or the register access
/// that it asked for last, with what was found before.
#[derive(Clone, Copy, Debug)]
pub enum InitStage {
    Sr1(ReadStatus),
    Sr2(u8, ReadStatus),
    Sr3(u8, u8, ReadStatus),
    BusConfig(u8, u8, u8),
    AhbCtrl(u8, u8, u8, u32),
    Configured(Ws63Algo),
    Unprotect(Ws63Algo, CommandPair),
    Confirm(Ws63Algo, ReadStatus),
    GivenUp,
}

impl InitStage {
    /// How many stages are still to come.
    pub open spec fn rank(self) -> nat {
        match self {
            InitStage::Sr1(_) => 8,
            InitStage::Sr2(_, _) => 7,
            InitStage::Sr3(_, _, _) => 6,
            InitStage::BusConfig(_, _, _) => 5,
            InitStage::AhbCtrl(_, _, _, _) => 4,
            InitStage::Configured(_) => 3,
            InitStage::Unprotect(_, _) => 2,
            InitStage::Confirm(_, _) => 1,
            InitStage::GivenUp => 0,
        }
    }
}

/// Takes over the controller and the chip.
#[derive(Clone, Copy, Debug)]
pub struct Init {
    pub stage: InitStage,
}

impl Routine for Init {
    type Output = Result<Ws63Algo, Error>;

    open spec fn plan(self, reply: u32) -> Plan<Result<Ws63Algo, Error>> {
        match self.stage {
            InitStage::Sr1(read) => chain(read.plan(reply), |sr1: u8| plan::new_sr2(sr1)),
            InitStage::Sr2(sr1, read) => chain(
                read.plan(reply),
                |sr2: u8| plan::new_sr3(sr1, sr2),
            ),
            InitStage::Sr3(sr1, sr2, read) => chain(
                read.plan(reply),
                |sr3: u8| plan::new_bus_config(sr1, sr2, sr3),
            ),
            InitStage::BusConfig(sr1, sr2, sr3) => plan::new_ahb_ctrl(sr1, sr2, sr3, reply),
            InitStage::AhbCtrl(sr1, sr2, sr3, bus_config1) => plan::new_configure(
                Ws63Algo {
                    saved_sr1: sr1,
                    saved_sr2: sr2,
                    saved_sr3: sr3,
                    saved_bus_config1: bus_config1,
                    saved_bus_dma_ahb_ctrl: reply,
                },
            ),
            InitStage::Configured(algo) => plan::new_unprotect(algo),
            InitStage::Unprotect(algo, pair) => chain(
                pair.plan(reply),
                |_done: ()| plan::new_confirm(algo),
            ),
            InitStage::Confirm(algo, read) => chain(
                read.plan(reply),
                |sr1: u8| plan::new_outcome(algo, sr1),
            ),
            InitStage::GivenUp => Plan::Return(Err(Error::BlockProtected)),
        }
    }

    fn resume(&mut self, reply: u32) -> (step: Step<Result<Ws63Algo, Error>>) {
        loop
            invariant
                self.plan(reply) == old(self).plan(reply),
            decreases self.stage.rank(),
        {
            match self.stage {
                InitStage::Sr1(read) => {
                    let mut read = read;
                    match read.resume(reply) {
                        Step::Do(op) => {
                            self.stage = InitStage::Sr1(read);
                            return Step::Do(op);
                        },
                        Step::Finish(sr1) => {
                            self.stage = InitStage::Sr2(sr1, read_status_register_op(OP_RDSR2));
                        },
                    }
                },
                InitStage::Sr2(sr1, read) => {
                    let mut read = read;
                    match read.resume(reply) {
                        Step::Do(op) => {
                            self.stage = InitStage::Sr2(sr1, read);
                            return Step::Do(op);
                        },
                        Step::Finish(sr2) => {
                            self.stage =
                            InitStage::Sr3(sr1, sr2, read_status_register_op(OP_RDSR3));
                        },
                    }
                },
                InitStage::Sr3(sr1, sr2, read) => {
                    let mut read = read;
                    match read.resume(reply) {
                        Step::Do(op) => {
                            self.stage = InitStage::Sr3(sr1, sr2, read);
                            return Step::Do(op);
                        },
                        Step::Finish(sr3) => {
                            self.stage = InitStage::BusConfig(sr1, sr2, sr3);
                            return Step::Do(BusOp::Read { addr: BUS_CONFIG1 });
                        },
                    }
                },
                InitStage::BusConfig(sr1, sr2, sr3) => {
                    self.stage = InitStage::AhbCtrl(sr1, sr2, sr3, reply);
                    return Step::Do(BusOp::Read { addr: BUS_DMA_AHB_CTRL });
                },
                InitStage::AhbCtrl(sr1, sr2, sr3, bus_config1) => {
                    self.stage =
                    InitStage::Configured(
                        Ws63Algo {
                            saved_sr1: sr1,
                            saved_sr2: sr2,
                            saved_sr3: sr3,
                            saved_bus_config1: bus_config1,
                            saved_bus_dma_ahb_ctrl: reply,
                        },
                    );
                    return Step::Do(
                        BusOp::Write { addr: BUS_CONFIG1, val: bus_write_config(bus_config1) },
                    );
                },
                InitStage::Configured(algo) => {
                    self.stage = InitStage::Unprotect(algo, write_volatile_status_register(0x00));
                },
                InitStage::Unprotect(algo, pair) => {
                    let mut pair = pair;
                    match pair.resume(reply) {
                        Step::Do(op) => {
                            self.stage = InitStage::Unprotect(algo, pair);
                            return Step::Do(op);
                        },
                        Step::Finish(()) => {
                            self.stage = InitStage::Confirm(algo, read_status_register_op(OP_RDSR));
                        },
                    }
                },
                InitStage::Confirm(algo, read) => {
                    let mut read = read;
                    match read.resume(reply) {
                        Step::Do(op) => {
                            self.stage = InitStage::Confirm(algo, read);
                            return Step::Do(op);
                        },
                        Step::Finish(sr1) => {
                            if sr1 & BLOCK_PROTECT_MASK == 0 {
                                return Step::Finish(Ok(algo));
                            }
                            self.stage = InitStage::GivenUp;
                            return Step::Do(
                                BusOp::Write { addr: BUS_CONFIG1, val: algo.saved_bus_config1 },
                            );
                        },
                    }
                },
                InitStage::GivenUp => {
                    return Step::Finish(Err(Error::BlockProtected));
                },
            }
        }
    }
}

/// Erases one sector. The result is always `Ok`: see [`CommandPair`].
#[derive(Clone, Copy, Debug)]
pub struct EraseSector {
    pub pair: CommandPair,
}

impl Routine for EraseSector {
    type Output = Result<(), Error>;

    open spec fn plan(self, reply: u32) -> Plan<Result<(), Error>> {
        chain(self.pair.plan(reply), |_done: ()| Plan::Return(Ok(())))
    }

    fn resume(&mut self, reply: u32) -> (step: Step<Result<(), Error>>) {
        match self.pair.resume(reply) {
            Step::Do(op) => Step::Do(op),
            Step::Finish(()) => Step::Finish(Ok(())),
        }
    }
}

/// How far an [`Uninit`] has come: the routine under way, or the operation that it
/// asked for last.
#[derive(Clone, Copy, Debug)]
pub enum UninitStage {
    CmdDone(WaitCmdDone),
    DmaDone(WaitDmaDone),
    DmaIdle,
    AhbRestored,
    BusRestored,
    Idle,
    Reset(CommandPair),
    Sr12(CommandPair),
    Sr3(CommandPair),
    ResetAgain(CommandPair),
    CmdDoneAgain(WaitCmdDone),
    IdleAgain,
    Ready(WaitReady),
    Dcache,
    Icache,
}

impl UninitStage {
    /// How many stages are still to come.
    pub open spec fn rank(self) -> nat {
        match self {
            UninitStage::CmdDone(_) => 14,
            UninitStage::DmaDone(_) => 13,
            UninitStage::DmaIdle => 12,
            UninitStage::AhbRestored => 11,
            UninitStage::BusRestored => 10,
            UninitStage::Idle => 9,
            UninitStage::Reset(_) => 8,
            UninitStage::Sr12(_) => 7,
            UninitStage::Sr3(_) => 6,
            UninitStage::ResetAgain(_) => 5,
            UninitStage::CmdDoneAgain(_) => 4,
            UninitStage::IdleAgain => 3,
            UninitStage::Ready(_) => 2,
            UninitStage::Dcache => 1,
            UninitStage::Icache => 0,
        }
    }
}

/// Gives the controller and the chip back as they were found.
#[derive(Clone, Copy, Debug)]
pub struct Uninit {
    pub algo: Ws63Algo,
    pub stage: UninitStage,
}

impl Routine for Uninit {
    type Output = ();

    open spec fn plan(self, reply: u32) -> Plan<()> {
        let algo = self.algo;
        match self.stage {
            UninitStage::CmdDone(wait) => chain(
                wait.plan(reply),
                |_done: ()| plan::drop_dma_done(algo),
            ),
            UninitStage::DmaDone(wait) => chain(
                wait.plan(reply),
                |_done: Result<(), Error>| plan::drop_registers(algo),
            ),
            UninitStage::DmaIdle => plan::drop_ahb_ctrl(algo),
            UninitStage::AhbRestored => plan::drop_bus_config(algo),
            UninitStage::BusRestored => plan::drop_idle(algo),
            UninitStage::Idle => plan::drop_reset(algo),
            UninitStage::Reset(pair) => chain(
                pair.plan(reply),
                |_done: ()| plan::drop_sr1_sr2(algo),
            ),
            UninitStage::Sr12(pair) => chain(pair.plan(reply), |_done: ()| plan::drop_sr3(algo)),
            UninitStage::Sr3(pair) => chain(pair.plan(reply), |_done: ()| plan::drop_reset_again()),
            UninitStage::ResetAgain(pair) => chain(
                pair.plan(reply),
                |_done: ()| plan::drop_cmd_done_again(),
            ),
            UninitStage::CmdDoneAgain(wait) => chain(
                wait.plan(reply),
                |_done: ()| plan::drop_idle_again(),
            ),
            UninitStage::IdleAgain => plan::drop_ready(),
            UninitStage::Ready(wait) => chain(
                wait.plan(reply),
                |_ready: Result<(), Error>| plan::drop_caches(),
            ),
            UninitStage::Dcache => plan::drop_icache(),
            UninitStage::Icache => Plan::Return(()),
        }
    }

    fn resume(&mut self, reply: u32) -> (step: Step<()>) {
        loop
            invariant
                self.plan(reply) == old(self).plan(reply),
            decreases self.stage.rank(),
        {
            match self.stage {
                UninitStage::CmdDone(wait) => {
                    let mut wait = wait;
                    match wait.resume(reply) {
                        Step::Do(op) => {
                            self.stage = UninitStage::CmdDone(wait);
                            return Step::Do(op);
                        },
                        Step::Finish(()) => {
                            self.stage = UninitStage::DmaDone(wait_dma_done());
                        },
                    }
                },
                UninitStage::DmaDone(wait) => {
                    let mut wait = wait;
                    match wait.resume(reply) {
                        Step::Do(op) => {
                            self.stage = UninitStage::DmaDone(wait);
                            return Step::Do(op);
                        },
                        Step::Finish(_) => {
                            self.stage = UninitStage::DmaIdle;
                            return Step::Do(BusOp::Write { addr: BUS_DMA_CTRL, val: 0 });
                        },
                    }
                },
                UninitStage::DmaIdle => {
                    self.stage = UninitStage::AhbRestored;
                    return Step::Do(
                        BusOp::Write {
                            addr: BUS_DMA_AHB_CTRL,
                            val: self.algo.saved_bus_dma_ahb_ctrl,
                        },
                    );
                },
                UninitStage::AhbRestored => {
                    self.stage = UninitStage::BusRestored;
                    return Step::Do(
                        BusOp::Write { addr: BUS_CONFIG1, val: self.algo.saved_bus_config1 },
                    );
                },
                UninitStage::BusRestored => {
                    self.stage = UninitStage::Idle;
                    return Step::Do(BusOp::Write { addr: CMD_CONFIG, val: 0 });
                },
                UninitStage::Idle => {
                    self.stage = UninitStage::Reset(flash_software_reset());
                },
                UninitStage::Reset(pair) => {
                    let mut pair = pair;
                    match pair.resume(reply) {
                        Step::Do(op) => {
                            self.stage = UninitStage::Reset(pair);
                            return Step::Do(op);
                        },
                        Step::Finish(()) => {
                            let sr1: u8 = restored_status(self.algo.saved_sr1, EXPECTED_SR1);
                            let sr2: u8 = restored_status(self.algo.saved_sr2, EXPECTED_SR2);
                            self.stage =
                            UninitStage::Sr12(write_status_registers_sr1_sr2(sr1, sr2));
                        },
                    }
                },
                UninitStage::Sr12(pair) => {
                    let mut pair = pair;
                    match pair.resume(reply) {
                        Step::Do(op) => {
                            self.stage = UninitStage::Sr12(pair);
                            return Step::Do(op);
                        },
                        Step::Finish(()) => {
                            let sr3: u8 = restored_status(self.algo.saved_sr3, EXPECTED_SR3);
                            self.stage = UninitStage::Sr3(write_status_register_op(OP_WRSR3, sr3));
                        },
                    }
                },
                UninitStage::Sr3(pair) => {
                    let mut pair = pair;
                    match pair.resume(reply) {
                        Step::Do(op) => {
                            self.stage = UninitStage::Sr3(pair);
                            return Step::Do(op);
                        },
                        Step::Finish(()) => {
                            self.stage = UninitStage::ResetAgain(flash_software_reset());
                        },
                    }
                },
                UninitStage::ResetAgain(pair) => {
                    let mut pair = pair;
                    match pair.resume(reply) {
                        Step::Do(op) => {
                            self.stage = UninitStage::ResetAgain(pair);
                            return Step::Do(op);
                        },
                        Step::Finish(()) => {
                            self.stage = UninitStage::CmdDoneAgain(wait_cmd_done());
                        },
                    }
                },
                UninitStage::CmdDoneAgain(wait) => {
                    let mut wait = wait;
                    match wait.resume(reply) {
                        Step::Do(op) => {
                            self.stage = UninitStage::CmdDoneAgain(wait);
                            return Step::Do(op);
                        },
                        Step::Finish(()) => {
                            self.stage = UninitStage::IdleAgain;
                            return Step::Do(BusOp::Write { addr: CMD_CONFIG, val: 0 });
                        },
                    }
                },
                UninitStage::IdleAgain => {
                    self.stage = UninitStage::Ready(wait_ready());
                },
                UninitStage::Ready(wait) => {
                    let mut wait = wait;
                    match wait.resume(reply) {
                        Step::Do(op) => {
                            self.stage = UninitStage::Ready(wait);
                            return Step::Do(op);
                        },
                        Step::Finish(_) => {
                            self.stage = UninitStage::Dcache;
                            return Step::Do(BusOp::CleanInvalidateDcache);
                        },
                    }
                },
                UninitStage::Dcache => {
                    self.stage = UninitStage::Icache;
                    return Step::Do(BusOp::InvalidateIcache);
                },
                UninitStage::Icache => {
                    return Step::Finish(());
                },
            }
        }
    }
}

/// Byte `i` of the flash reads as byte `i` of `data`.
pub open spec fn agrees(flash: Seq<u8>, data: Option<&[u8]>, i: int) -> bool {
    data matches Some(bytes) && i < bytes@.len() && flash[i] == bytes@[i]
}

/// Byte `i` is the first of the flash that differs from `data`.
pub open spec fn first_difference(flash: Seq<u8>, data: Option<&[u8]>, i: int) -> bool {
    &&& 0 <= i < flash.len()
    &&& !agrees(flash, data, i)
    &&& forall|j: int| 0 <= j < i ==> agrees(flash, data, j)
}

impl Ws63Algo {
    /// Takes over the controller and the chip: saves the status registers and the
    /// bus configuration, makes bus writes page programs, clears the block-protect
    /// bits without wearing the status flash, and confirms that they read back
    /// clear.
    ///
    /// The controller stays as the boot code configured it otherwise; the command
    /// path operates alongside bus mode. Where the bits do not read back clear, the
    /// bus configuration that was found is written back, and there is an error.
    pub fn new() -> (routine: Init)
        ensures
            forall|reply: u32| #[trigger] routine.plan(reply) == plan::new(),
    {
        Init { stage: InitStage::Sr1(read_status_register_op(OP_RDSR)) }
    }

    /// Erases the sector at CPU address `address`.
    pub fn erase_sector(&self, address: u32) -> (routine: EraseSector)
        ensures
            forall|reply: u32| #[trigger] routine.plan(reply) == plan::erase_sector(address),
    {
        EraseSector {
            pair: command_pair(
                Command::bare(OP_WREN),
                Command::at(erase_opcode(address), address.wrapping_sub(XIP_BASE)),
            ),
        }
    }

    /// Programs the `len` bytes of SRAM at `source` to CPU address `address`.
    pub fn program_page(&self, address: u32, source: u32, len: u32) -> (routine: DmaWrite)
        ensures
            forall|reply: u32| #[trigger]
                routine.plan(reply) == plan::program_page(address, source, len),
    {
        dma_write(address.wrapping_sub(XIP_BASE), source, len)
    }

    /// Compares the bytes that the flash reads as from CPU address `address` on with
    /// the bytes that it should hold. The error is the first address that differs; a
    /// byte for which there is no data differs.
    pub fn verify(&self, address: u32, flash: &[u8], data: Option<&[u8]>) -> (result: Result<
        (),
        u32,
    >)
        requires
            flash@.len() <= u32::MAX,
        ensures
            result is Ok <==> forall|i: int| 0 <= i < flash@.len() ==> agrees(flash@, data, i),
            result matches Err(at) ==> exists|i: int| #[trigger]
                first_difference(flash@, data, i) && at == (address + i) % 0x1_0000_0000,
            // The same on the bytes themselves: success means that there is data for all
            // of the flash and that it is equal; an error names the first byte that is
            // not, and the bytes before it are.
            result is Ok <==> flash@.len() == 0 || (data matches Some(bytes) && flash@.len()
                <= bytes@.len() && flash@ =~= bytes@.subrange(0, flash@.len() as int)),
            result is Err && data is None ==> result->Err_0 == address,
            result is Err ==> (data matches Some(bytes) ==> exists|i: int|
                {
                    &&& 0 <= i < flash@.len() && i <= bytes@.len()
                    &&& #[trigger] flash@.subrange(0, i) =~= bytes@.subrange(0, i)
                    &&& i == bytes@.len() || flash@[i] != bytes@[i]
                    &&& result->Err_0 == (address + i) % 0x1_0000_0000
                }),
    {
        let mut i: usize = 0;
        while i < flash.len()
            invariant
                i <= flash@.len() <= u32::MAX,
                forall|j: int| 0 <= j < i ==> agrees(flash@, data, j),
            decreases flash@.len() - i,
        {
            let same: bool = match data {
                Some(bytes) => i < bytes.len() && flash[i] == bytes[i],
                None => false,
            };
            if !same {
                assert(first_difference(flash@, data, i as int));
                proof {
                    if i > 0 {
                        assert(agrees(flash@, data, i - 1));
                    }
                    if let Some(bytes) = data {
                        assert forall|j: int| 0 <= j < i implies flash@[j] == bytes@[j] by {
                            assert(agrees(flash@, data, j));
                        }
                        assert(flash@.subrange(0, i as int) =~= bytes@.subrange(0, i as int));
                        if i < bytes@.len() && flash@.len() <= bytes@.len() {
                            let start = bytes@.subrange(0, flash@.len() as int);
                            assert(start[i as int] == bytes@[i as int]);
                        }
                    }
                }
                return Err(address.wrapping_add(i as u32));
            }
            i = i + 1;
        }
        proof {
            if flash@.len() > 0 {
                assert(agrees(flash@, data, flash@.len() - 1));
                let bytes = data->0@.subrange(0, flash@.len() as int);
                assert forall|j: int| 0 <= j < flash@.len() implies flash@[j] == bytes[j] by {
                    assert(agrees(flash@, data, j));
                }
                assert(flash@ =~= bytes);
            }
        }
        Ok(())
    }

    /// Gives the controller and the chip back: waits for what is under way, stops
    /// the bus-DMA engine, restores the bus configuration, resets the chip,
    /// restores its status registers, resets it once more, idles the command path
    /// and brings the caches in line with the flash.
    pub fn drop(&self) -> (routine: Uninit)
        ensures
            forall|reply: u32| #[trigger] routine.plan(reply) == plan::drop(*self),
    {
        Uninit { algo: *self, stage: UninitStage::CmdDone(wait_cmd_done()) }
    }
}

} // verus!
