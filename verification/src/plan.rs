//! What each flash operation does on the bus, step by step.

use vstd::prelude::*;

use crate::algo::{
    flash_offset, page_program_config, sector_opcode, status_to_restore, Ws63Algo,
    BLOCK_PROTECT_MASK, EXPECTED_SR1, EXPECTED_SR2, EXPECTED_SR3,
};
use crate::bus::{chain, BusOp, Plan};
use crate::error::Error;
use crate::nor::{
    BUS_DMA_AHB_BURSTS, BUS_DMA_CTRL_START_WRITE_CS1, OP_RDSR, OP_RDSR2, OP_RDSR3, OP_RST,
    OP_RSTEN, OP_WREN, OP_WRSR, OP_WRSR3, OP_WRVSR, WIP_SAMPLE_PAUSE_US,
};
use crate::sfc::{
    Command, Transfer, BUS_CONFIG1, BUS_DMA_AHB_CTRL, BUS_DMA_CTRL, BUS_DMA_FLASH_SADDR,
    BUS_DMA_LEN, BUS_DMA_MEM_SADDR, CMD_ADDR, CMD_CONFIG, CMD_DATABUF, CMD_INS, DMA_POLL_LIMIT,
    WIP_POLL_LIMIT,
};

verus! {

/// Writes `val` to the register at `addr`, then `rest`.
pub open spec fn write<R>(addr: u32, val: u32, rest: Plan<R>) -> Plan<R> {
    Plan::Do(BusOp::Write { addr, val }, |_reply: u32| rest)
}

/// Reads the start bit until it is clear, at most `left` times more after the first.
pub open spec fn cmd_done_poll(left: nat) -> Plan<()>
    decreases left, 1int,
{
    Plan::Do(BusOp::Read { addr: CMD_CONFIG }, |reply: u32| cmd_done_seen(left, reply))
}

/// Goes on with the poll of the start bit once `cmd_config` was read as `reply`.
pub open spec fn cmd_done_seen(left: nat, reply: u32) -> Plan<()>
    decreases left, 0int,
{
    if reply & 1 == 0 || left == 0 {
        Plan::Return(())
    } else {
        cmd_done_poll((left - 1) as nat)
    }
}

/// Reads `cmd_config` until its start bit is clear, but no more than
/// `WIP_POLL_LIMIT + 1` times.
pub open spec fn wait_cmd_done() -> Plan<()> {
    cmd_done_poll(WIP_POLL_LIMIT as nat)
}

/// Fills the data buffer where `command` writes data, then the opcode and the
/// address, starts the command and waits for it.
pub open spec fn command(command: Command) -> Plan<()> {
    match command.data_word() {
        Some(val) => write(CMD_DATABUF, val, command_opcode(command)),
        None => command_opcode(command),
    }
}

/// The part of `command` from the write of the opcode on.
pub open spec fn command_opcode(command: Command) -> Plan<()> {
    write(CMD_INS, command.opcode, command_addr(command))
}

/// The part of `command` from the write of the address on.
pub open spec fn command_addr(command: Command) -> Plan<()> {
    match command.addr {
        Some(val) => write(CMD_ADDR, val, command_start(command)),
        None => command_start(command),
    }
}

/// The part of `command` from the write that starts it on.
pub open spec fn command_start(command: Command) -> Plan<()> {
    write(CMD_CONFIG, command.config(), wait_cmd_done())
}

/// Reads the start bit of the bus-DMA engine until it is clear, `left` times at
/// most, but at least once.
pub open spec fn dma_done_poll(left: nat) -> Plan<Result<(), Error>>
    decreases left, 1int,
{
    Plan::Do(BusOp::Read { addr: BUS_DMA_CTRL }, |reply: u32| dma_done_seen(left, reply))
}

/// Goes on with the poll of the bus-DMA engine once its control register was read
/// as `reply`, with `left` samples counting that one.
pub open spec fn dma_done_seen(left: nat, reply: u32) -> Plan<Result<(), Error>>
    decreases left, 0int,
{
    if reply & 1 == 0 {
        Plan::Return(Ok(()))
    } else if left <= 1 {
        Plan::Return(Err(Error::DmaTimeout))
    } else {
        dma_done_poll((left - 1) as nat)
    }
}

/// Reads the control register of the bus-DMA engine until its start bit is clear;
/// an error if that does not happen in `DMA_POLL_LIMIT` samples.
pub open spec fn wait_dma_done() -> Plan<Result<(), Error>> {
    dma_done_poll(DMA_POLL_LIMIT as nat)
}

/// Sets the write-enable latch.
pub open spec fn write_enable() -> Plan<()> {
    command(Command::bare(OP_WREN))
}

/// Reads the byte that a status read left in the data buffer.
pub open spec fn status_byte() -> Plan<u8> {
    Plan::Do(BusOp::Read { addr: CMD_DATABUF }, |reply: u32| Plan::Return((reply & 0xFF) as u8))
}

/// Reads the status register that belongs to `rdsr_op`.
pub open spec fn read_status_register_op(rdsr_op: u32) -> Plan<u8> {
    chain(
        command(Command::with(rdsr_op, Transfer::ReadByte)),
        |_done: ()| status_byte(),
    )
}

/// Samples the write-in-progress bit until it is clear, `left` times at most, but
/// at least once.
pub open spec fn wip_poll(left: nat) -> Plan<Result<(), Error>>
    decreases left, 2int,
{
    chain(command(Command::with(OP_RDSR, Transfer::ReadByte)), |_done: ()| wip_data(left))
}

/// The part of a sample that reads the status byte, and what follows it.
pub open spec fn wip_data(left: nat) -> Plan<Result<(), Error>>
    decreases left, 1int,
{
    Plan::Do(BusOp::Read { addr: CMD_DATABUF }, |reply: u32| wip_seen(left, reply))
}

/// What follows a sample that read `reply`, with `left` samples counting that one.
pub open spec fn wip_seen(left: nat, reply: u32) -> Plan<Result<(), Error>>
    decreases left, 0int,
{
    if reply & 1 == 0 {
        Plan::Return(Ok(()))
    } else if left <= 1 {
        Plan::Return(Err(Error::WipTimeout))
    } else {
        Plan::Do(
            BusOp::Delay { micros: WIP_SAMPLE_PAUSE_US },
            |_reply: u32| wip_poll((left - 1) as nat),
        )
    }
}

/// Samples the write-in-progress bit until it is clear, with a pause between two
/// samples; an error if that does not happen in `WIP_POLL_LIMIT` samples.
pub open spec fn wait_ready() -> Plan<Result<(), Error>> {
    wip_poll(WIP_POLL_LIMIT as nat)
}

/// Waits for the chip, and goes on whether or not it became ready.
pub open spec fn wait_ready_best_effort() -> Plan<()> {
    chain(wait_ready(), |_ready: Result<(), Error>| Plan::Return(()))
}

/// Issues `second`, then waits for the chip.
pub open spec fn command_then_ready(second: Command) -> Plan<()> {
    chain(command(second), |_done: ()| wait_ready_best_effort())
}

/// Issues `first` and directly after it `second`, then waits for the chip.
pub open spec fn command_pair(first: Command, second: Command) -> Plan<()> {
    chain(command(first), |_done: ()| command_then_ready(second))
}

/// Resets the chip.
pub open spec fn flash_software_reset() -> Plan<()> {
    command_pair(Command::bare(OP_RSTEN), Command::bare(OP_RST))
}

/// Writes a status register, non-volatile bits included.
pub open spec fn write_status_register_op(wrsr_op: u32, val: u8) -> Plan<()> {
    command_pair(Command::bare(OP_WREN), Command::with(wrsr_op, Transfer::WriteByte(val)))
}

/// Writes status registers 1 and 2 together, non-volatile bits included.
pub open spec fn write_status_registers_sr1_sr2(sr1: u8, sr2: u8) -> Plan<()> {
    command_pair(Command::bare(OP_WREN), Command::with(OP_WRSR, Transfer::WriteBytes(sr1, sr2)))
}

/// Writes the volatile bits of status register 1.
pub open spec fn write_volatile_status_register(val: u8) -> Plan<()> {
    command_pair(Command::bare(OP_WRVSR), Command::with(OP_WRSR, Transfer::WriteByte(val)))
}

/// Programs `len` bytes of SRAM at `source` to the chip at `offset`.
pub open spec fn dma_write(offset: u32, source: u32, len: u32) -> Plan<Result<(), Error>> {
    if len == 0 {
        Plan::Return(Ok(()))
    } else {
        chain(write_enable(), |_done: ()| dma_transfer(offset, source, len))
    }
}

/// Sets up the bus-DMA engine, starts it and waits for it.
pub open spec fn dma_transfer(offset: u32, source: u32, len: u32) -> Plan<Result<(), Error>> {
    write(BUS_DMA_FLASH_SADDR, offset, dma_source(source, len))
}

/// The part of a transfer from the write of the source address on.
pub open spec fn dma_source(source: u32, len: u32) -> Plan<Result<(), Error>> {
    write(BUS_DMA_MEM_SADDR, source, dma_len(len))
}

/// The part of a transfer from the write of the length on. The register holds the
/// length less one.
pub open spec fn dma_len(len: u32) -> Plan<Result<(), Error>> {
    write(BUS_DMA_LEN, len.wrapping_sub(1), dma_bursts())
}

/// The part of a transfer from the write of the burst modes on.
pub open spec fn dma_bursts() -> Plan<Result<(), Error>> {
    write(BUS_DMA_AHB_CTRL, BUS_DMA_AHB_BURSTS, dma_start())
}

/// The part of a transfer from the write that starts it on.
pub open spec fn dma_start() -> Plan<Result<(), Error>> {
    write(BUS_DMA_CTRL, BUS_DMA_CTRL_START_WRITE_CS1, wait_dma_done())
}

/// Takes over the controller and the chip: saves the three status registers and
/// the two bus registers, and goes on with [`new_configure`].
pub open spec fn new() -> Plan<Result<Ws63Algo, Error>> {
    chain(read_status_register_op(OP_RDSR), |sr1: u8| new_sr2(sr1))
}

/// The part of [`new`] from the read of status register 2 on.
pub open spec fn new_sr2(sr1: u8) -> Plan<Result<Ws63Algo, Error>> {
    chain(read_status_register_op(OP_RDSR2), |sr2: u8| new_sr3(sr1, sr2))
}

/// The part of [`new`] from the read of status register 3 on.
pub open spec fn new_sr3(sr1: u8, sr2: u8) -> Plan<Result<Ws63Algo, Error>> {
    chain(read_status_register_op(OP_RDSR3), |sr3: u8| new_bus_config(sr1, sr2, sr3))
}

/// The part of [`new`] from the read of `bus_config1` on.
pub open spec fn new_bus_config(sr1: u8, sr2: u8, sr3: u8) -> Plan<Result<Ws63Algo, Error>> {
    Plan::Do(BusOp::Read { addr: BUS_CONFIG1 }, |reply: u32| new_ahb_ctrl(sr1, sr2, sr3, reply))
}

/// The part of [`new`] from the read of the burst modes on.
pub open spec fn new_ahb_ctrl(sr1: u8, sr2: u8, sr3: u8, bus_config1: u32) -> Plan<
    Result<Ws63Algo, Error>,
> {
    Plan::Do(
        BusOp::Read { addr: BUS_DMA_AHB_CTRL },
        |reply: u32|
            new_configure(
                Ws63Algo {
                    saved_sr1: sr1,
                    saved_sr2: sr2,
                    saved_sr3: sr3,
                    saved_bus_config1: bus_config1,
                    saved_bus_dma_ahb_ctrl: reply,
                },
            ),
    )
}

/// Makes bus writes standard page programs, then [`new_unprotect`].
pub open spec fn new_configure(algo: Ws63Algo) -> Plan<Result<Ws63Algo, Error>> {
    write(BUS_CONFIG1, page_program_config(algo.saved_bus_config1), new_unprotect(algo))
}

/// Clears the volatile block-protect bits, then [`new_confirm`].
pub open spec fn new_unprotect(algo: Ws63Algo) -> Plan<Result<Ws63Algo, Error>> {
    chain(write_volatile_status_register(0x00), |_done: ()| new_confirm(algo))
}

/// Reads status register 1 back, then [`new_outcome`].
pub open spec fn new_confirm(algo: Ws63Algo) -> Plan<Result<Ws63Algo, Error>> {
    chain(read_status_register_op(OP_RDSR), |sr1: u8| new_outcome(algo, sr1))
}

/// Success exactly if no block-protect bit is set in `sr1`. Otherwise `bus_config1`
/// gets back what was found in it, and there is an error.
pub open spec fn new_outcome(algo: Ws63Algo, sr1: u8) -> Plan<Result<Ws63Algo, Error>> {
    if sr1 & BLOCK_PROTECT_MASK == 0 {
        Plan::Return(Ok(algo))
    } else {
        write(BUS_CONFIG1, algo.saved_bus_config1, Plan::Return(Err(Error::BlockProtected)))
    }
}

/// Erases the sector at CPU address `address`, which always counts as done.
pub open spec fn erase_sector(address: u32) -> Plan<Result<(), Error>> {
    chain(
        command_pair(
            Command::bare(OP_WREN),
            Command::at(sector_opcode(address), flash_offset(address)),
        ),
        |_done: ()| Plan::Return(Ok(())),
    )
}

/// Programs `len` bytes of SRAM at `source` to CPU address `address`.
pub open spec fn program_page(address: u32, source: u32, len: u32) -> Plan<Result<(), Error>> {
    dma_write(flash_offset(address), source, len)
}

/// Gives the controller and the chip back. First waits for a command under way.
pub open spec fn drop(algo: Ws63Algo) -> Plan<()> {
    chain(wait_cmd_done(), |_done: ()| drop_dma_done(algo))
}

/// Waits for a transfer under way, then [`drop_registers`].
pub open spec fn drop_dma_done(algo: Ws63Algo) -> Plan<()> {
    chain(wait_dma_done(), |_done: Result<(), Error>| drop_registers(algo))
}

/// Stops the bus-DMA engine, then [`drop_ahb_ctrl`].
pub open spec fn drop_registers(algo: Ws63Algo) -> Plan<()> {
    write(BUS_DMA_CTRL, 0, drop_ahb_ctrl(algo))
}

/// Restores the burst modes, then [`drop_bus_config`].
pub open spec fn drop_ahb_ctrl(algo: Ws63Algo) -> Plan<()> {
    write(BUS_DMA_AHB_CTRL, algo.saved_bus_dma_ahb_ctrl, drop_bus_config(algo))
}

/// Restores `bus_config1`, then [`drop_idle`].
pub open spec fn drop_bus_config(algo: Ws63Algo) -> Plan<()> {
    write(BUS_CONFIG1, algo.saved_bus_config1, drop_idle(algo))
}

/// Clears every field of `cmd_config`, then [`drop_reset`].
pub open spec fn drop_idle(algo: Ws63Algo) -> Plan<()> {
    write(CMD_CONFIG, 0, drop_reset(algo))
}

/// Resets the chip, then [`drop_sr1_sr2`].
pub open spec fn drop_reset(algo: Ws63Algo) -> Plan<()> {
    chain(flash_software_reset(), |_done: ()| drop_sr1_sr2(algo))
}

/// Restores status registers 1 and 2, then [`drop_sr3`].
pub open spec fn drop_sr1_sr2(algo: Ws63Algo) -> Plan<()> {
    chain(
        write_status_registers_sr1_sr2(
            status_to_restore(algo.saved_sr1, EXPECTED_SR1),
            status_to_restore(algo.saved_sr2, EXPECTED_SR2),
        ),
        |_done: ()| drop_sr3(algo),
    )
}

/// Restores status register 3, then [`drop_reset_again`].
pub open spec fn drop_sr3(algo: Ws63Algo) -> Plan<()> {
    chain(
        write_status_register_op(OP_WRSR3, status_to_restore(algo.saved_sr3, EXPECTED_SR3)),
        |_done: ()| drop_reset_again(),
    )
}

/// Resets the chip once more, then [`drop_cmd_done_again`].
pub open spec fn drop_reset_again() -> Plan<()> {
    chain(flash_software_reset(), |_done: ()| drop_cmd_done_again())
}

/// Waits for the command path, then [`drop_idle_again`].
pub open spec fn drop_cmd_done_again() -> Plan<()> {
    chain(wait_cmd_done(), |_done: ()| drop_idle_again())
}

/// Clears every field of `cmd_config` once more, then [`drop_ready`].
pub open spec fn drop_idle_again() -> Plan<()> {
    write(CMD_CONFIG, 0, drop_ready())
}

/// Waits for the chip, then [`drop_caches`].
pub open spec fn drop_ready() -> Plan<()> {
    chain(wait_ready(), |_ready: Result<(), Error>| drop_caches())
}

/// Brings the data cache in line with the flash, then [`drop_icache`].
pub open spec fn drop_caches() -> Plan<()> {
    Plan::Do(BusOp::CleanInvalidateDcache, |_reply: u32| drop_icache())
}

/// Brings the instruction cache in line with the flash.
pub open spec fn drop_icache() -> Plan<()> {
    Plan::Do(BusOp::InvalidateIcache, |_reply: u32| Plan::Return(()))
}

} // verus!
