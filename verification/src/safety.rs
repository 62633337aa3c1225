//! The routines touch the registers of the controller and no other address.

use vstd::prelude::*;

use crate::algo::{
    flash_offset, sector_opcode, status_to_restore, Ws63Algo, EXPECTED_SR1, EXPECTED_SR2,
    EXPECTED_SR3,
};
use crate::bus::{chain, lemma_run_extends, record, reply_to, run, BusOp, Device, Event, Plan};
use crate::error::Error;
use crate::nor::{
    OP_RDSR, OP_RDSR2, OP_RDSR3, OP_RST, OP_RSTEN, OP_WREN, OP_WRSR, OP_WRSR3, OP_WRVSR,
};
use crate::plan;
use crate::sfc::{
    Command, Transfer, BUS_CONFIG1, BUS_DMA_AHB_CTRL, BUS_DMA_CTRL, BUS_DMA_FLASH_SADDR,
    BUS_DMA_LEN, BUS_DMA_MEM_SADDR, CMD_ADDR, CMD_CONFIG, CMD_DATABUF, CMD_INS, DMA_POLL_LIMIT,
    WIP_POLL_LIMIT,
};

verus! {

/// A register of the controller that the loader knows.
pub open spec fn is_register(addr: u32) -> bool {
    ||| addr == CMD_CONFIG
    ||| addr == CMD_INS
    ||| addr == CMD_ADDR
    ||| addr == CMD_DATABUF
    ||| addr == BUS_CONFIG1
    ||| addr == BUS_DMA_CTRL
    ||| addr == BUS_DMA_MEM_SADDR
    ||| addr == BUS_DMA_FLASH_SADDR
    ||| addr == BUS_DMA_LEN
    ||| addr == BUS_DMA_AHB_CTRL
}

/// `op` accesses a register of the controller, or nothing.
pub open spec fn stays_on_controller(op: BusOp) -> bool {
    match op {
        BusOp::Read { addr } => is_register(addr),
        BusOp::Write { addr, .. } => is_register(addr),
        _ => true,
    }
}

/// Whatever the replies, every operation of `plan` stays on the controller, and what
/// follows an operation depends on its reply only if the operation is a read.
pub open spec fn confined<R>(plan: Plan<R>) -> bool
    decreases plan,
{
    match plan {
        Plan::Return(_) => true,
        Plan::Do(op, next) => {
            &&& stays_on_controller(op)
            &&& !(op is Read) ==> forall|reply: u32| #[trigger] next(reply) == next(0)
            &&& forall|reply: u32| confined(#[trigger] next(reply))
        },
    }
}

/// A chain of confined plans is confined.
pub proof fn lemma_confined_chain<A, B>(first: Plan<A>, rest: spec_fn(A) -> Plan<B>)
    requires
        confined(first),
        forall|a: A| confined(#[trigger] rest(a)),
    ensures
        confined(chain(first, rest)),
    decreases first,
{
    if let Plan::Do(op, next) = first {
        assert forall|reply: u32| confined(chain(#[trigger] next(reply), rest)) by {
            lemma_confined_chain(next(reply), rest);
        }
        if !(op is Read) {
            assert forall|reply: u32| #[trigger]
                chain(next(reply), rest) == chain(next(0), rest) by {
                assert(next(reply) == next(0));
            }
        }
    }
}

/// The poll of the start bit is confined.
pub proof fn lemma_confined_cmd_done_poll(left: nat)
    ensures
        confined(plan::cmd_done_poll(left)),
    decreases left,
{
    if let Plan::Do(_, next) = plan::cmd_done_poll(left) {
        assert forall|reply: u32| confined(#[trigger] next(reply)) by {
            assert(next(reply) == plan::cmd_done_seen(left, reply));
            if left > 0 {
                lemma_confined_cmd_done_poll((left - 1) as nat);
            }
        }
    }
}

/// The poll of the bus-DMA engine is confined.
pub proof fn lemma_confined_dma_done_poll(left: nat)
    ensures
        confined(plan::dma_done_poll(left)),
    decreases left,
{
    if let Plan::Do(_, next) = plan::dma_done_poll(left) {
        assert forall|reply: u32| confined(#[trigger] next(reply)) by {
            assert(next(reply) == plan::dma_done_seen(left, reply));
            if left > 1 {
                lemma_confined_dma_done_poll((left - 1) as nat);
            }
        }
    }
}

/// A command is confined.
pub proof fn lemma_confined_command(command: Command)
    ensures
        confined(plan::command(command)),
{
    lemma_confined_cmd_done_poll(WIP_POLL_LIMIT as nat);
    assert(confined(plan::command_start(command)));
    assert(confined(plan::command_addr(command)));
    assert(confined(plan::command_opcode(command)));
}

/// The poll of the write-in-progress bit is confined.
pub proof fn lemma_confined_wip_poll(left: nat)
    ensures
        confined(plan::wip_poll(left)),
    decreases left,
{
    lemma_confined_command(Command::with(OP_RDSR, Transfer::ReadByte));
    if let Plan::Do(_, next) = plan::wip_data(left) {
        assert forall|reply: u32| confined(#[trigger] next(reply)) by {
            assert(next(reply) == plan::wip_seen(left, reply));
            if left > 1 {
                lemma_confined_wip_poll((left - 1) as nat);
            }
        }
    }
    assert(confined(plan::wip_data(left)));
    lemma_confined_chain(
        plan::command(Command::with(OP_RDSR, Transfer::ReadByte)),
        |_done: ()| plan::wip_data(left),
    );
}

/// Two commands and the wait after them are confined.
pub proof fn lemma_confined_command_pair(first: Command, second: Command)
    ensures
        confined(plan::command_pair(first, second)),
{
    lemma_confined_wip_poll(WIP_POLL_LIMIT as nat);
    lemma_confined_chain(
        plan::wait_ready(),
        |_ready: Result<(), Error>| Plan::Return(()),
    );
    lemma_confined_command(second);
    lemma_confined_chain(plan::command(second), |_done: ()| plan::wait_ready_best_effort());
    lemma_confined_command(first);
    lemma_confined_chain(plan::command(first), |_done: ()| plan::command_then_ready(second));
}

/// A status read is confined.
pub proof fn lemma_confined_read_status(rdsr_op: u32)
    ensures
        confined(plan::read_status_register_op(rdsr_op)),
{
    let command = Command::with(rdsr_op, Transfer::ReadByte);
    lemma_confined_command(command);
    reveal_with_fuel(confined, 2);
    assert(confined(plan::status_byte()));
    lemma_confined_chain(plan::command(command), |_done: ()| plan::status_byte());
}

/// Taking over is confined.
pub proof fn lemma_confined_new()
    ensures
        confined(plan::new()),
{
    lemma_confined_read_status(OP_RDSR);
    lemma_confined_read_status(OP_RDSR2);
    lemma_confined_read_status(OP_RDSR3);
    assert forall|algo: Ws63Algo| confined(#[trigger] plan::new_configure(algo)) by {
        reveal_with_fuel(confined, 2);
        assert forall|sr1: u8| confined(#[trigger] plan::new_outcome(algo, sr1)) by {}
        lemma_confined_chain(
            plan::read_status_register_op(OP_RDSR),
            |sr1: u8| plan::new_outcome(algo, sr1),
        );
        lemma_confined_command_pair(
            Command::bare(OP_WRVSR),
            Command::with(OP_WRSR, Transfer::WriteByte(0)),
        );
        lemma_confined_chain(
            plan::write_volatile_status_register(0),
            |_done: ()| plan::new_confirm(algo),
        );
        assert(confined(plan::new_unprotect(algo)));
    }
    assert forall|sr1: u8, sr2: u8, sr3: u8|
        confined(#[trigger] plan::new_bus_config(sr1, sr2, sr3)) by {
        assert forall|bus: u32| confined(#[trigger] plan::new_ahb_ctrl(sr1, sr2, sr3, bus)) by {}
    }
    assert forall|sr1: u8, sr2: u8| confined(#[trigger] plan::new_sr3(sr1, sr2)) by {
        lemma_confined_chain(
            plan::read_status_register_op(OP_RDSR3),
            |sr3: u8| plan::new_bus_config(sr1, sr2, sr3),
        );
    }
    assert forall|sr1: u8| confined(#[trigger] plan::new_sr2(sr1)) by {
        lemma_confined_chain(
            plan::read_status_register_op(OP_RDSR2),
            |sr2: u8| plan::new_sr3(sr1, sr2),
        );
    }
    lemma_confined_chain(
        plan::read_status_register_op(OP_RDSR),
        |sr1: u8| plan::new_sr2(sr1),
    );
}

/// Programming is confined.
pub proof fn lemma_confined_program(offset: u32, source: u32, len: u32)
    ensures
        confined(plan::dma_write(offset, source, len)),
{
    lemma_confined_dma_done_poll(DMA_POLL_LIMIT as nat);
    assert(confined(plan::dma_start()));
    assert(confined(plan::dma_bursts()));
    assert(confined(plan::dma_len(len)));
    assert(confined(plan::dma_source(source, len)));
    assert(confined(plan::dma_transfer(offset, source, len)));
    lemma_confined_command(Command::bare(OP_WREN));
    lemma_confined_chain(
        plan::write_enable(),
        |_done: ()| plan::dma_transfer(offset, source, len),
    );
}

/// Giving back is confined.
pub proof fn lemma_confined_drop(algo: Ws63Algo)
    ensures
        confined(plan::drop(algo)),
{
    let sr1 = status_to_restore(algo.saved_sr1, EXPECTED_SR1);
    let sr2 = status_to_restore(algo.saved_sr2, EXPECTED_SR2);
    let sr3 = status_to_restore(algo.saved_sr3, EXPECTED_SR3);
    lemma_confined_cmd_done_poll(WIP_POLL_LIMIT as nat);
    lemma_confined_dma_done_poll(DMA_POLL_LIMIT as nat);
    lemma_confined_wip_poll(WIP_POLL_LIMIT as nat);
    lemma_confined_command_pair(Command::bare(OP_RSTEN), Command::bare(OP_RST));
    lemma_confined_command_pair(
        Command::bare(OP_WREN),
        Command::with(OP_WRSR, Transfer::WriteBytes(sr1, sr2)),
    );
    lemma_confined_command_pair(
        Command::bare(OP_WREN),
        Command::with(OP_WRSR3, Transfer::WriteByte(sr3)),
    );
    reveal_with_fuel(confined, 2);
    assert(confined(plan::drop_icache()));
    assert(confined(plan::drop_caches()));
    lemma_confined_chain(plan::wait_ready(), |_ready: Result<(), Error>| plan::drop_caches());
    assert(confined(plan::drop_idle_again()));
    lemma_confined_chain(plan::wait_cmd_done(), |_done: ()| plan::drop_idle_again());
    lemma_confined_chain(plan::flash_software_reset(), |_done: ()| plan::drop_cmd_done_again());
    lemma_confined_chain(
        plan::write_status_register_op(OP_WRSR3, sr3),
        |_done: ()| plan::drop_reset_again(),
    );
    lemma_confined_chain(
        plan::write_status_registers_sr1_sr2(sr1, sr2),
        |_done: ()| plan::drop_sr3(algo),
    );
    lemma_confined_chain(plan::flash_software_reset(), |_done: ()| plan::drop_sr1_sr2(algo));
    assert(confined(plan::drop_idle(algo)));
    assert(confined(plan::drop_bus_config(algo)));
    assert(confined(plan::drop_ahb_ctrl(algo)));
    assert(confined(plan::drop_registers(algo)));
    lemma_confined_chain(
        plan::wait_dma_done(),
        |_done: Result<(), Error>| plan::drop_registers(algo),
    );
    lemma_confined_chain(plan::wait_cmd_done(), |_done: ()| plan::drop_dma_done(algo));
}

/// No operation accesses anything but the registers of the controller, whatever
/// the hardware answers, and none takes notice of a reply to anything but a read.
pub proof fn law_operations_stay_on_the_controller(
    algo: Ws63Algo,
    address: u32,
    source: u32,
    len: u32,
)
    ensures
        confined(plan::new()),
        confined(plan::erase_sector(address)),
        confined(plan::program_page(address, source, len)),
        confined(plan::drop(algo)),
{
    lemma_confined_new();
    let first = Command::bare(OP_WREN);
    let second = Command::at(sector_opcode(address), flash_offset(address));
    lemma_confined_command_pair(first, second);
    lemma_confined_chain(
        plan::command_pair(first, second),
        |_done: ()| Plan::Return(Ok::<(), Error>(())),
    );
    lemma_confined_program(flash_offset(address), source, len);
    lemma_confined_drop(algo);
}

/// What a confined plan adds to the history stays on the controller.
pub proof fn law_confined_runs_stay_on_the_controller<R>(
    plan: Plan<R>,
    device: Device,
    history: Seq<Event>,
    i: int,
)
    requires
        confined(plan),
        history.len() <= i < run(plan, device, history).0.len(),
    ensures
        stays_on_controller(run(plan, device, history).0[i].op),
    decreases plan,
{
    if let Plan::Do(op, next) = plan {
        let reply = reply_to(device, history, op);
        let longer = record(device, history, op);
        assert(confined(next(reply)));
        if i == history.len() {
            lemma_run_extends(next(reply), device, longer);
        } else {
            law_confined_runs_stay_on_the_controller(next(reply), device, longer, i);
        }
    }
}

} // verus!
