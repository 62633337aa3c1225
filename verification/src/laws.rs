//! What the operations achieve on the hardware, and what they never do.

use vstd::prelude::*;

use crate::algo::{
    area, flash_offset, page_program_config, sector_opcode, sector_size, starts_block,
    starts_sector, status_to_restore, EraseSector, Init, Uninit, Ws63Algo, BLOCK_AREA_END,
    BLOCK_AREA_START, EMPTY_VALUE, EXPECTED_SR1, EXPECTED_SR2, EXPECTED_SR3, NV_START, XIP_BASE,
};
use crate::board::{
    answers_as, bus_answers_as, changes, erased, lemma_at_record, lemma_changes_push, lemma_reset,
    lemma_stored_status, lemma_volatile_status, lemma_write_enable, orderly, programmed,
    settable_sr1, Board, Chip, Effect, Latch, Status,
};
use crate::bus::{
    driven, law_driven_routine_keeps_to_its_plan, lemma_run_chain, lemma_run_extends, record,
    reply_to, run, BusOp, Device, Event, Plan, Routine, Step,
};
use crate::effects::{
    command_ops, is_sample, lemma_changes_sampled, lemma_cmd_done_poll, lemma_command,
    lemma_command_pair, lemma_dma_done_poll, lemma_no_sample_in_command, lemma_orderly_pair,
    lemma_orderly_sampled, lemma_pair_changes, lemma_read_status, lemma_wip_poll, lemma_write,
    only_sampled, pair_effects, ready_ops, status_read,
};
use crate::error::Error;
use crate::nor::{
    DmaWrite, BUS_DMA_AHB_BURSTS, BUS_DMA_CTRL_START_WRITE_CS1, OP_BE_64K, OP_RDSR, OP_RDSR2,
    OP_RDSR3, OP_RST, OP_RSTEN, OP_WREN, OP_WRSR, OP_WRSR3, OP_WRVSR, WIP_SAMPLE_PAUSE_US,
};
use crate::plan;
use crate::sfc::{
    Command, Transfer, BUS_CONFIG1, BUS_DMA_AHB_CTRL, BUS_DMA_CTRL, BUS_DMA_FLASH_SADDR,
    BUS_DMA_LEN, BUS_DMA_MEM_SADDR, CMD_CONFIG, CMD_DATABUF, DMA_POLL_LIMIT, WIP_POLL_LIMIT,
};

verus! {

/// Erasing a sector opens the latch, erases, and changes nothing else: on an
/// unprotected chip exactly the bytes of the sector become empty, and on a
/// protected one no byte changes. The operation always succeeds, and it ends
/// whatever the hardware answers.
pub proof fn law_erase_sector(address: u32, board: Board, device: Device, history: Seq<Event>)
    ensures
        ({
            let (end, result) = run(plan::erase_sector(address), device, history);
            let before = board.at(history);
            let after = board.at(end);
            &&& result == Ok::<(), Error>(())
            // The last operation samples the chip, and either it reports no write in
            // progress or all samples were taken.
            &&& is_sample(end.last())
            &&& end.last().reply & 1 == 0 || after.log.len() == before.log.len() + 2 + 16_384
            &&& changes(after.log) == changes(before.log) + pair_effects(
                Command::bare(OP_WREN),
                Command::at(sector_opcode(address), flash_offset(address)),
            )
            &&& orderly(before.log) ==> orderly(after.log)
            &&& after.chip == Chip {
                latch: Latch::Closed,
                reset_armed: false,
                cells: if before.chip.unprotected() {
                    erased(
                        before.chip.cells,
                        flash_offset(address),
                        sector_size(address) as int,
                    )
                } else {
                    before.chip.cells
                },
                ..before.chip
            }
            &&& after.bus_config1 == before.bus_config1
            &&& after.dma_ctrl == before.dma_ctrl
            &&& after.dma_ahb_ctrl == before.dma_ahb_ctrl
            &&& after.ram == before.ram
            &&& end.len() <= history.len() + 2 * command_ops() + ready_ops()
        }),
{
    let first = Command::bare(OP_WREN);
    let second = Command::at(sector_opcode(address), flash_offset(address));
    lemma_run_chain(
        plan::command_pair(first, second),
        |_done: ()| Plan::Return(Ok::<(), Error>(())),
        device,
        history,
    );
    lemma_command_pair(first, second, board, device, history);
    lemma_pair_changes(first, second, board, device, history);
    lemma_write_enable(board.at(history).chip);
    reveal(Chip::commanded);
}

/// The most operations that programming takes: a command, five writes, a poll.
pub open spec fn program_ops() -> nat {
    command_ops() + 5 + DMA_POLL_LIMIT as nat
}

/// Programming opens the latch, makes one transfer of the whole batch with bursts
/// on, and changes nothing else of the chip: on a board that is ready, the batch is
/// programmed at the chip offset of its address, and no other byte changes; on one
/// that is not, no byte changes. It fails exactly if the last sample of the poll
/// finds the start bit of the bus-DMA engine set, which takes the whole budget. An
/// empty batch does nothing.
pub proof fn law_program_page(
    address: u32,
    source: u32,
    len: u32,
    board: Board,
    device: Device,
    history: Seq<Event>,
)
    ensures
        ({
            let (end, result) = run(plan::program_page(address, source, len), device, history);
            let before = board.at(history);
            let after = board.at(end);
            &&& len == 0 ==> end == history && result == Ok::<(), Error>(())
            &&& len > 0 ==> {
                &&& changes(after.log) == changes(before.log) + seq![
                    Effect::Command(Command::bare(OP_WREN)),
                    Effect::Dma { offset: flash_offset(address), source, len: len as int },
                ]
                &&& before.ready() ==> after.chip == (Chip {
                    latch: Latch::Closed,
                    reset_armed: false,
                    cells: programmed(
                        before.chip.cells,
                        before.ram,
                        flash_offset(address),
                        source,
                        len as int,
                    ),
                    ..before.chip
                })
                &&& !before.ready() ==> after.chip.cells == before.chip.cells
                &&& after.dma_ahb_ctrl == BUS_DMA_AHB_BURSTS
                &&& result == if end.last().reply & 1 == 0 {
                    Ok(())
                } else {
                    Err(Error::DmaTimeout)
                }
                &&& result is Err ==> end.len() >= history.len() + DMA_POLL_LIMIT
            }
            &&& orderly(before.log) ==> orderly(after.log)
            &&& after.chip.live == before.chip.live
            &&& after.chip.stored == before.chip.stored
            &&& after.bus_config1 == before.bus_config1
            &&& after.ram == before.ram
            &&& end.len() <= history.len() + program_ops()
        }),
{
    if len > 0 {
        let offset = flash_offset(address);
        let first = Command::bare(OP_WREN);
        lemma_run_chain(
            plan::write_enable(),
            |_done: ()| plan::dma_transfer(offset, source, len),
            device,
            history,
        );
        lemma_command(first, board, device, history);
        let before = board.at(history);
        lemma_write_enable(before.chip);
        let h0 = run(plan::write_enable(), device, history).0;
        lemma_write(
            BUS_DMA_FLASH_SADDR,
            offset,
            plan::dma_source(source, len),
            board,
            device,
            h0,
        );
        let h1 = record(device, h0, BusOp::Write { addr: BUS_DMA_FLASH_SADDR, val: offset });
        lemma_write(BUS_DMA_MEM_SADDR, source, plan::dma_len(len), board, device, h1);
        let h2 = record(device, h1, BusOp::Write { addr: BUS_DMA_MEM_SADDR, val: source });
        let last = len.wrapping_sub(1);
        lemma_write(BUS_DMA_LEN, last, plan::dma_bursts(), board, device, h2);
        let h3 = record(device, h2, BusOp::Write { addr: BUS_DMA_LEN, val: last });
        lemma_write(BUS_DMA_AHB_CTRL, BUS_DMA_AHB_BURSTS, plan::dma_start(), board, device, h3);
        let h4 = record(
            device,
            h3,
            BusOp::Write { addr: BUS_DMA_AHB_CTRL, val: BUS_DMA_AHB_BURSTS },
        );
        let start = BUS_DMA_CTRL_START_WRITE_CS1;
        lemma_write(BUS_DMA_CTRL, start, plan::wait_dma_done(), board, device, h4);
        let h5 = record(device, h4, BusOp::Write { addr: BUS_DMA_CTRL, val: start });
        lemma_dma_done_poll(DMA_POLL_LIMIT as nat, board, device, h5);
        lemma_changes_push(before.log, Effect::Command(first));
        lemma_changes_push(
            before.log.push(Effect::Command(first)),
            Effect::Dma { offset, source, len: len as int },
        );
        if orderly(before.log) {
            lemma_orderly_pair(
                before.log,
                Effect::Command(first),
                Effect::Dma { offset, source, len: len as int },
            );
        }
        let after = board.at(h5);
        assert(changes(after.log) =~= changes(before.log) + seq![
            Effect::Command(first),
            Effect::Dma { offset, source, len: len as int },
        ]);
    }
}

/// The most operations that taking over takes: four status reads, four register
/// accesses and a pair of commands.
pub open spec fn new_ops() -> nat {
    4 * (command_ops() + 1) + 4 + (2 * command_ops() + ready_ops())
}

/// What taking over reads: the three status registers and the two bus registers, in
/// this order.
pub open spec fn found(device: Device, history: Seq<Event>) -> Ws63Algo {
    let (h1, sr1) = run(plan::read_status_register_op(OP_RDSR), device, history);
    let (h2, sr2) = run(plan::read_status_register_op(OP_RDSR2), device, h1);
    let (h3, sr3) = run(plan::read_status_register_op(OP_RDSR3), device, h2);
    let h4 = record(device, h3, BusOp::Read { addr: BUS_CONFIG1 });
    Ws63Algo {
        saved_sr1: sr1,
        saved_sr2: sr2,
        saved_sr3: sr3,
        saved_bus_config1: device(h3, BUS_CONFIG1),
        saved_bus_dma_ahb_ctrl: device(h4, BUS_DMA_AHB_CTRL),
    }
}

/// Taking over sends the chip one volatile status write and nothing else that
/// changes it. So the stored status keeps its value, and no byte of the array
/// changes, whatever the hardware answers. It succeeds exactly if the status that is
/// read back has no block-protect bit set; it then holds what it found, and the bus
/// makes page programs with the other fields as they were found. Where it fails, it
/// has written back the bus configuration that it found.
pub proof fn law_new(board: Board, device: Device, history: Seq<Event>)
    ensures
        ({
            let (end, result) = run(plan::new(), device, history);
            let before = board.at(history);
            let after = board.at(end);
            &&& changes(after.log) == changes(before.log) + pair_effects(
                Command::bare(OP_WRVSR),
                Command::with(OP_WRSR, Transfer::WriteByte(0)),
            )
            &&& orderly(before.log) ==> orderly(after.log)
            &&& after.chip == Chip {
                live: Status { sr1: 0, ..before.chip.live },
                latch: Latch::Closed,
                reset_armed: false,
                ..before.chip
            }
            &&& after.dma_ahb_ctrl == before.dma_ahb_ctrl
            &&& after.ram == before.ram
            &&& match result {
                Ok(algo) => {
                    &&& is_sample(end.last())
                    &&& end.last().reply & 0x1C == 0
                    &&& algo == found(device, history)
                    &&& after.bus_config1 == page_program_config(algo.saved_bus_config1)
                },
                Err(error) => {
                    let given_back = found(device, history).saved_bus_config1;
                    &&& end.len() >= 2
                    &&& is_sample(end[end.len() - 2])
                    &&& end[end.len() - 2].reply & 0x1C != 0
                    &&& end.last().op == (BusOp::Write { addr: BUS_CONFIG1, val: given_back })
                    &&& error == Error::BlockProtected
                    &&& after.bus_config1 == given_back
                    &&& bus_answers_as(device, board) ==> after.bus_config1 == before.bus_config1
                },
            }
            &&& end.len() <= history.len() + new_ops()
            // On hardware that answers as the board does, it succeeds, the board is
            // ready for erase and program, and what was found is what is saved.
            &&& answers_as(device, board) ==> {
                &&& result is Ok
                &&& after.ready()
                &&& saves(result->Ok_0, before)
            }
        }),
{
    let (h1, sr1) = run(plan::read_status_register_op(OP_RDSR), device, history);
    lemma_run_chain(
        plan::read_status_register_op(OP_RDSR),
        |sr1: u8| plan::new_sr2(sr1),
        device,
        history,
    );
    lemma_read_status(OP_RDSR, board, device, history);
    let (h2, sr2) = run(plan::read_status_register_op(OP_RDSR2), device, h1);
    lemma_run_chain(
        plan::read_status_register_op(OP_RDSR2),
        |sr2: u8| plan::new_sr3(sr1, sr2),
        device,
        h1,
    );
    lemma_read_status(OP_RDSR2, board, device, h1);
    let (h3, sr3) = run(plan::read_status_register_op(OP_RDSR3), device, h2);
    lemma_run_chain(
        plan::read_status_register_op(OP_RDSR3),
        |sr3: u8| plan::new_bus_config(sr1, sr2, sr3),
        device,
        h2,
    );
    lemma_read_status(OP_RDSR3, board, device, h2);
    let bus = BusOp::Read { addr: BUS_CONFIG1 };
    let h4 = record(device, h3, bus);
    lemma_at_record(board, device, h3, bus);
    let ahb = BusOp::Read { addr: BUS_DMA_AHB_CTRL };
    let h5 = record(device, h4, ahb);
    lemma_at_record(board, device, h4, ahb);
    let algo = Ws63Algo {
        saved_sr1: sr1,
        saved_sr2: sr2,
        saved_sr3: sr3,
        saved_bus_config1: device(h3, BUS_CONFIG1),
        saved_bus_dma_ahb_ctrl: device(h4, BUS_DMA_AHB_CTRL),
    };
    assert(run(plan::new_bus_config(sr1, sr2, sr3), device, h3) == run(
        plan::new_ahb_ctrl(sr1, sr2, sr3, device(h3, BUS_CONFIG1)),
        device,
        h4,
    ));
    assert(run(plan::new_ahb_ctrl(sr1, sr2, sr3, device(h3, BUS_CONFIG1)), device, h4) == run(
        plan::new_configure(algo),
        device,
        h5,
    ));
    let config = page_program_config(algo.saved_bus_config1);
    lemma_write(BUS_CONFIG1, config, plan::new_unprotect(algo), board, device, h5);
    let h6 = record(device, h5, BusOp::Write { addr: BUS_CONFIG1, val: config });
    let first = Command::bare(OP_WRVSR);
    let second = Command::with(OP_WRSR, Transfer::WriteByte(0));
    lemma_run_chain(
        plan::write_volatile_status_register(0),
        |_done: ()| plan::new_confirm(algo),
        device,
        h6,
    );
    let h7 = run(plan::write_volatile_status_register(0), device, h6).0;
    lemma_command_pair(first, second, board, device, h6);
    lemma_pair_changes(first, second, board, device, h6);
    lemma_volatile_status(board.at(h6).chip, 0);
    assert(settable_sr1(0) == 0) by {
        assert(0u8 & 0xFC == 0) by (bit_vector);
    }
    let (h8, confirmed) = run(plan::read_status_register_op(OP_RDSR), device, h7);
    lemma_run_chain(
        plan::read_status_register_op(OP_RDSR),
        |sr1: u8| plan::new_outcome(algo, sr1),
        device,
        h7,
    );
    lemma_read_status(OP_RDSR, board, device, h7);
    let gave_up = Plan::<Result<Ws63Algo, Error>>::Return(Err(Error::BlockProtected));
    lemma_write(BUS_CONFIG1, algo.saved_bus_config1, gave_up, board, device, h8);
    assert(algo == found(device, history));
    if bus_answers_as(device, board) {
        assert(board.at(h3).bus_config1 == algo.saved_bus_config1);
    }
    let read_back = h8.last().reply;
    assert(((read_back & 0xFF) as u8) & 0x1C == 0 <==> read_back & 0x1C == 0) by (bit_vector);
    if answers_as(device, board) {
        assert(board.at(h3).bus_config1 == algo.saved_bus_config1);
        assert(board.at(h4).dma_ahb_ctrl == algo.saved_bus_dma_ahb_ctrl);
        assert(settable_sr1(confirmed) == 0);
        assert(confirmed & 0x1C == 0) by (bit_vector)
            requires
                confirmed & 0xFC == 0,
        ;
        assert(0u8 & 0x1C == 0) by (bit_vector);
        let saved = algo.saved_bus_config1;
        assert((config >> 22) & 0xFF == 0x02 && (config >> 30) & 0x1 == 1) by (bit_vector)
            requires
                config == (saved & !0x7FFF_0000u32) | 0x4080_0000u32,
        ;
    }
}

/// `algo` holds what `board` reads as.
pub open spec fn saves(algo: Ws63Algo, board: Board) -> bool {
    &&& settable_sr1(algo.saved_sr1) == board.chip.live.sr1
    &&& algo.saved_sr2 == board.chip.live.sr2
    &&& algo.saved_sr3 == board.chip.live.sr3
    &&& algo.saved_bus_config1 == board.bus_config1
    &&& algo.saved_bus_dma_ahb_ctrl == board.dma_ahb_ctrl
}

/// The most operations that giving back takes.
pub open spec fn drop_ops() -> nat {
    2 * (WIP_POLL_LIMIT as nat + 1) + DMA_POLL_LIMIT as nat + 5 + 4 * (2 * command_ops()
        + ready_ops()) + ready_ops() + 2
}

/// The reset sequence.
pub open spec fn reset_effects() -> Seq<Effect> {
    pair_effects(Command::bare(OP_RSTEN), Command::bare(OP_RST))
}

/// The status that giving back leaves: what was found, or the expected value where
/// that was zero.
pub open spec fn restored(algo: Ws63Algo) -> Status {
    Status {
        sr1: settable_sr1(status_to_restore(algo.saved_sr1, EXPECTED_SR1)),
        sr2: status_to_restore(algo.saved_sr2, EXPECTED_SR2),
        sr3: status_to_restore(algo.saved_sr3, EXPECTED_SR3),
    }
}

/// Giving back resets the chip, writes the three status registers and resets the
/// chip again. Whatever the hardware answers and whatever state the board was
/// left in, the restored status is then in effect and stored, the latch is closed,
/// the bus registers hold what was found, the bus-DMA engine is stopped, and no
/// byte of the array has changed. The last two operations bring the caches in line.
pub proof fn law_drop(algo: Ws63Algo, board: Board, device: Device, history: Seq<Event>)
    ensures
        ({
            let end = run(plan::drop(algo), device, history).0;
            let before = board.at(history);
            let after = board.at(end);
            &&& changes(after.log) == changes(before.log) + reset_effects() + pair_effects(
                Command::bare(OP_WREN),
                Command::with(
                    OP_WRSR,
                    Transfer::WriteBytes(
                        status_to_restore(algo.saved_sr1, EXPECTED_SR1),
                        status_to_restore(algo.saved_sr2, EXPECTED_SR2),
                    ),
                ),
            ) + pair_effects(
                Command::bare(OP_WREN),
                Command::with(
                    OP_WRSR3,
                    Transfer::WriteByte(status_to_restore(algo.saved_sr3, EXPECTED_SR3)),
                ),
            ) + reset_effects()
            &&& orderly(before.log) ==> orderly(after.log)
            &&& after.chip == Chip {
                live: restored(algo),
                stored: restored(algo),
                latch: Latch::Closed,
                reset_armed: false,
                cells: before.chip.cells,
            }
            &&& after.bus_config1 == algo.saved_bus_config1
            &&& after.dma_ahb_ctrl == algo.saved_bus_dma_ahb_ctrl
            &&& after.dma_ctrl == 0
            &&& after.ram == before.ram
            &&& end.len() <= history.len() + drop_ops()
            &&& end.len() >= 2
            &&& end[end.len() - 2].op == BusOp::CleanInvalidateDcache
            &&& end.last().op == BusOp::InvalidateIcache
        }),
{
    let sr1 = status_to_restore(algo.saved_sr1, EXPECTED_SR1);
    let sr2 = status_to_restore(algo.saved_sr2, EXPECTED_SR2);
    let sr3 = status_to_restore(algo.saved_sr3, EXPECTED_SR3);
    let rsten = Command::bare(OP_RSTEN);
    let rst = Command::bare(OP_RST);
    let wren = Command::bare(OP_WREN);
    let wrsr = Command::with(OP_WRSR, Transfer::WriteBytes(sr1, sr2));
    let wrsr3 = Command::with(OP_WRSR3, Transfer::WriteByte(sr3));
    // Wait for what is under way.
    let h1 = run(plan::wait_cmd_done(), device, history).0;
    lemma_cmd_done_poll(WIP_POLL_LIMIT as nat, board, device, history);
    lemma_run_chain(
        plan::wait_cmd_done(),
        |_done: ()| plan::drop_dma_done(algo),
        device,
        history,
    );
    let h2 = run(plan::wait_dma_done(), device, h1).0;
    lemma_dma_done_poll(DMA_POLL_LIMIT as nat, board, device, h1);
    lemma_run_chain(
        plan::wait_dma_done(),
        |_done: Result<(), Error>| plan::drop_registers(algo),
        device,
        h1,
    );
    // Restore the controller.
    lemma_write(BUS_DMA_CTRL, 0, plan::drop_ahb_ctrl(algo), board, device, h2);
    let h3 = record(device, h2, BusOp::Write { addr: BUS_DMA_CTRL, val: 0 });
    let ahb = algo.saved_bus_dma_ahb_ctrl;
    lemma_write(BUS_DMA_AHB_CTRL, ahb, plan::drop_bus_config(algo), board, device, h3);
    let h4 = record(device, h3, BusOp::Write { addr: BUS_DMA_AHB_CTRL, val: ahb });
    let bus = algo.saved_bus_config1;
    lemma_write(BUS_CONFIG1, bus, plan::drop_idle(algo), board, device, h4);
    let h5 = record(device, h4, BusOp::Write { addr: BUS_CONFIG1, val: bus });
    lemma_write(CMD_CONFIG, 0, plan::drop_reset(algo), board, device, h5);
    let h6 = record(device, h5, BusOp::Write { addr: CMD_CONFIG, val: 0 });
    // Reset the chip and restore its status.
    let h7 = run(plan::flash_software_reset(), device, h6).0;
    lemma_command_pair(rsten, rst, board, device, h6);
    lemma_pair_changes(rsten, rst, board, device, h6);
    lemma_reset(board.at(h6).chip);
    lemma_run_chain(
        plan::flash_software_reset(),
        |_done: ()| plan::drop_sr1_sr2(algo),
        device,
        h6,
    );
    let h8 = run(plan::write_status_registers_sr1_sr2(sr1, sr2), device, h7).0;
    lemma_command_pair(wren, wrsr, board, device, h7);
    lemma_pair_changes(wren, wrsr, board, device, h7);
    lemma_stored_status(board.at(h7).chip, sr1, sr2, sr3);
    lemma_run_chain(
        plan::write_status_registers_sr1_sr2(sr1, sr2),
        |_done: ()| plan::drop_sr3(algo),
        device,
        h7,
    );
    let h9 = run(plan::write_status_register_op(OP_WRSR3, sr3), device, h8).0;
    lemma_command_pair(wren, wrsr3, board, device, h8);
    lemma_pair_changes(wren, wrsr3, board, device, h8);
    lemma_stored_status(board.at(h8).chip, sr1, sr2, sr3);
    lemma_run_chain(
        plan::write_status_register_op(OP_WRSR3, sr3),
        |_done: ()| plan::drop_reset_again(),
        device,
        h8,
    );
    let h10 = run(plan::flash_software_reset(), device, h9).0;
    lemma_command_pair(rsten, rst, board, device, h9);
    lemma_pair_changes(rsten, rst, board, device, h9);
    lemma_reset(board.at(h9).chip);
    lemma_run_chain(
        plan::flash_software_reset(),
        |_done: ()| plan::drop_cmd_done_again(),
        device,
        h9,
    );
    // Idle the command path.
    let h11 = run(plan::wait_cmd_done(), device, h10).0;
    lemma_cmd_done_poll(WIP_POLL_LIMIT as nat, board, device, h10);
    lemma_run_chain(
        plan::wait_cmd_done(),
        |_done: ()| plan::drop_idle_again(),
        device,
        h10,
    );
    lemma_write(CMD_CONFIG, 0, plan::drop_ready(), board, device, h11);
    let h12 = record(device, h11, BusOp::Write { addr: CMD_CONFIG, val: 0 });
    let h13 = run(plan::wait_ready(), device, h12).0;
    lemma_wip_poll(WIP_POLL_LIMIT as nat, board, device, h12);
    lemma_changes_sampled(board.at(h12).log, board.at(h13).log);
    if orderly(board.at(h12).log) {
        lemma_orderly_sampled(board.at(h12).log, board.at(h13).log);
    }
    lemma_run_chain(
        plan::wait_ready(),
        |_ready: Result<(), Error>| plan::drop_caches(),
        device,
        h12,
    );
    // Bring the caches in line.
    lemma_at_record(board, device, h13, BusOp::CleanInvalidateDcache);
    let h14 = record(device, h13, BusOp::CleanInvalidateDcache);
    lemma_at_record(board, device, h14, BusOp::InvalidateIcache);
    let h15 = record(device, h14, BusOp::InvalidateIcache);
    assert(run(plan::drop_caches(), device, h13) == run(plan::drop_icache(), device, h14));
    assert(run(plan::drop_icache(), device, h14) == run(Plan::Return(()), device, h15));
}

/// A wait for the chip succeeds exactly if its last sample finds no write in
/// progress, and it gives up only after the whole budget of samples. It does
/// nothing but sample.
pub proof fn law_wait_ready(board: Board, device: Device, history: Seq<Event>)
    ensures
        ({
            let (end, result) = run(plan::wait_ready(), device, history);
            let before = board.at(history);
            let after = board.at(end);
            &&& only_sampled(before, after)
            &&& result == if end.last().reply & 1 == 0 {
                Ok(())
            } else {
                Err(Error::WipTimeout)
            }
            &&& after.log.len() <= before.log.len() + WIP_POLL_LIMIT
            &&& result is Err ==> after.log.len() == before.log.len() + WIP_POLL_LIMIT
            &&& end.len() <= history.len() + ready_ops()
        }),
{
    lemma_wip_poll(WIP_POLL_LIMIT as nat, board, device, history);
}

/// After two commands, the second of which erases, writes a status register or resets,
/// nothing but samples reaches the chip until it reports no write in progress or 16,384
/// samples were taken. Only then does the sequence end, and only then can another
/// command follow.
pub proof fn law_pairs_wait_for_the_chip(
    first: Command,
    second: Command,
    board: Board,
    device: Device,
    history: Seq<Event>,
)
    ensures
        ({
            let end = run(plan::command_pair(first, second), device, history).0;
            let before = board.at(history).log;
            let after = board.at(end).log;
            &&& before.len() + 2 < after.len() <= before.len() + 2 + 16_384
            &&& after[before.len() as int] == Effect::Command(first)
            &&& after[before.len() as int + 1] == Effect::Command(second)
            &&& forall|i: int|
                before.len() + 2 <= i < after.len() ==> #[trigger] after[i] == Effect::Command(
                    Command { opcode: 0x05, addr: None, transfer: Transfer::ReadByte },
                )
            &&& end.last().op == (BusOp::Read { addr: 0x4800_0400 })
            &&& end.last().reply & 1 == 0 || after.len() == before.len() + 2 + 16_384
        }),
{
    lemma_command_pair(first, second, board, device, history);
}

/// A session leaves the board as it found it. Where hardware answers as the board
/// does, taking over succeeds, and giving back what it saved restores both bus
/// registers and the status registers, stored and in effect, whatever happened in
/// between. A status register that reads as zero is the exception: it gets its
/// expected value. For the first register it is the byte as it was read that
/// counts, with the two bits that report what goes on in the chip.
pub proof fn law_session_restores_what_it_found(
    board: Board,
    device: Device,
    history: Seq<Event>,
    later_device: Device,
    later: Seq<Event>,
)
    requires
        answers_as(device, board),
    ensures
        ({
            let before = board.at(history);
            let result = run(plan::new(), device, history).1;
            let end = run(plan::drop(result->Ok_0), later_device, later).0;
            let after = board.at(end);
            &&& result is Ok
            &&& after.bus_config1 == before.bus_config1
            &&& after.dma_ahb_ctrl == before.dma_ahb_ctrl
            &&& after.chip.live.sr1 == if found(device, history).saved_sr1 != 0 {
                before.chip.live.sr1
            } else {
                EXPECTED_SR1
            }
            &&& before.chip.live.sr1 != 0 ==> after.chip.live.sr1 == before.chip.live.sr1
            &&& after.chip.live.sr2 == if before.chip.live.sr2 != 0 {
                before.chip.live.sr2
            } else {
                EXPECTED_SR2
            }
            &&& after.chip.live.sr3 == if before.chip.live.sr3 != 0 {
                before.chip.live.sr3
            } else {
                EXPECTED_SR3
            }
            &&& after.chip.stored == after.chip.live
        }),
{
    law_new(board, device, history);
    let algo = run(plan::new(), device, history).1->Ok_0;
    law_drop(algo, board, later_device, later);
    assert(0u8 & 0xFC == 0 && 0x1Cu8 & 0xFC == 0x1C) by (bit_vector);
}

/// The order of effects is kept by every operation: an erase, a program or a status
/// write directly follows the command that enables it, and reset enable and reset
/// directly follow each other.
pub proof fn law_order_is_kept(
    algo: Ws63Algo,
    address: u32,
    source: u32,
    len: u32,
    board: Board,
    device: Device,
    history: Seq<Event>,
)
    requires
        orderly(board.at(history).log),
    ensures
        orderly(board.at(run(plan::new(), device, history).0).log),
        orderly(board.at(run(plan::erase_sector(address), device, history).0).log),
        orderly(board.at(run(plan::program_page(address, source, len), device, history).0).log),
        orderly(board.at(run(plan::drop(algo), device, history).0).log),
{
    law_new(board, device, history);
    law_erase_sector(address, board, device, history);
    law_program_page(address, source, len, board, device, history);
    law_drop(algo, board, device, history);
}

/// Every operation ends, whatever the hardware answers: no poll goes on for ever.
pub proof fn law_every_operation_ends(
    algo: Ws63Algo,
    address: u32,
    source: u32,
    len: u32,
    device: Device,
    history: Seq<Event>,
)
    ensures
        run(plan::new(), device, history).0.len() <= history.len() + new_ops(),
        run(plan::erase_sector(address), device, history).0.len() <= history.len() + 2
            * command_ops() + ready_ops(),
        run(plan::program_page(address, source, len), device, history).0.len() <= history.len()
            + program_ops(),
        run(plan::drop(algo), device, history).0.len() <= history.len() + drop_ops(),
{
    let board = arbitrary::<Board>();
    law_new(board, device, history);
    law_erase_sector(address, board, device, history);
    law_program_page(address, source, len, board, device, history);
    law_drop(algo, board, device, history);
}

/// However often the routine that takes over has been resumed, it is bounded.
pub proof fn law_driven_new_ends(
    states: Seq<Init>,
    steps: Seq<Step<Result<Ws63Algo, Error>>>,
    device: Device,
    history: Seq<Event>,
    reply: u32,
)
    requires
        driven(states, steps, device, history, reply),
        states[0].plan(reply) == plan::new(),
    ensures
        steps.len() <= new_ops() + 1,
{
    law_driven_routine_keeps_to_its_plan(states, steps, device, history, reply);
    law_new(arbitrary::<Board>(), device, history);
}

/// However often the routine that erases has been resumed, it is bounded.
pub proof fn law_driven_erase_ends(
    states: Seq<EraseSector>,
    steps: Seq<Step<Result<(), Error>>>,
    address: u32,
    device: Device,
    history: Seq<Event>,
    reply: u32,
)
    requires
        driven(states, steps, device, history, reply),
        states[0].plan(reply) == plan::erase_sector(address),
    ensures
        steps.len() <= 2 * command_ops() + ready_ops() + 1,
{
    law_driven_routine_keeps_to_its_plan(states, steps, device, history, reply);
    law_erase_sector(address, arbitrary::<Board>(), device, history);
}

/// However often the routine that programs has been resumed, it is bounded.
pub proof fn law_driven_program_ends(
    states: Seq<DmaWrite>,
    steps: Seq<Step<Result<(), Error>>>,
    address: u32,
    source: u32,
    len: u32,
    device: Device,
    history: Seq<Event>,
    reply: u32,
)
    requires
        driven(states, steps, device, history, reply),
        states[0].plan(reply) == plan::program_page(address, source, len),
    ensures
        steps.len() <= program_ops() + 1,
{
    law_driven_routine_keeps_to_its_plan(states, steps, device, history, reply);
    law_program_page(address, source, len, arbitrary::<Board>(), device, history);
}

/// However often the routine that gives back has been resumed, it is bounded.
pub proof fn law_driven_drop_ends(
    states: Seq<Uninit>,
    steps: Seq<Step<()>>,
    algo: Ws63Algo,
    device: Device,
    history: Seq<Event>,
    reply: u32,
)
    requires
        driven(states, steps, device, history, reply),
        states[0].plan(reply) == plan::drop(algo),
    ensures
        steps.len() <= drop_ops() + 1,
{
    law_driven_routine_keeps_to_its_plan(states, steps, device, history, reply);
    law_drop(algo, arbitrary::<Board>(), device, history);
}

/// A pause lies between any two samples that a wait for the chip takes.
pub proof fn law_samples_are_separated(
    left: nat,
    device: Device,
    history: Seq<Event>,
    i: int,
    j: int,
)
    requires
        left >= 1,
        history.len() <= i < j < run(plan::wip_poll(left), device, history).0.len(),
        is_sample(run(plan::wip_poll(left), device, history).0[i]),
        is_sample(run(plan::wip_poll(left), device, history).0[j]),
    ensures
        exists|k: int|
            i < k < j && (#[trigger] run(plan::wip_poll(left), device, history).0[k]).op == (
            BusOp::Delay { micros: WIP_SAMPLE_PAUSE_US }),
    decreases left,
{
    let end = run(plan::wip_poll(left), device, history).0;
    let rest = |_done: ()| plan::wip_data(left);
    lemma_run_chain(plan::command(status_read()), rest, device, history);
    lemma_no_sample_in_command(device, history);
    let h1 = run(plan::command(status_read()), device, history).0;
    let read = BusOp::Read { addr: CMD_DATABUF };
    let reply = reply_to(device, h1, read);
    let h2 = record(device, h1, read);
    assert(run(plan::wip_data(left), device, h1) == run(plan::wip_seen(left, reply), device, h2));
    lemma_run_extends(plan::wip_data(left), device, h1);
    lemma_run_extends(plan::wip_seen(left, reply), device, h2);
    let pause = BusOp::Delay { micros: WIP_SAMPLE_PAUSE_US };
    let h3 = record(device, h2, pause);
    if reply & 1 == 0 || left <= 1 {
        assert(end == h2);
        assert(end[i] == h1[i]);
    } else {
        assert(run(plan::wip_seen(left, reply), device, h2) == run(
            plan::wip_poll((left - 1) as nat),
            device,
            h3,
        ));
        lemma_run_extends(plan::wip_poll((left - 1) as nat), device, h3);
        assert(end[h2.len() as int] == h3[h2.len() as int]);
        if i < h1.len() {
            assert(end[i] == h1[i]);
        } else if i == h1.len() {
            assert(end[h2.len() as int].op == pause);
        } else {
            assert(i != h2.len());
            law_samples_are_separated((left - 1) as nat, device, h3, i, j);
        }
    }
}

/// Each sector that the host knows of is erased by one command that covers it
/// exactly, and it lies in its area as a whole.
pub proof fn law_erase_matches_geometry(address: u32)
    requires
        starts_sector(address),
    ensures
        sector_size(address) == area(address).sector_size,
        flash_offset(address) % sector_size(address) == 0,
        address + sector_size(address) <= area(address).end,
{
    if starts_block(address) {
        assert(flash_offset(address) % 0x1_0000 == 0);
    } else if BLOCK_AREA_START <= address < BLOCK_AREA_END {
        assert((address - BLOCK_AREA_START) % 0x1_0000 == 0);
    } else {
        assert((address - area(address).start) % 0x1000 == 0);
        assert(flash_offset(address) % 0x1000 == 0);
    }
}

/// No erase that is asked for below the NV partition touches it, and a block erase
/// stays inside the block area.
pub proof fn law_erase_spares_nv(address: u32, cells: spec_fn(int) -> u8, at: int)
    requires
        XIP_BASE <= address < NV_START,
    ensures
        at >= flash_offset(NV_START) ==> erased(
            cells,
            flash_offset(address),
            sector_size(address) as int,
        )(at) == cells(at),
        sector_opcode(address) == OP_BE_64K && !(flash_offset(BLOCK_AREA_START) <= at
            < flash_offset(BLOCK_AREA_END)) ==> erased(
            cells,
            flash_offset(address),
            sector_size(address) as int,
        )(at) == cells(at),
{
    let offset = flash_offset(address) as int;
    if starts_block(address) {
        assert(offset % 0x1_0000 == 0);
    } else {
        assert(offset - offset % 0x1000 + 0x1000 <= flash_offset(NV_START));
    }
}

/// What is erased and then programmed reads as it was handed over: on a board that
/// is ready, a batch that is programmed over empty bytes is what the array holds
/// afterwards, and the bytes around it keep their values.
pub proof fn law_programmed_bytes_read_back(
    address: u32,
    source: u32,
    len: u32,
    board: Board,
    device: Device,
    history: Seq<Event>,
    at: int,
)
    requires
        board.at(history).ready(),
        forall|i: int|
            flash_offset(address) <= i < flash_offset(address) + len ==> #[trigger] (board.at(
                history,
            ).chip.cells)(i) == EMPTY_VALUE,
    ensures
        ({
            let before = board.at(history);
            let end = run(plan::program_page(address, source, len), device, history).0;
            let after = board.at(end);
            let offset = flash_offset(address);
            (after.chip.cells)(at) == if offset <= at < offset + len {
                (before.ram)(source + (at - offset))
            } else {
                (before.chip.cells)(at)
            }
        }),
{
    law_program_page(address, source, len, board, device, history);
    let before = board.at(history);
    let offset = flash_offset(address);
    if offset <= at < offset + len {
        let byte = (before.ram)(source + (at - offset));
        assert((before.chip.cells)(at) == EMPTY_VALUE);
        assert(0xFFu8 & byte == byte) by (bit_vector);
    }
}

/// The boot code accepts these status registers.
pub open spec fn boot_accepts(status: Status) -> bool {
    &&& status.sr1 & 0x9C == 0x1C
    &&& status.sr2 & 0x43 == 0x02
    &&& status.sr3 & 0x61 == 0x20
}

/// Giving back leaves status registers that the boot code accepts, if each that
/// was found is zero or one that it accepts.
pub proof fn law_restored_status_boots(algo: Ws63Algo)
    requires
        algo.saved_sr1 == 0 || algo.saved_sr1 & 0x9C == 0x1C,
        algo.saved_sr2 == 0 || algo.saved_sr2 & 0x43 == 0x02,
        algo.saved_sr3 == 0 || algo.saved_sr3 & 0x61 == 0x20,
    ensures
        boot_accepts(restored(algo)),
{
    let sr1 = status_to_restore(algo.saved_sr1, EXPECTED_SR1);
    assert((sr1 & 0xFC) & 0x9C == sr1 & 0x9C) by (bit_vector);
    assert(0x1Cu8 & 0x9C == 0x1C && 0x02u8 & 0x43 == 0x02 && 0x20u8 & 0x61 == 0x20)
        by (bit_vector);
}

} // verus!
