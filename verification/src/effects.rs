//! What the parts of the operations do to the board.

use vstd::prelude::*;

use crate::board::{
    changes, in_order, is_status_read, lemma_at_record, lemma_changes_push, lemma_status_read,
    may_follow, orderly, Board, Chip, Effect,
};
use crate::bus::{
    lemma_run_chain, lemma_run_extends, record, reply_to, run, BusOp, Device, Event, Plan,
};
use crate::error::Error;
use crate::nor::{OP_RDSR, OP_RDSR2, OP_RDSR3, OP_RSTEN, WIP_SAMPLE_PAUSE_US};
use crate::plan;
use crate::sfc::{
    Command, Transfer, BUS_DMA_CTRL, CMD_ADDR, CMD_CONFIG, CMD_DATABUF, CMD_INS, WIP_POLL_LIMIT,
};

verus! {

/// The poll of the start bit leaves the board alone and is bounded.
pub proof fn lemma_cmd_done_poll(left: nat, board: Board, device: Device, history: Seq<Event>)
    ensures
        ({
            let end = run(plan::cmd_done_poll(left), device, history).0;
            &&& board.at(end) == board.at(history)
            &&& history.len() < end.len() <= history.len() + left + 1
        }),
    decreases left,
{
    let op = BusOp::Read { addr: CMD_CONFIG };
    let reply = reply_to(device, history, op);
    lemma_at_record(board, device, history, op);
    reveal_with_fuel(run, 2);
    if !(reply & 1 == 0 || left == 0) {
        lemma_cmd_done_poll((left - 1) as nat, board, device, record(device, history, op));
    }
}

/// The poll of the bus-DMA engine leaves the board alone and is bounded.
pub proof fn lemma_dma_done_poll(left: nat, board: Board, device: Device, history: Seq<Event>)
    requires
        left >= 1,
    ensures
        ({
            let (end, result) = run(plan::dma_done_poll(left), device, history);
            &&& board.at(end) == board.at(history)
            &&& history.len() < end.len() <= history.len() + left
            &&& result == if end.last().reply & 1 == 0 {
                Ok(())
            } else {
                Err(Error::DmaTimeout)
            }
            &&& result is Err ==> end.len() == history.len() + left
        }),
    decreases left,
{
    let op = BusOp::Read { addr: BUS_DMA_CTRL };
    let reply = reply_to(device, history, op);
    lemma_at_record(board, device, history, op);
    reveal_with_fuel(run, 2);
    if !(reply & 1 == 0 || left <= 1) {
        lemma_dma_done_poll((left - 1) as nat, board, device, record(device, history, op));
    }
}

/// A write to a register changes the board and nothing else.
pub proof fn lemma_write<R>(
    addr: u32,
    val: u32,
    rest: Plan<R>,
    board: Board,
    device: Device,
    history: Seq<Event>,
)
    ensures
        ({
            let next = record(device, history, BusOp::Write { addr, val });
            &&& run(plan::write(addr, val, rest), device, history) == run(rest, device, next)
            &&& board.at(next) == board.at(history).written(addr, val)
            &&& next.len() == history.len() + 1
        }),
{
    lemma_at_record(board, device, history, BusOp::Write { addr, val });
}

/// The most operations that one command takes: four writes and the poll.
pub open spec fn command_ops() -> nat {
    4 + (WIP_POLL_LIMIT as nat + 1)
}

/// The board once `command` was put into its registers and started.
pub open spec fn commanded(board: Board, command: Command) -> Board {
    Board {
        data: match command.data_word() {
            Some(word) => word,
            None => board.data,
        },
        ins: command.opcode,
        addr: match command.addr {
            Some(addr) => addr,
            None => board.addr,
        },
        config: command.config(),
        ..board
    }.sent(command)
}

/// A command reaches the chip as it was meant.
pub proof fn lemma_command(command: Command, board: Board, device: Device, history: Seq<Event>)
    ensures
        ({
            let end = run(plan::command(command), device, history).0;
            &&& board.at(end) == commanded(board.at(history), command)
            &&& history.len() < end.len() <= history.len() + command_ops()
        }),
{
    let h1 = match command.data_word() {
        Some(val) => {
            lemma_write(CMD_DATABUF, val, plan::command_opcode(command), board, device, history);
            record(device, history, BusOp::Write { addr: CMD_DATABUF, val })
        },
        None => history,
    };
    lemma_write(CMD_INS, command.opcode, plan::command_addr(command), board, device, h1);
    let h2 = record(device, h1, BusOp::Write { addr: CMD_INS, val: command.opcode });
    let h3 = match command.addr {
        Some(val) => {
            lemma_write(CMD_ADDR, val, plan::command_start(command), board, device, h2);
            record(device, h2, BusOp::Write { addr: CMD_ADDR, val })
        },
        None => h2,
    };
    lemma_write(CMD_CONFIG, command.config(), plan::wait_cmd_done(), board, device, h3);
    let h4 = record(device, h3, BusOp::Write { addr: CMD_CONFIG, val: command.config() });
    lemma_cmd_done_poll(WIP_POLL_LIMIT as nat, board, device, h4);
    let before = Board { config: command.config(), ..board.at(h3) };
    assert(before.described() == command);
}

/// The read of status register 1 that a sample of the write-in-progress bit makes.
pub open spec fn status_read() -> Command {
    Command::with(OP_RDSR, Transfer::ReadByte)
}

/// Between `before` and `after` the chip was sampled, at least once, and nothing
/// else happened.
pub open spec fn only_sampled(before: Board, after: Board) -> bool {
    &&& after == Board {
        ins: OP_RDSR,
        config: status_read().config(),
        chip: Chip { reset_armed: false, ..before.chip },
        log: after.log,
        ..before
    }
    &&& before.log.len() < after.log.len()
    &&& forall|i: int| 0 <= i < before.log.len() ==> after.log[i] == before.log[i]
    &&& forall|i: int|
        before.log.len() <= i < after.log.len() ==> after.log[i] == Effect::Command(status_read())
}

/// The most operations that a wait for the chip takes: in each sample a command, the
/// read of the status byte and the pause.
pub open spec fn ready_ops() -> nat {
    WIP_POLL_LIMIT as nat * (command_ops() + 2)
}

/// The poll of the write-in-progress bit samples the chip and is bounded.
pub proof fn lemma_wip_poll(left: nat, board: Board, device: Device, history: Seq<Event>)
    requires
        left >= 1,
    ensures
        ({
            let (end, result) = run(plan::wip_poll(left), device, history);
            &&& only_sampled(board.at(history), board.at(end))
            &&& is_sample(end.last())
            &&& result == if end.last().reply & 1 == 0 {
                Ok(())
            } else {
                Err(Error::WipTimeout)
            }
            &&& board.at(end).log.len() <= board.at(history).log.len() + left
            &&& result is Err ==> board.at(end).log.len() == board.at(history).log.len() + left
            &&& end.len() <= history.len() + left * (command_ops() + 2)
        }),
    decreases left,
{
    let rest = |_done: ()| plan::wip_data(left);
    lemma_run_chain(plan::command(status_read()), rest, device, history);
    lemma_command(status_read(), board, device, history);
    reveal(Chip::commanded);
    let h1 = run(plan::command(status_read()), device, history).0;
    let read = BusOp::Read { addr: CMD_DATABUF };
    let reply = reply_to(device, h1, read);
    let h2 = record(device, h1, read);
    lemma_at_record(board, device, h1, read);
    assert(run(plan::wip_data(left), device, h1) == run(plan::wip_seen(left, reply), device, h2));
    let now = board.at(h2);
    assert(only_sampled(board.at(history), now));
    assert(left * (command_ops() + 2) == command_ops() + 2 + (left - 1) * (command_ops() + 2))
        by (nonlinear_arith);
    assert((left - 1) * (command_ops() + 2) >= 0) by (nonlinear_arith)
        requires
            left >= 1,
    ;
    if !(reply & 1 == 0 || left <= 1) {
        let pause = BusOp::Delay { micros: WIP_SAMPLE_PAUSE_US };
        let h3 = record(device, h2, pause);
        lemma_at_record(board, device, h2, pause);
        assert(run(plan::wip_seen(left, reply), device, h2) == run(
            plan::wip_poll((left - 1) as nat),
            device,
            h3,
        ));
        lemma_wip_poll((left - 1) as nat, board, device, h3);
    }
}

/// Two commands in a row reach the chip as they were meant, and after them the
/// chip is only sampled.
pub proof fn lemma_command_pair(
    first: Command,
    second: Command,
    board: Board,
    device: Device,
    history: Seq<Event>,
)
    ensures
        ({
            let end = run(plan::command_pair(first, second), device, history).0;
            &&& only_sampled(
                commanded(commanded(board.at(history), first), second),
                board.at(end),
            )
            &&& is_sample(end.last())
            &&& board.at(end).log.len() <= board.at(history).log.len() + 2 + 16_384
            &&& end.last().reply & 1 == 0 || board.at(end).log.len() == board.at(history).log.len()
                + 2 + 16_384
            &&& end.len() <= history.len() + 2 * command_ops() + ready_ops()
        }),
{
    let h1 = run(plan::command(first), device, history).0;
    lemma_command(first, board, device, history);
    lemma_run_chain(
        plan::command(first),
        |_done: ()| plan::command_then_ready(second),
        device,
        history,
    );
    let h2 = run(plan::command(second), device, h1).0;
    lemma_command(second, board, device, h1);
    lemma_run_chain(
        plan::command(second),
        |_done: ()| plan::wait_ready_best_effort(),
        device,
        h1,
    );
    lemma_wip_poll(WIP_POLL_LIMIT as nat, board, device, h2);
    lemma_run_chain(
        plan::wait_ready(),
        |_ready: Result<(), Error>| Plan::Return(()),
        device,
        h2,
    );
}

/// Samples of the chip change nothing.
pub proof fn lemma_changes_sampled(before: Seq<Effect>, after: Seq<Effect>)
    requires
        before.len() <= after.len(),
        forall|i: int| 0 <= i < before.len() ==> after[i] == before[i],
        forall|i: int|
            before.len() <= i < after.len() ==> after[i] == Effect::Command(status_read()),
    ensures
        changes(after) == changes(before),
    decreases after.len(),
{
    if before.len() == after.len() {
        assert(before =~= after);
    } else {
        lemma_changes_sampled(before, after.drop_last());
    }
}

/// Samples of the chip keep the order, wherever they stand but in a reset.
pub proof fn lemma_orderly_sampled(before: Seq<Effect>, after: Seq<Effect>)
    requires
        orderly(before),
        before.len() <= after.len(),
        forall|i: int| 0 <= i < before.len() ==> after[i] == before[i],
        forall|i: int|
            before.len() <= i < after.len() ==> after[i] == Effect::Command(status_read()),
    ensures
        orderly(after),
{
    assert forall|i: int| 0 <= i < after.len() implies #[trigger] in_order(after, i) by {
        if i < before.len() {
            assert(in_order(before, i));
        }
    }
}

/// An effect that needs nothing before it keeps the order.
pub proof fn lemma_orderly_push(log: Seq<Effect>, effect: Effect)
    requires
        orderly(log),
        may_follow(None, effect),
    ensures
        forall|i: int| 0 <= i <= log.len() ==> #[trigger] in_order(log.push(effect), i),
        effect != Effect::Command(Command::bare(OP_RSTEN)) ==> orderly(log.push(effect)),
{
    let longer = log.push(effect);
    assert forall|i: int| 0 <= i <= log.len() implies #[trigger] in_order(longer, i) by {
        if i < log.len() {
            assert(in_order(log, i));
        }
    }
}

/// An effect and one that may follow it keep the order.
pub proof fn lemma_orderly_pair(log: Seq<Effect>, first: Effect, second: Effect)
    requires
        orderly(log),
        may_follow(None, first),
        may_follow(Some(first), second),
        second != Effect::Command(Command::bare(OP_RSTEN)),
    ensures
        orderly(log.push(first).push(second)),
{
    lemma_orderly_push(log, first);
    let longer = log.push(first).push(second);
    assert forall|i: int| 0 <= i < longer.len() implies #[trigger] in_order(longer, i) by {
        if i <= log.len() {
            assert(in_order(log.push(first), i));
        }
    }
}

/// The effects of a command and one that follows it.
pub open spec fn pair_effects(first: Command, second: Command) -> Seq<Effect> {
    seq![Effect::Command(first), Effect::Command(second)]
}

/// [`lemma_command_pair`] in terms of what it changes.
pub proof fn lemma_pair_changes(
    first: Command,
    second: Command,
    board: Board,
    device: Device,
    history: Seq<Event>,
)
    requires
        !is_status_read(Effect::Command(first)),
        !is_status_read(Effect::Command(second)),
        may_follow(None, Effect::Command(first)),
        may_follow(Some(Effect::Command(first)), Effect::Command(second)),
        second.opcode != OP_RSTEN,
    ensures
        ({
            let end = run(plan::command_pair(first, second), device, history).0;
            let before = board.at(history);
            let after = board.at(end);
            &&& changes(after.log) == changes(before.log) + pair_effects(first, second)
            &&& orderly(before.log) ==> orderly(after.log)
            &&& after.chip == Chip {
                reset_armed: false,
                ..before.chip.commanded(first).commanded(second)
            }
            &&& after.bus_config1 == before.bus_config1
            &&& after.dma_ahb_ctrl == before.dma_ahb_ctrl
            &&& after.dma_ctrl == before.dma_ctrl
            &&& after.ram == before.ram
        }),
{
    lemma_command_pair(first, second, board, device, history);
    let before = board.at(history);
    let between = commanded(before, first);
    let sent = commanded(between, second);
    let after = board.at(run(plan::command_pair(first, second), device, history).0);
    lemma_changes_push(before.log, Effect::Command(first));
    lemma_changes_push(between.log, Effect::Command(second));
    lemma_changes_sampled(sent.log, after.log);
    assert(changes(after.log) =~= changes(before.log) + pair_effects(first, second));
    if orderly(before.log) {
        lemma_orderly_pair(before.log, Effect::Command(first), Effect::Command(second));
        lemma_orderly_sampled(sent.log, after.log);
    }
}

/// A status register is read with one command and one read of the data buffer.
pub proof fn lemma_read_status(rdsr_op: u32, board: Board, device: Device, history: Seq<Event>)
    requires
        rdsr_op == OP_RDSR || rdsr_op == OP_RDSR2 || rdsr_op == OP_RDSR3,
    ensures
        ({
            let (end, byte) = run(plan::read_status_register_op(rdsr_op), device, history);
            let before = board.at(history);
            let after = board.at(end);
            &&& changes(after.log) == changes(before.log)
            &&& orderly(before.log) ==> orderly(after.log)
            &&& after.chip == (Chip { reset_armed: false, ..before.chip })
            &&& after.ins == rdsr_op
            &&& after.bus_config1 == before.bus_config1
            &&& after.dma_ahb_ctrl == before.dma_ahb_ctrl
            &&& after.ram == before.ram
            &&& history.len() < end.len() <= history.len() + command_ops() + 1
            &&& is_sample(end.last())
            &&& byte == (end.last().reply & 0xFF) as u8
            &&& exists|asked: Seq<Event>| #[trigger]
                board.at(asked) == after && byte == (device(asked, CMD_DATABUF) & 0xFF) as u8
        }),
{
    let command = Command::with(rdsr_op, Transfer::ReadByte);
    lemma_run_chain(plan::command(command), |_done: ()| plan::status_byte(), device, history);
    lemma_command(command, board, device, history);
    let before = board.at(history);
    lemma_status_read(before.chip, command);
    lemma_changes_push(before.log, Effect::Command(command));
    if orderly(before.log) {
        lemma_orderly_push(before.log, Effect::Command(command));
    }
    let asked = run(plan::command(command), device, history).0;
    let read = BusOp::Read { addr: CMD_DATABUF };
    lemma_at_record(board, device, asked, read);
    reveal_with_fuel(run, 2);
    let end = record(device, asked, read);
    assert(run(plan::status_byte(), device, asked) == (
        end,
        (device(asked, CMD_DATABUF) & 0xFF) as u8,
    ));
    assert(board.at(asked) == board.at(end));
}

/// `event` is a sample of the write-in-progress bit.
pub open spec fn is_sample(event: Event) -> bool {
    event.op == (BusOp::Read { addr: CMD_DATABUF })
}

/// A status read takes no sample before it is done.
pub proof fn lemma_no_sample_in_command(device: Device, history: Seq<Event>)
    ensures
        ({
            let end = run(plan::command(status_read()), device, history).0;
            &&& history.len() <= end.len()
            &&& forall|i: int| history.len() <= i < end.len() ==> !is_sample(#[trigger] end[i])
        }),
{
    let ins = BusOp::Write { addr: CMD_INS, val: OP_RDSR };
    let h1 = record(device, history, ins);
    let start = BusOp::Write { addr: CMD_CONFIG, val: status_read().config() };
    let h2 = record(device, h1, start);
    reveal_with_fuel(run, 3);
    assert(run(plan::command(status_read()), device, history) == run(
        plan::wait_cmd_done(),
        device,
        h2,
    ));
    lemma_no_sample_in_poll(WIP_POLL_LIMIT as nat, device, h2);
    lemma_run_extends(plan::wait_cmd_done(), device, h2);
    let end = run(plan::wait_cmd_done(), device, h2).0;
    assert forall|i: int| history.len() <= i < end.len() implies !is_sample(#[trigger] end[i]) by {
        if i < h2.len() {
            assert(end[i] == h2[i]);
        }
    }
}

/// The poll of the start bit takes no sample.
pub proof fn lemma_no_sample_in_poll(left: nat, device: Device, history: Seq<Event>)
    ensures
        ({
            let end = run(plan::cmd_done_poll(left), device, history).0;
            forall|i: int| history.len() <= i < end.len() ==> !is_sample(#[trigger] end[i])
        }),
    decreases left,
{
    let op = BusOp::Read { addr: CMD_CONFIG };
    let reply = reply_to(device, history, op);
    let next = record(device, history, op);
    reveal_with_fuel(run, 2);
    lemma_run_extends(plan::cmd_done_seen(left, reply), device, next);
    if !(reply & 1 == 0 || left == 0) {
        lemma_no_sample_in_poll((left - 1) as nat, device, next);
    }
    let end = run(plan::cmd_done_poll(left), device, history).0;
    assert(end[history.len() as int] == next[history.len() as int]);
}

} // verus!
