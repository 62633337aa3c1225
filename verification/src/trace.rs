//! What the operations do on the bus, read off the history that they leave.
//!
//! The statements here name registers, opcodes and budgets by number, and say of the
//! recorded operations and replies alone what must hold of them.

use vstd::prelude::*;

use crate::algo::{
    agrees, area, flash_offset, page_program_config, sector_opcode, sector_size, starts_sector,
    Ws63Algo, EMPTY_VALUE, NV_START, PAGE_SIZE,
};
use crate::bus::{
    lemma_run_chain, lemma_run_extends, record, reply_to, run, BusOp, Device, Event, Plan,
};
use crate::error::Error;
use crate::plan;
use crate::sfc::{Command, Transfer};

verus! {

/// `to` is `from` and what was added to it.
pub open spec fn grows(from: Seq<Event>, to: Seq<Event>) -> bool {
    &&& from.len() <= to.len()
    &&& forall|i: int| 0 <= i < from.len() ==> #[trigger] to[i] == from[i]
}

/// Between `from` and `to` there was `op` and nothing else.
pub open spec fn did(from: Seq<Event>, to: Seq<Event>, op: BusOp) -> bool {
    &&& grows(from, to)
    &&& to.len() == from.len() + 1
    &&& to.last().op == op
}

/// Between `from` and `to` the register at `addr` was read until its bit 0 was clear,
/// but no more than `most` times: every read but the last found the bit set, and the
/// last found it clear or was the last that is allowed.
#[verifier::opaque]
pub open spec fn polled(from: Seq<Event>, to: Seq<Event>, addr: u32, most: int) -> bool {
    &&& grows(from, to)
    &&& from.len() < to.len() <= from.len() + most
    &&& forall|i: int|
        from.len() <= i < to.len() ==> (#[trigger] to[i]).op == (BusOp::Read { addr })
    &&& forall|i: int| from.len() <= i < to.len() - 1 ==> (#[trigger] to[i]).reply & 1 != 0
    &&& to.last().reply & 1 == 0 || to.len() == from.len() + most
}

/// Between `from` and `to` one command was put into the registers and started, and
/// its start bit was polled: data word, opcode and chip offset where the command has
/// them, then the word that starts it.
#[verifier::opaque]
pub open spec fn sent(from: Seq<Event>, to: Seq<Event>, command: Command) -> bool {
    let start = from.len() as int;
    let data: int = match command.transfer {
        Transfer::WriteByte(_) => 1,
        Transfer::WriteBytes(_, _) => 1,
        _ => 0,
    };
    let addr: int = if command.addr is Some { 1 } else { 0 };
    let word: u32 = match (command.transfer, command.addr is Some) {
        (Transfer::Nothing, false) => 0x003,
        (Transfer::Nothing, true) => 0x00B,
        (Transfer::ReadByte, false) => 0x183,
        (Transfer::ReadByte, true) => 0x18B,
        (Transfer::WriteByte(_), false) => 0x083,
        (Transfer::WriteByte(_), true) => 0x08B,
        (Transfer::WriteBytes(_, _), false) => 0x283,
        (Transfer::WriteBytes(_, _), true) => 0x28B,
    };
    let polls = start + data + addr + 2;
    &&& grows(from, to)
    &&& polls < to.len()
    &&& command.transfer matches Transfer::WriteByte(byte) ==> to[start].op == (BusOp::Write {
        addr: 0x4800_0400,
        val: byte as u32,
    })
    &&& command.transfer matches Transfer::WriteBytes(low, high) ==> to[start].op == (
    BusOp::Write { addr: 0x4800_0400, val: (low + 256 * high) as u32 })
    &&& to[start + data].op == (BusOp::Write { addr: 0x4800_0308, val: command.opcode })
    &&& command.addr matches Some(offset) ==> to[start + data + 1].op == (BusOp::Write {
        addr: 0x4800_030C,
        val: offset,
    })
    &&& to[polls - 1].op == (BusOp::Write { addr: 0x4800_0300, val: word })
    &&& polled(to.take(polls), to, 0x4800_0300, 16_385)
}

/// A command without address and data.
pub open spec fn plain(opcode: u32) -> Command {
    Command { opcode, addr: None, transfer: Transfer::Nothing }
}

/// A command that writes data.
pub open spec fn writing(opcode: u32, transfer: Transfer) -> Command {
    Command { opcode, addr: None, transfer }
}

/// Between `from` and `to` a status register was read with `opcode`, and last of all
/// the data buffer, which holds it.
#[verifier::opaque]
pub open spec fn took_status(from: Seq<Event>, to: Seq<Event>, opcode: u32) -> bool {
    &&& from.len() < to.len()
    &&& sent(
        from,
        to.drop_last(),
        Command { opcode, addr: None, transfer: Transfer::ReadByte },
    )
    &&& to.last().op == (BusOp::Read { addr: 0x4800_0400 })
}

/// Between `from` and `to` status register 1 was sampled until its bit 0 was clear,
/// but no more than `most` times, with a pause of 100 microseconds between two
/// samples.
#[verifier::opaque]
pub open spec fn waited(from: Seq<Event>, to: Seq<Event>, most: nat) -> bool
    decreases most,
{
    exists|sampled: Seq<Event>|
        {
            &&& #[trigger] took_status(from, sampled, 0x05)
            &&& if sampled.last().reply & 1 == 0 || most <= 1 {
                to == sampled
            } else {
                &&& grows(sampled, to)
                &&& sampled.len() < to.len()
                &&& to[sampled.len() as int].op == (BusOp::Delay { micros: 100 })
                &&& waited(to.take(sampled.len() as int + 1), to, (most - 1) as nat)
            }
        }
}

/// Between `from` and `to` two commands were sent, one directly after the other, and
/// then the chip was waited for.
#[verifier::opaque]
pub open spec fn sent_pair(
    from: Seq<Event>,
    to: Seq<Event>,
    first: Command,
    second: Command,
) -> bool {
    exists|enabled: Seq<Event>, done: Seq<Event>|
        {
            &&& #[trigger] sent(from, enabled, first)
            &&& #[trigger] sent(enabled, done, second)
            &&& waited(done, to, 16_384)
        }
}

/// What a read returned in a run is what the hardware answered at that point, and
/// the run took nothing back.
pub proof fn law_replies_come_from_the_device<R>(
    plan: Plan<R>,
    device: Device,
    history: Seq<Event>,
    i: int,
    addr: u32,
)
    requires
        history.len() <= i < run(plan, device, history).0.len(),
        run(plan, device, history).0[i].op == (BusOp::Read { addr }),
    ensures
        ({
            let end = run(plan, device, history).0;
            &&& grows(history, end)
            &&& end[i].reply == device(end.take(i), addr)
        }),
    decreases plan,
{
    lemma_run_extends(plan, device, history);
    if let Plan::Do(op, next) = plan {
        let reply = reply_to(device, history, op);
        let longer = record(device, history, op);
        let end = run(plan, device, history).0;
        lemma_run_extends(next(reply), device, longer);
        if i == history.len() {
            assert(end[i] == longer[i]);
            assert(end.take(i) =~= history);
        } else {
            law_replies_come_from_the_device(next(reply), device, longer, i, addr);
        }
    }
}

/// A poll of the start bit that may go on for `left` reads after the first reads
/// `cmd_config` until the bit is clear, or `left + 1` times.
pub proof fn law_cmd_done_poll(left: nat, device: Device, history: Seq<Event>)
    ensures
        polled(
            history,
            run(plan::cmd_done_poll(left), device, history).0,
            0x4800_0300,
            left as int + 1,
        ),
    decreases left,
{
    reveal(polled);
    let op = BusOp::Read { addr: 0x4800_0300 };
    let reply = reply_to(device, history, op);
    let next = record(device, history, op);
    reveal_with_fuel(run, 2);
    if !(reply & 1 == 0 || left == 0) {
        law_cmd_done_poll((left - 1) as nat, device, next);
        let end = run(plan::cmd_done_poll(left), device, history).0;
        assert(end[history.len() as int] == next[history.len() as int]);
    }
}

/// Waiting for a command reads `cmd_config` until its start bit is clear, or 16,385
/// times; no read before the last finds the bit clear, whatever the other bits say.
pub proof fn law_wait_cmd_done(device: Device, history: Seq<Event>)
    ensures
        polled(history, run(plan::wait_cmd_done(), device, history).0, 0x4800_0300, 16_385),
{
    law_cmd_done_poll(16_384, device, history);
}

/// A poll of the bus-DMA engine with a budget of `left` reads, counted as one at least,
/// reads its control register until the start bit is clear, or until the budget is
/// spent, and succeeds exactly if the last read finds the bit clear.
pub proof fn law_dma_done_poll(left: nat, device: Device, history: Seq<Event>)
    ensures
        ({
            let (end, result) = run(plan::dma_done_poll(left), device, history);
            &&& polled(history, end, 0x4800_0240, if left == 0 { 1 } else { left as int })
            &&& result is Ok <==> end.last().reply & 1 == 0
            &&& result is Err ==> result->Err_0 is DmaTimeout
        }),
    decreases left,
{
    reveal(polled);
    let op = BusOp::Read { addr: 0x4800_0240 };
    let reply = reply_to(device, history, op);
    let next = record(device, history, op);
    reveal_with_fuel(run, 2);
    if !(reply & 1 == 0 || left <= 1) {
        law_dma_done_poll((left - 1) as nat, device, next);
        let end = run(plan::dma_done_poll(left), device, history).0;
        assert(end[history.len() as int] == next[history.len() as int]);
    }
}

/// Waiting for a transfer reads the control register of the bus-DMA engine, and no
/// other, until its start bit is clear, or 50,000,000 times. It succeeds exactly if
/// the last read finds the bit clear.
pub proof fn law_wait_dma_done(device: Device, history: Seq<Event>)
    ensures
        ({
            let (end, result) = run(plan::wait_dma_done(), device, history);
            &&& polled(history, end, 0x4800_0240, 50_000_000)
            &&& result is Ok <==> end.last().reply & 1 == 0
            &&& result is Err ==> result->Err_0 is DmaTimeout
        }),
{
    law_dma_done_poll(50_000_000, device, history);
}

/// A write is one operation.
proof fn lemma_did_write<R>(
    addr: u32,
    val: u32,
    rest: Plan<R>,
    device: Device,
    history: Seq<Event>,
)
    ensures
        ({
            let op = BusOp::Write { addr, val };
            let next = record(device, history, op);
            &&& run(plan::write(addr, val, rest), device, history) == run(rest, device, next)
            &&& did(history, next, op)
        }),
{
}

/// Issuing a command does what the command says: see [`sent`].
pub proof fn law_command(command: Command, device: Device, history: Seq<Event>)
    ensures
        sent(history, run(plan::command(command), device, history).0, command),
{
    reveal(sent);
    reveal(polled);
    let h1 = match command.data_word() {
        Some(val) => {
            lemma_did_write(0x4800_0400, val, plan::command_opcode(command), device, history);
            record(device, history, BusOp::Write { addr: 0x4800_0400, val })
        },
        None => history,
    };
    lemma_did_write(0x4800_0308, command.opcode, plan::command_addr(command), device, h1);
    let h2 = record(device, h1, BusOp::Write { addr: 0x4800_0308, val: command.opcode });
    let h3 = match command.addr {
        Some(val) => {
            lemma_did_write(0x4800_030C, val, plan::command_start(command), device, h2);
            record(device, h2, BusOp::Write { addr: 0x4800_030C, val })
        },
        None => h2,
    };
    lemma_did_write(0x4800_0300, command.config(), plan::wait_cmd_done(), device, h3);
    let h4 = record(device, h3, BusOp::Write { addr: 0x4800_0300, val: command.config() });
    law_wait_cmd_done(device, h4);
    let end = run(plan::wait_cmd_done(), device, h4).0;
    assert(end.take(h4.len() as int) =~= h4);
    assert(end[h4.len() - 1] == h4[h4.len() - 1]);
    assert(end[h1.len() as int] == h4[h1.len() as int]);
    if command.addr is Some {
        assert(end[h2.len() as int] == h4[h2.len() as int]);
    }
    if command.data_word() is Some {
        assert(end[history.len() as int] == h4[history.len() as int]);
    }
}

/// Reading a status register sends its opcode, waits, and returns the low byte of the
/// data buffer.
pub proof fn law_read_status_register_op(rdsr_op: u32, device: Device, history: Seq<Event>)
    ensures
        ({
            let (end, byte) = run(plan::read_status_register_op(rdsr_op), device, history);
            &&& took_status(history, end, rdsr_op)
            &&& byte == end.last().reply % 256
        }),
{
    reveal(took_status);
    reveal(sent);
    let command = Command { opcode: rdsr_op, addr: None, transfer: Transfer::ReadByte };
    lemma_run_chain(plan::command(command), |_done: ()| plan::status_byte(), device, history);
    law_command(command, device, history);
    let asked = run(plan::command(command), device, history).0;
    reveal_with_fuel(run, 2);
    let end = record(device, asked, BusOp::Read { addr: 0x4800_0400 });
    let reply = end.last().reply;
    assert(run(plan::status_byte(), device, asked) == (end, (reply & 0xFF) as u8));
    assert(end.drop_last() =~= asked);
    assert((reply & 0xFF) as u8 == reply % 256) by (bit_vector);
}

/// A wait for the chip with a budget of `left` samples, counted as one at least, takes
/// samples until the chip reports no write in progress, or until the budget is spent,
/// and succeeds exactly if the last sample finds the bit clear.
pub proof fn law_wip_poll(left: nat, device: Device, history: Seq<Event>)
    ensures
        ({
            let (end, result) = run(plan::wip_poll(left), device, history);
            &&& waited(history, end, if left == 0 { 1 } else { left })
            &&& end.last().op == (BusOp::Read { addr: 0x4800_0400 })
            &&& result is Ok <==> end.last().reply & 1 == 0
            &&& result is Err ==> result->Err_0 is WipTimeout
        }),
    decreases left,
{
    reveal(took_status);
    reveal(sent);
    reveal_with_fuel(waited, 2);
    let command = Command { opcode: 0x05, addr: None, transfer: Transfer::ReadByte };
    lemma_run_chain(plan::command(command), |_done: ()| plan::wip_data(left), device, history);
    law_command(command, device, history);
    let asked = run(plan::command(command), device, history).0;
    let read = BusOp::Read { addr: 0x4800_0400 };
    let reply = reply_to(device, asked, read);
    let sampled = record(device, asked, read);
    assert(sampled.drop_last() =~= asked);
    assert(took_status(history, sampled, 0x05));
    assert(run(plan::wip_data(left), device, asked) == run(
        plan::wip_seen(left, reply),
        device,
        sampled,
    ));
    if !(reply & 1 == 0 || left <= 1) {
        let pause = BusOp::Delay { micros: 100 };
        let paused = record(device, sampled, pause);
        assert(run(plan::wip_seen(left, reply), device, sampled) == run(
            plan::wip_poll((left - 1) as nat),
            device,
            paused,
        ));
        law_wip_poll((left - 1) as nat, device, paused);
        lemma_run_extends(plan::wip_poll((left - 1) as nat), device, paused);
        let end = run(plan::wip_poll(left), device, history).0;
        assert(end.take(sampled.len() as int + 1) =~= paused);
        assert(end[sampled.len() as int] == paused[sampled.len() as int]);
        assert(grows(sampled, end)) by {
            assert forall|i: int| 0 <= i < sampled.len() implies #[trigger] end[i]
                == sampled[i] by {
                assert(end[i] == paused[i]);
            }
        }
    }
}

/// Waiting for the chip samples status register 1 until it reports no write in
/// progress, or 16,384 times, with a pause between two samples. It succeeds exactly if
/// the last sample finds the bit clear.
pub proof fn law_wait_ready(device: Device, history: Seq<Event>)
    ensures
        ({
            let (end, result) = run(plan::wait_ready(), device, history);
            &&& waited(history, end, 16_384)
            &&& result is Ok <==> end.last().reply & 1 == 0
            &&& result is Err ==> result->Err_0 is WipTimeout
        }),
{
    law_wip_poll(16_384, device, history);
}

/// Two commands in a row are followed by a wait for the chip. The wait is a whole one:
/// it does not end while the chip reports a write in progress, unless 16,384 samples
/// were taken.
pub proof fn law_command_pair(
    first: Command,
    second: Command,
    device: Device,
    history: Seq<Event>,
)
    ensures
        sent_pair(
            history,
            run(plan::command_pair(first, second), device, history).0,
            first,
            second,
        ),
{
    reveal(sent_pair);
    law_command(first, device, history);
    let enabled = run(plan::command(first), device, history).0;
    lemma_run_chain(
        plan::command(first),
        |_done: ()| plan::command_then_ready(second),
        device,
        history,
    );
    law_command(second, device, enabled);
    let done = run(plan::command(second), device, enabled).0;
    lemma_run_chain(
        plan::command(second),
        |_done: ()| plan::wait_ready_best_effort(),
        device,
        enabled,
    );
    law_wait_ready(device, done);
    lemma_run_chain(
        plan::wait_ready(),
        |_ready: Result<(), Error>| Plan::Return(()),
        device,
        done,
    );
    let end = run(plan::wait_ready(), device, done).0;
    assert(sent(history, enabled, first) && sent(enabled, done, second) && waited(
        done,
        end,
        16_384,
    ));
}

/// Write enable is opcode 0x06.
pub proof fn law_write_enable(device: Device, history: Seq<Event>)
    ensures
        sent(history, run(plan::write_enable(), device, history).0, plain(0x06)),
{
    law_command(plain(0x06), device, history);
}

/// A reset is 0x66, directly followed by 0x99, and a wait.
pub proof fn law_flash_software_reset(device: Device, history: Seq<Event>)
    ensures
        sent_pair(
            history,
            run(plan::flash_software_reset(), device, history).0,
            plain(0x66),
            plain(0x99),
        ),
{
    law_command_pair(plain(0x66), plain(0x99), device, history);
}

/// A status write is write enable, the opcode with the byte, and a wait.
pub proof fn law_write_status_register_op(
    wrsr_op: u32,
    val: u8,
    device: Device,
    history: Seq<Event>,
)
    ensures
        sent_pair(
            history,
            run(plan::write_status_register_op(wrsr_op, val), device, history).0,
            plain(0x06),
            writing(wrsr_op, Transfer::WriteByte(val)),
        ),
{
    law_command_pair(
        plain(0x06),
        writing(wrsr_op, Transfer::WriteByte(val)),
        device,
        history,
    );
}

/// The write of status registers 1 and 2 is write enable, 0x01 with both bytes, the
/// first register first, and a wait.
pub proof fn law_write_status_registers_sr1_sr2(
    sr1: u8,
    sr2: u8,
    device: Device,
    history: Seq<Event>,
)
    ensures
        sent_pair(
            history,
            run(plan::write_status_registers_sr1_sr2(sr1, sr2), device, history).0,
            plain(0x06),
            writing(0x01, Transfer::WriteBytes(sr1, sr2)),
        ),
{
    law_command_pair(
        plain(0x06),
        writing(0x01, Transfer::WriteBytes(sr1, sr2)),
        device,
        history,
    );
}

/// The volatile write of status register 1 is 0x50, 0x01 with the byte, and a wait.
pub proof fn law_write_volatile_status_register(val: u8, device: Device, history: Seq<Event>)
    ensures
        sent_pair(
            history,
            run(plan::write_volatile_status_register(val), device, history).0,
            plain(0x50),
            writing(0x01, Transfer::WriteByte(val)),
        ),
{
    law_command_pair(
        plain(0x50),
        writing(0x01, Transfer::WriteByte(val)),
        device,
        history,
    );
}

/// Between `from` and `to` the bus-DMA engine was set up and started, and its control
/// register was polled: a write enable command, then chip offset, source, length less
/// one, burst modes and the start word, in this order.
#[verifier::opaque]
pub open spec fn transferred(
    from: Seq<Event>,
    to: Seq<Event>,
    offset: u32,
    source: u32,
    len: u32,
) -> bool {
    exists|enabled: Seq<Event>|
        {
            let at = enabled.len() as int;
            &&& #[trigger] sent(from, enabled, plain(0x06))
            &&& grows(enabled, to)
            &&& at + 5 < to.len()
            &&& to[at].op == (BusOp::Write { addr: 0x4800_0248, val: offset })
            &&& to[at + 1].op == (BusOp::Write { addr: 0x4800_0244, val: source })
            &&& to[at + 2].op == (BusOp::Write { addr: 0x4800_024C, val: (len - 1) as u32 })
            &&& to[at + 3].op == (BusOp::Write { addr: 0x4800_0250, val: 0x7 })
            &&& to[at + 4].op == (BusOp::Write { addr: 0x4800_0240, val: 0x11 })
            &&& polled(to.take(at + 5), to, 0x4800_0240, 50_000_000)
        }
}

/// A bus-DMA write of nothing does nothing and succeeds. Any other is one transfer,
/// and it succeeds exactly if its last operation, a read of the control register of
/// the engine, finds the start bit clear.
pub proof fn law_dma_write(
    offset: u32,
    source: u32,
    len: u32,
    device: Device,
    history: Seq<Event>,
)
    ensures
        ({
            let (end, result) = run(plan::dma_write(offset, source, len), device, history);
            &&& len == 0 ==> end == history && result is Ok
            &&& len != 0 ==> {
                &&& transferred(history, end, offset, source, len)
                &&& end.last().op == (BusOp::Read { addr: 0x4800_0240 })
                &&& result is Ok <==> end.last().reply & 1 == 0
                &&& result is Err ==> result->Err_0 is DmaTimeout
            }
        }),
{
    reveal(transferred);
    reveal(polled);
    if len != 0 {
        law_write_enable(device, history);
        let h0 = run(plan::write_enable(), device, history).0;
        lemma_run_chain(
            plan::write_enable(),
            |_done: ()| plan::dma_transfer(offset, source, len),
            device,
            history,
        );
        lemma_did_write(0x4800_0248, offset, plan::dma_source(source, len), device, h0);
        let h1 = record(device, h0, BusOp::Write { addr: 0x4800_0248, val: offset });
        lemma_did_write(0x4800_0244, source, plan::dma_len(len), device, h1);
        let h2 = record(device, h1, BusOp::Write { addr: 0x4800_0244, val: source });
        let last = (len - 1) as u32;
        lemma_did_write(0x4800_024C, last, plan::dma_bursts(), device, h2);
        let h3 = record(device, h2, BusOp::Write { addr: 0x4800_024C, val: last });
        lemma_did_write(0x4800_0250, 0x7, plan::dma_start(), device, h3);
        let h4 = record(device, h3, BusOp::Write { addr: 0x4800_0250, val: 0x7 });
        lemma_did_write(0x4800_0240, 0x11, plan::wait_dma_done(), device, h4);
        let h5 = record(device, h4, BusOp::Write { addr: 0x4800_0240, val: 0x11 });
        law_wait_dma_done(device, h5);
        let end = run(plan::wait_dma_done(), device, h5).0;
        let at = h0.len() as int;
        assert(end.take(at + 5) =~= h5);
        assert(end[at] == h5[at] && end[at + 1] == h5[at + 1] && end[at + 2] == h5[at + 2]
            && end[at + 3] == h5[at + 3] && end[at + 4] == h5[at + 4]);
        assert(grows(h0, end)) by {
            assert forall|i: int| 0 <= i < h0.len() implies #[trigger] end[i] == h0[i] by {
                assert(end[i] == h5[i]);
            }
        }
        assert(sent(history, h0, plain(0x06)));
    }
}

/// The chip offset that erase and program use for an address is the one that is mapped
/// there: the mapping starts at 0x200000, and addresses below it wrap around.
pub proof fn law_offset_is_mapped_at_address(address: u32)
    ensures
        (flash_offset(address) + 0x20_0000) % 0x1_0000_0000 == address,
        address >= 0x20_0000 ==> flash_offset(address) + 0x20_0000 == address,
{
}

/// No two addresses share a chip offset, and neighbouring addresses of the mapping
/// have neighbouring offsets.
pub proof fn law_offsets_are_distinct(a: u32, b: u32)
    ensures
        flash_offset(a) == flash_offset(b) ==> a == b,
        a >= 0x20_0000 && b >= 0x20_0000 ==> flash_offset(a) - flash_offset(b) == a - b,
{
    law_offset_is_mapped_at_address(a);
    law_offset_is_mapped_at_address(b);
}

/// Between `from` and `to` write enable was sent, directly after it an erase command for
/// the chip offset, and then the chip was waited for.
pub open spec fn erase_sent(from: Seq<Event>, to: Seq<Event>, opcode: u32, offset: u32) -> bool {
    sent_pair(
        from,
        to,
        plain(0x06),
        Command { opcode, addr: Some(offset), transfer: Transfer::Nothing },
    )
}

/// Erasing sends write enable and then one erase of the part of the chip that is mapped
/// at the address, and waits for the chip. The erase is that of a 64 KiB block (0xD8)
/// for an address between 0x230000 and 0x5F0000 that is a multiple of 64 KiB, and that
/// of a 4 KiB sector (0x20) for every other. The result is `Ok` in any case.
pub proof fn law_erase_sector(address: u32, device: Device, history: Seq<Event>)
    ensures
        ({
            let (end, result) = run(plan::erase_sector(address), device, history);
            let block = 0x23_0000 <= address < 0x5F_0000 && address % 0x1_0000 == 0;
            &&& result is Ok
            &&& block ==> exists|offset: u32| #[trigger]
                erase_sent(history, end, 0xD8, offset) && (offset + 0x20_0000) % 0x1_0000_0000
                    == address
            &&& !block ==> exists|offset: u32| #[trigger]
                erase_sent(history, end, 0x20, offset) && (offset + 0x20_0000) % 0x1_0000_0000
                    == address
        }),
{
    let block = 0x23_0000 <= address < 0x5F_0000 && address % 0x1_0000 == 0;
    let offset = flash_offset(address);
    let opcode: u32 = if block { 0xD8 } else { 0x20 };
    let second = Command { opcode, addr: Some(offset), transfer: Transfer::Nothing };
    law_offset_is_mapped_at_address(address);
    law_command_pair(plain(0x06), second, device, history);
    lemma_run_chain(
        plan::command_pair(plain(0x06), second),
        |_done: ()| Plan::Return(Ok::<(), Error>(())),
        device,
        history,
    );
    assert(erase_sent(
        history,
        run(plan::erase_sector(address), device, history).0,
        opcode,
        offset,
    ));
}

/// Programming an empty batch does nothing and succeeds. Any other is one transfer to
/// the part of the chip that is mapped at the address, and it succeeds exactly if its
/// last operation, a read of the control register of the bus-DMA engine, finds the
/// start bit clear.
pub proof fn law_program_page(
    address: u32,
    source: u32,
    len: u32,
    device: Device,
    history: Seq<Event>,
)
    ensures
        ({
            let (end, result) = run(plan::program_page(address, source, len), device, history);
            &&& len == 0 ==> end == history && result is Ok
            &&& len != 0 ==> {
                &&& exists|offset: u32|
                    {
                        &&& (offset + 0x20_0000) % 0x1_0000_0000 == address
                        &&& #[trigger] transferred(history, end, offset, source, len)
                    }
                &&& end.last().op == (BusOp::Read { addr: 0x4800_0240 })
                &&& result is Ok <==> end.last().reply & 1 == 0
                &&& result is Err ==> result->Err_0 is DmaTimeout
            }
        }),
{
    law_offset_is_mapped_at_address(address);
    law_dma_write(flash_offset(address), source, len, device, history);
}

/// `h` holds the history at the steps of taking over: the reads of the status
/// registers with 0x05, 0x35 and 0x15 and of the two bus registers; the write that
/// makes bus writes page programs and keeps the other bits; the volatile write of zero
/// to status register 1; and the read-back. Success goes with block-protect bits that
/// read back clear, and hands out what was read. Otherwise the bus configuration that
/// was read is written back.
pub open spec fn took_over(
    h: Seq<Seq<Event>>,
    end: Seq<Event>,
    result: Result<Ws63Algo, Error>,
) -> bool {
    &&& h.len() == 9
    &&& took_status(h[0], h[1], 0x05)
    &&& took_status(h[1], h[2], 0x35)
    &&& took_status(h[2], h[3], 0x15)
    &&& did(h[3], h[4], BusOp::Read { addr: 0x4800_0200 })
    &&& did(h[4], h[5], BusOp::Read { addr: 0x4800_0250 })
    &&& grows(h[5], h[6])
    &&& h[6].len() == h[5].len() + 1
    &&& h[6].last().op matches BusOp::Write { addr, val } && {
        &&& addr == 0x4800_0200
        &&& val & 0x7FFF_0000 == 0x4080_0000
        &&& val & 0x8000_FFFF == h[4].last().reply & 0x8000_FFFF
    }
    &&& sent_pair(h[6], h[7], plain(0x50), writing(0x01, Transfer::WriteByte(0)))
    &&& took_status(h[7], h[8], 0x05)
    &&& match result {
        Ok(algo) => {
            &&& h[8].last().reply & 0x1C == 0
            &&& end == h[8]
            &&& algo.saved_sr1 == h[1].last().reply % 256
            &&& algo.saved_sr2 == h[2].last().reply % 256
            &&& algo.saved_sr3 == h[3].last().reply % 256
            &&& algo.saved_bus_config1 == h[4].last().reply
            &&& algo.saved_bus_dma_ahb_ctrl == h[5].last().reply
        },
        Err(error) => {
            &&& h[8].last().reply & 0x1C != 0
            &&& did(h[8], end, BusOp::Write { addr: 0x4800_0200, val: h[4].last().reply })
            &&& error is BlockProtected
        },
    }
}

/// Taking over goes through the steps that [`took_over`] lists, and through no others.
pub proof fn law_new(device: Device, history: Seq<Event>)
    ensures
        ({
            let (end, result) = run(plan::new(), device, history);
            exists|h: Seq<Seq<Event>>| #[trigger] took_over(h, end, result) && h[0] == history
        }),
{
    let (h1, sr1) = run(plan::read_status_register_op(0x05), device, history);
    law_read_status_register_op(0x05, device, history);
    lemma_run_chain(
        plan::read_status_register_op(0x05),
        |sr1: u8| plan::new_sr2(sr1),
        device,
        history,
    );
    let (h2, sr2) = run(plan::read_status_register_op(0x35), device, h1);
    law_read_status_register_op(0x35, device, h1);
    lemma_run_chain(
        plan::read_status_register_op(0x35),
        |sr2: u8| plan::new_sr3(sr1, sr2),
        device,
        h1,
    );
    let (h3, sr3) = run(plan::read_status_register_op(0x15), device, h2);
    law_read_status_register_op(0x15, device, h2);
    lemma_run_chain(
        plan::read_status_register_op(0x15),
        |sr3: u8| plan::new_bus_config(sr1, sr2, sr3),
        device,
        h2,
    );
    let h4 = record(device, h3, BusOp::Read { addr: 0x4800_0200 });
    let h5 = record(device, h4, BusOp::Read { addr: 0x4800_0250 });
    let bus = h4.last().reply;
    let algo = Ws63Algo {
        saved_sr1: sr1,
        saved_sr2: sr2,
        saved_sr3: sr3,
        saved_bus_config1: bus,
        saved_bus_dma_ahb_ctrl: h5.last().reply,
    };
    assert(run(plan::new_bus_config(sr1, sr2, sr3), device, h3) == run(
        plan::new_ahb_ctrl(sr1, sr2, sr3, bus),
        device,
        h4,
    ));
    assert(run(plan::new_ahb_ctrl(sr1, sr2, sr3, bus), device, h4) == run(
        plan::new_configure(algo),
        device,
        h5,
    ));
    let val = page_program_config(bus);
    assert(val & 0x7FFF_0000 == 0x4080_0000 && val & 0x8000_FFFF == bus & 0x8000_FFFF)
        by (bit_vector)
        requires
            val == (bus & !0x7FFF_0000u32) | 0x4080_0000u32,
    ;
    lemma_did_write(0x4800_0200, val, plan::new_unprotect(algo), device, h5);
    let h6 = record(device, h5, BusOp::Write { addr: 0x4800_0200, val });
    law_write_volatile_status_register(0, device, h6);
    let h7 = run(plan::write_volatile_status_register(0), device, h6).0;
    lemma_run_chain(
        plan::write_volatile_status_register(0),
        |_done: ()| plan::new_confirm(algo),
        device,
        h6,
    );
    let (h8, byte) = run(plan::read_status_register_op(0x05), device, h7);
    law_read_status_register_op(0x05, device, h7);
    lemma_run_chain(
        plan::read_status_register_op(0x05),
        |sr1: u8| plan::new_outcome(algo, sr1),
        device,
        h7,
    );
    let read_back = h8.last().reply;
    assert(byte & 0x1C == 0 <==> read_back & 0x1C == 0) by (bit_vector)
        requires
            byte == read_back % 256,
    ;
    let gave_up = Plan::<Result<Ws63Algo, Error>>::Return(Err(Error::BlockProtected));
    lemma_did_write(0x4800_0200, bus, gave_up, device, h8);
    let (end, result) = run(plan::new(), device, history);
    let h = seq![history, h1, h2, h3, h4, h5, h6, h7, h8];
    assert(took_over(h, end, result));
}

/// `h` holds the history at the steps of giving back what `algo` saved: polls of the
/// command path and of the bus-DMA engine; the engine stopped, its burst modes and the
/// bus configuration restored, the command path cleared; a reset; the status registers
/// 1 and 2 and then 3, each as it was found or, where that was zero, with its fixed
/// value; a reset; one more poll; the command path cleared; a wait for the chip; and
/// the two caches.
pub open spec fn gave_back(h: Seq<Seq<Event>>, algo: Ws63Algo) -> bool {
    let sr1: u8 = if algo.saved_sr1 == 0 { 0x1C } else { algo.saved_sr1 };
    let sr2: u8 = if algo.saved_sr2 == 0 { 0x02 } else { algo.saved_sr2 };
    let sr3: u8 = if algo.saved_sr3 == 0 { 0x20 } else { algo.saved_sr3 };
    &&& h.len() == 16
    &&& polled(h[0], h[1], 0x4800_0300, 16_385)
    &&& polled(h[1], h[2], 0x4800_0240, 50_000_000)
    &&& did(h[2], h[3], BusOp::Write { addr: 0x4800_0240, val: 0 })
    &&& did(h[3], h[4], BusOp::Write { addr: 0x4800_0250, val: algo.saved_bus_dma_ahb_ctrl })
    &&& did(h[4], h[5], BusOp::Write { addr: 0x4800_0200, val: algo.saved_bus_config1 })
    &&& did(h[5], h[6], BusOp::Write { addr: 0x4800_0300, val: 0 })
    &&& sent_pair(h[6], h[7], plain(0x66), plain(0x99))
    &&& sent_pair(h[7], h[8], plain(0x06), writing(0x01, Transfer::WriteBytes(sr1, sr2)))
    &&& sent_pair(h[8], h[9], plain(0x06), writing(0x11, Transfer::WriteByte(sr3)))
    &&& sent_pair(h[9], h[10], plain(0x66), plain(0x99))
    &&& polled(h[10], h[11], 0x4800_0300, 16_385)
    &&& did(h[11], h[12], BusOp::Write { addr: 0x4800_0300, val: 0 })
    &&& waited(h[12], h[13], 16_384)
    &&& did(h[13], h[14], BusOp::CleanInvalidateDcache)
    &&& did(h[14], h[15], BusOp::InvalidateIcache)
}

/// Giving back goes through the steps that [`gave_back`] lists, and through no others.
pub proof fn law_drop(algo: Ws63Algo, device: Device, history: Seq<Event>)
    ensures
        ({
            let end = run(plan::drop(algo), device, history).0;
            exists|h: Seq<Seq<Event>>| #[trigger]
                gave_back(h, algo) && h[0] == history && h[15] == end
        }),
{
    let sr1: u8 = if algo.saved_sr1 == 0 { 0x1C } else { algo.saved_sr1 };
    let sr2: u8 = if algo.saved_sr2 == 0 { 0x02 } else { algo.saved_sr2 };
    let sr3: u8 = if algo.saved_sr3 == 0 { 0x20 } else { algo.saved_sr3 };
    law_wait_cmd_done(device, history);
    let h1 = run(plan::wait_cmd_done(), device, history).0;
    lemma_run_chain(
        plan::wait_cmd_done(),
        |_done: ()| plan::drop_dma_done(algo),
        device,
        history,
    );
    law_wait_dma_done(device, h1);
    let h2 = run(plan::wait_dma_done(), device, h1).0;
    lemma_run_chain(
        plan::wait_dma_done(),
        |_done: Result<(), Error>| plan::drop_registers(algo),
        device,
        h1,
    );
    let ahb = algo.saved_bus_dma_ahb_ctrl;
    let bus = algo.saved_bus_config1;
    lemma_did_write(0x4800_0240, 0, plan::drop_ahb_ctrl(algo), device, h2);
    let h3 = record(device, h2, BusOp::Write { addr: 0x4800_0240, val: 0 });
    lemma_did_write(0x4800_0250, ahb, plan::drop_bus_config(algo), device, h3);
    let h4 = record(device, h3, BusOp::Write { addr: 0x4800_0250, val: ahb });
    lemma_did_write(0x4800_0200, bus, plan::drop_idle(algo), device, h4);
    let h5 = record(device, h4, BusOp::Write { addr: 0x4800_0200, val: bus });
    lemma_did_write(0x4800_0300, 0, plan::drop_reset(algo), device, h5);
    let h6 = record(device, h5, BusOp::Write { addr: 0x4800_0300, val: 0 });
    law_flash_software_reset(device, h6);
    let h7 = run(plan::flash_software_reset(), device, h6).0;
    lemma_run_chain(
        plan::flash_software_reset(),
        |_done: ()| plan::drop_sr1_sr2(algo),
        device,
        h6,
    );
    law_write_status_registers_sr1_sr2(sr1, sr2, device, h7);
    let h8 = run(plan::write_status_registers_sr1_sr2(sr1, sr2), device, h7).0;
    lemma_run_chain(
        plan::write_status_registers_sr1_sr2(sr1, sr2),
        |_done: ()| plan::drop_sr3(algo),
        device,
        h7,
    );
    law_write_status_register_op(0x11, sr3, device, h8);
    let h9 = run(plan::write_status_register_op(0x11, sr3), device, h8).0;
    lemma_run_chain(
        plan::write_status_register_op(0x11, sr3),
        |_done: ()| plan::drop_reset_again(),
        device,
        h8,
    );
    law_flash_software_reset(device, h9);
    let h10 = run(plan::flash_software_reset(), device, h9).0;
    lemma_run_chain(
        plan::flash_software_reset(),
        |_done: ()| plan::drop_cmd_done_again(),
        device,
        h9,
    );
    law_wait_cmd_done(device, h10);
    let h11 = run(plan::wait_cmd_done(), device, h10).0;
    lemma_run_chain(
        plan::wait_cmd_done(),
        |_done: ()| plan::drop_idle_again(),
        device,
        h10,
    );
    lemma_did_write(0x4800_0300, 0, plan::drop_ready(), device, h11);
    let h12 = record(device, h11, BusOp::Write { addr: 0x4800_0300, val: 0 });
    law_wait_ready(device, h12);
    let h13 = run(plan::wait_ready(), device, h12).0;
    lemma_run_chain(
        plan::wait_ready(),
        |_ready: Result<(), Error>| plan::drop_caches(),
        device,
        h12,
    );
    let h14 = record(device, h13, BusOp::CleanInvalidateDcache);
    let h15 = record(device, h14, BusOp::InvalidateIcache);
    assert(run(plan::drop_caches(), device, h13) == run(plan::drop_icache(), device, h14));
    assert(run(plan::drop_icache(), device, h14) == run(Plan::Return(()), device, h15));
    let h = seq![
        history, h1, h2, h3, h4, h5, h6, h7, h8, h9, h10, h11, h12, h13, h14, h15,
    ];
    assert(gave_back(h, algo));
}

/// The areas that the host is told of: 4 KiB sectors from 0x200000 on, 64 KiB sectors
/// from 0x230000 on, 4 KiB sectors again from 0x5F0000 to 0xA00000. A sector is erased
/// with one command of its size.
pub proof fn law_areas(address: u32)
    requires
        0x20_0000 <= address < 0xA0_0000,
    ensures
        ({
            let here = area(address);
            &&& here.start <= address < here.end
            &&& 0x23_0000 <= address < 0x5F_0000 ==> here.start == 0x23_0000 && here.end
                == 0x5F_0000 && here.sector_size == 0x1_0000
            &&& address < 0x23_0000 ==> here.start == 0x20_0000 && here.end == 0x23_0000
                && here.sector_size == 0x1000
            &&& address >= 0x5F_0000 ==> here.start == 0x5F_0000 && here.end == 0xA0_0000
                && here.sector_size == 0x1000
            &&& starts_sector(address) <==> (address - here.start) % here.sector_size as int == 0
            &&& starts_sector(address) ==> sector_size(address) == here.sector_size
            // A batch of the host is 64 KiB, and an erased byte is 0xFF.
            &&& PAGE_SIZE == 0x1_0000
            &&& EMPTY_VALUE == 0xFF
            // The NV partition lies behind the last block, where sectors are small.
            &&& address == NV_START ==> address == 0x5F_C000 && here.sector_size == 0x1000
        }),
{
    law_erase_sizes(address);
    if starts_sector(address) && 0x23_0000 <= address < 0x5F_0000 {
        assert((address - 0x23_0000) % 0x1_0000 == 0);
    }
}

/// What is erased at an address is a 64 KiB block exactly if the address is a multiple of
/// 64 KiB between 0x230000 and 0x5F0000, and otherwise a 4 KiB sector; the opcode goes
/// with the size.
pub proof fn law_erase_sizes(address: u32)
    ensures
        ({
            let block = 0x23_0000 <= address < 0x5F_0000 && address % 0x1_0000 == 0;
            &&& sector_size(address) == if block { 0x1_0000u32 } else { 0x1000 }
            &&& sector_opcode(address) == if block { 0xD8u32 } else { 0x20 }
        }),
{
}

/// That all bytes of the flash agree with the data means that there is data for all of
/// them and that it is equal.
pub proof fn law_agreement_is_equality(flash: Seq<u8>, data: Option<&[u8]>)
    ensures
        (forall|i: int| 0 <= i < flash.len() ==> agrees(flash, data, i)) <==> flash.len() == 0 || (
        data matches Some(bytes) && flash.len() <= bytes@.len() && flash =~= bytes@.subrange(
            0,
            flash.len() as int,
        )),
{
    let all = forall|i: int| 0 <= i < flash.len() ==> agrees(flash, data, i);
    if all && flash.len() > 0 {
        assert(agrees(flash, data, flash.len() - 1));
        let bytes = data->0@.subrange(0, flash.len() as int);
        assert forall|j: int| 0 <= j < flash.len() implies flash[j] == bytes[j] by {
            assert(agrees(flash, data, j));
        }
        assert(flash =~= bytes);
    }
    if let Some(bytes) = data {
        let start = bytes@.subrange(0, flash.len() as int);
        if flash.len() <= bytes@.len() && flash =~= start {
            assert forall|i: int| 0 <= i < flash.len() implies agrees(flash, data, i) by {
                assert(flash[i] == start[i]);
            }
        }
    }
}

} // verus!
