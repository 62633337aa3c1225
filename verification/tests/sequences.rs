//! Routines against scripted hardware: the exact bus operations they ask for.

use ws63_flash_algorithm::algo::{
    bus_write_config, erase_opcode, restored_status, Ws63Algo, EXPECTED_SR1, EXPECTED_SR2,
    EXPECTED_SR3,
};
use ws63_flash_algorithm::bus::{advance, BusOp, Routine, Step};
use ws63_flash_algorithm::error::Error;
use ws63_flash_algorithm::nor::{
    dma_write, flash_software_reset, read_status_register_op, wait_ready, write_enable,
    write_status_register_op, write_status_registers_sr1_sr2, write_volatile_status_register,
};
use ws63_flash_algorithm::sfc::{
    cmd_config, wait_cmd_done, wait_dma_done, Command, Transfer, DMA_POLL_LIMIT, WIP_POLL_LIMIT,
};

const CONFIG: u32 = 0x4800_0300;
const INS: u32 = 0x4800_0308;
const ADDR: u32 = 0x4800_030C;
const DATABUF: u32 = 0x4800_0400;
const BUS_CONFIG1: u32 = 0x4800_0200;
const DMA_CTRL: u32 = 0x4800_0240;
const DMA_MEM: u32 = 0x4800_0244;
const DMA_FLASH: u32 = 0x4800_0248;
const DMA_LEN: u32 = 0x4800_024C;
const DMA_AHB: u32 = 0x4800_0250;

fn w(addr: u32, val: u32) -> BusOp {
    BusOp::Write { addr, val }
}

fn r(addr: u32) -> BusOp {
    BusOp::Read { addr }
}

/// Drives `routine`; `answer` gives the reply to the read of a register.
fn trace<R: Routine>(mut routine: R, mut answer: impl FnMut(u32) -> u32) -> (Vec<BusOp>, R::Output) {
    let mut ops = Vec::new();
    let mut reply = 0xDEAD_BEEF;
    loop {
        match advance(&mut routine, reply) {
            Step::Do(op) => {
                ops.push(op);
                reply = match op {
                    BusOp::Read { addr } => answer(addr),
                    _ => 0,
                };
            }
            Step::Finish(output) => return (ops, output),
        }
    }
}

/// Like `trace`, without the operations.
fn count<R: Routine>(mut routine: R, mut answer: impl FnMut(u32) -> u32) -> (u64, R::Output) {
    let mut ops = 0;
    let mut reply = 0;
    loop {
        match advance(&mut routine, reply) {
            Step::Do(op) => {
                ops += 1;
                reply = match op {
                    BusOp::Read { addr } => answer(addr),
                    _ => 0,
                };
            }
            Step::Finish(output) => return (ops, output),
        }
    }
}

/// One command that is an opcode and a configuration, answered at once.
fn command(opcode: u32, config: u32) -> Vec<BusOp> {
    vec![w(INS, opcode), w(CONFIG, config), r(CONFIG)]
}

/// One sample of the write-in-progress bit.
fn sample() -> Vec<BusOp> {
    let mut ops = command(0x05, 0x183);
    ops.push(r(DATABUF));
    ops
}

fn joined(parts: &[Vec<BusOp>]) -> Vec<BusOp> {
    parts.concat()
}

fn algo() -> Ws63Algo {
    Ws63Algo {
        saved_sr1: 0x1E,
        saved_sr2: 0,
        saved_sr3: 0x60,
        saved_bus_config1: 0x8123_4567,
        saved_bus_dma_ahb_ctrl: 0x5,
    }
}

#[test]
fn config_words() {
    assert_eq!(cmd_config(false, false, 0, 0), 0x003);
    assert_eq!(cmd_config(true, false, 0, 0), 0x00B);
    assert_eq!(cmd_config(false, true, 1, 0), 0x183);
    assert_eq!(cmd_config(false, true, 0, 1), 0x283);
    // The fields wrap.
    assert_eq!(cmd_config(true, true, 3, 0x7F), 0x7F8B);
    assert_eq!(cmd_config(false, false, 2, 64), 0x003);
}

#[test]
fn command_words() {
    let pair = Command::with(0x01, Transfer::WriteBytes(0x1C, 0x02));
    assert_eq!(pair.databuf(), Some(0x021C));
    assert_eq!(pair.start_word(), 0x283);
    let erase = Command::at(0x20, 0x1000);
    assert_eq!(erase.databuf(), None);
    assert_eq!(erase.start_word(), 0x00B);
    assert_eq!(Command::with(0x01, Transfer::WriteByte(0xFF)).databuf(), Some(0xFF));
}

#[test]
fn start_bit_poll_ends_at_once() {
    let (ops, ()) = trace(wait_cmd_done(), |_| 0xFFFF_FFFE);
    assert_eq!(ops, vec![r(CONFIG)]);
}

#[test]
fn start_bit_poll_goes_on_while_set() {
    let mut left = 3;
    let (ops, ()) = trace(wait_cmd_done(), |_| {
        left -= 1;
        if left > 0 {
            1
        } else {
            0
        }
    });
    assert_eq!(ops, vec![r(CONFIG); 3]);
}

#[test]
fn start_bit_poll_is_bounded() {
    let (ops, ()) = count(wait_cmd_done(), |_| 1);
    assert_eq!(ops, u64::from(WIP_POLL_LIMIT) + 1);
    assert_eq!(ops, 16_385);
}

#[test]
fn write_enable_sequence() {
    let (ops, ()) = trace(write_enable(), |_| 0);
    assert_eq!(ops, command(0x06, 0x003));
}

#[test]
fn status_read_takes_the_low_byte() {
    let (ops, byte) = trace(read_status_register_op(0x35), |addr| {
        if addr == DATABUF {
            0x1234_5642
        } else {
            0
        }
    });
    assert_eq!(ops, joined(&[command(0x35, 0x183), vec![r(DATABUF)]]));
    assert_eq!(byte, 0x42);
}

#[test]
fn ready_at_the_first_sample() {
    let (ops, result) = trace(wait_ready(), |addr| if addr == DATABUF { 0xFE } else { 0 });
    assert_eq!(ops, sample());
    assert_eq!(result, Ok(()));
}

#[test]
fn samples_are_a_hundred_microseconds_apart() {
    let mut busy = 2;
    let (ops, result) = trace(wait_ready(), |addr| {
        if addr == DATABUF && busy > 0 {
            busy -= 1;
            0x03
        } else {
            0
        }
    });
    let pause = vec![BusOp::Delay { micros: 100 }];
    assert_eq!(ops, joined(&[sample(), pause.clone(), sample(), pause, sample()]));
    assert_eq!(result, Ok(()));
}

#[test]
fn wait_for_a_busy_chip_times_out() {
    let mut samples = 0;
    let (ops, result) = count(wait_ready(), |addr| {
        if addr == DATABUF {
            samples += 1;
            1
        } else {
            0
        }
    });
    assert_eq!(samples, 16_384);
    assert_eq!(ops, 16_384 * 4 + 16_383);
    assert_eq!(result, Err(Error::WipTimeout));
}

#[test]
fn reset_follows_reset_enable() {
    let (ops, ()) = trace(flash_software_reset(), |_| 0);
    assert_eq!(ops, joined(&[command(0x66, 0x003), command(0x99, 0x003), sample()]));
}

#[test]
fn status_write_sequences() {
    let (ops, ()) = trace(write_status_register_op(0x11, 0x20), |_| 0);
    assert_eq!(
        ops,
        joined(&[command(0x06, 0x003), vec![w(DATABUF, 0x20)], command(0x11, 0x083), sample()])
    );
    let (ops, ()) = trace(write_status_registers_sr1_sr2(0x1C, 0x02), |_| 0);
    assert_eq!(
        ops,
        joined(&[command(0x06, 0x003), vec![w(DATABUF, 0x021C)], command(0x01, 0x283), sample()])
    );
    let (ops, ()) = trace(write_volatile_status_register(0x00), |_| 0);
    assert_eq!(
        ops,
        joined(&[command(0x50, 0x003), vec![w(DATABUF, 0x00)], command(0x01, 0x083), sample()])
    );
}

#[test]
fn dma_write_sequence() {
    let (ops, result) = trace(dma_write(0x1_0000, 0x0020_8000, 0x1_0000), |_| 0);
    assert_eq!(
        ops,
        joined(&[
            command(0x06, 0x003),
            vec![
                w(DMA_FLASH, 0x1_0000),
                w(DMA_MEM, 0x0020_8000),
                w(DMA_LEN, 0xFFFF),
                w(DMA_AHB, 0x7),
                w(DMA_CTRL, 0x11),
                r(DMA_CTRL),
            ],
        ])
    );
    assert_eq!(result, Ok(()));
}

#[test]
fn empty_dma_write_does_nothing() {
    let (ops, result) = trace(dma_write(0x1_0000, 0x0020_8000, 0), |_| 1);
    assert_eq!(ops, vec![]);
    assert_eq!(result, Ok(()));
}

#[test]
fn dma_poll_times_out() {
    let (ops, result) = count(wait_dma_done(), |_| 1);
    assert_eq!(ops, u64::from(DMA_POLL_LIMIT));
    assert_eq!(result, Err(Error::DmaTimeout));
}

#[test]
fn dma_poll_ends_when_the_bit_clears() {
    let mut busy = 5;
    let (ops, result) = trace(wait_dma_done(), |_| {
        busy -= 1;
        if busy > 0 {
            0x11
        } else {
            0x10
        }
    });
    assert_eq!(ops, vec![r(DMA_CTRL); 5]);
    assert_eq!(result, Ok(()));
}

#[test]
fn erase_opcodes_follow_the_geometry() {
    assert_eq!(erase_opcode(0x20_0000), 0x20);
    assert_eq!(erase_opcode(0x22_0000), 0x20);
    assert_eq!(erase_opcode(0x22_F000), 0x20);
    assert_eq!(erase_opcode(0x23_0000), 0xD8);
    assert_eq!(erase_opcode(0x23_1000), 0x20);
    assert_eq!(erase_opcode(0x5E_0000), 0xD8);
    assert_eq!(erase_opcode(0x5F_0000), 0x20);
    assert_eq!(erase_opcode(0x5F_C000), 0x20);
    assert_eq!(erase_opcode(0x60_0000), 0x20);
}

#[test]
fn sector_erase_sequence() {
    let (ops, result) = trace(algo().erase_sector(0x20_1000), |_| 0);
    assert_eq!(
        ops,
        joined(&[
            command(0x06, 0x003),
            vec![w(INS, 0x20), w(ADDR, 0x1000), w(CONFIG, 0x00B), r(CONFIG)],
            sample(),
        ])
    );
    assert_eq!(result, Ok(()));
}

#[test]
fn block_erase_sequence() {
    let (ops, result) = trace(algo().erase_sector(0x24_0000), |_| 0);
    assert_eq!(
        ops,
        joined(&[
            command(0x06, 0x003),
            vec![w(INS, 0xD8), w(ADDR, 0x4_0000), w(CONFIG, 0x00B), r(CONFIG)],
            sample(),
        ])
    );
    assert_eq!(result, Ok(()));
}

#[test]
fn erase_below_the_mapping_wraps() {
    let (ops, _) = trace(algo().erase_sector(0), |_| 0);
    assert_eq!(ops[4], w(ADDR, 0xFFE0_0000));
}

#[test]
fn erase_succeeds_on_a_chip_that_stays_busy() {
    let (_, result) = count(algo().erase_sector(0x20_1000), |addr| if addr == DATABUF { 1 } else { 0 });
    assert_eq!(result, Ok(()));
}

#[test]
fn program_page_sequence() {
    let (ops, result) = trace(algo().program_page(0x23_0000, 0x00A0_0000, 1), |_| 0);
    assert_eq!(
        ops,
        joined(&[
            command(0x06, 0x003),
            vec![
                w(DMA_FLASH, 0x3_0000),
                w(DMA_MEM, 0x00A0_0000),
                w(DMA_LEN, 0),
                w(DMA_AHB, 0x7),
                w(DMA_CTRL, 0x11),
                r(DMA_CTRL),
            ],
        ])
    );
    assert_eq!(result, Ok(()));
}

#[test]
fn program_page_reports_a_stuck_engine() {
    let (_, result) =
        count(algo().program_page(0x23_0000, 0, 256), |addr| if addr == DMA_CTRL { 1 } else { 0 });
    assert_eq!(result, Err(Error::DmaTimeout));
}

#[test]
fn bus_write_config_keeps_the_other_bits() {
    assert_eq!(bus_write_config(0x0000_0000), 0x4080_0000);
    assert_eq!(bus_write_config(0xFFFF_FFFF), 0xC080_FFFF);
    assert_eq!(bus_write_config(0x8123_4567), 0xC080_4567);
}

#[test]
fn restored_status_values() {
    assert_eq!(restored_status(0x1E, EXPECTED_SR1), 0x1E);
    assert_eq!(restored_status(0, EXPECTED_SR1), 0x1C);
    assert_eq!(restored_status(0, EXPECTED_SR2), 0x02);
    assert_eq!(restored_status(0, EXPECTED_SR3), 0x20);
}

#[test]
fn expected_status_is_what_the_boot_code_accepts() {
    assert_eq!(EXPECTED_SR1 & 0x9C, 0x1C);
    assert_eq!(EXPECTED_SR2 & 0x43, 0x02);
    assert_eq!(EXPECTED_SR3 & 0x61, 0x20);
}

/// Answers status reads from a list, and the bus registers with fixed values.
fn answers(bytes: Vec<u32>) -> impl FnMut(u32) -> u32 {
    let mut bytes = bytes.into_iter();
    move |addr| match addr {
        DATABUF => bytes.next().unwrap(),
        BUS_CONFIG1 => 0x8123_4567,
        DMA_AHB => 0x5,
        _ => 0,
    }
}

fn init_ops() -> Vec<BusOp> {
    joined(&[
        sample(),
        command(0x35, 0x183),
        vec![r(DATABUF)],
        command(0x15, 0x183),
        vec![r(DATABUF), r(BUS_CONFIG1), r(DMA_AHB), w(BUS_CONFIG1, 0xC080_4567)],
        command(0x50, 0x003),
        vec![w(DATABUF, 0x00)],
        command(0x01, 0x083),
        sample(),
        sample(),
    ])
}

#[test]
fn init_saves_what_it_finds_and_unprotects() {
    let (ops, result) = trace(Ws63Algo::new(), answers(vec![0x1E, 0x00, 0x60, 0x00, 0x00]));
    assert_eq!(ops, init_ops());
    assert_eq!(result, Ok(algo()));
}

#[test]
fn init_fails_if_a_block_protect_bit_reads_back() {
    for stuck in [0x04, 0x08, 0x10, 0x1C, 0xFF] {
        let (ops, result) = trace(Ws63Algo::new(), answers(vec![0x1E, 0x00, 0x60, 0x00, stuck]));
        assert_eq!(ops, joined(&[init_ops(), vec![w(BUS_CONFIG1, 0x8123_4567)]]));
        assert_eq!(result, Err(Error::BlockProtected));
    }
    for clear in [0x00, 0x02, 0x80, 0xE3] {
        let (_, result) = trace(Ws63Algo::new(), answers(vec![0x1E, 0x00, 0x60, 0x00, clear]));
        assert_eq!(result, Ok(algo()));
    }
}

#[test]
fn uninit_sequence() {
    let (ops, ()) = trace(Ws63Algo::drop(&algo()), |_| 0);
    let reset = joined(&[command(0x66, 0x003), command(0x99, 0x003), sample()]);
    assert_eq!(
        ops,
        joined(&[
            vec![
                r(CONFIG),
                r(DMA_CTRL),
                w(DMA_CTRL, 0),
                w(DMA_AHB, 0x5),
                w(BUS_CONFIG1, 0x8123_4567),
                w(CONFIG, 0),
            ],
            reset.clone(),
            command(0x06, 0x003),
            vec![w(DATABUF, 0x021E)],
            command(0x01, 0x283),
            sample(),
            command(0x06, 0x003),
            vec![w(DATABUF, 0x60)],
            command(0x11, 0x083),
            sample(),
            reset,
            vec![r(CONFIG), w(CONFIG, 0)],
            sample(),
            vec![BusOp::CleanInvalidateDcache, BusOp::InvalidateIcache],
        ])
    );
}

#[test]
fn uninit_ends_on_a_stuck_controller() {
    // The start bit never clears, so every command poll runs out of its budget.
    let (ops, ()) = count(Ws63Algo::drop(&algo()), |addr| if addr == CONFIG { 1 } else { 0 });
    let polls = 15 * 16_385;
    let commands = 8 * 2 + 2;
    let samples = 5 * 3;
    let registers = 1 + 4 + 1;
    let caches = 2;
    assert_eq!(ops, polls + commands + samples + registers + caches);
}
