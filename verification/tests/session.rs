//! Whole sessions against a simulated controller and chip.

use ws63_flash_algorithm::algo::{Ws63Algo, XIP_BASE};
use ws63_flash_algorithm::bus::{BusOp, Routine, Step};
use ws63_flash_algorithm::error::Error;

#[derive(Clone, Copy, Debug, PartialEq, Eq)]
enum Latch {
    Closed,
    Volatile,
    Open,
}

/// A controller, a chip of 4 MiB and the SRAM that the bus-DMA engine reads.
struct Board {
    ins: u32,
    addr: u32,
    data: u32,
    bus_config1: u32,
    dma_offset: u32,
    dma_source: u32,
    dma_len: u32,
    dma_ahb_ctrl: u32,
    live: [u8; 3],
    stored: [u8; 3],
    latch: Latch,
    armed: bool,
    cells: Vec<u8>,
    ram: Vec<u8>,
    opcodes: Vec<u32>,
    stored_writes: u32,
    caches: Vec<BusOp>,
}

impl Board {
    fn new(status: [u8; 3]) -> Board {
        Board {
            ins: 0,
            addr: 0,
            data: 0,
            bus_config1: 0x8A5A_1234,
            dma_offset: 0,
            dma_source: 0,
            dma_len: 0,
            dma_ahb_ctrl: 0x3,
            live: status,
            stored: status,
            latch: Latch::Closed,
            armed: false,
            cells: vec![0x55; 0x40_0000],
            ram: (0..0x2_0000u32).map(|i| (i * 7 + 3) as u8).collect(),
            opcodes: Vec::new(),
            stored_writes: 0,
            caches: Vec::new(),
        }
    }

    fn write_status(&mut self, values: &[(usize, u8)]) {
        for &(i, value) in values {
            if self.latch != Latch::Closed {
                self.live[i] = value;
            }
            if self.latch == Latch::Open {
                self.stored[i] = value;
                self.stored_writes += 1;
            }
        }
        self.latch = Latch::Closed;
    }

    fn writable(&self) -> bool {
        self.latch == Latch::Open && self.live[0] & 0x1C == 0
    }

    fn command(&mut self, config: u32) {
        let armed = self.armed;
        self.armed = false;
        self.opcodes.push(self.ins);
        let bytes = self.data.to_le_bytes();
        match self.ins {
            0x06 => self.latch = Latch::Open,
            0x50 => self.latch = Latch::Volatile,
            0x05 => self.data = u32::from(self.live[0]),
            0x35 => self.data = u32::from(self.live[1]),
            0x15 => self.data = u32::from(self.live[2]),
            0x01 if config >> 9 & 0x3F == 0 => self.write_status(&[(0, bytes[0])]),
            0x01 => self.write_status(&[(0, bytes[0]), (1, bytes[1])]),
            0x11 => self.write_status(&[(2, bytes[0])]),
            0x20 | 0xD8 => {
                assert!(config & 8 != 0);
                let size = if self.ins == 0x20 { 0x1000 } else { 0x1_0000 };
                let base = self.addr as usize / size * size;
                if self.writable() {
                    self.cells[base..base + size].fill(0xFF);
                }
                self.latch = Latch::Closed;
            }
            0x66 => self.armed = true,
            0x99 => {
                assert!(armed);
                self.live = self.stored;
                self.latch = Latch::Closed;
            }
            opcode => panic!("unknown opcode {opcode:#x}"),
        }
    }

    fn transfer(&mut self) {
        assert_eq!(self.bus_config1 >> 22 & 0xFF, 0x02);
        for i in 0..=self.dma_len as usize {
            if self.writable() {
                self.cells[self.dma_offset as usize + i] &= self.ram[self.dma_source as usize + i];
            }
        }
        self.latch = Latch::Closed;
    }

    fn perform(&mut self, op: BusOp) -> u32 {
        match op {
            BusOp::Read { addr: 0x4800_0400 } => self.data,
            BusOp::Read { addr: 0x4800_0200 } => self.bus_config1,
            BusOp::Read { addr: 0x4800_0250 } => self.dma_ahb_ctrl,
            BusOp::Read { addr: 0x4800_0300 | 0x4800_0240 } => 0,
            BusOp::Write { addr, val } => {
                match addr {
                    0x4800_0308 => self.ins = val,
                    0x4800_030C => self.addr = val,
                    0x4800_0400 => self.data = val,
                    0x4800_0300 if val & 1 != 0 => self.command(val),
                    0x4800_0240 if val & 1 != 0 => self.transfer(),
                    0x4800_0300 | 0x4800_0240 => assert_eq!(val, 0),
                    0x4800_0200 => self.bus_config1 = val,
                    0x4800_0244 => self.dma_source = val,
                    0x4800_0248 => self.dma_offset = val,
                    0x4800_024C => self.dma_len = val,
                    0x4800_0250 => self.dma_ahb_ctrl = val,
                    _ => panic!("write outside the controller"),
                }
                0
            }
            BusOp::Delay { .. } => 0,
            BusOp::CleanInvalidateDcache | BusOp::InvalidateIcache => {
                self.caches.push(op);
                0
            }
            BusOp::Read { .. } => panic!("read outside the controller"),
        }
    }

    fn drive<R: Routine>(&mut self, mut routine: R) -> R::Output {
        let mut reply = 0;
        loop {
            match routine.resume(reply) {
                Step::Do(op) => reply = self.perform(op),
                Step::Finish(output) => return output,
            }
        }
    }

    fn flash(&self, address: u32, len: usize) -> &[u8] {
        let offset = (address - XIP_BASE) as usize;
        &self.cells[offset..offset + len]
    }
}

#[test]
fn init_unprotects_without_wear() {
    let mut board = Board::new([0x1C, 0x02, 0x20]);
    let algo = board.drive(Ws63Algo::new()).unwrap();
    assert_eq!(algo.saved_sr1, 0x1C);
    assert_eq!(algo.saved_sr2, 0x02);
    assert_eq!(algo.saved_sr3, 0x20);
    assert_eq!(algo.saved_bus_config1, 0x8A5A_1234);
    assert_eq!(algo.saved_bus_dma_ahb_ctrl, 0x3);
    assert_eq!(board.live, [0x00, 0x02, 0x20]);
    assert_eq!(board.stored, [0x1C, 0x02, 0x20]);
    assert_eq!(board.stored_writes, 0);
    assert!(!board.opcodes.contains(&0x06));
    assert_eq!(board.bus_config1, 0xC080_1234);
}

#[test]
fn session_programs_and_restores() {
    let mut board = Board::new([0x1C, 0x02, 0x20]);
    let algo = board.drive(Ws63Algo::new()).unwrap();
    board.drive(algo.erase_sector(0x23_0000)).unwrap();
    assert!(board.flash(0x23_0000, 0x1_0000).iter().all(|&byte| byte == 0xFF));
    assert_eq!(board.flash(0x22_FFFF, 1), &[0x55]);
    assert_eq!(board.flash(0x24_0000, 1), &[0x55]);
    board.drive(algo.program_page(0x23_0000, 0x100, 0x1_0000)).unwrap();
    let data = board.ram[0x100..0x1_0100].to_vec();
    assert_eq!(algo.verify(0x23_0000, board.flash(0x23_0000, 0x1_0000), Some(&data)), Ok(()));
    assert_eq!(board.flash(0x24_0000, 1), &[0x55]);
    board.drive(Ws63Algo::drop(&algo));
    assert_eq!(board.live, [0x1C, 0x02, 0x20]);
    assert_eq!(board.stored, [0x1C, 0x02, 0x20]);
    assert_eq!(board.latch, Latch::Closed);
    assert_eq!(board.bus_config1, 0x8A5A_1234);
    assert_eq!(board.dma_ahb_ctrl, 0x3);
    assert_eq!(board.caches, vec![BusOp::CleanInvalidateDcache, BusOp::InvalidateIcache]);
}

#[test]
fn without_erase_the_program_does_not_verify() {
    let mut board = Board::new([0x1C, 0x02, 0x20]);
    let algo = board.drive(Ws63Algo::new()).unwrap();
    board.drive(algo.program_page(0x23_0000, 0, 2)).unwrap();
    // 0x55 & 3 == 1
    assert_eq!(algo.verify(0x23_0000, board.flash(0x23_0000, 2), Some(&[3, 10])), Err(0x23_0000));
}

#[test]
fn zero_status_is_replaced_by_the_expected_values() {
    let mut board = Board::new([0x00, 0x00, 0x00]);
    let algo = board.drive(Ws63Algo::new()).unwrap();
    board.drive(Ws63Algo::drop(&algo));
    assert_eq!(board.stored, [0x1C, 0x02, 0x20]);
    assert_eq!(board.live, [0x1C, 0x02, 0x20]);
}

#[test]
fn each_zero_status_is_replaced_on_its_own() {
    let mut board = Board::new([0x00, 0x40, 0x60]);
    let algo = board.drive(Ws63Algo::new()).unwrap();
    board.drive(Ws63Algo::drop(&algo));
    assert_eq!(board.stored, [0x1C, 0x40, 0x60]);
    let mut board = Board::new([0x9C, 0x00, 0x60]);
    let algo = board.drive(Ws63Algo::new()).unwrap();
    board.drive(Ws63Algo::drop(&algo));
    assert_eq!(board.stored, [0x9C, 0x02, 0x60]);
    assert_eq!(board.live, board.stored);
    assert_eq!(board.bus_config1, 0x8A5A_1234);
    assert_eq!(board.dma_ahb_ctrl, 0x3);
}

#[test]
fn a_protected_chip_keeps_its_bytes() {
    let mut board = Board::new([0x1C, 0x02, 0x20]);
    let algo = board.drive(Ws63Algo::new()).unwrap();
    board.live = board.stored;
    assert_eq!(board.drive(algo.erase_sector(0x23_0000)), Ok(()));
    assert_eq!(board.drive(algo.program_page(0x23_0000, 0, 0x100)), Ok(()));
    assert!(board.flash(0x23_0000, 0x1_0000).iter().all(|&byte| byte == 0x55));
}

#[test]
fn last_block_ends_before_the_nv_partition() {
    let mut board = Board::new([0x1C, 0x02, 0x20]);
    let algo = board.drive(Ws63Algo::new()).unwrap();
    board.drive(algo.erase_sector(0x5E_0000)).unwrap();
    assert!(board.flash(0x5E_0000, 0x1_0000).iter().all(|&byte| byte == 0xFF));
    assert_eq!(board.flash(0x5F_0000, 1), &[0x55]);
    board.drive(algo.erase_sector(0x5F_B000)).unwrap();
    assert_eq!(board.flash(0x5F_BFFF, 2), &[0xFF, 0x55]);
    assert_eq!(board.flash(0x5F_AFFF, 1), &[0x55]);
}

#[test]
fn commands_follow_what_enables_them() {
    let mut board = Board::new([0x1C, 0x02, 0x20]);
    let algo = board.drive(Ws63Algo::new()).unwrap();
    board.drive(algo.erase_sector(0x23_0000)).unwrap();
    board.drive(algo.erase_sector(0x20_0000)).unwrap();
    board.drive(Ws63Algo::drop(&algo));
    for pair in board.opcodes.windows(2) {
        match pair[1] {
            0x20 | 0xD8 | 0x11 => assert_eq!(pair[0], 0x06),
            0x01 => assert!(pair[0] == 0x06 || pair[0] == 0x50),
            0x99 => assert_eq!(pair[0], 0x66),
            _ => assert_ne!(pair[0], 0x66),
        }
    }
    let changes: Vec<u32> =
        board.opcodes.iter().copied().filter(|op| ![0x05, 0x35, 0x15].contains(op)).collect();
    assert_eq!(
        changes,
        vec![
            0x50, 0x01, 0x06, 0xD8, 0x06, 0x20, 0x66, 0x99, 0x06, 0x01, 0x06, 0x11, 0x66, 0x99,
        ]
    );
}

#[test]
fn a_chip_that_ignores_the_unlock_fails_init() {
    let mut board = Board::new([0x1C, 0x02, 0x20]);
    let mut routine = Ws63Algo::new();
    let mut reply = 0;
    let result = loop {
        match routine.resume(reply) {
            Step::Do(op) => {
                reply = board.perform(op);
                board.live = board.stored;
            }
            Step::Finish(output) => break output,
        }
    };
    assert_eq!(result, Err(Error::BlockProtected));
    assert_eq!(board.bus_config1, 0x8A5A_1234);
    assert_eq!(board.dma_ahb_ctrl, 0x3);
    assert_eq!(board.stored_writes, 0);
}
