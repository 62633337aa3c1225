//! A model of the hardware, to say what the plans achieve: the registers of the
//! controller, the NOR chip behind it, and the SRAM that the bus-DMA engine reads.
//!
//! Nothing here runs. The model states what the loader relies on: a write to
//! `cmd_config` with the start bit set sends the command that the registers
//! describe, a write to the bus-DMA control register with the start bit set starts
//! the transfer that they describe, and the chip has volatile and stored status
//! registers, block protection, a write-enable latch and a two-command reset.

use vstd::prelude::*;

use crate::algo::{BLOCK_PROTECT_MASK, EMPTY_VALUE};
use crate::bus::{record, BusOp, Device, Event};
use crate::nor::{
    OP_BE_64K, OP_PP, OP_RDSR, OP_RDSR2, OP_RDSR3, OP_RST, OP_RSTEN, OP_SE_4K, OP_WREN, OP_WRSR,
    OP_WRSR3, OP_WRVSR,
};
use crate::sfc::{
    Command, Transfer, BUS_CONFIG1, BUS_DMA_AHB_CTRL, BUS_DMA_CTRL, BUS_DMA_FLASH_SADDR,
    BUS_DMA_LEN, BUS_DMA_MEM_SADDR, CMD_ADDR, CMD_CONFIG, CMD_DATABUF, CMD_INS,
};

verus! {

/// Something that the controller does on the chip.
pub enum Effect {
    Command(Command),
    /// The bus-DMA engine writes `len` bytes of SRAM from `source` on to the chip
    /// from `offset` on.
    Dma { offset: u32, source: u32, len: int },
}

/// The three status registers of the chip. Bits 0 and 1 of the first report what
/// goes on in the chip; they are zero here.
pub struct Status {
    pub sr1: u8,
    pub sr2: u8,
    pub sr3: u8,
}

/// What the chip will accept next.
pub enum Latch {
    Closed,
    /// A write of volatile status bits.
    Volatile,
    /// An erase, a program, or a write of stored status bits.
    Open,
}

/// The NOR chip.
pub struct Chip {
    /// The status registers in effect.
    pub live: Status,
    /// The non-volatile status registers, which a reset puts into effect.
    pub stored: Status,
    pub latch: Latch,
    /// The command before was reset enable.
    pub reset_armed: bool,
    /// The bytes of the array.
    pub cells: spec_fn(int) -> u8,
}

/// The part of status register 1 that a write can set.
pub open spec fn settable_sr1(val: u8) -> u8 {
    val & 0xFC
}

/// `cells` with the aligned `size` bytes around `offset` erased.
pub open spec fn erased(cells: spec_fn(int) -> u8, offset: u32, size: int) -> spec_fn(int) -> u8 {
    let base = offset - offset as int % size;
    |at: int|
        if base <= at < base + size {
            EMPTY_VALUE
        } else {
            cells(at)
        }
}

/// `cells` after `len` bytes of `ram` were programmed at `offset`. Programming
/// only clears bits.
pub open spec fn programmed(
    cells: spec_fn(int) -> u8,
    ram: spec_fn(int) -> u8,
    offset: u32,
    source: u32,
    len: int,
) -> spec_fn(int) -> u8 {
    |at: int|
        if offset <= at < offset + len {
            cells(at) & ram(source + (at - offset))
        } else {
            cells(at)
        }
}

impl Chip {
    /// No block-protect bit is in effect.
    pub open spec fn unprotected(self) -> bool {
        self.live.sr1 & BLOCK_PROTECT_MASK == 0
    }

    /// The chip accepts an erase or a program.
    pub open spec fn writable(self) -> bool {
        self.latch is Open && self.unprotected()
    }

    /// The chip after a status write that puts `live` into effect and stores
    /// `stored`, as far as the latch lets it.
    pub open spec fn status_written(self, live: Status, stored: Status) -> Chip {
        let written = match self.latch {
            Latch::Closed => self,
            Latch::Volatile => Chip { live, ..self },
            Latch::Open => Chip { live, stored, ..self },
        };
        Chip { latch: Latch::Closed, reset_armed: false, ..written }
    }

    /// The chip after `command`.
    #[verifier::opaque]
    pub open spec fn commanded(self, command: Command) -> Chip {
        let chip = Chip { reset_armed: false, ..self };
        if command.opcode == OP_WREN {
            Chip { latch: Latch::Open, ..chip }
        } else if command.opcode == OP_WRVSR {
            Chip { latch: Latch::Volatile, ..chip }
        } else if command.opcode == OP_WRSR {
            match command.transfer {
                Transfer::WriteByte(sr1) => self.status_written(
                    Status { sr1: settable_sr1(sr1), ..self.live },
                    Status { sr1: settable_sr1(sr1), ..self.stored },
                ),
                Transfer::WriteBytes(sr1, sr2) => self.status_written(
                    Status { sr1: settable_sr1(sr1), sr2, ..self.live },
                    Status { sr1: settable_sr1(sr1), sr2, ..self.stored },
                ),
                _ => chip,
            }
        } else if command.opcode == OP_WRSR3 {
            match command.transfer {
                Transfer::WriteByte(sr3) => self.status_written(
                    Status { sr3, ..self.live },
                    Status { sr3, ..self.stored },
                ),
                _ => chip,
            }
        } else if command.opcode == OP_SE_4K || command.opcode == OP_BE_64K {
            let size: int = if command.opcode == OP_SE_4K { 0x1000 } else { 0x1_0000 };
            match command.addr {
                Some(offset) => Chip {
                    latch: Latch::Closed,
                    cells: if self.writable() {
                        erased(self.cells, offset, size)
                    } else {
                        self.cells
                    },
                    ..chip
                },
                None => chip,
            }
        } else if command.opcode == OP_RSTEN {
            Chip { reset_armed: true, ..self }
        } else if command.opcode == OP_RST && self.reset_armed {
            Chip { live: self.stored, latch: Latch::Closed, ..chip }
        } else {
            chip
        }
    }

    /// The chip after a bus-DMA transfer.
    pub open spec fn dma_written(
        self,
        ram: spec_fn(int) -> u8,
        offset: u32,
        source: u32,
        len: int,
    ) -> Chip {
        Chip {
            latch: Latch::Closed,
            reset_armed: false,
            cells: if self.writable() {
                programmed(self.cells, ram, offset, source, len)
            } else {
                self.cells
            },
            ..self
        }
    }
}

/// The controller, the chip and the SRAM.
pub struct Board {
    pub ins: u32,
    pub addr: u32,
    pub data: u32,
    pub config: u32,
    pub bus_config1: u32,
    pub dma_ctrl: u32,
    pub dma_source: u32,
    pub dma_offset: u32,
    pub dma_len: u32,
    pub dma_ahb_ctrl: u32,
    pub ram: spec_fn(int) -> u8,
    pub chip: Chip,
    /// Everything that the controller did on the chip.
    pub log: Seq<Effect>,
}

/// The bus writes with enabled page programs.
pub open spec fn writes_pages(bus_config1: u32) -> bool {
    (bus_config1 >> 22) & 0xFF == OP_PP && (bus_config1 >> 30) & 0x1 == 1
}

impl Board {
    /// The command that the registers describe, among the transfers of up to two
    /// bytes.
    pub open spec fn described(self) -> Command {
        Command {
            opcode: self.ins,
            addr: if self.config / 8 % 2 == 1 {
                Some(self.addr)
            } else {
                None
            },
            transfer: if self.config / 128 % 2 == 0 {
                Transfer::Nothing
            } else if self.config / 256 % 2 == 1 {
                Transfer::ReadByte
            } else if self.config / 512 % 64 == 0 {
                Transfer::WriteByte((self.data % 256) as u8)
            } else {
                Transfer::WriteBytes((self.data % 256) as u8, (self.data / 256 % 256) as u8)
            },
        }
    }

    /// The board once the chip got `command`.
    pub open spec fn sent(self, command: Command) -> Board {
        Board {
            chip: self.chip.commanded(command),
            log: self.log.push(Effect::Command(command)),
            ..self
        }
    }

    /// The board once the bus-DMA engine made the transfer that the registers
    /// describe. It programs only if the bus is configured for that.
    pub open spec fn transferred(self) -> Board {
        let len = self.dma_len + 1;
        Board {
            chip: if writes_pages(self.bus_config1) {
                self.chip.dma_written(self.ram, self.dma_offset, self.dma_source, len)
            } else {
                self.chip
            },
            log: self.log.push(
                Effect::Dma { offset: self.dma_offset, source: self.dma_source, len },
            ),
            ..self
        }
    }

    /// The board after `val` was written to the register at `addr`.
    pub open spec fn written(self, addr: u32, val: u32) -> Board {
        if addr == CMD_INS {
            Board { ins: val, ..self }
        } else if addr == CMD_ADDR {
            Board { addr: val, ..self }
        } else if addr == CMD_DATABUF {
            Board { data: val, ..self }
        } else if addr == CMD_CONFIG {
            let board = Board { config: val, ..self };
            if val % 2 == 1 {
                board.sent(board.described())
            } else {
                board
            }
        } else if addr == BUS_CONFIG1 {
            Board { bus_config1: val, ..self }
        } else if addr == BUS_DMA_CTRL {
            let board = Board { dma_ctrl: val, ..self };
            if val % 2 == 1 {
                board.transferred()
            } else {
                board
            }
        } else if addr == BUS_DMA_MEM_SADDR {
            Board { dma_source: val, ..self }
        } else if addr == BUS_DMA_FLASH_SADDR {
            Board { dma_offset: val, ..self }
        } else if addr == BUS_DMA_LEN {
            Board { dma_len: val, ..self }
        } else if addr == BUS_DMA_AHB_CTRL {
            Board { dma_ahb_ctrl: val, ..self }
        } else {
            self
        }
    }

    /// The board after `op`.
    pub open spec fn after(self, op: BusOp) -> Board {
        match op {
            BusOp::Write { addr, val } => self.written(addr, val),
            _ => self,
        }
    }

    /// The board after `history`.
    #[verifier::opaque]
    pub open spec fn at(self, history: Seq<Event>) -> Board
        decreases history.len(),
    {
        if history.len() == 0 {
            self
        } else {
            self.at(history.drop_last()).after(history.last().op)
        }
    }

    /// The chip takes erases and programs once the latch is open, and the bus
    /// makes programs.
    pub open spec fn ready(self) -> bool {
        self.chip.unprotected() && writes_pages(self.bus_config1)
    }
}

/// The bus registers read from `device` as they were written, on a board that starts
/// out as `board`.
pub open spec fn bus_answers_as(device: Device, board: Board) -> bool {
    forall|history: Seq<Event>|
        {
            let now = #[trigger] board.at(history);
            &&& device(history, BUS_CONFIG1) == now.bus_config1
            &&& device(history, BUS_DMA_AHB_CTRL) == now.dma_ahb_ctrl
        }
}

/// `device` answers as a board does that starts out as `board`: the bus registers
/// read as they were written, and the data buffer holds the status register that
/// the last command read, where bits 0 and 1 of the first may be anything.
pub open spec fn answers_as(device: Device, board: Board) -> bool {
    &&& bus_answers_as(device, board)
    &&& forall|history: Seq<Event>|
        {
            let now = #[trigger] board.at(history);
            &&& now.ins == OP_RDSR ==> settable_sr1((device(history, CMD_DATABUF) & 0xFF) as u8)
                == now.chip.live.sr1
            &&& now.ins == OP_RDSR2 ==> (device(history, CMD_DATABUF) & 0xFF) as u8
                == now.chip.live.sr2
            &&& now.ins == OP_RDSR3 ==> (device(history, CMD_DATABUF) & 0xFF) as u8
                == now.chip.live.sr3
        }
}

/// The effects of `log` that are no reads of a status register.
pub open spec fn changes(log: Seq<Effect>) -> Seq<Effect>
    decreases log.len(),
{
    if log.len() == 0 {
        Seq::empty()
    } else if is_status_read(log.last()) {
        changes(log.drop_last())
    } else {
        changes(log.drop_last()).push(log.last())
    }
}

/// `effect` is a read of a status register.
pub open spec fn is_status_read(effect: Effect) -> bool {
    effect matches Effect::Command(command) && (command.opcode == OP_RDSR || command.opcode
        == OP_RDSR2 || command.opcode == OP_RDSR3)
}

/// `next` may directly follow `previous`: an erase, a program or a status write
/// follows the command that enables it, and a reset follows reset enable, which
/// nothing else does.
pub open spec fn may_follow(previous: Option<Effect>, next: Effect) -> bool {
    let enabled = previous == Some(Effect::Command(Command::bare(OP_WREN)));
    let volatile = previous == Some(Effect::Command(Command::bare(OP_WRVSR)));
    let armed = previous == Some(Effect::Command(Command::bare(OP_RSTEN)));
    match next {
        Effect::Dma { .. } => enabled,
        Effect::Command(command) => {
            &&& command.opcode == OP_SE_4K || command.opcode == OP_BE_64K || command.opcode
                == OP_WRSR3 ==> enabled
            &&& command.opcode == OP_WRSR ==> enabled || volatile
            &&& command.opcode == OP_RST <==> armed
        },
    }
}

/// Effect `i` of `log` may follow the one before it.
pub open spec fn in_order(log: Seq<Effect>, i: int) -> bool {
    may_follow(
        if i == 0 {
            None
        } else {
            Some(log[i - 1])
        },
        log[i],
    )
}

/// Every effect of `log` may follow the one before it, and `log` does not end in
/// the middle of a reset.
pub open spec fn orderly(log: Seq<Effect>) -> bool {
    &&& forall|i: int| 0 <= i < log.len() ==> #[trigger] in_order(log, i)
    &&& log.len() > 0 ==> log.last() != Effect::Command(Command::bare(OP_RSTEN))
}

/// One more effect is one more change, unless it reads a status register.
pub proof fn lemma_changes_push(log: Seq<Effect>, effect: Effect)
    ensures
        changes(log.push(effect)) == if is_status_read(effect) {
            changes(log)
        } else {
            changes(log).push(effect)
        },
{
    assert(log.push(effect).drop_last() =~= log);
}

/// Commands that read a status register leave the chip as it is.
pub proof fn lemma_status_read(chip: Chip, command: Command)
    requires
        is_status_read(Effect::Command(command)),
    ensures
        chip.commanded(command) == (Chip { reset_armed: false, ..chip }),
{
    reveal(Chip::commanded);
}

/// Write enable opens the latch.
pub proof fn lemma_write_enable(chip: Chip)
    ensures
        chip.commanded(Command::bare(OP_WREN)) == (Chip {
            latch: Latch::Open,
            reset_armed: false,
            ..chip
        }),
{
    reveal(Chip::commanded);
}

/// Reset enable and reset put the stored status into effect.
pub proof fn lemma_reset(chip: Chip)
    ensures
        chip.commanded(Command::bare(OP_RSTEN)).commanded(Command::bare(OP_RST)) == (Chip {
            live: chip.stored,
            latch: Latch::Closed,
            reset_armed: false,
            ..chip
        }),
{
    reveal(Chip::commanded);
}

/// A status write that only volatile writes are enabled for leaves the stored
/// status alone.
pub proof fn lemma_volatile_status(chip: Chip, sr1: u8)
    ensures
        chip.commanded(Command::bare(OP_WRVSR)).commanded(
            Command::with(OP_WRSR, Transfer::WriteByte(sr1)),
        ) == (Chip {
            live: Status { sr1: settable_sr1(sr1), ..chip.live },
            latch: Latch::Closed,
            reset_armed: false,
            ..chip
        }),
{
    reveal(Chip::commanded);
}

/// A status write after write enable takes effect and is stored.
pub proof fn lemma_stored_status(chip: Chip, sr1: u8, sr2: u8, sr3: u8)
    ensures
        chip.commanded(Command::bare(OP_WREN)).commanded(
            Command::with(OP_WRSR, Transfer::WriteBytes(sr1, sr2)),
        ) == (Chip {
            live: Status { sr1: settable_sr1(sr1), sr2, ..chip.live },
            stored: Status { sr1: settable_sr1(sr1), sr2, ..chip.stored },
            latch: Latch::Closed,
            reset_armed: false,
            ..chip
        }),
        chip.commanded(Command::bare(OP_WREN)).commanded(
            Command::with(OP_WRSR3, Transfer::WriteByte(sr3)),
        ) == (Chip {
            live: Status { sr3, ..chip.live },
            stored: Status { sr3, ..chip.stored },
            latch: Latch::Closed,
            reset_armed: false,
            ..chip
        }),
{
    reveal(Chip::commanded);
}

/// One more operation takes the board one step further.
pub proof fn lemma_at_record(board: Board, device: Device, history: Seq<Event>, op: BusOp)
    ensures
        board.at(record(device, history, op)) == board.at(history).after(op),
{
    reveal_with_fuel(Board::at, 2);
    assert(record(device, history, op).drop_last() =~= history);
}

} // verus!
