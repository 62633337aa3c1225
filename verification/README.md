# ws63-flash-algorithm

A probe-rs flash loader for the HiSilicon WS63 (Hi3863) on-chip SFC NOR flash,
with its logic verified by Verus.

The loader drives the Serial Flash Controller (SFC v150) in register mode for
status and erase commands and in bus-DMA mode for programming.

## Layout

- `src/` is the verified library. It performs no I/O and needs no heap: every
  operation is a state machine that names one bus operation at a time.
  - `bus.rs`: bus operations, plans of them, and the `Routine` trait that carries
    a plan out.
  - `plan.rs`: what each operation does on the bus, in ghost code.
  - `sfc.rs`: registers, commands and polls of the controller.
  - `nor.rs`: status registers, reset, erase and program sequences of the chip.
  - `algo.rs`: `Ws63Algo`, with its init, erase, program, verify and uninit.
  - `error.rs`: the error codes that the host sees.
  - `board.rs`: a model of the controller and the chip.
  - `effects.rs`, `laws.rs`: what the operations achieve on that model.
  - `safety.rs`: the operations access the registers of the controller only.
- `app/` is the loader blob: it performs the bus operations on the hardware and
  exports the entry points that probe-rs calls.
- `tests/` runs the routines against scripted and simulated hardware.

## What holds

- Every poll is bounded, so every operation ends whatever the hardware answers.
- Init clears the volatile block-protect bits only, without wearing the status
  flash, and confirms that they read back clear. Where they do not, it writes the
  bus configuration back and fails.
- Erase uses 64 KiB blocks between `0x230000` and `0x5f0000` and 4 KiB sectors
  elsewhere; no block erase reaches the NV partition at `0x5fc000`.
- An erase, a program or a status write directly follows the command that enables
  it, and reset enable and reset directly follow each other.
- UnInit restores the bus registers and the status registers that Init found; a
  status register that read as zero gets its expected value instead.

## What is left to the blob

- The pause between two samples is a counted loop. Its length is an estimate.
- The data-cache operation of UnInit is a `fence`: it orders accesses, but the
  blob does not show that a line is written back or dropped. The base instruction
  set has nothing for that.
