//! Register-level model of one bus-master stream.
//!
//! Each of the three streams (capture input, playback output, microphone)
//! owns the standard ICH AC97 NABM register block: the buffer-descriptor
//! list base (BDBAR), the current and last-valid ring indexes (CIV, LVI),
//! the remaining sample count of the in-flight descriptor (PICB), and the
//! control and status registers, stored here as their individual bits.
//! Register values are composed from the bits arithmetically, so each
//! bit's weight is stated once.

use vstd::prelude::*;

verus! {

/// Size of the mixer MMIO window (BAR0).
pub const MIXER_REGS_SIZE: u64 = 0x100;

/// Size of the bus-master MMIO window (BAR1).
pub const MASTER_REGS_SIZE: u64 = 0x400;

/// Number of entries in a buffer-descriptor ring; ring indexes advance
/// modulo this.
pub const NUM_DESCRIPTORS: u8 = 32;

/// Bytes per buffer-descriptor ring entry: a 32-bit buffer address and a
/// 32-bit control word.
pub const DESCRIPTOR_BYTES: u64 = 8;

/// Bytes per 16-bit audio sample.
pub const SAMPLE_BYTES: u64 = 2;

/// First offset of the capture-input stream's register block.
pub const PI_BASE: u64 = 0x00;

/// First offset of the playback-output stream's register block.
pub const PO_BASE: u64 = 0x10;

/// First offset of the microphone stream's register block.
pub const MC_BASE: u64 = 0x20;

/// Stream-relative offset of the buffer-descriptor list base register
/// (32-bit).
pub const REG_BDBAR: u64 = 0x00;

/// Stream-relative offset of the current index value register (8-bit).
pub const REG_CIV: u64 = 0x04;

/// Stream-relative offset of the last valid index register (8-bit).
pub const REG_LVI: u64 = 0x05;

/// Stream-relative offset of the status register (16-bit).
pub const REG_SR: u64 = 0x06;

/// Stream-relative offset of the position-in-current-buffer register
/// (16-bit).
pub const REG_PICB: u64 = 0x08;

/// Stream-relative offset of the prefetched index value register
/// (8-bit).
pub const REG_PIV: u64 = 0x0A;

/// Stream-relative offset of the control register (8-bit).
pub const REG_CR: u64 = 0x0B;

/// Offset of the global control register (32-bit).
pub const REG_GLOB_CNT: u64 = 0x2C;

/// Offset of the global status register (32-bit).
pub const REG_GLOB_STA: u64 = 0x30;

/// Offset of the codec access semaphore register (8-bit).
pub const REG_ACC_SEMA: u64 = 0x34;

/// The registers of one bus-master stream, with control and status bits
/// broken out.
pub struct StreamRegs {
    /// Buffer-descriptor list base guest address, 8-byte aligned.
    pub bdbar: u32,
    /// Current index value: the ring entry being consumed.
    pub civ: u8,
    /// Last valid index: the last ring entry the guest has prepared.
    pub lvi: u8,
    /// Position in current buffer: samples not yet transferred from the
    /// descriptor in flight.
    pub picb: u16,
    /// Control bit 0 (RPBM): run when set, paused or stopped when clear.
    pub run: bool,
    /// Control bit 2 (LVBIE): interrupt when the last valid buffer
    /// completes.
    pub lvbie: bool,
    /// Control bit 3 (FEIE): interrupt on a FIFO error.
    pub feie: bool,
    /// Control bit 4 (IOCE): interrupt when a descriptor that requested
    /// it completes.
    pub ioce: bool,
    /// Status bit 0 (DCH): DMA halted.
    pub dch: bool,
    /// Status bit 1 (CELV): current index has reached the last valid
    /// index and its buffer is drained.
    pub celv: bool,
    /// Status bit 2 (LVBCI): the last valid buffer has completed;
    /// write-one-to-clear.
    pub lvbci: bool,
    /// Status bit 3 (BCIS): a descriptor with interrupt-on-completion has
    /// completed; write-one-to-clear.
    pub bcis: bool,
    /// Status bit 4 (FIFOE): FIFO error; write-one-to-clear.
    pub fifoe: bool,
}

impl StreamRegs {
    /// A stream is well formed when its ring indexes are below the ring
    /// size and its descriptor base keeps its hardware alignment.
    pub open spec fn wf(&self) -> bool {
        &&& self.civ < NUM_DESCRIPTORS
        &&& self.lvi < NUM_DESCRIPTORS
        &&& self.bdbar % 8 == 0
    }

    /// The value read from the control register: run (1), LVBIE (4),
    /// FEIE (8), IOCE (16); the reset bit always reads zero.
    pub open spec fn cr_value(&self) -> u8 {
        ((if self.run { 1int } else { 0 }) + (if self.lvbie { 4int } else { 0 })
            + (if self.feie { 8int } else { 0 }) + (if self.ioce { 16int } else { 0 })) as u8
    }

    /// The value read from the status register: DCH (1), CELV (2),
    /// LVBCI (4), BCIS (8), FIFOE (16).
    pub open spec fn sr_value(&self) -> u16 {
        ((if self.dch { 1int } else { 0 }) + (if self.celv { 2int } else { 0 })
            + (if self.lvbci { 4int } else { 0 }) + (if self.bcis { 8int } else { 0 })
            + (if self.fifoe { 16int } else { 0 })) as u16
    }

    /// The prefetched index value: the ring entry after the current one.
    pub open spec fn piv(&self) -> u8 {
        ((self.civ + 1) % (NUM_DESCRIPTORS as int)) as u8
    }

    /// True when the stream holds an interrupt condition that its enable
    /// bits let through to the shared line.
    pub open spec fn interrupt_pending(&self) -> bool {
        ||| (self.bcis && self.ioce)
        ||| (self.lvbci && self.lvbie)
        ||| (self.fifoe && self.feie)
    }

    /// The reset state of a stream: everything cleared except DCH, since
    /// a reset stream is halted.
    pub open spec fn spec_reset() -> StreamRegs {
        StreamRegs {
            bdbar: 0,
            civ: 0,
            lvi: 0,
            picb: 0,
            run: false,
            lvbie: false,
            feie: false,
            ioce: false,
            dch: true,
            celv: false,
            lvbci: false,
            bcis: false,
            fifoe: false,
        }
    }

    /// Creates a stream in its reset state.
    pub fn new() -> (r: StreamRegs)
        ensures
            r == StreamRegs::spec_reset(),
            r.wf(),
    {
        StreamRegs {
            bdbar: 0,
            civ: 0,
            lvi: 0,
            picb: 0,
            run: false,
            lvbie: false,
            feie: false,
            ioce: false,
            dch: true,
            celv: false,
            lvbci: false,
            bcis: false,
            fifoe: false,
        }
    }

    /// Puts the stream back into its reset state.
    pub fn reset(&mut self)
        ensures
            *final(self) == StreamRegs::spec_reset(),
            final(self).wf(),
    {
        self.bdbar = 0;
        self.civ = 0;
        self.lvi = 0;
        self.picb = 0;
        self.run = false;
        self.lvbie = false;
        self.feie = false;
        self.ioce = false;
        self.dch = true;
        self.celv = false;
        self.lvbci = false;
        self.bcis = false;
        self.fifoe = false;
    }

    /// Reads the control register.
    pub fn read_cr(&self) -> (r: u8)
        ensures
            r == self.cr_value(),
    {
        (if self.run { 1u8 } else { 0 }) + (if self.lvbie { 4u8 } else { 0 })
            + (if self.feie { 8u8 } else { 0 }) + (if self.ioce { 16u8 } else { 0 })
    }

    /// Reads the status register.
    pub fn read_sr(&self) -> (r: u16)
        ensures
            r == self.sr_value(),
    {
        (if self.dch { 1u16 } else { 0 }) + (if self.celv { 2u16 } else { 0 })
            + (if self.lvbci { 4u16 } else { 0 }) + (if self.bcis { 8u16 } else { 0 })
            + (if self.fifoe { 16u16 } else { 0 })
    }

    /// Reads the prefetched index value.
    pub fn read_piv(&self) -> (r: u8)
        requires
            self.wf(),
        ensures
            r == self.piv(),
    {
        (self.civ + 1) % NUM_DESCRIPTORS
    }
}

} // verus!
