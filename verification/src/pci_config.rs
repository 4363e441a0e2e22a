//! A model of the PCI configuration-space register bank.
//!
//! The device's PCI identity (vendor, device, class, subsystem), its two
//! base-address registers and its interrupt routing live here.  The bank
//! is read as 32-bit registers indexed by dword; only BAR dwords are
//! guest-writable, and only as whole dwords — everything else of the
//! header is fixed at construction.

use vstd::prelude::*;

verus! {

/// Number of BAR slots in a standard PCI header.
pub const NUM_BAR_REGS: usize = 6;

/// A bus/device/function triple.
#[derive(Clone, Copy, Debug, PartialEq, Eq, Structural)]
pub struct PciAddress {
    pub bus: u8,
    pub dev: u8,
    pub func: u8,
}

/// The PCI interrupt pin a device signals on.
#[derive(Clone, Copy, Debug, PartialEq, Eq, Structural)]
pub enum PciInterruptPin {
    IntA,
    IntB,
    IntC,
    IntD,
}

impl PciInterruptPin {
    /// The code the interrupt-pin config byte holds: INTA# is 1.
    pub open spec fn spec_code(&self) -> u8 {
        match self {
            PciInterruptPin::IntA => 1,
            PciInterruptPin::IntB => 2,
            PciInterruptPin::IntC => 3,
            PciInterruptPin::IntD => 4,
        }
    }

    /// Returns the interrupt-pin config byte code.
    pub fn code(&self) -> (r: u8)
        ensures
            r == self.spec_code(),
    {
        match self {
            PciInterruptPin::IntA => 1,
            PciInterruptPin::IntB => 2,
            PciInterruptPin::IntC => 3,
            PciInterruptPin::IntD => 4,
        }
    }
}

/// Why a BAR registration was refused.
#[derive(Clone, Copy, Debug, PartialEq, Eq, Structural)]
pub enum PciConfigError {
    /// The BAR index is past the header's slots.
    BarIndexInvalid,
    /// The slot already holds a window.
    BarInUse,
}

/// One registered base-address window.
#[derive(Clone, Copy, Debug, PartialEq, Eq, Structural)]
pub struct PciBar {
    pub addr: u64,
    pub size: u64,
}

/// The configuration-space bank of one PCI device.
pub struct PciConfiguration {
    pub vendor_id: u16,
    pub device_id: u16,
    /// Class code (multimedia is 4).
    pub class: u8,
    /// Subclass code (audio device is 1).
    pub subclass: u8,
    pub subsystem_vendor_id: u16,
    pub subsystem_id: u16,
    /// The six BAR slots.
    pub bars: Vec<Option<PciBar>>,
    /// The interrupt line routed to the device; 0 until assigned.
    pub irq_line: u8,
    /// The code of the interrupt pin; 0 until assigned.
    pub irq_pin_code: u8,
}

impl PciConfiguration {
    /// The bank is well formed when it holds exactly the header's BAR
    /// slots.
    pub open spec fn wf(&self) -> bool {
        self.bars@.len() == NUM_BAR_REGS
    }

    /// The base address registered in BAR slot `idx`; zero while the
    /// slot is empty.
    pub open spec fn spec_bar_addr(&self, idx: int) -> u64 {
        if 0 <= idx < self.bars@.len() {
            match self.bars@[idx] {
                Some(b) => b.addr,
                None => 0,
            }
        } else {
            0
        }
    }

    /// The dword read at config register `idx`: the identity, class,
    /// BAR and interrupt registers of a standard header; unmodeled
    /// registers read zero.
    pub open spec fn spec_read_reg(&self, idx: int) -> u32 {
        if idx == 0 {
            (self.vendor_id + 0x1_0000 * self.device_id) as u32
        } else if idx == 2 {
            (0x100_0000 * self.class + 0x1_0000 * self.subclass) as u32
        } else if 4 <= idx < 4 + NUM_BAR_REGS {
            (self.spec_bar_addr(idx - 4) % 0x1_0000_0000) as u32
        } else if idx == 0xB {
            (self.subsystem_vendor_id + 0x1_0000 * self.subsystem_id) as u32
        } else if idx == 0xF {
            (self.irq_line + 0x100 * self.irq_pin_code) as u32
        } else {
            0
        }
    }

    /// Creates a bank holding the given identity, no BARs and no
    /// interrupt routing.
    pub fn new(
        vendor_id: u16,
        device_id: u16,
        class: u8,
        subclass: u8,
        subsystem_vendor_id: u16,
        subsystem_id: u16,
    ) -> (r: PciConfiguration)
        ensures
            r.wf(),
            r.vendor_id == vendor_id,
            r.device_id == device_id,
            r.class == class,
            r.subclass == subclass,
            r.subsystem_vendor_id == subsystem_vendor_id,
            r.subsystem_id == subsystem_id,
            forall|i: int| 0 <= i < NUM_BAR_REGS ==> r.bars@[i] is None,
            r.irq_line == 0,
            r.irq_pin_code == 0,
    {
        let mut bars: Vec<Option<PciBar>> = Vec::new();
        let mut i: usize = 0;
        while i < NUM_BAR_REGS
            invariant
                i <= NUM_BAR_REGS,
                bars@.len() == i,
                forall|j: int| 0 <= j < i ==> bars@[j] is None,
            decreases NUM_BAR_REGS - i,
        {
            bars.push(None);
            i = i + 1;
        }
        PciConfiguration {
            vendor_id,
            device_id,
            class,
            subclass,
            subsystem_vendor_id,
            subsystem_id,
            bars,
            irq_line: 0,
            irq_pin_code: 0,
        }
    }

    /// The base address registered in BAR slot `idx`.
    pub fn get_bar_addr(&self, idx: usize) -> (r: u64)
        requires
            self.wf(),
        ensures
            r == self.spec_bar_addr(idx as int),
    {
        if idx < NUM_BAR_REGS {
            match self.bars[idx] {
                Some(b) => b.addr,
                None => 0,
            }
        } else {
            0
        }
    }

    /// Registers a window in BAR slot `idx`.  Refused, with the bank
    /// unchanged, when the index is past the header's slots or the slot
    /// is already in use.
    pub fn add_pci_bar(&mut self, idx: usize, addr: u64, size: u64) -> (r: Result<
        (),
        PciConfigError,
    >)
        requires
            old(self).wf(),
        ensures
            final(self).wf(),
            idx >= NUM_BAR_REGS ==> r == Err::<(), PciConfigError>(PciConfigError::BarIndexInvalid)
                && *final(self) == *old(self),
            idx < NUM_BAR_REGS && (old(self).bars@[idx as int] is Some) ==> r == Err::<
                (),
                PciConfigError,
            >(PciConfigError::BarInUse) && *final(self) == *old(self),
            idx < NUM_BAR_REGS && (old(self).bars@[idx as int] is None) ==> r == Ok::<
                (),
                PciConfigError,
            >(()) && *final(self) == (PciConfiguration { bars: final(self).bars, ..*old(self) })
                && final(self).bars@ == old(self).bars@.update(
                idx as int,
                Some(PciBar { addr, size }),
            ),
    {
        if idx >= NUM_BAR_REGS {
            return Err(PciConfigError::BarIndexInvalid);
        }
        if self.bars[idx].is_some() {
            return Err(PciConfigError::BarInUse);
        }
        self.bars.set(idx, Some(PciBar { addr, size }));
        Ok(())
    }

    /// Records the interrupt line and pin the platform routed to the
    /// device.
    pub fn set_irq(&mut self, line: u8, pin: PciInterruptPin)
        ensures
            *final(self) == (PciConfiguration {
                irq_line: line,
                irq_pin_code: pin.spec_code(),
                ..*old(self)
            }),
    {
        self.irq_line = line;
        self.irq_pin_code = pin.code();
    }

    /// Reads config register `idx`.
    pub fn read_reg(&self, idx: usize) -> (r: u32)
        requires
            self.wf(),
        ensures
            r == self.spec_read_reg(idx as int),
    {
        if idx == 0 {
            self.vendor_id as u32 + 0x1_0000 * self.device_id as u32
        } else if idx == 2 {
            0x100_0000 * self.class as u32 + 0x1_0000 * self.subclass as u32
        } else if 4 <= idx && idx < 4 + NUM_BAR_REGS {
            (self.get_bar_addr(idx - 4) % 0x1_0000_0000) as u32
        } else if idx == 0xB {
            self.subsystem_vendor_id as u32 + 0x1_0000 * self.subsystem_id as u32
        } else if idx == 0xF {
            self.irq_line as u32 + 0x100 * self.irq_pin_code as u32
        } else {
            0
        }
    }

    /// Writes config register `idx`.  Only whole-dword writes to a
    /// registered BAR take effect, relocating the window (its low four
    /// type bits are forced to zero); every other register of the
    /// header is fixed.
    pub fn write_reg(&mut self, idx: usize, offset: u64, data: &Vec<u8>)
        requires
            old(self).wf(),
        ensures
            final(self).wf(),
            ({
                let bar = idx - 4;
                let val = (data@[0] + 0x100 * data@[1] + 0x1_0000 * data@[2] + 0x100_0000
                    * data@[3]) as u64;
                if 4 <= idx < 4 + NUM_BAR_REGS && offset == 0 && data@.len() == 4
                    && (old(self).bars@[bar] is Some) {
                    *final(self) == (PciConfiguration { bars: final(self).bars, ..*old(self) })
                        && final(self).bars@ == old(self).bars@.update(
                        bar,
                        Some(
                            PciBar {
                                addr: (val - val % 16) as u64,
                                size: old(self).bars@[bar].unwrap().size,
                            },
                        ),
                    )
                } else {
                    *final(self) == *old(self)
                }
            }),
    {
        if 4 <= idx && idx < 4 + NUM_BAR_REGS && offset == 0 && data.len() == 4 {
            let bar = idx - 4;
            match self.bars[bar] {
                Some(b) => {
                    let val: u64 = data[0] as u64 + 0x100 * data[1] as u64 + 0x1_0000
                        * data[2] as u64 + 0x100_0000 * data[3] as u64;
                    self.bars.set(bar, Some(PciBar { addr: val - val % 16, size: b.size }));
                },
                None => {},
            }
        }
    }
}

} // verus!
