//! The PCI-visible shell of the AC97 audio device.
//!
//! `Ac97Dev` owns the configuration-space bank, the mixer and the
//! bus-master engine.  It classifies each BAR access into the mixer or
//! bus-master window by address range, enforces the access-width rules
//! (mixer: exactly two bytes; bus master: one, two or four), and holds
//! the interrupt handles in a pending slot until the first bus-master
//! write proves the engine's final execution context is live — only then
//! are they delivered, and only once.

use vstd::prelude::*;

use crate::ac97_regs::MASTER_REGS_SIZE;
use crate::ac97_regs::MIXER_REGS_SIZE;
use crate::allocator::MmioAllocator;
use crate::audio::SourceKind;
use crate::audio::StreamEffect;
use crate::audio::StreamSource;
use crate::bus_master::Ac97BusMaster;
use crate::bus_master::IrqEvent;
use crate::bus_master::IrqHandles;
use crate::bus_master::spec_apply_mixer;
use crate::bus_master::spec_writeb_engine;
use crate::bus_master::spec_writel_engine;
use crate::bus_master::spec_writew_engine;
use crate::guest_mem::GuestRam;
use crate::mixer::Ac97Mixer;
use crate::mixer::MIXER_MASTER_VOL_MUTE;
use crate::mixer::MIXER_PCM_FRONT_DAC_RATE;
use crate::mixer::mixer_word_at;
use crate::mixer::mixer_write;
use crate::pci_config::PciAddress;
use crate::pci_config::PciConfiguration;
use crate::pci_config::PciInterruptPin;

verus! {

/// Vendor of the emulated controller.
pub const PCI_VENDOR_ID_INTEL: u16 = 0x8086;

/// Device ID of the 82801AA AC97 controller; a reference emulator uses
/// this part, so guest drivers match on it, and the value must be kept
/// bit for bit.
pub const PCI_DEVICE_ID_INTEL_82801AA_5: u16 = 0x2415;

/// PCI class code for multimedia controllers.
pub const PCI_CLASS_MULTIMEDIA: u8 = 4;

/// PCI subclass code for audio devices.
pub const PCI_SUBCLASS_AUDIO: u8 = 1;

/// The host audio backend the device is asked to use.
#[derive(Debug, Clone, PartialEq, Eq, Structural)]
pub enum Ac97Backend {
    NULL,
    CRAS,
}

impl Default for Ac97Backend {
    /// The discard-only backend is the default.
    fn default() -> (r: Self)
        ensures
            r == Ac97Backend::NULL,
    {
        Ac97Backend::NULL
    }
}

/// Errors of device configuration.
#[derive(Debug, Clone, PartialEq, Eq, Structural)]
pub enum Ac97Error {
    InvalidBackend,
}

impl Ac97Error {
    /// A reader-facing description of the error.
    pub fn message(&self) -> (r: String)
        ensures
            r@ == "Must be cras or null"@,
    {
        "Must be cras or null".to_owned()
    }
}

impl Ac97Backend {
    /// Parses a backend selector: `"cras"` or `"null"`, anything else
    /// being an invalid-backend error.
    pub fn from_str(s: &str) -> (r: Result<Ac97Backend, Ac97Error>)
        ensures
            s@ == "cras"@ ==> r == Ok::<Ac97Backend, Ac97Error>(Ac97Backend::CRAS),
            s@ == "null"@ ==> r == Ok::<Ac97Backend, Ac97Error>(Ac97Backend::NULL),
            s@ != "cras"@ && s@ != "null"@ ==> r == Err::<Ac97Backend, Ac97Error>(
                Ac97Error::InvalidBackend,
            ),
    {
        proof {
            reveal_strlit("cras");
            reveal_strlit("null");
            assert("cras"@[0] == 'c');
            assert("null"@[0] == 'n');
            assert("cras"@ != "null"@);
        }
        let owned = s.to_owned();
        if owned == "cras".to_owned() {
            Ok(Ac97Backend::CRAS)
        } else if owned == "null".to_owned() {
            Ok(Ac97Backend::NULL)
        } else {
            Err(Ac97Error::InvalidBackend)
        }
    }
}

/// The parameters an AC97 device is built from.
pub struct Ac97Parameters {
    /// The backend selector.
    pub backend: Ac97Backend,
    /// Whether capture streams may be opened.
    pub capture: bool,
    /// Effects requested when a capture stream is opened.
    pub capture_effects: Vec<StreamEffect>,
}

impl Default for Ac97Parameters {
    /// Null backend, no capture, no effects.
    fn default() -> (r: Self)
        ensures
            r.backend == Ac97Backend::NULL,
            !r.capture,
            r.capture_effects@ == Seq::<StreamEffect>::empty(),
    {
        Ac97Parameters { backend: Ac97Backend::NULL, capture: false, capture_effects: Vec::new() }
    }
}

/// Errors raised while bringing the device up.
#[derive(Debug, Clone, Copy, PartialEq, Eq, Structural)]
pub enum PciDeviceError {
    /// The address allocator could not grant a BAR range.
    IoAllocationFailed,
    /// Configuration space refused the BAR registration.
    IoRegistrationFailed,
}

/// The pending interrupt handles and the engine's slot after one
/// bus-master write: present handles move into an empty engine exactly
/// once; an engine that owns handles keeps them and the pending pair is
/// still consumed.
pub open spec fn spec_handoff(
    pa: Option<IrqEvent>,
    pb: Option<IrqEvent>,
    engine: Option<IrqHandles>,
) -> (Option<IrqEvent>, Option<IrqEvent>, Option<IrqHandles>) {
    match (pa, pb) {
        (Some(a), Some(b)) => (
            (
                None,
                None,
                if engine is None {
                    Some(IrqHandles { irq_evt: a, irq_resample_evt: b })
                } else {
                    engine
                },
            )
        ),
        _ => ((pa, pb, engine)),
    }
}

/// Interrupt-handle handoff happens exactly once: after one handoff the
/// pending slot is empty, so a second bus-master write hands nothing
/// over; and handles the engine already owns are never replaced,
/// whatever sits in the pending slot.
pub proof fn lemma_handoff_once(
    pa: Option<IrqEvent>,
    pb: Option<IrqEvent>,
    engine: Option<IrqHandles>,
)
    ensures
        ({
            let (a1, b1, e1) = spec_handoff(pa, pb, engine);
            spec_handoff(a1, b1, e1) == ((a1, b1, e1))
        }),
        (engine is Some) ==> spec_handoff(pa, pb, engine).2 == engine,
{
}

/// The bytes a mixer-window read leaves in the caller's buffer: the
/// register word, little-endian, for a two-byte access; any other width
/// is a protocol violation and the buffer is untouched.
pub open spec fn spec_mixer_read_bytes(m: Ac97Mixer, offset: u64, bytes: Seq<u8>) -> Seq<u8> {
    if bytes.len() == 2 {
        let v = mixer_word_at(m.regs@, offset as int);
        seq![(v % 0x100) as u8, (v / 0x100) as u8]
    } else {
        bytes
    }
}

/// The bytes a bus-master-window read leaves in the caller's buffer,
/// little-endian, by access width; other widths leave it untouched.
pub open spec fn spec_bm_read_bytes(m: Ac97BusMaster, offset: u64, bytes: Seq<u8>) -> Seq<u8> {
    if bytes.len() == 1 {
        seq![m.spec_readb(offset)]
    } else if bytes.len() == 2 {
        let v = m.spec_readw(offset);
        seq![(v % 0x100) as u8, (v / 0x100) as u8]
    } else if bytes.len() == 4 {
        let v = m.spec_readl(offset);
        seq![
            (v % 0x100) as u8,
            (v / 0x100 % 0x100) as u8,
            (v / 0x1_0000 % 0x100) as u8,
            (v / 0x100_0000) as u8,
        ]
    } else {
        bytes
    }
}

/// The engine after a bus-master-window write of `data` at the
/// stream-relative `offset`, by access width; other widths drop the
/// write.
pub open spec fn spec_bm_write(
    m: Ac97BusMaster,
    offset: u64,
    data: Seq<u8>,
    mem: &GuestRam,
) -> Ac97BusMaster {
    if data.len() == 1 {
        spec_writeb_engine(m, offset, data[0], mem)
    } else if data.len() == 2 {
        spec_writew_engine(m, offset, (data[0] + 0x100 * data[1]) as u16)
    } else if data.len() == 4 {
        spec_writel_engine(
            m,
            offset,
            (data[0] + 0x100 * data[1] + 0x1_0000 * data[2] + 0x100_0000 * data[3]) as u32,
        )
    } else {
        m
    }
}

/// The AC97 PCI audio device.
pub struct Ac97Dev {
    /// The configuration-space bank.
    pub config_regs: PciConfiguration,
    /// The bus/device/function the platform assigned; `None` until
    /// `assign_address`.
    pub pci_address: Option<PciAddress>,
    /// The pending interrupt assert handle: saved here until the first
    /// bus-master write, after the process hosting the engine has
    /// reached its final execution context.
    pub irq_evt: Option<IrqEvent>,
    /// The pending resample handle, consumed together with the assert
    /// handle.
    pub irq_resample_evt: Option<IrqEvent>,
    /// The bus-master DMA engine.
    pub bus_master: Ac97BusMaster,
    /// The mixer register bank.
    pub mixer: Ac97Mixer,
}

impl Ac97Dev {
    /// The device is well formed when its banks are and the two pending
    /// handles are present or absent together.
    pub open spec fn wf(&self) -> bool {
        &&& self.config_regs.wf()
        &&& self.mixer.wf()
        &&& self.bus_master.wf()
        &&& ((self.irq_evt is Some) <==> (self.irq_resample_evt is Some))
    }

    /// Creates a device over the given audio backend, with the fixed
    /// 82801AA identity and every register at its reset value.
    pub fn new(audio_server: StreamSource) -> (r: Ac97Dev)
        ensures
            r.wf(),
            r.config_regs.vendor_id == PCI_VENDOR_ID_INTEL,
            r.config_regs.device_id == PCI_DEVICE_ID_INTEL_82801AA_5,
            r.config_regs.class == PCI_CLASS_MULTIMEDIA,
            r.config_regs.subclass == PCI_SUBCLASS_AUDIO,
            r.config_regs.subsystem_vendor_id == PCI_VENDOR_ID_INTEL,
            r.config_regs.subsystem_id == 1,
            forall|i: int| 0 <= i < 6 ==> r.config_regs.bars@[i] is None,
            (r.pci_address is None),
            (r.irq_evt is None),
            (r.irq_resample_evt is None),
            r.bus_master.audio_server == audio_server,
            (r.bus_master.irq is None),
            !r.bus_master.irq_level,
            r.bus_master.po == crate::ac97_regs::StreamRegs::spec_reset(),
            r.bus_master.pi == crate::ac97_regs::StreamRegs::spec_reset(),
            r.bus_master.mc == crate::ac97_regs::StreamRegs::spec_reset(),
            r.bus_master.capture_effects@ == Seq::<StreamEffect>::empty(),
            forall|o: int| mixer_word_at(r.mixer.regs@, o) == 0,
    {
        let config_regs = PciConfiguration::new(
            PCI_VENDOR_ID_INTEL,
            PCI_DEVICE_ID_INTEL_82801AA_5,
            PCI_CLASS_MULTIMEDIA,
            PCI_SUBCLASS_AUDIO,
            PCI_VENDOR_ID_INTEL,
            1,  // Subsystem ID.
        );
        Ac97Dev {
            config_regs,
            pci_address: None,
            irq_evt: None,
            irq_resample_evt: None,
            bus_master: Ac97BusMaster::new(audio_server),
            mixer: Ac97Mixer::new(),
        }
    }

    /// Creates a device over the discard-only null backend.
    fn create_null_audio_device() -> (r: Result<Ac97Dev, PciDeviceError>)
        ensures
            (r is Ok),
            r.unwrap().wf(),
            r.unwrap().bus_master.audio_server.kind == SourceKind::Null,
    {
        let server = StreamSource::new_null();
        Ok(Ac97Dev::new(server))
    }

    /// Creates a device over the host audio server, with capture
    /// enabled and effects applied as the parameters ask.  The server
    /// connection itself lives outside the device; the source here
    /// records what was asked of it.
    fn create_server_audio_device(params: Ac97Parameters) -> (r: Result<Ac97Dev, PciDeviceError>)
        ensures
            (r is Ok),
            r.unwrap().wf(),
            r.unwrap().bus_master.audio_server.kind == SourceKind::Server,
            r.unwrap().bus_master.audio_server.capture_enabled == params.capture,
            r.unwrap().bus_master.capture_effects@ == params.capture_effects@,
    {
        let server = StreamSource::new_server(params.capture, Vec::new());
        let mut dev = Ac97Dev::new(server);
        dev.set_capture_effects(params.capture_effects);
        Ok(dev)
    }

    /// Creates a device with the backend the parameters select.  Every
    /// selector of `Ac97Backend` is constructible, so this succeeds for
    /// every parameter value.
    pub fn try_new(param: Ac97Parameters) -> (r: Result<Ac97Dev, PciDeviceError>)
        ensures
            (r is Ok),
            r.unwrap().wf(),
            param.backend == Ac97Backend::NULL ==> r.unwrap().bus_master.audio_server.kind
                == SourceKind::Null,
            param.backend == Ac97Backend::CRAS ==> r.unwrap().bus_master.audio_server.kind
                == SourceKind::Server && r.unwrap().bus_master.capture_effects@
                == param.capture_effects@,
    {
        match param.backend {
            Ac97Backend::CRAS => Ac97Dev::create_server_audio_device(param),
            Ac97Backend::NULL => Ac97Dev::create_null_audio_device(),
        }
    }

    /// Records the effects to request when a capture stream is opened.
    pub fn set_capture_effects(&mut self, effect: Vec<StreamEffect>)
        ensures
            *final(self) == (Ac97Dev { bus_master: final(self).bus_master, ..*old(self) }),
            final(self).bus_master == (Ac97BusMaster {
                capture_effects: effect,
                ..old(self).bus_master
            }),
    {
        self.bus_master.set_capture_effects(effect);
    }

    /// Reads from the mixer window.  Only a two-byte access returns
    /// data; any other width is a protocol violation and the caller's
    /// buffer is untouched.
    pub fn read_mixer(&self, offset: u64, data: &mut Vec<u8>)
        requires
            self.wf(),
        ensures
            final(data)@ == spec_mixer_read_bytes(self.mixer, offset, old(data)@),
    {
        if data.len() == 2 {
            let val: u16 = self.mixer.readw(offset);
            data.set(0, (val % 0x100) as u8);
            data.set(1, (val / 0x100) as u8);
        }
    }

    /// Writes to the mixer window and applies the new settings to the
    /// engine.  A non-two-byte access is a protocol violation: the
    /// mixer is left exactly as it was.
    pub fn write_mixer(&mut self, offset: u64, data: &Vec<u8>)
        requires
            old(self).wf(),
        ensures
            final(self).wf(),
            data@.len() == 2 ==> final(self).mixer.regs@ == mixer_write(
                old(self).mixer.regs@,
                offset as int,
                (data@[0] + 0x100 * data@[1]) as u16,
            ),
            data@.len() != 2 ==> final(self).mixer == old(self).mixer,
            final(self).bus_master == spec_apply_mixer(
                old(self).bus_master,
                final(self).mixer.spec_master_muted(),
                final(self).mixer.spec_pcm_rate(),
            ),
            final(self).config_regs == old(self).config_regs,
            final(self).pci_address == old(self).pci_address,
            final(self).irq_evt == old(self).irq_evt,
            final(self).irq_resample_evt == old(self).irq_resample_evt,
    {
        if data.len() == 2 {
            let val: u16 = data[0] as u16 + 0x100 * data[1] as u16;
            self.mixer.writew(offset, val);
        }
        // Apply the new mixer settings to the bus master.
        let muted = self.mixer.readw(MIXER_MASTER_VOL_MUTE) >= 0x8000;
        let rate = self.mixer.readw(MIXER_PCM_FRONT_DAC_RATE);
        self.bus_master.apply_mixer_values(muted, rate);
    }

    /// Reads from the bus-master window with a one, two or four-byte
    /// access; any other width leaves the caller's buffer untouched.
    pub fn read_bus_master(&self, offset: u64, data: &mut Vec<u8>)
        requires
            self.wf(),
        ensures
            final(data)@ == spec_bm_read_bytes(self.bus_master, offset, old(data)@),
    {
        if data.len() == 1 {
            data.set(0, self.bus_master.readb(offset));
        } else if data.len() == 2 {
            let val: u16 = self.bus_master.readw(offset);
            data.set(0, (val % 0x100) as u8);
            data.set(1, (val / 0x100) as u8);
        } else if data.len() == 4 {
            let val: u32 = self.bus_master.readl(offset);
            data.set(0, (val % 0x100) as u8);
            data.set(1, (val / 0x100 % 0x100) as u8);
            data.set(2, (val / 0x1_0000 % 0x100) as u8);
            data.set(3, (val / 0x100_0000) as u8);
        }
    }

    /// Writes to the bus-master window with a one, two or four-byte
    /// access; any other width drops the write.
    pub fn write_bus_master(&mut self, offset: u64, data: &Vec<u8>, mem: &GuestRam)
        requires
            old(self).wf(),
        ensures
            final(self).wf(),
            final(self).bus_master == spec_bm_write(old(self).bus_master, offset, data@, mem),
            final(self).mixer == old(self).mixer,
            final(self).config_regs == old(self).config_regs,
            final(self).pci_address == old(self).pci_address,
            final(self).irq_evt == old(self).irq_evt,
            final(self).irq_resample_evt == old(self).irq_resample_evt,
    {
        if data.len() == 1 {
            self.bus_master.writeb(offset, data[0], mem);
        } else if data.len() == 2 {
            let val: u16 = data[0] as u16 + 0x100 * data[1] as u16;
            self.bus_master.writew(offset, val);
        } else if data.len() == 4 {
            let val: u32 = data[0] as u32 + 0x100 * data[1] as u32 + 0x1_0000 * data[2] as u32
                + 0x100_0000 * data[3] as u32;
            self.bus_master.writel(offset, val);
        }
    }

    /// The name the device reports in diagnostics.
    pub fn debug_label(&self) -> (r: String)
        ensures
            r@ == "AC97"@,
    {
        "AC97".to_owned()
    }

    /// Records the bus/device/function the platform assigned; must
    /// precede BAR allocation.
    pub fn assign_address(&mut self, address: PciAddress)
        ensures
            *final(self) == (Ac97Dev { pci_address: Some(address), ..*old(self) }),
    {
        self.pci_address = Some(address);
    }

    /// Stores the guest-visible IRQ routing in configuration space at
    /// once, and parks the two signaling handles in the pending slot;
    /// they reach the engine only on the first bus-master write.
    pub fn assign_irq(
        &mut self,
        irq_evt: IrqEvent,
        irq_resample_evt: IrqEvent,
        irq_num: u32,
        irq_pin: PciInterruptPin,
    )
        requires
            old(self).wf(),
        ensures
            final(self).wf(),
            final(self).config_regs == (PciConfiguration {
                irq_line: (irq_num % 0x100) as u8,
                irq_pin_code: irq_pin.spec_code(),
                ..old(self).config_regs
            }),
            final(self).irq_evt == Some(irq_evt),
            final(self).irq_resample_evt == Some(irq_resample_evt),
            final(self).pci_address == old(self).pci_address,
            final(self).bus_master == old(self).bus_master,
            final(self).mixer == old(self).mixer,
    {
        self.config_regs.set_irq((irq_num % 0x100) as u8, irq_pin);
        self.irq_evt = Some(irq_evt);
        self.irq_resample_evt = Some(irq_resample_evt);
    }

    /// Reads a configuration-space register.
    pub fn read_config_register(&self, reg_idx: usize) -> (r: u32)
        requires
            self.wf(),
        ensures
            r == self.config_regs.spec_read_reg(reg_idx as int),
    {
        self.config_regs.read_reg(reg_idx)
    }

    /// Writes a configuration-space register.
    pub fn write_config_register(&mut self, reg_idx: usize, offset: u64, data: &Vec<u8>)
        requires
            old(self).wf(),
        ensures
            final(self).wf(),
            *final(self) == (Ac97Dev { config_regs: final(self).config_regs, ..*old(self) }),
    {
        self.config_regs.write_reg(reg_idx, offset, data);
    }

    /// The descriptors the device needs preserved across a sandboxing
    /// transition: whatever its backend connection requires, empty for
    /// the null backend.
    pub fn keep_fds(&self) -> (r: Vec<i32>)
        ensures
            r@ == self.bus_master.audio_server.keep_fds@,
    {
        self.bus_master.keep_fds()
    }

    /// Requests the two BAR windows from the allocator, each aligned to
    /// its own size, and registers them as BAR0 (mixer) and BAR1 (bus
    /// master).  The platform address must have been assigned first.
    /// Fails with an allocation error when the allocator cannot grant a
    /// range, and with a registration error when the BAR slot is
    /// already taken (as on a second call); the error cases leave
    /// exactly the prefix of work already done, as the hardware
    /// bring-up would.
    pub fn allocate_io_bars(&mut self, resources: &mut MmioAllocator) -> (r: Result<
        Vec<(u64, u64)>,
        PciDeviceError,
    >)
        requires
            old(self).wf(),
            old(resources).wf(),
            (old(self).pci_address is Some),
        ensures
            final(self).wf(),
            final(resources).wf(),
            final(self).pci_address == old(self).pci_address,
            final(self).irq_evt == old(self).irq_evt,
            final(self).irq_resample_evt == old(self).irq_resample_evt,
            final(self).bus_master == old(self).bus_master,
            final(self).mixer == old(self).mixer,
            final(self).config_regs == (PciConfiguration {
                bars: final(self).config_regs.bars,
                ..old(self).config_regs
            }),
            final(resources).end == old(resources).end,
            ({
                let ok0 = old(resources).spec_alloc_ok(MIXER_REGS_SIZE, MIXER_REGS_SIZE);
                let a0 = old(resources).spec_alloc_start(MIXER_REGS_SIZE) as u64;
                let res1 = MmioAllocator {
                    next: old(resources).spec_alloc_next(MIXER_REGS_SIZE, MIXER_REGS_SIZE) as u64,
                    end: old(resources).end,
                };
                let ok1 = res1.spec_alloc_ok(MASTER_REGS_SIZE, MASTER_REGS_SIZE);
                let a1 = res1.spec_alloc_start(MASTER_REGS_SIZE) as u64;
                let bar0_free = old(self).config_regs.bars@[0] is None;
                let bar1_free = old(self).config_regs.bars@[1] is None;
                if !ok0 {
                    &&& r == Err::<Vec<(u64, u64)>, PciDeviceError>(
                        PciDeviceError::IoAllocationFailed,
                    )
                    &&& *final(resources) == *old(resources)
                    &&& final(self).config_regs.bars@ == old(self).config_regs.bars@
                } else if !bar0_free {
                    &&& r == Err::<Vec<(u64, u64)>, PciDeviceError>(
                        PciDeviceError::IoRegistrationFailed,
                    )
                    &&& *final(resources) == res1
                    &&& final(self).config_regs.bars@ == old(self).config_regs.bars@
                } else if !ok1 {
                    &&& r == Err::<Vec<(u64, u64)>, PciDeviceError>(
                        PciDeviceError::IoAllocationFailed,
                    )
                    &&& *final(resources) == res1
                    &&& final(self).config_regs.bars@ == old(self).config_regs.bars@.update(
                        0,
                        Some(crate::pci_config::PciBar { addr: a0, size: MIXER_REGS_SIZE }),
                    )
                } else if !bar1_free {
                    &&& r == Err::<Vec<(u64, u64)>, PciDeviceError>(
                        PciDeviceError::IoRegistrationFailed,
                    )
                    &&& final(resources).next == res1.spec_alloc_next(
                        MASTER_REGS_SIZE,
                        MASTER_REGS_SIZE,
                    )
                    &&& final(self).config_regs.bars@ == old(self).config_regs.bars@.update(
                        0,
                        Some(crate::pci_config::PciBar { addr: a0, size: MIXER_REGS_SIZE }),
                    )
                } else {
                    &&& (r is Ok)
                    &&& r.unwrap()@ == seq![(a0, MIXER_REGS_SIZE), (a1, MASTER_REGS_SIZE)]
                    &&& final(resources).next == res1.spec_alloc_next(
                        MASTER_REGS_SIZE,
                        MASTER_REGS_SIZE,
                    )
                    &&& final(self).config_regs.bars@ == old(self).config_regs.bars@.update(
                        0,
                        Some(crate::pci_config::PciBar { addr: a0, size: MIXER_REGS_SIZE }),
                    ).update(1, Some(crate::pci_config::PciBar { addr: a1, size: MASTER_REGS_SIZE }))
                    &&& final(self).config_regs.spec_bar_addr(0) == a0
                    &&& final(self).config_regs.spec_bar_addr(1) == a1
                }
            }),
    {
        let mixer_regs_addr = match resources.allocate_with_align(MIXER_REGS_SIZE, MIXER_REGS_SIZE) {
            Ok(a) => a,
            Err(_) => {
                return Err(PciDeviceError::IoAllocationFailed);
            },
        };
        match self.config_regs.add_pci_bar(0, mixer_regs_addr, MIXER_REGS_SIZE) {
            Ok(_) => {},
            Err(_) => {
                return Err(PciDeviceError::IoRegistrationFailed);
            },
        }
        let master_regs_addr = match resources.allocate_with_align(
            MASTER_REGS_SIZE,
            MASTER_REGS_SIZE,
        ) {
            Ok(a) => a,
            Err(_) => {
                return Err(PciDeviceError::IoAllocationFailed);
            },
        };
        match self.config_regs.add_pci_bar(1, master_regs_addr, MASTER_REGS_SIZE) {
            Ok(_) => {},
            Err(_) => {
                return Err(PciDeviceError::IoRegistrationFailed);
            },
        }
        let mut ranges: Vec<(u64, u64)> = Vec::new();
        ranges.push((mixer_regs_addr, MIXER_REGS_SIZE));
        ranges.push((master_regs_addr, MASTER_REGS_SIZE));
        proof {
            assert(ranges@ =~= seq![
                (mixer_regs_addr, MIXER_REGS_SIZE),
                (master_regs_addr, MASTER_REGS_SIZE),
            ]);
        }
        Ok(ranges)
    }

    /// Reads from a BAR window, classifying the address into the mixer
    /// or bus-master window.  An address outside both windows is a
    /// no-op, not an error: drivers probe unmapped offsets.
    pub fn read_bar(&self, addr: u64, data: &mut Vec<u8>)
        requires
            self.wf(),
        ensures
            ({
                let bar0 = self.config_regs.spec_bar_addr(0);
                let bar1 = self.config_regs.spec_bar_addr(1);
                if bar0 <= addr < bar0 + MIXER_REGS_SIZE {
                    final(data)@ == spec_mixer_read_bytes(
                        self.mixer,
                        (addr - bar0) as u64,
                        old(data)@,
                    )
                } else if bar1 <= addr < bar1 + MASTER_REGS_SIZE {
                    final(data)@ == spec_bm_read_bytes(
                        self.bus_master,
                        (addr - bar1) as u64,
                        old(data)@,
                    )
                } else {
                    final(data)@ == old(data)@
                }
            }),
    {
        let bar0 = self.config_regs.get_bar_addr(0);
        let bar1 = self.config_regs.get_bar_addr(1);
        if addr >= bar0 && addr - bar0 < MIXER_REGS_SIZE {
            self.read_mixer(addr - bar0, data);
        } else if addr >= bar1 && addr - bar1 < MASTER_REGS_SIZE {
            self.read_bus_master(addr - bar1, data);
        }
    }

    /// Writes to a BAR window, classifying the address as `read_bar`
    /// does.  On the first write that falls in the bus-master window
    /// the pending interrupt handles, if present, are moved into the
    /// engine before the write is processed; the handoff happens at
    /// most once per device instance.
    pub fn write_bar(&mut self, addr: u64, data: &Vec<u8>, mem: &GuestRam)
        requires
            old(self).wf(),
        ensures
            final(self).wf(),
            final(self).config_regs == old(self).config_regs,
            final(self).pci_address == old(self).pci_address,
            ({
                let bar0 = old(self).config_regs.spec_bar_addr(0);
                let bar1 = old(self).config_regs.spec_bar_addr(1);
                if bar0 <= addr < bar0 + MIXER_REGS_SIZE {
                    &&& final(self).irq_evt == old(self).irq_evt
                    &&& final(self).irq_resample_evt == old(self).irq_resample_evt
                    &&& (data@.len() == 2 ==> final(self).mixer.regs@ == mixer_write(
                        old(self).mixer.regs@,
                        addr - bar0,
                        (data@[0] + 0x100 * data@[1]) as u16,
                    ))
                    &&& (data@.len() != 2 ==> final(self).mixer == old(self).mixer)
                    &&& final(self).bus_master == spec_apply_mixer(
                        old(self).bus_master,
                        final(self).mixer.spec_master_muted(),
                        final(self).mixer.spec_pcm_rate(),
                    )
                } else if bar1 <= addr < bar1 + MASTER_REGS_SIZE {
                    let (p1, p2, eng) = spec_handoff(
                        old(self).irq_evt,
                        old(self).irq_resample_evt,
                        old(self).bus_master.irq,
                    );
                    let mid = Ac97BusMaster { irq: eng, ..old(self).bus_master };
                    &&& final(self).irq_evt == p1
                    &&& final(self).irq_resample_evt == p2
                    &&& final(self).bus_master == spec_bm_write(
                        mid,
                        (addr - bar1) as u64,
                        data@,
                        mem,
                    )
                    &&& final(self).mixer == old(self).mixer
                } else {
                    *final(self) == *old(self)
                }
            }),
    {
        let bar0 = self.config_regs.get_bar_addr(0);
        let bar1 = self.config_regs.get_bar_addr(1);
        if addr >= bar0 && addr - bar0 < MIXER_REGS_SIZE {
            self.write_mixer(addr - bar0, data);
        } else if addr >= bar1 && addr - bar1 < MASTER_REGS_SIZE {
            // Check if the irq handles need to be passed to the engine.
            if self.irq_evt.is_some() && self.irq_resample_evt.is_some() {
                let irq_evt = match self.irq_evt {
                    Some(e) => e,
                    None => IrqEvent { count: 0 },
                };
                let irq_resample_evt = match self.irq_resample_evt {
                    Some(e) => e,
                    None => IrqEvent { count: 0 },
                };
                self.irq_evt = None;
                self.irq_resample_evt = None;
                self.bus_master.set_irq_event_fd(irq_evt, irq_resample_evt);
            }
            self.write_bus_master(addr - bar1, data, mem);
        }
    }
}

} // verus!
