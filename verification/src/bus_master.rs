//! The bus-master DMA engine.
//!
//! The engine owns the three stream register blocks, consumes
//! buffer-descriptor rings out of guest memory, moves 16-bit samples
//! between guest buffers and the audio backend, raises completion
//! interrupts through handles delivered after construction, and reflects
//! mixer settings (mute, sample rate) into the backend stream.
//!
//! The transfer algorithm is written once as a spec-level step function
//! (`spec_pull`) and the executable engine is proved to follow it
//! exactly; the ring-drain and interrupt-count laws are then proved of
//! the step function by induction.

use vstd::prelude::*;

use crate::ac97_regs::DESCRIPTOR_BYTES;
use crate::ac97_regs::MC_BASE;
use crate::ac97_regs::NUM_DESCRIPTORS;
use crate::ac97_regs::PI_BASE;
use crate::ac97_regs::PO_BASE;
use crate::ac97_regs::REG_ACC_SEMA;
use crate::ac97_regs::REG_BDBAR;
use crate::ac97_regs::REG_CIV;
use crate::ac97_regs::REG_CR;
use crate::ac97_regs::REG_GLOB_CNT;
use crate::ac97_regs::REG_GLOB_STA;
use crate::ac97_regs::REG_LVI;
use crate::ac97_regs::REG_PICB;
use crate::ac97_regs::REG_PIV;
use crate::ac97_regs::REG_SR;
use crate::ac97_regs::SAMPLE_BYTES;
use crate::ac97_regs::StreamRegs;
use crate::audio::StreamEffect;
use crate::audio::StreamSource;
use crate::guest_mem::GuestRam;
use crate::mixer::Ac97Mixer;

verus! {

/// An edge-style interrupt signaling handle; each assertion of the guest
/// interrupt line increments its count.
#[derive(Clone, Copy)]
pub struct IrqEvent {
    /// Number of times the line has been asserted through this handle.
    pub count: u64,
}

/// The pair of interrupt handles the engine signals through: the assert
/// handle proper and the resample handle used for level-sensitive
/// re-assertion.
#[derive(Clone, Copy)]
pub struct IrqHandles {
    pub irq_evt: IrqEvent,
    pub irq_resample_evt: IrqEvent,
}

/// A counter after `k` more assertions, saturating at the top of the
/// counter's range.
pub open spec fn counter_add(c: u64, k: int) -> u64 {
    if c + k <= u64::MAX {
        (c + k) as u64
    } else {
        u64::MAX
    }
}

/// The guest address of ring entry `idx` of the descriptor list at
/// `bdbar`.
pub open spec fn desc_entry_addr(bdbar: u32, idx: u8) -> int {
    bdbar + DESCRIPTOR_BYTES * idx
}

/// The ring entry `idx` of the descriptor list at `bdbar`, read out of
/// a raw byte region; the push path threads the region through its
/// recursion with this form.
pub open spec fn spec_fetch_desc_at(base: u64, bytes: Seq<u8>, bdbar: u32, idx: u8) -> Option<
    (u32, u16, bool),
> {
    let a = desc_entry_addr(bdbar, idx);
    if crate::guest_mem::bytes_in_bounds(base, bytes, a, DESCRIPTOR_BYTES as int) {
        let buf = crate::guest_mem::bytes_u32(base, bytes, a);
        let ctl = crate::guest_mem::bytes_u32(base, bytes, a + 4);
        Some((buf, (ctl % 0x1_0000) as u16, ctl >= 0x8000_0000))
    } else {
        None
    }
}

/// `spec_complete`, over a raw byte region.
pub open spec fn spec_complete_at(s: StreamRegs, base: u64, bytes: Seq<u8>) -> (StreamRegs, int) {
    let ioc = match spec_fetch_desc_at(base, bytes, s.bdbar, s.civ) {
        Some(d) => d.2,
        None => false,
    };
    let bcis = s.bcis || ioc;
    if s.civ == s.lvi {
        let s2 = StreamRegs { run: false, dch: true, celv: true, lvbci: true, bcis, ..s };
        ((s2, if (ioc && s.ioce) || s.lvbie { 1int } else { 0 }))
    } else {
        let civ2 = ((s.civ + 1) % (NUM_DESCRIPTORS as int)) as u8;
        let a = if ioc && s.ioce { 1int } else { 0 };
        match spec_fetch_desc_at(base, bytes, s.bdbar, civ2) {
            Some(d) => ((StreamRegs { civ: civ2, picb: d.1, bcis, ..s }, a)),
            None => ((StreamRegs { civ: civ2, picb: 0, run: false, dch: true, bcis, ..s }, a)),
        }
    }
}

/// `spec_normalize`, over a raw byte region.
pub open spec fn spec_normalize_at(s: StreamRegs, base: u64, bytes: Seq<u8>, fuel: nat) -> (
    StreamRegs,
    int,
)
    decreases fuel,
{
    if fuel == 0 || !s.run || s.picb != 0 {
        ((s, 0))
    } else {
        let (s1, a) = spec_complete_at(s, base, bytes);
        if s1.run && s1.picb == 0 {
            let (s2, b) = spec_normalize_at(s1, base, bytes, (fuel - 1) as nat);
            ((s2, a + b))
        } else {
            ((s1, a))
        }
    }
}

/// The ring entry `idx` of the descriptor list at `bdbar`: buffer guest
/// address, length in samples, and the interrupt-on-completion flag
/// (bit 31 of the control word).  `None` when the entry lies outside
/// guest memory.
pub open spec fn spec_fetch_desc(mem: &GuestRam, bdbar: u32, idx: u8) -> Option<(u32, u16, bool)> {
    spec_fetch_desc_at(mem.base, mem.bytes@, bdbar, idx)
}

/// Reads ring entry `idx` of the descriptor list at `bdbar` from guest
/// memory.
pub fn fetch_desc(mem: &GuestRam, bdbar: u32, idx: u8) -> (r: Option<(u32, u16, bool)>)
    ensures
        r == spec_fetch_desc(mem, bdbar, idx),
{
    let a: u64 = bdbar as u64 + DESCRIPTOR_BYTES * idx as u64;
    match mem.read_u32(a) {
        Some(buf) => match mem.read_u32(a + 4) {
            Some(ctl) => Some((buf, (ctl % 0x1_0000) as u16, ctl >= 0x8000_0000)),
            None => None,
        },
        None => None,
    }
}

/// One descriptor completion of a running stream whose in-flight buffer
/// is drained (`picb == 0`): the completion-interrupt status bit is set
/// if the descriptor asked for it; at the last valid index the stream
/// stops with DCH, CELV and LVBCI set, otherwise the ring index advances
/// and PICB reloads from the next descriptor.  The second component is
/// the number of assert signals the completion sends: one when an
/// enabled interrupt condition was raised, zero otherwise.
pub open spec fn spec_complete(s: StreamRegs, mem: &GuestRam) -> (StreamRegs, int) {
    spec_complete_at(s, mem.base, mem.bytes@)
}

/// Runs descriptor completions until the stream either stops or holds an
/// undrained buffer, for at most `fuel` completions.  A fuel of
/// `NUM_DESCRIPTORS` is enough for any well-formed stream.
pub open spec fn spec_normalize(s: StreamRegs, mem: &GuestRam, fuel: nat) -> (StreamRegs, int) {
    spec_normalize_at(s, mem.base, mem.bytes@, fuel)
}

/// Performs one descriptor completion on the stream; returns the number
/// of assert signals it sent.
fn complete_step(s: &mut StreamRegs, mem: &GuestRam) -> (a: u64)
    requires
        old(s).wf(),
        old(s).run,
        old(s).picb == 0,
    ensures
        final(s).wf(),
        ({
            let (s2, a2) = spec_complete(*old(s), mem);
            *final(s) == s2 && a == a2
        }),
{
    let ioc = match fetch_desc(mem, s.bdbar, s.civ) {
        Some(d) => d.2,
        None => false,
    };
    if ioc {
        s.bcis = true;
    }
    if s.civ == s.lvi {
        s.run = false;
        s.dch = true;
        s.celv = true;
        s.lvbci = true;
        if (ioc && s.ioce) || s.lvbie {
            1
        } else {
            0
        }
    } else {
        let a: u64 = if ioc && s.ioce {
            1
        } else {
            0
        };
        s.civ = (s.civ + 1) % NUM_DESCRIPTORS;
        match fetch_desc(mem, s.bdbar, s.civ) {
            Some(d) => {
                s.picb = d.1;
            },
            None => {
                s.picb = 0;
                s.run = false;
                s.dch = true;
            },
        }
        a
    }
}

/// Runs completions on the stream until it stops or holds an undrained
/// buffer; returns the number of assert signals sent.
fn normalize_stream(s: &mut StreamRegs, mem: &GuestRam, fuel: u8) -> (a: u64)
    requires
        old(s).wf(),
    ensures
        final(s).wf(),
        ({
            let (s2, a2) = spec_normalize(*old(s), mem, fuel as nat);
            *final(s) == s2 && a == a2
        }),
        a <= fuel,
    decreases fuel,
{
    if fuel == 0 || !s.run || s.picb != 0 {
        0
    } else {
        let a = complete_step(s, mem);
        if s.run && s.picb == 0 {
            let b = normalize_stream(s, mem, fuel - 1);
            a + b
        } else {
            a
        }
    }
}

/// `n` zero samples: what a stopped playback stream supplies.
pub open spec fn zeros(n: nat) -> Seq<u16> {
    Seq::new(n, |i: int| 0u16)
}

/// The `count` little-endian 16-bit words starting at guest address
/// `addr`.
pub open spec fn spec_words(mem: &GuestRam, addr: int, count: nat) -> Seq<u16>
    decreases count,
{
    if count == 0 {
        Seq::empty()
    } else {
        spec_words(mem, addr, (count - 1) as nat).push(
            mem.spec_u16(addr + SAMPLE_BYTES * (count - 1)),
        )
    }
}

/// The next `chunk` samples of the stream's in-flight descriptor, read
/// at the descriptor's buffer address offset by the part already
/// transferred.  A descriptor that cannot be fetched, a stale descriptor
/// shorter than PICB, or a buffer outside guest memory yields silence
/// for the whole chunk; the transfer is dropped, never a fault.
pub open spec fn spec_chunk(s: StreamRegs, mem: &GuestRam, chunk: nat) -> Seq<u16> {
    match spec_fetch_desc(mem, s.bdbar, s.civ) {
        Some(d) => {
            let pos = d.0 + SAMPLE_BYTES * (d.1 - s.picb);
            if d.1 >= s.picb && mem.spec_in_bounds(pos, SAMPLE_BYTES * chunk) {
                spec_words(mem, pos, chunk)
            } else {
                zeros(chunk)
            }
        },
        None => zeros(chunk),
    }
}

/// A playback pull of `n` samples: while the stream runs, samples come
/// from the in-flight descriptor in chunks bounded by PICB; a drained
/// descriptor completes (interrupt, advance or stop) before the next
/// chunk; once the stream stops the rest of the request is silence.
/// Returns the stream afterwards, the `n` samples supplied, and the
/// number of interrupt assert signals sent.
pub open spec fn spec_pull(s: StreamRegs, mem: &GuestRam, n: nat) -> (StreamRegs, Seq<u16>, int)
    decreases n,
{
    if n == 0 {
        ((s, Seq::<u16>::empty(), 0))
    } else if !s.run || s.picb == 0 {
        ((s, zeros(n), 0))
    } else {
        let chunk = if s.picb <= n {
            s.picb as nat
        } else {
            n
        };
        let words = spec_chunk(s, mem, chunk);
        let s1 = StreamRegs { picb: (s.picb - chunk) as u16, ..s };
        let (s2, a) = if s1.picb == 0 {
            spec_normalize(s1, mem, NUM_DESCRIPTORS as nat)
        } else {
            ((s1, 0int))
        };
        let (s3, rest, b) = spec_pull(s2, mem, (n - chunk) as nat);
        ((s3, words + rest, a + b))
    }
}

/// A vector of `n` zero samples.
fn silence(n: usize) -> (out: Vec<u16>)
    ensures
        out@ == zeros(n as nat),
{
    let mut out: Vec<u16> = Vec::new();
    let mut i: usize = 0;
    while i < n
        invariant
            i <= n,
            out@ =~= zeros(i as nat),
        decreases n - i,
    {
        out.push(0u16);
        i = i + 1;
    }
    proof {
        assert(out@ =~= zeros(n as nat));
    }
    out
}

/// Reads the next `chunk` samples of the stream's in-flight descriptor
/// from guest memory, supplying silence when the descriptor or its
/// buffer is invalid.
fn read_chunk(s: &StreamRegs, mem: &GuestRam, chunk: usize) -> (out: Vec<u16>)
    requires
        chunk <= s.picb,
    ensures
        out@ == spec_chunk(*s, mem, chunk as nat),
{
    match fetch_desc(mem, s.bdbar, s.civ) {
        Some(d) => {
            let (buf, len) = (d.0, d.1);
            if len >= s.picb {
                let pos: u64 = buf as u64 + SAMPLE_BYTES * (len - s.picb) as u64;
                if mem.in_bounds(pos, SAMPLE_BYTES * chunk as u64) {
                    let mut out: Vec<u16> = Vec::new();
                    let mut k: usize = 0;
                    while k < chunk
                        invariant
                            k <= chunk,
                            mem.spec_in_bounds(pos as int, SAMPLE_BYTES * chunk),
                            out@ =~= spec_words(mem, pos as int, k as nat),
                            pos + SAMPLE_BYTES * chunk <= u64::MAX,
                        decreases chunk - k,
                    {
                        let w = match mem.read_u16(pos + SAMPLE_BYTES * k as u64) {
                            Some(w) => w,
                            None => 0,
                        };
                        out.push(w);
                        k = k + 1;
                    }
                    proof {
                        assert(out@ =~= spec_words(mem, pos as int, chunk as nat));
                    }
                    out
                } else {
                    silence(chunk)
                }
            } else {
                silence(chunk)
            }
        },
        None => silence(chunk),
    }
}

/// Pulls `n` playback samples from the stream, following `spec_pull`
/// exactly; returns the samples and the number of assert signals sent.
fn stream_pull(s: &mut StreamRegs, mem: &GuestRam, n: usize) -> (r: (Vec<u16>, u64))
    requires
        old(s).wf(),
        n <= 0x1_0000_0000,
    ensures
        final(s).wf(),
        ({
            let (s3, out, a) = spec_pull(*old(s), mem, n as nat);
            *final(s) == s3 && r.0@ == out && r.1 == a
        }),
        r.1 <= 33 * n,
    decreases n,
{
    if n == 0 {
        (Vec::new(), 0)
    } else if !s.run || s.picb == 0 {
        (silence(n), 0)
    } else {
        let chunk: usize = if (s.picb as usize) <= n {
            s.picb as usize
        } else {
            n
        };
        let words = read_chunk(s, mem, chunk);
        s.picb = s.picb - chunk as u16;
        let a: u64 = if s.picb == 0 {
            normalize_stream(s, mem, NUM_DESCRIPTORS)
        } else {
            0
        };
        let (rest, b) = stream_pull(s, mem, n - chunk);
        let mut out = words;
        let mut rest_v = rest;
        out.append(&mut rest_v);
        (out, a + b)
    }
}

/// The playback sample rate the codec negotiates before the guest
/// programs one.
pub const DEFAULT_SAMPLE_RATE: u16 = 48000;

/// The register value written at a stream-relative LVI offset: the ring
/// index, reduced modulo the ring size.
pub open spec fn spec_write_lvi(s: StreamRegs, val: u8) -> StreamRegs {
    StreamRegs { lvi: (val % NUM_DESCRIPTORS) as u8, ..s }
}

/// A status-register write: writing a one to LVBCI (4), BCIS (8) or
/// FIFOE (16) clears that bit; DCH and CELV are read-only.
pub open spec fn spec_write_sr(s: StreamRegs, val: u16) -> StreamRegs {
    StreamRegs {
        lvbci: s.lvbci && !((val / 4) % 2 == 1),
        bcis: s.bcis && !((val / 8) % 2 == 1),
        fifoe: s.fifoe && !((val / 16) % 2 == 1),
        ..s
    }
}

/// A control-register write.  The reset bit (2) puts the stream back in
/// its reset state.  Otherwise run (1), LVBIE (4), FEIE (8) and IOCE
/// (16) are latched; setting run clears the halt bits and, if no buffer
/// is in flight, loads PICB from the current descriptor and runs any
/// immediate completions; clearing run halts the stream in place.
/// The second component is the number of assert signals sent by
/// completions that run at start.
pub open spec fn spec_write_cr(s: StreamRegs, val: u8, mem: &GuestRam) -> (StreamRegs, int) {
    if (val / 2) % 2 == 1 {
        ((StreamRegs::spec_reset(), 0))
    } else {
        let s1 = StreamRegs {
            run: val % 2 == 1,
            lvbie: (val / 4) % 2 == 1,
            feie: (val / 8) % 2 == 1,
            ioce: (val / 16) % 2 == 1,
            ..s
        };
        if s1.run {
            let s2 = StreamRegs { dch: false, celv: false, ..s1 };
            let s3 = if s2.picb == 0 {
                match spec_fetch_desc(mem, s2.bdbar, s2.civ) {
                    Some(d) => StreamRegs { picb: d.1, ..s2 },
                    None => s2,
                }
            } else {
                s2
            };
            spec_normalize(s3, mem, NUM_DESCRIPTORS as nat)
        } else {
            ((StreamRegs { dch: true, ..s1 }, 0))
        }
    }
}

/// A descriptor-list base write: the low three bits are forced to zero,
/// keeping the ring 8-byte aligned.
pub open spec fn spec_write_bdbar(s: StreamRegs, val: u32) -> StreamRegs {
    StreamRegs { bdbar: (val - val % 8) as u32, ..s }
}

/// The value stored by a global-control write: the defined low six bits,
/// with the self-clearing warm-reset bit (4) dropped.
pub open spec fn spec_glob_cnt_stored(val: u32) -> u32 {
    let v = val % 64;
    (v - 4 * ((v / 4) % 2)) as u32
}

/// The effect of a byte write at a stream-relative offset: LVI and CR
/// are the byte-wide writable stream registers; everything else is
/// read-only or reserved and the write is dropped.
pub open spec fn spec_stream_writeb(s: StreamRegs, reg: u64, val: u8, mem: &GuestRam) -> (
    StreamRegs,
    int,
) {
    if reg == REG_LVI {
        ((spec_write_lvi(s, val), 0))
    } else if reg == REG_CR {
        spec_write_cr(s, val, mem)
    } else {
        ((s, 0))
    }
}

/// The interrupt handles after `asserts` more assert signals; absent
/// handles stay absent, and the resample handle is untouched.
pub open spec fn spec_irq_after(irq: Option<IrqHandles>, asserts: int) -> Option<IrqHandles> {
    match irq {
        Some(h) => Some(
            IrqHandles {
                irq_evt: IrqEvent { count: counter_add(h.irq_evt.count, asserts) },
                irq_resample_evt: h.irq_resample_evt,
            },
        ),
        None => None,
    }
}

/// True when the byte offset `offset` is decoded by the stream block
/// at `base` (the blocks are 16 bytes apart and 12 bytes long; the
/// global registers start right after the last block's registers).
pub open spec fn in_stream_block(offset: u64, base: u64) -> bool {
    base <= offset < base + 0x0C
}

/// The bus-master DMA engine: three stream register blocks, the global
/// registers, the interrupt handles once delivered, and the engine's
/// view of the backend stream settings.
pub struct Ac97BusMaster {
    /// Capture-input stream registers.
    pub pi: StreamRegs,
    /// Playback-output stream registers.
    pub po: StreamRegs,
    /// Microphone stream registers.
    pub mc: StreamRegs,
    /// Global control register (defined bits only).
    pub glob_cnt: u32,
    /// Codec access semaphore register.
    pub acc_sema: u8,
    /// Interrupt handles; `None` until the PCI shell delivers them.
    pub irq: Option<IrqHandles>,
    /// Level of the shared interrupt line: asserted exactly while some
    /// stream holds an enabled interrupt condition.
    pub irq_level: bool,
    /// The audio backend the engine opens streams on.
    pub audio_server: StreamSource,
    /// Whether the backend playback stream is muted, mirrored from the
    /// mixer's master-volume mute bit.
    pub playback_muted: bool,
    /// The sample rate negotiated with the backend.
    pub playback_rate: u16,
    /// Effects requested when a capture stream is opened.
    pub capture_effects: Vec<StreamEffect>,
}

impl Ac97BusMaster {
    /// True while some stream holds an enabled interrupt condition; the
    /// level of the shared line.
    pub open spec fn any_interrupt(&self) -> bool {
        ||| self.pi.interrupt_pending()
        ||| self.po.interrupt_pending()
        ||| self.mc.interrupt_pending()
    }

    /// The engine is well formed when its streams are, the negotiated
    /// rate is a real rate, and the stored line level agrees with the
    /// streams' interrupt conditions.
    pub open spec fn wf(&self) -> bool {
        &&& self.pi.wf()
        &&& self.po.wf()
        &&& self.mc.wf()
        &&& self.playback_rate > 0
        &&& self.irq_level == self.any_interrupt()
    }

    /// Creates an engine with every stream in reset, no interrupt
    /// handles, and default backend settings.
    pub fn new(audio_server: StreamSource) -> (r: Ac97BusMaster)
        ensures
            r.wf(),
            r.pi == StreamRegs::spec_reset(),
            r.po == StreamRegs::spec_reset(),
            r.mc == StreamRegs::spec_reset(),
            r.glob_cnt == 0,
            r.acc_sema == 0,
            (r.irq is None),
            !r.irq_level,
            r.audio_server == audio_server,
            !r.playback_muted,
            r.playback_rate == DEFAULT_SAMPLE_RATE,
            r.capture_effects@ == Seq::<StreamEffect>::empty(),
    {
        Ac97BusMaster {
            pi: StreamRegs::new(),
            po: StreamRegs::new(),
            mc: StreamRegs::new(),
            glob_cnt: 0,
            acc_sema: 0,
            irq: None,
            irq_level: false,
            audio_server,
            playback_muted: false,
            playback_rate: DEFAULT_SAMPLE_RATE,
            capture_effects: Vec::new(),
        }
    }

    /// Records the effects to request when a capture stream is opened.
    pub fn set_capture_effects(&mut self, effects: Vec<StreamEffect>)
        ensures
            *final(self) == (Ac97BusMaster { capture_effects: effects, ..*old(self) }),
    {
        self.capture_effects = effects;
    }

    /// Delivers the interrupt signaling handles.  Delivery happens at
    /// most once: an engine that already owns handles keeps them and the
    /// call is a no-op.
    pub fn set_irq_event_fd(&mut self, irq_evt: IrqEvent, irq_resample_evt: IrqEvent)
        ensures
            (old(self).irq is None) ==> *final(self) == (Ac97BusMaster {
                irq: Some(IrqHandles { irq_evt, irq_resample_evt }),
                ..*old(self)
            }),
            (old(self).irq is Some) ==> *final(self) == *old(self),
    {
        if self.irq.is_none() {
            self.irq = Some(IrqHandles { irq_evt, irq_resample_evt });
        }
    }

    /// The descriptors the engine's backend connection needs preserved
    /// across a sandboxing transition.
    pub fn keep_fds(&self) -> (r: Vec<i32>)
        ensures
            r@ == self.audio_server.keep_fds@,
    {
        let mut out: Vec<i32> = Vec::new();
        let mut i: usize = 0;
        while i < self.audio_server.keep_fds.len()
            invariant
                i <= self.audio_server.keep_fds@.len(),
                out@ =~= self.audio_server.keep_fds@.take(i as int),
            decreases self.audio_server.keep_fds@.len() - i,
        {
            out.push(self.audio_server.keep_fds[i]);
            i = i + 1;
        }
        proof {
            assert(out@ =~= self.audio_server.keep_fds@);
        }
        out
    }

    /// Mirrors the mixer settings into the backend stream: the master
    /// mute bit is always honored; a programmed rate of zero cannot be
    /// negotiated, so the previous rate is kept.
    pub fn update_mixer_settings(&mut self, mixer: &Ac97Mixer)
        requires
            mixer.wf(),
        ensures
            *final(self) == spec_apply_mixer(
                *old(self),
                mixer.spec_master_muted(),
                mixer.spec_pcm_rate(),
            ),
    {
        let muted = mixer.readw(crate::mixer::MIXER_MASTER_VOL_MUTE) >= 0x8000;
        let rate = mixer.readw(crate::mixer::MIXER_PCM_FRONT_DAC_RATE);
        self.apply_mixer_values(muted, rate);
    }

    /// Applies already-read mixer values to the backend stream settings.
    pub fn apply_mixer_values(&mut self, muted: bool, rate: u16)
        ensures
            *final(self) == spec_apply_mixer(*old(self), muted, rate),
    {
        self.playback_muted = muted;
        if rate > 0 {
            self.playback_rate = rate;
        }
    }
}

/// The byte read at a stream-relative offset: CIV, LVI, PIV and CR;
/// other byte reads in the block return zero.
pub open spec fn spec_stream_readb(s: StreamRegs, reg: u64) -> u8 {
    if reg == REG_CIV {
        s.civ
    } else if reg == REG_LVI {
        s.lvi
    } else if reg == REG_PIV {
        s.piv()
    } else if reg == REG_CR {
        s.cr_value()
    } else {
        0
    }
}

/// The word read at a stream-relative offset: SR and PICB.
pub open spec fn spec_stream_readw(s: StreamRegs, reg: u64) -> u16 {
    if reg == REG_SR {
        s.sr_value()
    } else if reg == REG_PICB {
        s.picb
    } else {
        0
    }
}

/// The dword read at a stream-relative offset: BDBAR, or the packed
/// CIV | LVI | SR dword at the CIV offset.
pub open spec fn spec_stream_readl(s: StreamRegs, reg: u64) -> u32 {
    if reg == REG_BDBAR {
        s.bdbar
    } else if reg == REG_CIV {
        (s.civ + 0x100 * s.lvi + 0x1_0000 * s.sr_value()) as u32
    } else {
        0
    }
}

/// Reads the byte register at a stream-relative offset.
fn stream_readb(s: &StreamRegs, reg: u64) -> (r: u8)
    requires
        s.wf(),
    ensures
        r == spec_stream_readb(*s, reg),
{
    if reg == REG_CIV {
        s.civ
    } else if reg == REG_LVI {
        s.lvi
    } else if reg == REG_PIV {
        s.read_piv()
    } else if reg == REG_CR {
        s.read_cr()
    } else {
        0
    }
}

/// Reads the word register at a stream-relative offset.
fn stream_readw(s: &StreamRegs, reg: u64) -> (r: u16)
    ensures
        r == spec_stream_readw(*s, reg),
{
    if reg == REG_SR {
        s.read_sr()
    } else if reg == REG_PICB {
        s.picb
    } else {
        0
    }
}

/// Reads the dword register at a stream-relative offset.
fn stream_readl(s: &StreamRegs, reg: u64) -> (r: u32)
    requires
        s.wf(),
    ensures
        r == spec_stream_readl(*s, reg),
{
    if reg == REG_BDBAR {
        s.bdbar
    } else if reg == REG_CIV {
        s.civ as u32 + 0x100 * s.lvi as u32 + 0x1_0000 * s.read_sr() as u32
    } else {
        0
    }
}

/// True when the stream holds an enabled interrupt condition.
fn stream_pending(s: &StreamRegs) -> (r: bool)
    ensures
        r == s.interrupt_pending(),
{
    (s.bcis && s.ioce) || (s.lvbci && s.lvbie) || (s.fifoe && s.feie)
}

/// The interrupt handles after `asserts` more assert signals.
fn irq_after(irq: &Option<IrqHandles>, asserts: u64) -> (r: Option<IrqHandles>)
    ensures
        r == spec_irq_after(*irq, asserts as int),
{
    match irq {
        Some(h) => {
            let c = h.irq_evt.count;
            let c2 = if asserts <= u64::MAX - c {
                c + asserts
            } else {
                u64::MAX
            };
            Some(
                IrqHandles {
                    irq_evt: IrqEvent { count: c2 },
                    irq_resample_evt: IrqEvent { count: h.irq_resample_evt.count },
                },
            )
        },
        None => None,
    }
}

/// Writes the byte register at a stream-relative offset; returns the
/// number of assert signals sent by completions run at stream start.
fn stream_writeb(s: &mut StreamRegs, reg: u64, val: u8, mem: &GuestRam) -> (a: u64)
    requires
        old(s).wf(),
    ensures
        final(s).wf(),
        ({
            let (s2, a2) = spec_stream_writeb(*old(s), reg, val, mem);
            *final(s) == s2 && a == a2
        }),
        a <= 32,
{
    if reg == REG_LVI {
        s.lvi = val % NUM_DESCRIPTORS;
        0
    } else if reg == REG_CR {
        stream_write_cr(s, val, mem)
    } else {
        0
    }
}

/// Applies a control-register write to the stream; returns the number
/// of assert signals sent by completions run at stream start.
fn stream_write_cr(s: &mut StreamRegs, val: u8, mem: &GuestRam) -> (a: u64)
    requires
        old(s).wf(),
    ensures
        final(s).wf(),
        ({
            let (s2, a2) = spec_write_cr(*old(s), val, mem);
            *final(s) == s2 && a == a2
        }),
        a <= 32,
{
    if (val / 2) % 2 == 1 {
        s.reset();
        0
    } else {
        s.run = val % 2 == 1;
        s.lvbie = (val / 4) % 2 == 1;
        s.feie = (val / 8) % 2 == 1;
        s.ioce = (val / 16) % 2 == 1;
        if s.run {
            s.dch = false;
            s.celv = false;
            if s.picb == 0 {
                match fetch_desc(mem, s.bdbar, s.civ) {
                    Some(d) => {
                        s.picb = d.1;
                    },
                    None => {},
                }
            }
            normalize_stream(s, mem, NUM_DESCRIPTORS)
        } else {
            s.dch = true;
            0
        }
    }
}

/// Applies a descriptor-list base write to the stream.
fn stream_write_bdbar(s: &mut StreamRegs, val: u32)
    requires
        old(s).wf(),
    ensures
        final(s).wf(),
        *final(s) == spec_write_bdbar(*old(s), val),
{
    s.bdbar = val - val % 8;
}

/// The value stored by a global-control write.
fn glob_cnt_stored(val: u32) -> (r: u32)
    ensures
        r == spec_glob_cnt_stored(val),
{
    let v = val % 64;
    v - 4 * ((v / 4) % 2)
}

/// Applies a status-register write to the stream.
fn stream_write_sr(s: &mut StreamRegs, val: u16)
    ensures
        *final(s) == spec_write_sr(*old(s), val),
{
    if (val / 4) % 2 == 1 {
        s.lvbci = false;
    }
    if (val / 8) % 2 == 1 {
        s.bcis = false;
    }
    if (val / 16) % 2 == 1 {
        s.fifoe = false;
    }
}

/// The engine after a byte-register write.
pub open spec fn spec_writeb_engine(
    m: Ac97BusMaster,
    offset: u64,
    val: u8,
    mem: &GuestRam,
) -> Ac97BusMaster {
    let (pi2, a_pi) = if in_stream_block(offset, PI_BASE) {
        spec_stream_writeb(m.pi, (offset - PI_BASE) as u64, val, mem)
    } else {
        ((m.pi, 0int))
    };
    let (po2, a_po) = if in_stream_block(offset, PO_BASE) {
        spec_stream_writeb(m.po, (offset - PO_BASE) as u64, val, mem)
    } else {
        ((m.po, 0int))
    };
    let (mc2, a_mc) = if in_stream_block(offset, MC_BASE) {
        spec_stream_writeb(m.mc, (offset - MC_BASE) as u64, val, mem)
    } else {
        ((m.mc, 0int))
    };
    Ac97BusMaster {
        pi: pi2,
        po: po2,
        mc: mc2,
        acc_sema: if offset == REG_ACC_SEMA {
            val
        } else {
            m.acc_sema
        },
        irq: spec_irq_after(m.irq, a_pi + a_po + a_mc),
        irq_level: pi2.interrupt_pending() || po2.interrupt_pending() || mc2.interrupt_pending(),
        ..m
    }
}

/// The engine after a word-register write.
pub open spec fn spec_writew_engine(m: Ac97BusMaster, offset: u64, val: u16) -> Ac97BusMaster {
    let pi2 = if offset == PI_BASE + REG_SR {
        spec_write_sr(m.pi, val)
    } else {
        m.pi
    };
    let po2 = if offset == PO_BASE + REG_SR {
        spec_write_sr(m.po, val)
    } else {
        m.po
    };
    let mc2 = if offset == MC_BASE + REG_SR {
        spec_write_sr(m.mc, val)
    } else {
        m.mc
    };
    Ac97BusMaster {
        pi: pi2,
        po: po2,
        mc: mc2,
        irq_level: pi2.interrupt_pending() || po2.interrupt_pending() || mc2.interrupt_pending(),
        ..m
    }
}

/// The engine after a dword-register write.
pub open spec fn spec_writel_engine(m: Ac97BusMaster, offset: u64, val: u32) -> Ac97BusMaster {
    let cold_clear = offset == REG_GLOB_CNT && (val / 2) % 2 == 0;
    let pi2 = if offset == PI_BASE + REG_BDBAR {
        spec_write_bdbar(m.pi, val)
    } else if cold_clear {
        StreamRegs::spec_reset()
    } else {
        m.pi
    };
    let po2 = if offset == PO_BASE + REG_BDBAR {
        spec_write_bdbar(m.po, val)
    } else if cold_clear {
        StreamRegs::spec_reset()
    } else {
        m.po
    };
    let mc2 = if offset == MC_BASE + REG_BDBAR {
        spec_write_bdbar(m.mc, val)
    } else if cold_clear {
        StreamRegs::spec_reset()
    } else {
        m.mc
    };
    Ac97BusMaster {
        pi: pi2,
        po: po2,
        mc: mc2,
        glob_cnt: if offset == REG_GLOB_CNT {
            spec_glob_cnt_stored(val)
        } else {
            m.glob_cnt
        },
        irq_level: pi2.interrupt_pending() || po2.interrupt_pending() || mc2.interrupt_pending(),
        ..m
    }
}

/// The engine after a playback pull of `n` samples.
pub open spec fn spec_play_engine(m: Ac97BusMaster, mem: &GuestRam, n: nat) -> Ac97BusMaster {
    let (po2, samples, a) = spec_pull(m.po, mem, n);
    Ac97BusMaster {
        po: po2,
        irq: spec_irq_after(m.irq, a),
        irq_level: m.pi.interrupt_pending() || po2.interrupt_pending()
            || m.mc.interrupt_pending(),
        ..m
    }
}

/// The engine after mixer settings are applied: the mute bit is always
/// honored; a rate of zero cannot be negotiated with the backend, so
/// the previous rate is kept.
pub open spec fn spec_apply_mixer(m: Ac97BusMaster, muted: bool, rate: u16) -> Ac97BusMaster {
    Ac97BusMaster {
        playback_muted: muted,
        playback_rate: if rate > 0 {
            rate
        } else {
            m.playback_rate
        },
        ..m
    }
}

impl Ac97BusMaster {
    /// The global status register: the codec-ready bit (0x100) plus the
    /// per-stream interrupt bits PIINT (0x20), POINT (0x40) and
    /// MINT (0x80).
    pub open spec fn spec_glob_sta(&self) -> u32 {
        ((0x100int) + (if self.pi.interrupt_pending() { 0x20int } else { 0 })
            + (if self.po.interrupt_pending() { 0x40int } else { 0 })
            + (if self.mc.interrupt_pending() { 0x80int } else { 0 })) as u32
    }

    /// The byte read at each bus-master window offset.
    pub open spec fn spec_readb(&self, offset: u64) -> u8 {
        if in_stream_block(offset, PI_BASE) {
            spec_stream_readb(self.pi, (offset - PI_BASE) as u64)
        } else if in_stream_block(offset, PO_BASE) {
            spec_stream_readb(self.po, (offset - PO_BASE) as u64)
        } else if in_stream_block(offset, MC_BASE) {
            spec_stream_readb(self.mc, (offset - MC_BASE) as u64)
        } else if offset == REG_ACC_SEMA {
            self.acc_sema
        } else {
            0
        }
    }

    /// The word read at each bus-master window offset.
    pub open spec fn spec_readw(&self, offset: u64) -> u16 {
        if in_stream_block(offset, PI_BASE) {
            spec_stream_readw(self.pi, (offset - PI_BASE) as u64)
        } else if in_stream_block(offset, PO_BASE) {
            spec_stream_readw(self.po, (offset - PO_BASE) as u64)
        } else if in_stream_block(offset, MC_BASE) {
            spec_stream_readw(self.mc, (offset - MC_BASE) as u64)
        } else {
            0
        }
    }

    /// The dword read at each bus-master window offset.
    pub open spec fn spec_readl(&self, offset: u64) -> u32 {
        if in_stream_block(offset, PI_BASE) {
            spec_stream_readl(self.pi, (offset - PI_BASE) as u64)
        } else if in_stream_block(offset, PO_BASE) {
            spec_stream_readl(self.po, (offset - PO_BASE) as u64)
        } else if in_stream_block(offset, MC_BASE) {
            spec_stream_readl(self.mc, (offset - MC_BASE) as u64)
        } else if offset == REG_GLOB_CNT {
            self.glob_cnt
        } else if offset == REG_GLOB_STA {
            self.spec_glob_sta()
        } else {
            0
        }
    }

    /// Reads a byte register of the bus-master window.
    pub fn readb(&self, offset: u64) -> (r: u8)
        requires
            self.wf(),
        ensures
            r == self.spec_readb(offset),
    {
        if offset < 0x0C {
            stream_readb(&self.pi, offset)
        } else if 0x10 <= offset && offset < 0x1C {
            stream_readb(&self.po, offset - 0x10)
        } else if 0x20 <= offset && offset < 0x2C {
            stream_readb(&self.mc, offset - 0x20)
        } else if offset == REG_ACC_SEMA {
            self.acc_sema
        } else {
            0
        }
    }

    /// Reads a word register of the bus-master window.
    pub fn readw(&self, offset: u64) -> (r: u16)
        requires
            self.wf(),
        ensures
            r == self.spec_readw(offset),
    {
        if offset < 0x0C {
            stream_readw(&self.pi, offset)
        } else if 0x10 <= offset && offset < 0x1C {
            stream_readw(&self.po, offset - 0x10)
        } else if 0x20 <= offset && offset < 0x2C {
            stream_readw(&self.mc, offset - 0x20)
        } else {
            0
        }
    }

    /// Reads a dword register of the bus-master window.
    pub fn readl(&self, offset: u64) -> (r: u32)
        requires
            self.wf(),
        ensures
            r == self.spec_readl(offset),
    {
        if offset < 0x0C {
            stream_readl(&self.pi, offset)
        } else if 0x10 <= offset && offset < 0x1C {
            stream_readl(&self.po, offset - 0x10)
        } else if 0x20 <= offset && offset < 0x2C {
            stream_readl(&self.mc, offset - 0x20)
        } else if offset == REG_GLOB_CNT {
            self.glob_cnt
        } else if offset == REG_GLOB_STA {
            let g: u32 = 0x100 + (if stream_pending(&self.pi) {
                0x20u32
            } else {
                0
            }) + (if stream_pending(&self.po) {
                0x40u32
            } else {
                0
            }) + (if stream_pending(&self.mc) {
                0x80u32
            } else {
                0
            });
            g
        } else {
            0
        }
    }

    /// Writes a byte register of the bus-master window: LVI and CR of
    /// each stream and the access semaphore; anything else is dropped.
    /// A CR write that starts a stream may complete descriptors at once
    /// and assert the interrupt line accordingly.
    pub fn writeb(&mut self, offset: u64, val: u8, mem: &GuestRam)
        requires
            old(self).wf(),
        ensures
            final(self).wf(),
            *final(self) == spec_writeb_engine(*old(self), offset, val, mem),
    {
        let mut asserts: u64 = 0;
        if offset < 0x0C {
            asserts = stream_writeb(&mut self.pi, offset, val, mem);
        } else if 0x10 <= offset && offset < 0x1C {
            asserts = stream_writeb(&mut self.po, offset - 0x10, val, mem);
        } else if 0x20 <= offset && offset < 0x2C {
            asserts = stream_writeb(&mut self.mc, offset - 0x20, val, mem);
        } else if offset == REG_ACC_SEMA {
            self.acc_sema = val;
        }
        let ni = irq_after(&self.irq, asserts);
        self.irq = ni;
        self.irq_level = stream_pending(&self.pi) || stream_pending(&self.po) || stream_pending(
            &self.mc,
        );
    }

    /// Writes a word register of the bus-master window: the status
    /// register of each stream, write-one-to-clear.  Clearing the last
    /// enabled interrupt condition de-asserts the shared line.
    pub fn writew(&mut self, offset: u64, val: u16)
        requires
            old(self).wf(),
        ensures
            final(self).wf(),
            *final(self) == spec_writew_engine(*old(self), offset, val),
    {
        if offset == 0x06 {
            stream_write_sr(&mut self.pi, val);
        } else if offset == 0x16 {
            stream_write_sr(&mut self.po, val);
        } else if offset == 0x26 {
            stream_write_sr(&mut self.mc, val);
        }
        self.irq_level = stream_pending(&self.pi) || stream_pending(&self.po) || stream_pending(
            &self.mc,
        );
    }

    /// Writes a dword register of the bus-master window: the descriptor
    /// list base of each stream, and global control.  Clearing the cold
    /// reset bit resets every stream.
    pub fn writel(&mut self, offset: u64, val: u32)
        requires
            old(self).wf(),
        ensures
            final(self).wf(),
            *final(self) == spec_writel_engine(*old(self), offset, val),
    {
        if offset == 0x00 {
            stream_write_bdbar(&mut self.pi, val);
        } else if offset == 0x10 {
            stream_write_bdbar(&mut self.po, val);
        } else if offset == 0x20 {
            stream_write_bdbar(&mut self.mc, val);
        } else if offset == REG_GLOB_CNT {
            if (val / 2) % 2 == 0 {
                self.pi.reset();
                self.po.reset();
                self.mc.reset();
            }
            self.glob_cnt = glob_cnt_stored(val);
        }
        self.irq_level = stream_pending(&self.pi) || stream_pending(&self.po) || stream_pending(
            &self.mc,
        );
    }

    /// Accepts one capture period from the backend callback into the
    /// capture-input stream, following `spec_push`: the samples fill
    /// the stream's descriptor ring in guest memory, completion
    /// interrupts are signaled, and samples arriving while the stream
    /// is stopped are discarded.  Returns how many samples were
    /// accepted.
    pub fn capture_samples(&mut self, mem: &mut GuestRam, input: &Vec<u16>) -> (r: usize)
        requires
            old(self).wf(),
            input@.len() <= 0x1_0000_0000,
        ensures
            final(self).wf(),
            final(mem).base == old(mem).base,
            ({
                let (pi2, bytes2, a, acc) = spec_push(
                    old(self).pi,
                    old(mem).base,
                    old(mem).bytes@,
                    input@,
                );
                &&& final(self).pi == pi2
                &&& final(mem).bytes@ == bytes2
                &&& r == acc
                &&& final(self).irq == spec_irq_after(old(self).irq, a)
                &&& final(self).irq_level == (pi2.interrupt_pending()
                    || old(self).po.interrupt_pending() || old(self).mc.interrupt_pending())
            }),
            final(self).po == old(self).po,
            final(self).mc == old(self).mc,
            final(self).glob_cnt == old(self).glob_cnt,
            final(self).acc_sema == old(self).acc_sema,
            final(self).audio_server == old(self).audio_server,
            final(self).playback_muted == old(self).playback_muted,
            final(self).playback_rate == old(self).playback_rate,
            final(self).capture_effects == old(self).capture_effects,
    {
        proof {
            assert(input@.skip(0) =~= input@);
        }
        let (asserts, accepted) = stream_push(&mut self.pi, mem, input, 0);
        let ni = irq_after(&self.irq, asserts);
        self.irq = ni;
        self.irq_level = stream_pending(&self.pi) || stream_pending(&self.po) || stream_pending(
            &self.mc,
        );
        accepted
    }

    /// Accepts one microphone period from the backend callback into the
    /// microphone stream, exactly as `capture_samples` does for the
    /// capture-input stream.
    pub fn mic_samples(&mut self, mem: &mut GuestRam, input: &Vec<u16>) -> (r: usize)
        requires
            old(self).wf(),
            input@.len() <= 0x1_0000_0000,
        ensures
            final(self).wf(),
            final(mem).base == old(mem).base,
            ({
                let (mc2, bytes2, a, acc) = spec_push(
                    old(self).mc,
                    old(mem).base,
                    old(mem).bytes@,
                    input@,
                );
                &&& final(self).mc == mc2
                &&& final(mem).bytes@ == bytes2
                &&& r == acc
                &&& final(self).irq == spec_irq_after(old(self).irq, a)
                &&& final(self).irq_level == (old(self).pi.interrupt_pending()
                    || old(self).po.interrupt_pending() || mc2.interrupt_pending())
            }),
            final(self).pi == old(self).pi,
            final(self).po == old(self).po,
            final(self).glob_cnt == old(self).glob_cnt,
            final(self).acc_sema == old(self).acc_sema,
            final(self).audio_server == old(self).audio_server,
            final(self).playback_muted == old(self).playback_muted,
            final(self).playback_rate == old(self).playback_rate,
            final(self).capture_effects == old(self).capture_effects,
    {
        proof {
            assert(input@.skip(0) =~= input@);
        }
        let (asserts, accepted) = stream_push(&mut self.mc, mem, input, 0);
        let ni = irq_after(&self.irq, asserts);
        self.irq = ni;
        self.irq_level = stream_pending(&self.pi) || stream_pending(&self.po) || stream_pending(
            &self.mc,
        );
        accepted
    }

    /// Supplies `n` playback samples to the backend callback, following
    /// `spec_pull` on the playback stream; completion interrupts are
    /// signaled through the delivered handles and the line level is
    /// updated.
    pub fn play_samples(&mut self, mem: &GuestRam, n: usize) -> (out: Vec<u16>)
        requires
            old(self).wf(),
            n <= 0x1_0000_0000,
        ensures
            final(self).wf(),
            *final(self) == spec_play_engine(*old(self), mem, n as nat),
            out@ == spec_pull(old(self).po, mem, n as nat).1,
    {
        let (out, asserts) = stream_pull(&mut self.po, mem, n);
        let ni = irq_after(&self.irq, asserts);
        self.irq = ni;
        self.irq_level = stream_pending(&self.pi) || stream_pending(&self.po) || stream_pending(
            &self.mc,
        );
        out
    }
}

/// The region after the words are written one after another, starting
/// at guest address `addr`.
pub open spec fn spec_write_words(base: u64, bytes: Seq<u8>, addr: int, words: Seq<u16>) -> Seq<u8>
    decreases words.len(),
{
    if words.len() == 0 {
        bytes
    } else {
        spec_write_words(
            base,
            crate::guest_mem::bytes_write_u16(base, bytes, addr, words[0]),
            addr + SAMPLE_BYTES,
            words.skip(1),
        )
    }
}

/// Writing words never moves the region or changes its length.
pub proof fn lemma_write_words_len(base: u64, bytes: Seq<u8>, addr: int, words: Seq<u16>)
    ensures
        spec_write_words(base, bytes, addr, words).len() == bytes.len(),
    decreases words.len(),
{
    if words.len() > 0 {
        lemma_write_words_len(
            base,
            crate::guest_mem::bytes_write_u16(base, bytes, addr, words[0]),
            addr + SAMPLE_BYTES,
            words.skip(1),
        )
    }
}

/// The region after the next `words.len()` samples of the stream's
/// in-flight descriptor are filled with `words`.  A descriptor that
/// cannot be fetched, a stale descriptor shorter than PICB, or a buffer
/// outside guest memory drops the transfer: the region is unchanged.
pub open spec fn spec_write_chunk(s: StreamRegs, base: u64, bytes: Seq<u8>, words: Seq<u16>) -> Seq<
    u8,
> {
    match spec_fetch_desc_at(base, bytes, s.bdbar, s.civ) {
        Some(d) => {
            let pos = d.0 + SAMPLE_BYTES * (d.1 - s.picb);
            if d.1 >= s.picb && crate::guest_mem::bytes_in_bounds(
                base,
                bytes,
                pos,
                SAMPLE_BYTES * words.len(),
            ) {
                spec_write_words(base, bytes, pos, words)
            } else {
                bytes
            }
        },
        None => bytes,
    }
}

/// A capture push of the samples `input`: while the stream runs, the
/// samples fill the in-flight descriptor in chunks bounded by PICB,
/// with the same completion steps as playback; once the stream stops
/// the rest of the period is discarded.  Returns the stream and region
/// afterwards, the assert signals sent, and how many samples were
/// accepted.
pub open spec fn spec_push(s: StreamRegs, base: u64, bytes: Seq<u8>, input: Seq<u16>) -> (
    StreamRegs,
    Seq<u8>,
    int,
    nat,
)
    decreases input.len(),
{
    if input.len() == 0 || !s.run || s.picb == 0 {
        ((s, bytes, 0, 0 as nat))
    } else {
        let chunk = if s.picb <= input.len() {
            s.picb as nat
        } else {
            input.len()
        };
        let bytes1 = spec_write_chunk(s, base, bytes, input.take(chunk as int));
        let s1 = StreamRegs { picb: (s.picb - chunk) as u16, ..s };
        let (s2, a) = if s1.picb == 0 {
            spec_normalize_at(s1, base, bytes1, NUM_DESCRIPTORS as nat)
        } else {
            ((s1, 0int))
        };
        let (s3, bytes2, b, acc) = spec_push(s2, base, bytes1, input.skip(chunk as int));
        ((s3, bytes2, a + b, (chunk + acc) as nat))
    }
}

/// Fills the next `chunk` samples of the stream's in-flight descriptor
/// from `input[from ..]`, dropping the transfer when the descriptor or
/// its buffer is invalid.
fn write_chunk(s: &StreamRegs, mem: &mut GuestRam, input: &Vec<u16>, from: usize, chunk: usize)
    requires
        chunk <= s.picb,
        from + chunk <= input@.len(),
    ensures
        final(mem).base == old(mem).base,
        final(mem).bytes@ == spec_write_chunk(
            *s,
            old(mem).base,
            old(mem).bytes@,
            input@.subrange(from as int, from + chunk),
        ),
{
    let ghost words = input@.subrange(from as int, from + chunk);
    let ilen = input.len();
    match fetch_desc(mem, s.bdbar, s.civ) {
        Some(d) => {
            let (buf, len) = (d.0, d.1);
            if len >= s.picb {
                let pos: u64 = buf as u64 + SAMPLE_BYTES * (len - s.picb) as u64;
                if mem.in_bounds(pos, SAMPLE_BYTES * chunk as u64) {
                    let ghost base = mem.base;
                    let ghost bytes0 = mem.bytes@;
                    proof {
                        assert(words.skip(0) =~= words);
                    }
                    let mut k: usize = 0;
                    while k < chunk
                        invariant
                            k <= chunk,
                            from + chunk <= ilen,
                            ilen == input@.len(),
                            chunk == words.len(),
                            words == input@.subrange(from as int, from + chunk),
                            mem.base == base,
                            mem.bytes@.len() == bytes0.len(),
                            crate::guest_mem::bytes_in_bounds(
                                base,
                                bytes0,
                                pos as int,
                                SAMPLE_BYTES * chunk,
                            ),
                            pos + SAMPLE_BYTES * chunk <= u64::MAX,
                            spec_write_words(base, bytes0, pos as int, words)
                                == spec_write_words(
                                base,
                                mem.bytes@,
                                pos + SAMPLE_BYTES * k,
                                words.skip(k as int),
                            ),
                        decreases chunk - k,
                    {
                        let ghost bytes_pre = mem.bytes@;
                        let ok = mem.write_u16(pos + SAMPLE_BYTES * k as u64, input[from + k]);
                        proof {
                            assert(ok);
                            assert(words.skip(k as int)[0] == input@[from + k]);
                            assert(mem.bytes@ == crate::guest_mem::bytes_write_u16(
                                base,
                                bytes_pre,
                                pos + SAMPLE_BYTES * k,
                                input@[from + k],
                            ));
                            assert(words.skip(k as int).skip(1) =~= words.skip(k + 1));
                        }
                        k = k + 1;
                    }
                    proof {
                        assert(words.skip(chunk as int) =~= Seq::<u16>::empty());
                        assert(spec_write_words(
                            base,
                            mem.bytes@,
                            pos + SAMPLE_BYTES * chunk,
                            words.skip(chunk as int),
                        ) == mem.bytes@);
                    }
                }
            }
        },
        None => {},
    }
}

/// Pushes the samples `input[from ..]` into the stream, following
/// `spec_push` exactly; returns the assert signals sent and the samples
/// accepted.
#[verifier::rlimit(100)]
fn stream_push(s: &mut StreamRegs, mem: &mut GuestRam, input: &Vec<u16>, from: usize) -> (r: (
    u64,
    usize,
))
    requires
        old(s).wf(),
        from <= input@.len(),
        input@.len() <= 0x1_0000_0000,
    ensures
        final(s).wf(),
        final(mem).base == old(mem).base,
        ({
            let (s3, bytes2, a, acc) = spec_push(
                *old(s),
                old(mem).base,
                old(mem).bytes@,
                input@.skip(from as int),
            );
            *final(s) == s3 && final(mem).bytes@ == bytes2 && r.0 == a && r.1 == acc
        }),
        r.0 <= 33 * (input@.len() - from),
        r.1 <= input@.len() - from,
    decreases input@.len() - from,
{
    if from == input.len() || !s.run || s.picb == 0 {
        proof {
            if from == input.len() {
                assert(input@.skip(from as int) =~= Seq::<u16>::empty());
            }
        }
        (0, 0)
    } else {
        let remaining = input.len() - from;
        let chunk: usize = if (s.picb as usize) <= remaining {
            s.picb as usize
        } else {
            remaining
        };
        proof {
            assert(input@.skip(from as int).take(chunk as int) =~= input@.subrange(
                from as int,
                from + chunk,
            ));
        }
        write_chunk(s, mem, input, from, chunk);
        s.picb = s.picb - chunk as u16;
        let a: u64 = if s.picb == 0 {
            normalize_stream(s, mem, NUM_DESCRIPTORS)
        } else {
            0
        };
        let (b, acc) = stream_push(s, mem, input, from + chunk);
        proof {
            assert(input@.skip(from as int).skip(chunk as int) =~= input@.skip(from + chunk));
        }
        (a + b, chunk + acc)
    }
}

/// The length of a run of words read from guest memory is the requested
/// count.
pub proof fn lemma_spec_words_len(mem: &GuestRam, addr: int, count: nat)
    ensures
        spec_words(mem, addr, count).len() == count,
    decreases count,
{
    if count > 0 {
        lemma_spec_words_len(mem, addr, (count - 1) as nat);
    }
}

/// A pull always supplies exactly the number of samples the backend
/// requested, whatever the stream and ring state.
pub proof fn lemma_pull_len(s: StreamRegs, mem: &GuestRam, n: nat)
    ensures
        spec_pull(s, mem, n).1.len() == n,
    decreases n,
{
    if n == 0 {
    } else if !s.run || s.picb == 0 {
    } else {
        let chunk = if s.picb <= n {
            s.picb as nat
        } else {
            n
        };
        match spec_fetch_desc(mem, s.bdbar, s.civ) {
            Some(d) => {
                lemma_spec_words_len(mem, d.0 + SAMPLE_BYTES * (d.1 - s.picb), chunk);
            },
            None => {},
        }
        let s1 = StreamRegs { picb: (s.picb - chunk) as u16, ..s };
        let (s2, a) = if s1.picb == 0 {
            spec_normalize(s1, mem, NUM_DESCRIPTORS as nat)
        } else {
            ((s1, 0int))
        };
        lemma_pull_len(s2, mem, (n - chunk) as nat);
    }
}

/// A stream that is not running transfers nothing: the pull supplies
/// silence and leaves every register bit — the DMA-stopped bit included
/// — unchanged, however many samples the backend requests.  A stop is
/// therefore effective for every later transfer until the guest
/// restarts the stream.
pub proof fn lemma_stopped_stream_silent(s: StreamRegs, mem: &GuestRam, n: nat)
    requires
        !s.run,
    ensures
        ({
            let (s2, out, a) = spec_pull(s, mem, n);
            &&& s2 == s
            &&& out =~= zeros(n)
            &&& a == 0
        }),
{
    if n == 0 {
        assert(zeros(0) =~= Seq::<u16>::empty());
    }
}

/// Descriptor `i` of the stream's ring can be fetched and names at
/// least one sample.
pub open spec fn ring_entry_ready(s: StreamRegs, mem: &GuestRam, i: u8) -> bool {
    match spec_fetch_desc(mem, s.bdbar, i) {
        Some(d) => d.1 > 0,
        None => false,
    }
}

/// Descriptor `i` of the stream's ring requests an interrupt on
/// completion.
pub open spec fn ring_entry_ioc(s: StreamRegs, mem: &GuestRam, i: u8) -> bool {
    match spec_fetch_desc(mem, s.bdbar, i) {
        Some(d) => d.2,
        None => false,
    }
}

/// The sample count of ring entry `i`.
pub open spec fn ring_entry_len(s: StreamRegs, mem: &GuestRam, i: u8) -> int {
    match spec_fetch_desc(mem, s.bdbar, i) {
        Some(d) => d.1 as int,
        None => 0,
    }
}

/// Total samples named by ring entries `i ..= lvi`.
pub open spec fn ring_total(s: StreamRegs, mem: &GuestRam, i: u8) -> int
    decreases s.lvi - i,
{
    if i > s.lvi {
        0
    } else if i == s.lvi {
        ring_entry_len(s, mem, i)
    } else {
        ring_entry_len(s, mem, i) + ring_total(s, mem, (i + 1) as u8)
    }
}

/// Draining a prepared ring.  A running stream whose entries from the
/// current index up to the last valid index are all fetchable and
/// non-empty, and whose in-flight count equals the current entry's
/// sample count, stops exactly when the ring's total sample count has
/// been pulled: the stream leaves the running state with the
/// DMA-stopped, current-equals-last-valid and last-valid-completion
/// bits set, the ring index resting on the last valid entry and no
/// samples left in flight.  When completion interrupts are enabled,
/// the last-valid interrupt is not, and every entry requests an
/// interrupt, exactly one assert signal is sent per completed
/// descriptor.
pub proof fn lemma_ring_drain(s: StreamRegs, mem: &GuestRam, n: nat)
    requires
        s.wf(),
        s.run,
        s.civ <= s.lvi,
        forall|i: u8| s.civ <= i <= s.lvi ==> ring_entry_ready(s, mem, i),
        s.picb == ring_entry_len(s, mem, s.civ),
        n == ring_total(s, mem, s.civ),
    ensures
        ({
            let (s2, out, a) = spec_pull(s, mem, n);
            &&& !s2.run
            &&& s2.dch
            &&& s2.celv
            &&& s2.lvbci
            &&& s2.picb == 0
            &&& s2.civ == s.lvi
            &&& s2.bdbar == s.bdbar
            &&& out.len() == n
            &&& (s.ioce && !s.lvbie && (forall|i: u8|
                s.civ <= i <= s.lvi ==> ring_entry_ioc(s, mem, i))) ==> a == s.lvi - s.civ + 1
        }),
    decreases s.lvi - s.civ,
{
    lemma_pull_len(s, mem, n);
    assert(ring_entry_ready(s, mem, s.civ));
    assert(s.picb <= n) by {
        if s.civ < s.lvi {
            assert(ring_total(s, mem, s.civ) == ring_entry_len(s, mem, s.civ) + ring_total(
                s,
                mem,
                (s.civ + 1) as u8,
            ));
            lemma_ring_total_nonneg(s, mem, (s.civ + 1) as u8);
        }
    }
    let chunk = s.picb as nat;
    let words = spec_chunk(s, mem, chunk);
    let s1 = StreamRegs { picb: (s.picb - chunk) as u16, ..s };
    assert(s1.picb == 0);
    let (s1n, a1) = spec_normalize(s1, mem, NUM_DESCRIPTORS as nat);
    let (c1, ca) = spec_complete(s1, mem);
    let (s3, rest, b) = spec_pull(s1n, mem, (n - chunk) as nat);
    assert(spec_pull(s, mem, n) == (s3, words + rest, a1 + b));
    if s.civ == s.lvi {
        assert(!c1.run && c1.dch && c1.celv && c1.lvbci);
        assert(c1.picb == 0 && c1.civ == s.lvi);
        assert(s1n == c1 && a1 == ca);
        assert(n - chunk == 0);
        assert(spec_pull(s1n, mem, 0) == (s1n, Seq::<u16>::empty(), 0int));
        if s.ioce && !s.lvbie && (forall|i: u8| s.civ <= i <= s.lvi ==> ring_entry_ioc(s, mem, i)) {
            assert(ring_entry_ioc(s, mem, s.civ));
            assert(ca == 1);
        }
    } else {
        let civ2 = (s.civ + 1) as u8;
        assert(((s1.civ + 1) % (NUM_DESCRIPTORS as int)) == civ2 as int);
        assert(ring_entry_ready(s, mem, civ2));
        assert(c1.run && c1.picb > 0 && c1.civ == civ2);
        assert(s1n == c1 && a1 == ca);
        assert forall|i: u8| c1.civ <= i <= c1.lvi implies ring_entry_ready(c1, mem, i) by {
            assert(ring_entry_ready(s, mem, i));
        }
        assert(c1.picb == ring_entry_len(c1, mem, c1.civ));
        assert(ring_total(s, mem, s.civ) == ring_entry_len(s, mem, s.civ) + ring_total(
            s,
            mem,
            civ2,
        ));
        lemma_ring_total_same(s, c1, mem, civ2);
        assert(n - chunk == ring_total(c1, mem, c1.civ));
        lemma_ring_drain(c1, mem, (n - chunk) as nat);
        if s.ioce && !s.lvbie && (forall|i: u8| s.civ <= i <= s.lvi ==> ring_entry_ioc(s, mem, i)) {
            assert(ring_entry_ioc(s, mem, s.civ));
            assert(ca == 1);
            assert forall|i: u8| c1.civ <= i <= c1.lvi implies ring_entry_ioc(c1, mem, i) by {
                assert(ring_entry_ioc(s, mem, i));
            }
            assert(b == c1.lvi - c1.civ + 1);
            assert(a1 + b == s.lvi - s.civ + 1);
        }
    }
}

/// Ring totals are sums of sample counts and never negative.
pub proof fn lemma_ring_total_nonneg(s: StreamRegs, mem: &GuestRam, i: u8)
    ensures
        ring_total(s, mem, i) >= 0,
    decreases s.lvi - i,
{
    if i < s.lvi {
        lemma_ring_total_nonneg(s, mem, (i + 1) as u8);
    }
}

/// Two streams over the same descriptor list and the same last valid
/// index name the same ring totals.
pub proof fn lemma_ring_total_same(s: StreamRegs, t: StreamRegs, mem: &GuestRam, i: u8)
    requires
        s.bdbar == t.bdbar,
        s.lvi == t.lvi,
    ensures
        ring_total(s, mem, i) == ring_total(t, mem, i),
    decreases s.lvi - i,
{
    if i < s.lvi {
        lemma_ring_total_same(s, t, mem, (i + 1) as u8);
    }
}

} // verus!
