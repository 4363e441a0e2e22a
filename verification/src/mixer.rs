//! The AC97 mixer register bank.
//!
//! The mixer stores one 16-bit control value (volume, mute, sample-rate
//! selector) per even register offset.  Offsets that were never written
//! read back as zero, matching the reset defaults of real hardware.  The
//! access-width rule — every mixer access is exactly two bytes — is
//! enforced one level up, in the PCI shell; an access at an odd offset is
//! a protocol violation and leaves the bank unchanged.

use vstd::prelude::*;

verus! {

/// Number of 16-bit words in the mixer bank (one per even offset below
/// `MIXER_REGS_SIZE`).
pub const MIXER_WORD_COUNT: usize = 0x80;

/// Offset of the master volume register; bit 15 is the mute bit.
pub const MIXER_MASTER_VOL_MUTE: u64 = 0x02;

/// Offset of the PCM output sample-rate register.
pub const MIXER_PCM_FRONT_DAC_RATE: u64 = 0x2C;

/// True for the register offsets the mixer window decodes: even offsets
/// below `ac97_regs::MIXER_REGS_SIZE`.
pub open spec fn mixer_offset_valid(offset: int) -> bool {
    0 <= offset < 0x100 && offset % 2 == 0
}

/// The word read at `offset` from a bank holding the words `regs`:
/// the stored word at a valid offset, zero anywhere else.
pub open spec fn mixer_word_at(regs: Seq<u16>, offset: int) -> u16
    recommends
        regs.len() == MIXER_WORD_COUNT,
{
    if mixer_offset_valid(offset) {
        regs[offset / 2]
    } else {
        0
    }
}

/// The bank after a word write at `offset`: the stored word replaced at a
/// valid offset, the bank unchanged anywhere else.
pub open spec fn mixer_write(regs: Seq<u16>, offset: int, val: u16) -> Seq<u16>
    recommends
        regs.len() == MIXER_WORD_COUNT,
{
    if mixer_offset_valid(offset) {
        regs.update(offset / 2, val)
    } else {
        regs
    }
}

/// The mixer register bank: one 16-bit word per even offset.
pub struct Ac97Mixer {
    /// The stored words; word `i` holds the value of offset `2 * i`.
    pub regs: Vec<u16>,
}

impl Ac97Mixer {
    /// The bank is well formed when it holds exactly one word per even
    /// offset of the mixer window.
    pub open spec fn wf(&self) -> bool {
        self.regs@.len() == MIXER_WORD_COUNT
    }

    /// True when the master volume register has its mute bit (bit 15)
    /// set.
    pub open spec fn spec_master_muted(&self) -> bool {
        mixer_word_at(self.regs@, MIXER_MASTER_VOL_MUTE as int) >= 0x8000
    }

    /// The value of the PCM output sample-rate register.
    pub open spec fn spec_pcm_rate(&self) -> u16 {
        mixer_word_at(self.regs@, MIXER_PCM_FRONT_DAC_RATE as int)
    }

    /// Creates a bank with every register at its reset value of zero.
    pub fn new() -> (r: Ac97Mixer)
        ensures
            r.wf(),
            forall|o: int| mixer_word_at(r.regs@, o) == 0,
    {
        let mut regs: Vec<u16> = Vec::new();
        let mut i: usize = 0;
        while i < MIXER_WORD_COUNT
            invariant
                i <= MIXER_WORD_COUNT,
                regs@ =~= Seq::<u16>::new(i as nat, |j: int| 0u16),
            decreases MIXER_WORD_COUNT - i,
        {
            regs.push(0u16);
            i = i + 1;
        }
        Ac97Mixer { regs }
    }

    /// Reads the 16-bit word at `offset`.
    pub fn readw(&self, offset: u64) -> (r: u16)
        requires
            self.wf(),
        ensures
            r == mixer_word_at(self.regs@, offset as int),
    {
        if offset < 0x100 && offset % 2 == 0 {
            self.regs[(offset / 2) as usize]
        } else {
            0
        }
    }

    /// Writes the 16-bit word at `offset`; an invalid offset leaves the
    /// bank unchanged.
    pub fn writew(&mut self, offset: u64, val: u16)
        requires
            old(self).wf(),
        ensures
            final(self).wf(),
            final(self).regs@ == mixer_write(old(self).regs@, offset as int, val),
    {
        if offset < 0x100 && offset % 2 == 0 {
            let i = (offset / 2) as usize;
            self.regs.set(i, val);
        }
    }
}

/// A mixer write followed by a read of the same valid offset returns the
/// written value, and every other offset reads as it did before the
/// write.
pub proof fn lemma_mixer_round_trip(regs: Seq<u16>, offset: int, val: u16)
    requires
        regs.len() == MIXER_WORD_COUNT,
        mixer_offset_valid(offset),
    ensures
        mixer_word_at(mixer_write(regs, offset, val), offset) == val,
        forall|o: int| o != offset ==> mixer_word_at(mixer_write(regs, offset, val), o)
            == mixer_word_at(regs, o),
{
    assert forall|o: int| o != offset implies mixer_word_at(mixer_write(regs, offset, val), o)
        == mixer_word_at(regs, o) by {
        if mixer_offset_valid(o) {
            assert(o / 2 != offset / 2);
        }
    }
}

} // verus!
