//! Data structures that represent video format information in virtio
//! video devices, and their wire encoding.
//!
//! Responses are encoded little-endian into a byte buffer: a frame
//! format is its width and height ranges, the bitrate-range count, four
//! bytes of padding, then the bitrate ranges; a format descriptor is
//! its mask, wire code, planes layout, plane alignment and frame-format
//! count, followed by the frame formats.

use vstd::prelude::*;

verus! {

/// Single-buffer planes layout wire code.
pub const PLANES_LAYOUT_SINGLE_BUFFER: u32 = 1;

/// A coded-video profile.
#[derive(PartialEq, Eq, Clone, Copy, Debug, Structural)]
pub enum Profile {
    H264Baseline,
    H264Main,
    H264Extended,
    H264High,
    H264High10,
    H264High422,
    H264High444PredictiveProfile,
    H264ScalableBaseline,
    H264ScalableHigh,
    H264StereoHigh,
    H264MultiviewHigh,
    HevcMain,
    HevcMain10,
    HevcMainStillPicture,
    VP8Profile0,
    VP8Profile1,
    VP8Profile2,
    VP8Profile3,
    VP9Profile0,
    VP9Profile1,
    VP9Profile2,
    VP9Profile3,
}

/// A coded-video level.
#[derive(PartialEq, Eq, Clone, Copy, Debug, Structural)]
pub enum Level {
    H264_1_0,
}

/// A raw or bitstream video format.
#[derive(PartialEq, Eq, Clone, Copy, Debug, Structural)]
pub enum Format {
    // Raw formats
    NV12,
    YUV420,
    // Bitstream formats
    H264,
    HEVC,
    VP8,
    VP9,
}

/// The bitstream format a profile belongs to.
pub open spec fn spec_profile_format(p: Profile) -> Format {
    match p {
        Profile::H264Baseline => Format::H264,
        Profile::H264Main => Format::H264,
        Profile::H264Extended => Format::H264,
        Profile::H264High => Format::H264,
        Profile::H264High10 => Format::H264,
        Profile::H264High422 => Format::H264,
        Profile::H264High444PredictiveProfile => Format::H264,
        Profile::H264ScalableBaseline => Format::H264,
        Profile::H264ScalableHigh => Format::H264,
        Profile::H264StereoHigh => Format::H264,
        Profile::H264MultiviewHigh => Format::H264,
        Profile::HevcMain => Format::HEVC,
        Profile::HevcMain10 => Format::HEVC,
        Profile::HevcMainStillPicture => Format::HEVC,
        Profile::VP8Profile0 => Format::VP8,
        Profile::VP8Profile1 => Format::VP8,
        Profile::VP8Profile2 => Format::VP8,
        Profile::VP8Profile3 => Format::VP8,
        Profile::VP9Profile0 => Format::VP9,
        Profile::VP9Profile1 => Format::VP9,
        Profile::VP9Profile2 => Format::VP9,
        Profile::VP9Profile3 => Format::VP9,
    }
}

impl Profile {
    /// Returns the bitstream format the profile belongs to.
    pub fn to_format(&self) -> (r: Format)
        ensures
            r == spec_profile_format(*self),
    {
        match self {
            Profile::H264Baseline
            | Profile::H264Main
            | Profile::H264Extended
            | Profile::H264High
            | Profile::H264High10
            | Profile::H264High422
            | Profile::H264High444PredictiveProfile
            | Profile::H264ScalableBaseline
            | Profile::H264ScalableHigh
            | Profile::H264StereoHigh
            | Profile::H264MultiviewHigh => Format::H264,
            Profile::HevcMain | Profile::HevcMain10 | Profile::HevcMainStillPicture => Format::HEVC,
            Profile::VP8Profile0 | Profile::VP8Profile1 | Profile::VP8Profile2
            | Profile::VP8Profile3 => Format::VP8,
            Profile::VP9Profile0 | Profile::VP9Profile1 | Profile::VP9Profile2
            | Profile::VP9Profile3 => Format::VP9,
        }
    }
}

impl Format {
    /// The wire code of the format in the virtio-video protocol.
    pub open spec fn spec_wire_code(&self) -> u32 {
        match self {
            Format::NV12 => 3,
            Format::YUV420 => 4,
            Format::H264 => 0x1002,
            Format::HEVC => 0x1003,
            Format::VP8 => 0x1004,
            Format::VP9 => 0x1005,
        }
    }

    /// Returns the format's wire code.
    pub fn wire_code(&self) -> (r: u32)
        ensures
            r == self.spec_wire_code(),
    {
        match self {
            Format::NV12 => 3,
            Format::YUV420 => 4,
            Format::H264 => 0x1002,
            Format::HEVC => 0x1003,
            Format::VP8 => 0x1004,
            Format::VP9 => 0x1005,
        }
    }
}

/// A crop rectangle.
#[derive(Debug, Default, Copy, Clone, PartialEq, Eq, Structural)]
pub struct Crop {
    pub left: u32,
    pub top: u32,
    pub width: u32,
    pub height: u32,
}

/// Size and stride of one image plane.
#[derive(Debug, Default, Clone, Copy, PartialEq, Eq, Structural)]
pub struct PlaneFormat {
    pub plane_size: u32,
    pub stride: u32,
}

/// An inclusive range with a step.
#[derive(Debug, Default, Clone, Copy, PartialEq, Eq, Structural)]
pub struct FormatRange {
    pub min: u32,
    pub max: u32,
    pub step: u32,
}

/// The frame geometry and bitrates a format supports.
#[derive(Debug, Clone)]
pub struct FrameFormat {
    pub width: FormatRange,
    pub height: FormatRange,
    pub bitrates: Vec<FormatRange>,
}

/// One entry of the format enumeration a device reports.
#[derive(Debug, Clone)]
pub struct FormatDesc {
    /// Bitmask of the stream resources the format applies to.
    pub mask: u64,
    pub format: Format,
    pub frame_formats: Vec<FrameFormat>,
}

/// The four bytes of `v`, little-endian.
pub open spec fn le32(v: u32) -> Seq<u8> {
    seq![
        (v % 0x100) as u8,
        (v / 0x100 % 0x100) as u8,
        (v / 0x1_0000 % 0x100) as u8,
        (v / 0x100_0000) as u8,
    ]
}

/// The eight bytes of `v`, little-endian.
pub open spec fn le64(v: u64) -> Seq<u8> {
    le32((v % 0x1_0000_0000) as u32) + le32((v / 0x1_0000_0000) as u32)
}

/// The wire bytes of a range: min, max, step.
pub open spec fn spec_range_bytes(r: FormatRange) -> Seq<u8> {
    le32(r.min) + le32(r.max) + le32(r.step)
}

/// The wire bytes of a run of ranges.
pub open spec fn spec_ranges_bytes(s: Seq<FormatRange>) -> Seq<u8>
    decreases s.len(),
{
    if s.len() == 0 {
        Seq::empty()
    } else {
        spec_ranges_bytes(s.drop_last()) + spec_range_bytes(s.last())
    }
}

/// The wire bytes of a frame format: width and height ranges, the
/// bitrate count, four bytes of padding, then the bitrate ranges.
pub open spec fn spec_frame_format_bytes(f: FrameFormat) -> Seq<u8> {
    spec_range_bytes(f.width) + spec_range_bytes(f.height) + le32(f.bitrates@.len() as u32) + le32(
        0,
    ) + spec_ranges_bytes(f.bitrates@)
}

/// The wire bytes of a run of frame formats.
pub open spec fn spec_frame_formats_bytes(s: Seq<FrameFormat>) -> Seq<u8>
    decreases s.len(),
{
    if s.len() == 0 {
        Seq::empty()
    } else {
        spec_frame_formats_bytes(s.drop_last()) + spec_frame_format_bytes(s.last())
    }
}

/// The wire bytes of a format descriptor: mask, wire code, the
/// single-buffer planes layout, no plane alignment, the frame-format
/// count, then the frame formats.
pub open spec fn spec_format_desc_bytes(d: FormatDesc) -> Seq<u8> {
    le64(d.mask) + le32(d.format.spec_wire_code()) + le32(PLANES_LAYOUT_SINGLE_BUFFER) + le32(0)
        + le32(d.frame_formats@.len() as u32) + spec_frame_formats_bytes(d.frame_formats@)
}

/// Appends the four little-endian bytes of `v`.
fn push_le32(out: &mut Vec<u8>, v: u32)
    ensures
        final(out)@ == old(out)@ + le32(v),
{
    out.push((v % 0x100) as u8);
    out.push((v / 0x100 % 0x100) as u8);
    out.push((v / 0x1_0000 % 0x100) as u8);
    out.push((v / 0x100_0000) as u8);
    proof {
        assert(out@ =~= old(out)@ + le32(v));
    }
}

/// Appends the eight little-endian bytes of `v`.
fn push_le64(out: &mut Vec<u8>, v: u64)
    ensures
        final(out)@ == old(out)@ + le64(v),
{
    push_le32(out, (v % 0x1_0000_0000) as u32);
    push_le32(out, (v / 0x1_0000_0000) as u32);
    proof {
        assert(out@ =~= old(out)@ + le64(v));
    }
}

impl FormatRange {
    /// Appends the range's wire bytes.
    pub fn write(&self, out: &mut Vec<u8>)
        ensures
            final(out)@ == old(out)@ + spec_range_bytes(*self),
    {
        push_le32(out, self.min);
        push_le32(out, self.max);
        push_le32(out, self.step);
        proof {
            assert(out@ =~= old(out)@ + spec_range_bytes(*self));
        }
    }
}

impl FrameFormat {
    /// Appends the frame format's wire bytes.
    pub fn write(&self, out: &mut Vec<u8>)
        requires
            self.bitrates@.len() <= u32::MAX,
        ensures
            final(out)@ == old(out)@ + spec_frame_format_bytes(*self),
    {
        self.width.write(out);
        self.height.write(out);
        push_le32(out, self.bitrates.len() as u32);
        push_le32(out, 0);
        let mut i: usize = 0;
        while i < self.bitrates.len()
            invariant
                i <= self.bitrates@.len(),
                out@ =~= old(out)@ + spec_range_bytes(self.width) + spec_range_bytes(self.height)
                    + le32(self.bitrates@.len() as u32) + le32(0) + spec_ranges_bytes(
                    self.bitrates@.take(i as int),
                ),
            decreases self.bitrates@.len() - i,
        {
            self.bitrates[i].write(out);
            proof {
                assert(self.bitrates@.take(i + 1).drop_last() =~= self.bitrates@.take(i as int));
                assert(self.bitrates@.take(i + 1).last() == self.bitrates@[i as int]);
            }
            i = i + 1;
        }
        proof {
            assert(self.bitrates@.take(self.bitrates@.len() as int) =~= self.bitrates@);
            assert(out@ =~= old(out)@ + spec_frame_format_bytes(*self));
        }
    }
}

impl FormatDesc {
    /// Appends the descriptor's wire bytes.
    pub fn write(&self, out: &mut Vec<u8>)
        requires
            self.frame_formats@.len() <= u32::MAX,
            forall|i: int| 0 <= i < self.frame_formats@.len()
                ==> (#[trigger] self.frame_formats@[i]).bitrates@.len() <= u32::MAX,
        ensures
            final(out)@ == old(out)@ + spec_format_desc_bytes(*self),
    {
        push_le64(out, self.mask);
        push_le32(out, self.format.wire_code());
        // Single-buffer mode only.
        push_le32(out, PLANES_LAYOUT_SINGLE_BUFFER);
        // No alignment is required on the boards currently supported.
        push_le32(out, 0);
        push_le32(out, self.frame_formats.len() as u32);
        let mut i: usize = 0;
        while i < self.frame_formats.len()
            invariant
                i <= self.frame_formats@.len(),
                forall|j: int| 0 <= j < self.frame_formats@.len()
                    ==> (#[trigger] self.frame_formats@[j]).bitrates@.len() <= u32::MAX,
                out@ =~= old(out)@ + le64(self.mask) + le32(self.format.spec_wire_code()) + le32(
                    PLANES_LAYOUT_SINGLE_BUFFER,
                ) + le32(0) + le32(self.frame_formats@.len() as u32) + spec_frame_formats_bytes(
                    self.frame_formats@.take(i as int),
                ),
            decreases self.frame_formats@.len() - i,
        {
            self.frame_formats[i].write(out);
            proof {
                assert(self.frame_formats@.take(i + 1).drop_last() =~= self.frame_formats@.take(
                    i as int,
                ));
                assert(self.frame_formats@.take(i + 1).last() == self.frame_formats@[i as int]);
            }
            i = i + 1;
        }
        proof {
            assert(self.frame_formats@.take(self.frame_formats@.len() as int)
                =~= self.frame_formats@);
            assert(out@ =~= old(out)@ + spec_format_desc_bytes(*self));
        }
    }
}

} // verus!
