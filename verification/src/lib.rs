//! Emulation of an Intel AC97-compatible PCI audio controller.
//!
//! The crate models the three parts of the controller: the mixer register
//! bank (`mixer::Ac97Mixer`), the bus-master DMA engine
//! (`bus_master::Ac97BusMaster`) that streams samples between guest
//! memory and a host audio backend, and the PCI-visible shell
//! (`ac97::Ac97Dev`) that classifies register accesses by address range
//! and access width.  Guest memory, the MMIO address allocator, the PCI
//! configuration bank and the audio backend are modeled as plain data so
//! that every register semantic can be stated and proved.
//!
//! A small, unrelated video-format subsystem lives in `video_format` and
//! `video_encoder`.

pub mod ac97;
pub mod ac97_regs;
pub mod allocator;
pub mod audio;
pub mod bus_master;
pub mod guest_mem;
pub mod mixer;
pub mod pci_config;
pub mod video_encoder;
pub mod video_format;
