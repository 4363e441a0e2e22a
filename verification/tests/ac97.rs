use devices::ac97::Ac97Backend;
use devices::ac97::Ac97Dev;
use devices::ac97::Ac97Error;
use devices::ac97::Ac97Parameters;
use devices::ac97::PciDeviceError;
use devices::allocator::AllocError;
use devices::allocator::MmioAllocator;
use devices::audio::SourceKind;
use devices::audio::StreamSource;
use devices::bus_master::IrqEvent;
use devices::guest_mem::GuestRam;
use devices::pci_config::PciAddress;
use devices::pci_config::PciConfigError;
use devices::pci_config::PciConfiguration;
use devices::pci_config::PciInterruptPin;

fn le2(v: u16) -> Vec<u8> {
    vec![(v & 0xFF) as u8, (v >> 8) as u8]
}

fn le4(v: u32) -> Vec<u8> {
    vec![
        (v & 0xFF) as u8,
        ((v >> 8) & 0xFF) as u8,
        ((v >> 16) & 0xFF) as u8,
        ((v >> 24) & 0xFF) as u8,
    ]
}

fn device_with_bars() -> (Ac97Dev, u64, u64) {
    let mut dev = Ac97Dev::new(StreamSource::new_null());
    let mut allocator = MmioAllocator::new(0x2000_0000, 0x1000_0000);
    dev.assign_address(PciAddress { bus: 0, dev: 0, func: 0 });
    let ranges = dev.allocate_io_bars(&mut allocator).unwrap();
    (dev, ranges[0].0, ranges[1].0)
}

#[test]
fn create() {
    let _mem = GuestRam::new(0u64, 4 * 1024 * 1024);
    let mut ac97_dev = Ac97Dev::new(StreamSource::new_null());
    let mut allocator = MmioAllocator::new(0x2000_0000, 0x1000_0000);
    ac97_dev.assign_address(PciAddress { bus: 0, dev: 0, func: 0 });
    assert!(ac97_dev.allocate_io_bars(&mut allocator).is_ok());
}

#[test]
fn bar_addresses() {
    let (_dev, bar0, bar1) = device_with_bars();
    assert_eq!(bar0, 0x2000_0000);
    assert_eq!(bar1, 0x2000_1000);
}

#[test]
fn pci_identity() {
    let (dev, _, _) = device_with_bars();
    assert_eq!(dev.read_config_register(0), 0x2415_8086);
    assert_eq!(dev.read_config_register(2), 0x0401_0000);
    assert_eq!(dev.read_config_register(0xB), 0x0001_8086);
    assert_eq!(dev.read_config_register(4), 0x2000_0000);
    assert_eq!(dev.read_config_register(5), 0x2000_1000);
}

#[test]
fn irq_routing_register() {
    let (mut dev, _, _) = device_with_bars();
    dev.assign_irq(
        IrqEvent { count: 0 },
        IrqEvent { count: 0 },
        5,
        PciInterruptPin::IntA,
    );
    assert_eq!(dev.read_config_register(0xF), 0x105);
}

#[test]
fn allocate_twice_fails_registration() {
    let (mut dev, _, _) = device_with_bars();
    let mut allocator = MmioAllocator::new(0x3000_0000, 0x1000_0000);
    assert_eq!(
        dev.allocate_io_bars(&mut allocator),
        Err(PciDeviceError::IoRegistrationFailed)
    );
}

#[test]
fn allocate_exhausted_pool_fails() {
    let mut dev = Ac97Dev::new(StreamSource::new_null());
    let mut allocator = MmioAllocator::new(0x2000_0000, 0x800);
    dev.assign_address(PciAddress { bus: 0, dev: 0, func: 0 });
    assert_eq!(
        dev.allocate_io_bars(&mut allocator),
        Err(PciDeviceError::IoAllocationFailed)
    );
}

#[test]
fn allocator_bad_range() {
    let mut allocator = MmioAllocator::new(0x1000, 0x1000);
    assert_eq!(allocator.allocate_with_align(0, 0x100), Err(AllocError::BadRange));
    assert_eq!(allocator.allocate_with_align(0x100, 0), Err(AllocError::BadRange));
    assert_eq!(allocator.allocate_with_align(0x2000, 0x100), Err(AllocError::OutOfSpace));
}

#[test]
fn backend_from_str() {
    assert_eq!(Ac97Backend::from_str("cras"), Ok(Ac97Backend::CRAS));
    assert_eq!(Ac97Backend::from_str("null"), Ok(Ac97Backend::NULL));
    assert_eq!(Ac97Backend::from_str("bogus"), Err(Ac97Error::InvalidBackend));
    assert_eq!(
        Ac97Error::InvalidBackend.message(),
        "Must be cras or null".to_owned()
    );
}

#[test]
fn try_new_backends() {
    let null_dev = Ac97Dev::try_new(Ac97Parameters::default()).unwrap();
    assert_eq!(null_dev.bus_master.audio_server.kind, SourceKind::Null);
    assert!(null_dev.keep_fds().is_empty());

    let params = Ac97Parameters {
        backend: Ac97Backend::CRAS,
        capture: true,
        capture_effects: Vec::new(),
    };
    let server_dev = Ac97Dev::try_new(params).unwrap();
    assert_eq!(server_dev.bus_master.audio_server.kind, SourceKind::Server);
    assert!(server_dev.bus_master.audio_server.capture_enabled);
}

#[test]
fn mixer_round_trip() {
    let (mut dev, bar0, _) = device_with_bars();
    let mem = GuestRam::new(0u64, 0x1000);
    dev.write_bar(bar0 + 0x02, &le2(0x1234), &mem);
    let mut data = vec![0u8; 2];
    dev.read_bar(bar0 + 0x02, &mut data);
    assert_eq!(data, le2(0x1234));
    // A never-written offset reads as zero.
    let mut other = vec![0xFFu8, 0xFF];
    dev.read_bar(bar0 + 0x10, &mut other);
    assert_eq!(other, le2(0));
}

#[test]
fn mixer_bad_width_is_noop() {
    let (mut dev, bar0, _) = device_with_bars();
    let mem = GuestRam::new(0u64, 0x1000);
    dev.write_bar(bar0 + 0x02, &le2(0x5678), &mem);
    let before = dev.mixer.regs.clone();
    dev.write_bar(bar0 + 0x02, &vec![0xAAu8], &mem);
    dev.write_bar(bar0 + 0x02, &vec![1u8, 2, 3], &mem);
    dev.write_bar(bar0 + 0x04, &le4(0xDEAD_BEEF), &mem);
    assert_eq!(dev.mixer.regs, before);
    // A wrong-width read returns nothing: the buffer is untouched.
    let mut data = vec![0x11u8, 0x22, 0x33];
    dev.read_bar(bar0 + 0x02, &mut data);
    assert_eq!(data, vec![0x11u8, 0x22, 0x33]);
}

#[test]
fn mixer_mute_reaches_backend() {
    let (mut dev, bar0, _) = device_with_bars();
    let mem = GuestRam::new(0u64, 0x1000);
    assert!(!dev.bus_master.playback_muted);
    // Master volume with the mute bit set, the typical AC97 convention.
    dev.write_bar(bar0 + 0x02, &le2(0x8000), &mem);
    assert!(dev.bus_master.playback_muted);
    dev.write_bar(bar0 + 0x02, &le2(0x0000), &mem);
    assert!(!dev.bus_master.playback_muted);
}

#[test]
fn mixer_rate_zero_keeps_previous() {
    let (mut dev, bar0, _) = device_with_bars();
    let mem = GuestRam::new(0u64, 0x1000);
    assert_eq!(dev.bus_master.playback_rate, 48000);
    dev.write_bar(bar0 + 0x2C, &le2(44100), &mem);
    assert_eq!(dev.bus_master.playback_rate, 44100);
    // A zero rate cannot be negotiated; the previous rate is kept.
    dev.write_bar(bar0 + 0x2C, &le2(0), &mem);
    assert_eq!(dev.bus_master.playback_rate, 44100);
}

#[test]
fn guest_ram_round_trip() {
    let mut ram = GuestRam::new(0x1000, 0x100);
    assert!(ram.write_u32(0x1010, 0xA1B2_C3D4));
    assert_eq!(ram.read_u32(0x1010), Some(0xA1B2_C3D4));
    assert_eq!(ram.read_u8(0x1010), Some(0xD4));
    assert!(ram.write_u16(0x1020, 0x55AA));
    assert_eq!(ram.read_u16(0x1020), Some(0x55AA));
    // Out of range accesses fail without touching anything.
    assert!(!ram.write_u32(0x10FE, 1));
    assert_eq!(ram.read_u32(0x10FE), None);
    assert_eq!(ram.read_u8(0xFFF), None);
}

#[test]
fn bus_master_register_defaults() {
    let (dev, _, bar1) = device_with_bars();
    let mut data = vec![0u8; 2];
    // A reset stream is halted: SR reads DCH.
    dev.read_bar(bar1 + 0x16, &mut data);
    assert_eq!(data, le2(0x0001));
    // GLOB_STA reports the codec ready.
    let mut glob = vec![0u8; 4];
    dev.read_bar(bar1 + 0x30, &mut glob);
    assert_eq!(glob, le4(0x100));
}

#[test]
fn acc_sema_stores() {
    let (mut dev, _, bar1) = device_with_bars();
    let mem = GuestRam::new(0u64, 0x1000);
    dev.write_bar(bar1 + 0x34, &vec![1u8], &mem);
    let mut data = vec![0u8];
    dev.read_bar(bar1 + 0x34, &mut data);
    assert_eq!(data, vec![1u8]);
}

fn prepare_playback_ring(ram: &mut GuestRam, descriptors: &[(u32, u32)]) {
    // The descriptor ring lives at 0x1000: entries of buffer address and
    // control word (sample count, bit 31 interrupt-on-completion).
    for (i, (addr, ctl)) in descriptors.iter().enumerate() {
        assert!(ram.write_u32(0x1000 + 8 * i as u64, *addr));
        assert!(ram.write_u32(0x1004 + 8 * i as u64, *ctl));
    }
}

#[test]
fn playback_ring_end_to_end() {
    let (mut dev, _, bar1) = device_with_bars();
    dev.assign_irq(
        IrqEvent { count: 0 },
        IrqEvent { count: 0 },
        5,
        PciInterruptPin::IntA,
    );
    let mut ram = GuestRam::new(0u64, 4 * 1024 * 1024);
    // One descriptor of 4096 samples at 0x2000, interrupt on completion.
    prepare_playback_ring(&mut ram, &[(0x2000, 4096 | 0x8000_0000)]);
    for i in 0..4096u64 {
        assert!(ram.write_u16(0x2000 + 2 * i, (3 * i) as u16));
    }
    // Program the playback stream: BDBAR, LVI = 0, CR = run | IOCE.
    dev.write_bar(bar1 + 0x10, &le4(0x1000), &ram);
    dev.write_bar(bar1 + 0x15, &vec![0u8], &ram);
    dev.write_bar(bar1 + 0x1B, &vec![0x11u8], &ram);

    let samples = dev.bus_master.play_samples(&ram, 4096);
    assert_eq!(samples.len(), 4096);
    for i in 0..4096u64 {
        assert_eq!(samples[i as usize], (3 * i) as u16);
    }

    // PICB drained, CIV resting on LVI, ring stopped.
    let mut picb = vec![0u8; 2];
    dev.read_bar(bar1 + 0x18, &mut picb);
    assert_eq!(picb, le2(0));
    let mut civ = vec![0u8];
    dev.read_bar(bar1 + 0x14, &mut civ);
    assert_eq!(civ, vec![0u8]);
    let mut lvi = vec![0u8];
    dev.read_bar(bar1 + 0x15, &mut lvi);
    assert_eq!(lvi, vec![0u8]);
    // DCH | CELV | LVBCI | BCIS.
    let mut sr = vec![0u8; 2];
    dev.read_bar(bar1 + 0x16, &mut sr);
    assert_eq!(sr, le2(0x000F));
    // Exactly one assert signal, and the line is up.
    assert_eq!(dev.bus_master.irq.unwrap().irq_evt.count, 1);
    assert!(dev.bus_master.irq_level);

    // Writing ones clears the interrupt bits and de-asserts the line;
    // the DMA-stopped bit stays until the stream is restarted.
    dev.write_bar(bar1 + 0x16, &le2(0x000C), &ram);
    let mut sr2 = vec![0u8; 2];
    dev.read_bar(bar1 + 0x16, &mut sr2);
    assert_eq!(sr2, le2(0x0003));
    assert!(!dev.bus_master.irq_level);

    // A stopped stream supplies silence and keeps its state.
    let silence = dev.bus_master.play_samples(&ram, 8);
    assert_eq!(silence, vec![0u16; 8]);
    let mut sr3 = vec![0u8; 2];
    dev.read_bar(bar1 + 0x16, &mut sr3);
    assert_eq!(sr3, le2(0x0003));
}

#[test]
fn playback_multi_descriptor_interrupts() {
    let (mut dev, _, bar1) = device_with_bars();
    dev.assign_irq(
        IrqEvent { count: 0 },
        IrqEvent { count: 0 },
        5,
        PciInterruptPin::IntA,
    );
    let mut ram = GuestRam::new(0u64, 0x10000);
    // Three descriptors of 100 samples each, all interrupt-on-completion.
    prepare_playback_ring(
        &mut ram,
        &[
            (0x2000, 100 | 0x8000_0000),
            (0x3000, 100 | 0x8000_0000),
            (0x4000, 100 | 0x8000_0000),
        ],
    );
    dev.write_bar(bar1 + 0x10, &le4(0x1000), &ram);
    dev.write_bar(bar1 + 0x15, &vec![2u8], &ram);
    dev.write_bar(bar1 + 0x1B, &vec![0x11u8], &ram);

    // Two partial callbacks covering the total of 300 samples.
    let first = dev.bus_master.play_samples(&ram, 150);
    assert_eq!(first.len(), 150);
    let mut civ = vec![0u8];
    dev.read_bar(bar1 + 0x14, &mut civ);
    assert_eq!(civ, vec![1u8]);
    let second = dev.bus_master.play_samples(&ram, 150);
    assert_eq!(second.len(), 150);

    // One assert per completed descriptor.
    assert_eq!(dev.bus_master.irq.unwrap().irq_evt.count, 3);
    let mut sr = vec![0u8; 2];
    dev.read_bar(bar1 + 0x16, &mut sr);
    assert_eq!(sr, le2(0x000F));
    let mut civ2 = vec![0u8];
    dev.read_bar(bar1 + 0x14, &mut civ2);
    assert_eq!(civ2, vec![2u8]);
}

#[test]
fn capture_ring_fills_guest_memory() {
    let (mut dev, _, bar1) = device_with_bars();
    dev.assign_irq(
        IrqEvent { count: 0 },
        IrqEvent { count: 0 },
        5,
        PciInterruptPin::IntA,
    );
    let mut ram = GuestRam::new(0u64, 0x10000);
    // Capture-input ring: one descriptor of 8 samples at 0x4000,
    // interrupt on completion, ring at 0x3000.
    assert!(ram.write_u32(0x3000, 0x4000));
    assert!(ram.write_u32(0x3004, 8 | 0x8000_0000));
    dev.write_bar(bar1 + 0x00, &le4(0x3000), &ram);
    dev.write_bar(bar1 + 0x05, &vec![0u8], &ram);
    dev.write_bar(bar1 + 0x0B, &vec![0x11u8], &ram);

    let period: Vec<u16> = (0..8).map(|i| 100 + i).collect();
    let accepted = dev.bus_master.capture_samples(&mut ram, &period);
    assert_eq!(accepted, 8);
    for i in 0..8u64 {
        assert_eq!(ram.read_u16(0x4000 + 2 * i), Some(100 + i as u16));
    }
    // Ring exhausted: stopped with the completion interrupt raised.
    let mut sr = vec![0u8; 2];
    dev.read_bar(bar1 + 0x06, &mut sr);
    assert_eq!(sr, le2(0x000F));
    assert_eq!(dev.bus_master.irq.unwrap().irq_evt.count, 1);

    // A stopped capture stream discards the period.
    let more = dev.bus_master.capture_samples(&mut ram, &period);
    assert_eq!(more, 0);
    assert_eq!(ram.read_u16(0x4000), Some(100));
}

#[test]
fn irq_handoff_happens_once() {
    let (mut dev, _, bar1) = device_with_bars();
    let ram = GuestRam::new(0u64, 0x1000);
    assert!(dev.bus_master.irq.is_none());
    dev.assign_irq(
        IrqEvent { count: 7 },
        IrqEvent { count: 0 },
        5,
        PciInterruptPin::IntA,
    );
    assert!(dev.irq_evt.is_some());
    // The first bus-master write delivers the handles.
    dev.write_bar(bar1 + 0x34, &vec![0u8], &ram);
    assert!(dev.irq_evt.is_none());
    assert_eq!(dev.bus_master.irq.unwrap().irq_evt.count, 7);
    // A second write, and even a second assignment, deliver nothing more.
    dev.write_bar(bar1 + 0x34, &vec![0u8], &ram);
    assert_eq!(dev.bus_master.irq.unwrap().irq_evt.count, 7);
    dev.assign_irq(
        IrqEvent { count: 99 },
        IrqEvent { count: 0 },
        5,
        PciInterruptPin::IntA,
    );
    dev.write_bar(bar1 + 0x34, &vec![0u8], &ram);
    assert_eq!(dev.bus_master.irq.unwrap().irq_evt.count, 7);
}

#[test]
fn shared_line_stays_up_while_another_stream_pends() {
    let (mut dev, _, bar1) = device_with_bars();
    dev.assign_irq(
        IrqEvent { count: 0 },
        IrqEvent { count: 0 },
        5,
        PciInterruptPin::IntA,
    );
    let mut ram = GuestRam::new(0u64, 0x10000);
    // Playback ring at 0x1000, capture ring at 0x3000, one descriptor
    // each with interrupt on completion.
    prepare_playback_ring(&mut ram, &[(0x2000, 16 | 0x8000_0000)]);
    assert!(ram.write_u32(0x3000, 0x4000));
    assert!(ram.write_u32(0x3004, 16 | 0x8000_0000));
    dev.write_bar(bar1 + 0x10, &le4(0x1000), &ram);
    dev.write_bar(bar1 + 0x15, &vec![0u8], &ram);
    dev.write_bar(bar1 + 0x1B, &vec![0x11u8], &ram);
    dev.write_bar(bar1 + 0x00, &le4(0x3000), &ram);
    dev.write_bar(bar1 + 0x05, &vec![0u8], &ram);
    dev.write_bar(bar1 + 0x0B, &vec![0x11u8], &ram);

    let _ = dev.bus_master.play_samples(&ram, 16);
    let input = vec![1u16; 16];
    let _ = dev.bus_master.capture_samples(&mut ram, &input);
    assert!(dev.bus_master.irq_level);
    assert_eq!(dev.bus_master.irq.unwrap().irq_evt.count, 2);

    // Clearing one stream's interrupt leaves the shared line asserted.
    dev.write_bar(bar1 + 0x16, &le2(0x000C), &ram);
    assert!(dev.bus_master.irq_level);
    // Clearing the last pending interrupt de-asserts it.
    dev.write_bar(bar1 + 0x06, &le2(0x000C), &ram);
    assert!(!dev.bus_master.irq_level);
}

#[test]
fn unmapped_bar_access_is_noop() {
    let (mut dev, _, bar1) = device_with_bars();
    let ram = GuestRam::new(0u64, 0x1000);
    let mut data = vec![0xABu8, 0xCD];
    dev.read_bar(bar1 + 0x1000, &mut data);
    assert_eq!(data, vec![0xABu8, 0xCD]);
    dev.write_bar(bar1 + 0x1000, &le2(0xFFFF), &ram);
    let before = dev.mixer.regs.clone();
    assert_eq!(dev.mixer.regs, before);
}

#[test]
fn packed_civ_lvi_sr_read() {
    let (mut dev, _, bar1) = device_with_bars();
    let ram = GuestRam::new(0u64, 0x1000);
    dev.write_bar(bar1 + 0x15, &vec![9u8], &ram);
    let mut data = vec![0u8; 4];
    dev.read_bar(bar1 + 0x14, &mut data);
    // CIV = 0, LVI = 9, SR = DCH.
    assert_eq!(data, le4(0x0001_0900));
}

#[test]
fn stream_reset_clears_registers() {
    let (mut dev, _, bar1) = device_with_bars();
    let ram = GuestRam::new(0u64, 0x1000);
    dev.write_bar(bar1 + 0x10, &le4(0x1000), &ram);
    dev.write_bar(bar1 + 0x15, &vec![3u8], &ram);
    // CR reset bit.
    dev.write_bar(bar1 + 0x1B, &vec![0x02u8], &ram);
    let mut bdbar = vec![0u8; 4];
    dev.read_bar(bar1 + 0x10, &mut bdbar);
    assert_eq!(bdbar, le4(0));
    let mut lvi = vec![0u8];
    dev.read_bar(bar1 + 0x15, &mut lvi);
    assert_eq!(lvi, vec![0u8]);
}

#[test]
fn lvi_is_masked_to_ring_size() {
    let (mut dev, _, bar1) = device_with_bars();
    let ram = GuestRam::new(0u64, 0x1000);
    dev.write_bar(bar1 + 0x15, &vec![40u8], &ram);
    let mut lvi = vec![0u8];
    dev.read_bar(bar1 + 0x15, &mut lvi);
    assert_eq!(lvi, vec![8u8]);
}

#[test]
fn bdbar_keeps_hardware_alignment() {
    let (mut dev, _, bar1) = device_with_bars();
    let ram = GuestRam::new(0u64, 0x1000);
    dev.write_bar(bar1 + 0x10, &le4(0x1237), &ram);
    let mut bdbar = vec![0u8; 4];
    dev.read_bar(bar1 + 0x10, &mut bdbar);
    assert_eq!(bdbar, le4(0x1230));
}

#[test]
fn pause_preserves_position() {
    let (mut dev, _, bar1) = device_with_bars();
    let mut ram = GuestRam::new(0u64, 0x10000);
    // One playback descriptor of 100 samples, no completion interrupt.
    prepare_playback_ring(&mut ram, &[(0x2000, 100)]);
    for i in 0..100u64 {
        assert!(ram.write_u16(0x2000 + 2 * i, i as u16));
    }
    dev.write_bar(bar1 + 0x10, &le4(0x1000), &ram);
    dev.write_bar(bar1 + 0x15, &vec![0u8], &ram);
    dev.write_bar(bar1 + 0x1B, &vec![0x01u8], &ram);
    let first = dev.bus_master.play_samples(&ram, 30);
    assert_eq!(first.len(), 30);

    // Pause: transfer halts, CIV and PICB are preserved.
    dev.write_bar(bar1 + 0x1B, &vec![0x00u8], &ram);
    let mut picb = vec![0u8; 2];
    dev.read_bar(bar1 + 0x18, &mut picb);
    assert_eq!(picb, le2(70));
    let mut sr = vec![0u8; 2];
    dev.read_bar(bar1 + 0x16, &mut sr);
    assert_eq!(sr, le2(0x0001));
    let paused = dev.bus_master.play_samples(&ram, 10);
    assert_eq!(paused, vec![0u16; 10]);

    // Resume: transfer continues where it stopped.
    dev.write_bar(bar1 + 0x1B, &vec![0x01u8], &ram);
    let rest = dev.bus_master.play_samples(&ram, 70);
    assert_eq!(rest[0], 30);
    assert_eq!(rest[69], 99);
    let mut picb2 = vec![0u8; 2];
    dev.read_bar(bar1 + 0x18, &mut picb2);
    assert_eq!(picb2, le2(0));
}

#[test]
fn cold_reset_clears_streams() {
    let (mut dev, _, bar1) = device_with_bars();
    let ram = GuestRam::new(0u64, 0x1000);
    dev.write_bar(bar1 + 0x15, &vec![3u8], &ram);
    // Cold reset bit set: streams keep their state.
    dev.write_bar(bar1 + 0x2C, &le4(0x2), &ram);
    let mut lvi = vec![0u8];
    dev.read_bar(bar1 + 0x15, &mut lvi);
    assert_eq!(lvi, vec![3u8]);
    let mut glob = vec![0u8; 4];
    dev.read_bar(bar1 + 0x2C, &mut glob);
    assert_eq!(glob, le4(0x2));
    // Clearing the cold reset bit resets every stream.
    dev.write_bar(bar1 + 0x2C, &le4(0x0), &ram);
    let mut lvi2 = vec![0u8];
    dev.read_bar(bar1 + 0x15, &mut lvi2);
    assert_eq!(lvi2, vec![0u8]);
}

#[test]
fn config_bar_registration_errors() {
    let mut config = PciConfiguration::new(0x8086, 0x2415, 4, 1, 0x8086, 1);
    assert_eq!(
        config.add_pci_bar(7, 0x2000_0000, 0x100),
        Err(PciConfigError::BarIndexInvalid)
    );
    assert_eq!(config.add_pci_bar(0, 0x2000_0000, 0x100), Ok(()));
    assert_eq!(
        config.add_pci_bar(0, 0x3000_0000, 0x100),
        Err(PciConfigError::BarInUse)
    );
}

#[test]
fn config_write_relocates_bar() {
    let mut config = PciConfiguration::new(0x8086, 0x2415, 4, 1, 0x8086, 1);
    assert_eq!(config.add_pci_bar(0, 0x2000_0000, 0x100), Ok(()));
    // A whole-dword write moves the window; the low type bits are fixed.
    config.write_reg(4, 0, &le4(0x3000_000C));
    assert_eq!(config.get_bar_addr(0), 0x3000_0000);
    // Partial writes and writes to empty or fixed registers are dropped.
    config.write_reg(4, 1, &vec![0xFFu8]);
    assert_eq!(config.get_bar_addr(0), 0x3000_0000);
    config.write_reg(0, 0, &le4(0xFFFF_FFFF));
    assert_eq!(config.read_reg(0), 0x2415_8086);
}

#[test]
fn debug_label_is_ac97() {
    let dev = Ac97Dev::new(StreamSource::new_null());
    assert_eq!(dev.debug_label(), "AC97".to_owned());
}
