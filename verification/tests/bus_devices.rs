use mos6502_core::bus::AddressBus;
use mos6502_core::bus::DeviceRead;
use mos6502_core::bus::DeviceWrite;
use mos6502_core::bus::MappedDevice;
use mos6502_core::bus::Ram;
use mos6502_core::ppu::Ppu;

#[test]
fn open_bus_read_returns_configured_default() {
    let mut bus = AddressBus::new(0x42);
    assert!(bus.map_device(0x0000, 0x00FF, MappedDevice::Ram(Ram::new(0x100))));
    assert_eq!(bus.read(0x0200), 0x42);
    assert_eq!(bus.read(0xFFFF), 0x42);
}

#[test]
fn open_bus_write_has_no_observable_effect() {
    let mut bus = AddressBus::new(0x00);
    assert!(bus.map_device(0x0000, 0x00FF, MappedDevice::Ram(Ram::new(0x100))));
    bus.write(0x0010, 0x55);
    bus.write(0x0300, 0x99);
    assert_eq!(bus.read(0x0300), 0x00);
    assert_eq!(bus.read(0x0010), 0x55);
    for a in 0x0000..=0x00FFu16 {
        if a != 0x0010 {
            assert_eq!(bus.read(a), 0x00);
        }
    }
}

#[test]
fn ram_round_trip_through_bus_offsets() {
    let mut bus = AddressBus::new(0x00);
    assert!(bus.map_device(0x2000, 0x20FF, MappedDevice::Ram(Ram::new(0x100))));
    bus.write(0x2005, 0xAB);
    assert_eq!(bus.read(0x2005), 0xAB);
    assert_eq!(bus.read(0x2004), 0x00);
}

#[test]
fn ram_direct_read_write() {
    let mut ram = Ram::new(16);
    ram.write_at(3, 0x77);
    assert_eq!(ram.read_at(3), 0x77);
    assert_eq!(ram.read_at(4), 0x00);
    // Beyond the memory's size: reads as zero, writes change nothing.
    assert_eq!(ram.read_at(100), 0x00);
    ram.write_at(100, 0x12);
    assert_eq!(ram.read_at(100), 0x00);
}

#[test]
fn overlapping_binding_is_refused() {
    let mut bus = AddressBus::new(0x00);
    assert!(bus.map_device(0x0000, 0x00FF, MappedDevice::Ram(Ram::new(0x100))));
    assert!(!bus.map_device(0x0080, 0x01FF, MappedDevice::Ram(Ram::new(0x180))));
    assert!(!bus.map_device(0x0100, 0x00FF, MappedDevice::Ram(Ram::new(1))));
    assert!(bus.map_device(0x0100, 0x01FF, MappedDevice::Ram(Ram::new(0x100))));
    bus.write(0x0080, 0x11);
    assert_eq!(bus.read(0x0080), 0x11);
}

#[test]
fn ppu_stub_reads_zero_and_discards_writes() {
    let mut bus = AddressBus::new(0x7E);
    assert!(bus.map_device(0x2000, 0x3FFF, MappedDevice::Ppu(Ppu::new())));
    assert_eq!(bus.read(0x2002), 0x00);
    bus.write(0x2002, 0xFF);
    assert_eq!(bus.read(0x2002), 0x00);
}

#[test]
fn device_capability_contract_is_uniform() {
    let ram = Ram::new(4);
    let mut ppu = Ppu::new();
    assert_eq!(ram.device_read(0), 0);
    ppu.device_write(7, 3);
    assert_eq!(ppu.device_read(7), 0);
    let mut dev = MappedDevice::Ram(Ram::new(4));
    dev.device_write(1, 9);
    assert_eq!(dev.device_read(1), 9);
}
