use nes_emu::bus::{Bus, CpuBusDevice};
use nes_emu::controller::{Controller, BUTTON_A, BUTTON_START};
use nes_emu::logger::Logger;
use nes_emu::ram::Ram;

#[test]
fn bus_devices() {
    let mut b = Bus::new();
    b.connect(CpuBusDevice::Ram);

    b.cpu_write(25, 16);

    assert_eq!(b.ram.bytes[5], 0);
    assert_eq!(b.ram.bytes[25], 16);

    assert_eq!(b.cpu_read(25), 16);
    assert_eq!(b.cpu_read(24), 0);
    assert_eq!(b.cpu_read(5), 0);
}

#[test]
fn ram_is_mirrored_every_2k() {
    let mut b = Bus::new();
    b.connect(CpuBusDevice::Ram);
    b.cpu_write(0x0801, 7);
    assert_eq!(b.cpu_read(0x0001), 7);
    assert_eq!(b.cpu_read(0x1801), 7);
    assert_eq!(b.cpu_read(0x1FFF), b.cpu_read(0x07FF));
    let mut r = Ram::new();
    r.cpu_write(0x1234, 9);
    assert_eq!(r.bytes[0x0234], 9);
}

#[test]
fn unmapped_reads_are_zero_and_writes_dropped() {
    let mut b = Bus::new();
    b.cpu_write(0x0010, 5);
    assert_eq!(b.cpu_read(0x0010), 0);
    assert_eq!(b.ram.bytes[0x10], 0);
}

#[test]
fn first_matching_connection_wins() {
    let mut b = Bus::new();
    b.connect(CpuBusDevice::Ram);
    b.connect(CpuBusDevice::Ram);
    b.cpu_write(3, 4);
    assert_eq!(b.cpu_read(3), 4);
    assert_eq!(b.connections.len(), 2);
}

#[test]
fn controller_shifts_out_buttons() {
    let mut b = Bus::new();
    b.connect(CpuBusDevice::Controller0);
    b.connect(CpuBusDevice::Controller1);
    b.controller0.input = BUTTON_A | BUTTON_START;
    b.cpu_write(0x4016, 1);
    let bits: Vec<u8> = (0..8).map(|_| b.cpu_read(0x4016)).collect();
    assert_eq!(bits, vec![1, 0, 0, 1, 0, 0, 0, 0]);
    assert_eq!(b.cpu_read(0x4017), 0);
    let mut c = Controller::new(1);
    assert_eq!(c.addr_range(), (0x4017, 0x4017));
    c.input = 0x81;
    c.cpu_write(0x4017, 0);
    assert_eq!(c.cpu_read(0x4017), 1);
    assert_eq!(c.state, 0x02);
}

#[test]
fn logger_captures_writes() {
    let mut b = Bus::new();
    b.connect(CpuBusDevice::Logger);
    b.cpu_write(0x6004, 0x41);
    b.cpu_write(0x6FFF, 0x42);
    assert_eq!(b.logger.bytes[4], 0x41);
    assert_eq!(b.logger.bytes[0xFFF], 0x42);
    assert_eq!(b.cpu_read(0x6004), 0);
    let mut l = Logger::new();
    l.cpu_write(0x7000, 1);
    assert!(l.bytes.iter().all(|&x| x == 0));
}

#[test]
fn dma_register_starts_transfer() {
    let mut b = Bus::new();
    b.connect(CpuBusDevice::Dma);
    b.cpu_write(0x4014, 0x02);
    assert!(b.dma.transfer);
    assert_eq!(b.dma.page, 0x02);
    assert_eq!(b.dma.addr, 0);
}
