use nes_core::bus::Bus;

#[test]
fn bus_read8() {
    let mut mem = Bus::new();
    mem.write8(0x100, 42);
    assert_eq!(42, mem.read8(0x100))
}

#[test]
fn bus_read8_mirror() {
    let mut mem = Bus::new();
    mem.write8(0x100, 42);

    assert_eq!(42, mem.read8(0x100));
    assert_eq!(42, mem.read8(0x100 + 0x800));
    assert_eq!(42, mem.read8(0x100 + 0x1000));
    assert_eq!(42, mem.read8(0x100 + 0x1800));
}

#[test]
fn bus_read8_ppu_mirror() {
    let mut mem = Bus::new();
    mem.write8(0x2002, 42);

    let mut addr = 0x2002;
    while addr < 0x4000 {
        assert_eq!(42, mem.read8(addr));
        addr += 8;
    }
}

#[test]
fn bus_read16() {
    let mut mem = Bus::new();
    mem.write16(0x400, 0x1234);

    assert_eq!(0x1234, mem.read16(0x400))
}

#[test]
fn bus_write16() {
    let mut mem = Bus::new();
    mem.write16(0x400, 0x1234);

    assert_eq!(0x34, mem.read8(0x400));
    assert_eq!(0x12, mem.read8(0x401))
}

#[test]
fn bus_read_string() {
    let mut mem = Bus::new();
    mem.write_buffer(0x200, b"Hello world!");

    let bytes = mem.read_str(0x200).unwrap();
    assert_eq!("Hello world!", String::from_utf8(bytes).unwrap())
}

#[test]
fn bus_write_buffer() {
    let mut mem = Bus::new();
    mem.write_buffer(0x600, &vec![0x01, 0x02, 0x03]);

    let mut out = vec![0; 3];
    mem.read_buffer(0x600, &mut out);
    assert_eq!(vec![0x01, 0x02, 0x03], out);

    mem.read_buffer(0x600 + 0x800, &mut out);
    assert_eq!(vec![0x01, 0x02, 0x03], out);

    mem.read_buffer(0x600 + 0x1000, &mut out);
    assert_eq!(vec![0x01, 0x02, 0x03], out);

    mem.read_buffer(0x600 + 0x1800, &mut out);
    assert_eq!(vec![0x01, 0x02, 0x03], out);
}

#[test]
fn bus_apu_region_is_flat() {
    let mut mem = Bus::new();
    mem.write8(0x4000, 7);
    mem.write8(0x4017, 9);

    assert_eq!(7, mem.read8(0x4000));
    assert_eq!(9, mem.read8(0x4017));
    assert_eq!(0, mem.read8(0x4008));
}

#[test]
fn bus_ppu_mirror_reaches_backwards() {
    let mut mem = Bus::new();
    mem.write8(0x3FFD, 42);

    assert_eq!(42, mem.read8(0x2005));
}

#[test]
fn bus_read_str_no_terminator() {
    let mut mem = Bus::new();
    let ones = vec![1u8; 0x4018];
    mem.write_buffer(0, &ones);

    assert!(mem.read_str(0x200).is_none());
}

#[test]
fn bus_read_str_stops_at_first_zero() {
    let mut mem = Bus::new();
    mem.write_buffer(0x300, &[5, 6, 0, 7]);

    assert_eq!(vec![5, 6], mem.read_str(0x300).unwrap());
}
