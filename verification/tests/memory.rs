use nes_core::memory::Memory;

#[test]
fn memory_read8() {
    let mut mem = Memory::new();
    mem.write8(0x100, 42);
    assert_eq!(42, mem.read8(0x100))
}

#[test]
fn memory_read8_mirror() {
    let mut mem = Memory::new();
    mem.write8(0x100, 42);

    assert_eq!(42, mem.read8(0x100));
    assert_eq!(42, mem.read8(0x100 + 0x800));
    assert_eq!(42, mem.read8(0x100 + 0x1000));
    assert_eq!(42, mem.read8(0x100 + 0x1800));
}

#[test]
fn memory_read8_ppu_mirror() {
    let mut mem = Memory::new();
    mem.write8(0x2002, 42);

    let mut addr = 0x2002;
    while addr < 0x4000 {
        assert_eq!(42, mem.read8(addr));
        addr += 8;
    }
}

#[test]
fn memory_read16() {
    let mut mem = Memory::new();
    mem.write16(0x400, 0x1234);

    assert_eq!(0x1234, mem.read16(0x400))
}

#[test]
fn memory_write16() {
    let mut mem = Memory::new();
    mem.write16(0x400, 0x1234);

    assert_eq!(0x34, mem.read8(0x400));
    assert_eq!(0x12, mem.read8(0x401))
}

#[test]
fn memory_read_string() {
    let mut mem = Memory::new();
    mem.write_buffer(0x200, b"Hello world!");

    let bytes = mem.read_str(0x200).unwrap();
    assert_eq!("Hello world!", String::from_utf8(bytes).unwrap())
}

#[test]
fn memory_write_buffer() {
    let mut mem = Memory::new();
    mem.write_buffer(0x600, &vec![0x01, 0x02, 0x03]);

    let mut out = vec![0; 3];
    mem.read_buffer(0x600, &mut out);
    assert_eq!(vec![0x01, 0x02, 0x03], out);

    mem.read_buffer(0x600 + 0x800, &mut out);
    assert_eq!(vec![0x01, 0x02, 0x03], out);

    mem.read_buffer(0x600 + 0x1000, &mut out);
    assert_eq!(vec![0x01, 0x02, 0x03], out);

    mem.read_buffer(0x600 + 0x1800, &mut out);
    assert_eq!(vec![0x01, 0x02, 0x03], out);
}

#[test]
fn memory_from_buffer_pads_with_zeroes() {
    let mem = Memory::from_buffer(vec![9, 8, 7]);

    assert_eq!(9, mem.read8(0));
    assert_eq!(8, mem.read8(1));
    assert_eq!(7, mem.read8(2));
    assert_eq!(0, mem.read8(3));
    assert_eq!(0, mem.read8(0x7000));
}

#[test]
fn memory_ppu_mirror_reaches_backwards() {
    let mut mem = Memory::new();
    mem.write8(0x3FFD, 42);

    assert_eq!(42, mem.read8(0x2005));
    assert_eq!(42, mem.read8(0x3FFD));
    assert_eq!(0, mem.read8(0x2006));
}

#[test]
fn memory_write16_wraps_at_top() {
    let mut mem = Memory::new();
    mem.write16(0xFFFF, 0x1234);

    assert_eq!(0x34, mem.read8(0xFFFF));
    assert_eq!(0x12, mem.read8(0x0000));
    assert_eq!(0x1234, mem.read16(0xFFFF));
}

#[test]
fn memory_read_str_no_terminator() {
    let mem = Memory::from_buffer(vec![1u8; 0x10000]);

    assert!(mem.read_str(0xFF00).is_none());
}

#[test]
fn memory_read_str_stops_at_first_zero() {
    let mut mem = Memory::new();
    mem.write_buffer(0x5000, &[5, 6, 0, 7]);

    assert_eq!(vec![5, 6], mem.read_str(0x5000).unwrap());
}
