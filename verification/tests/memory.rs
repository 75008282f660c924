use nes_cpu::memory::{Cell, Memory, Region};

#[test]
fn new_memory_reads_zero_everywhere() {
    let m = Memory::new();
    let mut address: u32 = 0;
    while address <= 0xFFFF {
        assert_eq!(m.read(address as u16), 0);
        address += 1;
    }
}

#[test]
fn locate_routes_ram_modulo_two_kib() {
    assert_eq!(Memory::locate(0x0000), Cell { region: Region::Ram, offset: 0 });
    assert_eq!(Memory::locate(0x07FF), Cell { region: Region::Ram, offset: 0x07FF });
    assert_eq!(Memory::locate(0x0800), Cell { region: Region::Ram, offset: 0 });
    assert_eq!(Memory::locate(0x1234), Cell { region: Region::Ram, offset: 0x0234 });
    assert_eq!(Memory::locate(0x1FFF), Cell { region: Region::Ram, offset: 0x07FF });
}

#[test]
fn locate_routes_picture_registers_modulo_eight() {
    assert_eq!(Memory::locate(0x2000), Cell { region: Region::PpuRegs, offset: 0 });
    assert_eq!(Memory::locate(0x2007), Cell { region: Region::PpuRegs, offset: 7 });
    assert_eq!(Memory::locate(0x2008), Cell { region: Region::PpuRegs, offset: 0 });
    assert_eq!(Memory::locate(0x2ABC), Cell { region: Region::PpuRegs, offset: 4 });
    assert_eq!(Memory::locate(0x3FFF), Cell { region: Region::PpuRegs, offset: 7 });
}

#[test]
fn locate_routes_unmirrored_regions_by_distance() {
    assert_eq!(Memory::locate(0x4000), Cell { region: Region::ApuIoRegs, offset: 0 });
    assert_eq!(Memory::locate(0x4017), Cell { region: Region::ApuIoRegs, offset: 0x17 });
    assert_eq!(Memory::locate(0x4018), Cell { region: Region::ApuIoFunc, offset: 0 });
    assert_eq!(Memory::locate(0x401F), Cell { region: Region::ApuIoFunc, offset: 7 });
    assert_eq!(Memory::locate(0x4020), Cell { region: Region::Cartridge, offset: 0 });
    assert_eq!(Memory::locate(0x8000), Cell { region: Region::Cartridge, offset: 0x3FE0 });
    assert_eq!(Memory::locate(0xFFFF), Cell { region: Region::Cartridge, offset: 0xBFDF });
}

#[test]
fn read_after_write_at_every_address() {
    let mut m = Memory::new();
    let mut address: u32 = 0;
    while address <= 0xFFFF {
        let data: u8 = ((address * 7 + 3) % 251) as u8 + 1;
        m.write(address as u16, data);
        assert_eq!(m.read(address as u16), data);
        address += 1;
    }
}

#[test]
fn write_reaches_the_backing_store() {
    let mut m = Memory::new();
    m.write(0x0803, 0x11);
    m.write(0x200A, 0x22);
    m.write(0x4005, 0x33);
    m.write(0x401A, 0x44);
    m.write(0x4021, 0x55);
    assert_eq!(m.ram[3], 0x11);
    assert_eq!(m.ppu_regs[2], 0x22);
    assert_eq!(m.apu_io_regs[5], 0x33);
    assert_eq!(m.apu_io_func[2], 0x44);
    assert_eq!(m.cartridge_use[1], 0x55);
}

#[test]
fn ram_write_is_seen_through_all_four_mirrors() {
    let mut m = Memory::new();
    m.write(0x0001, 0x77);
    assert_eq!(m.read(0x0001), 0x77);
    assert_eq!(m.read(0x0801), 0x77);
    assert_eq!(m.read(0x1001), 0x77);
    assert_eq!(m.read(0x1801), 0x77);
    m.write(0x1FFF, 0x42);
    assert_eq!(m.read(0x07FF), 0x42);
    assert_eq!(m.read(0x0FFF), 0x42);
    assert_eq!(m.read(0x17FF), 0x42);
    assert_eq!(m.read(0x1FFF), 0x42);
}

#[test]
fn picture_register_write_is_seen_every_eight_bytes() {
    let mut m = Memory::new();
    m.write(0x2001, 0x5A);
    let mut address: u32 = 0x2001;
    while address < 0x4000 {
        assert_eq!(m.read(address as u16), 0x5A);
        address += 8;
    }
    m.write(0x3FFF, 0xA5);
    assert_eq!(m.read(0x2007), 0xA5);
    assert_eq!(m.read(0x200F), 0xA5);
}

#[test]
fn write_changes_no_other_cell() {
    let mut m = Memory::new();
    m.write(0x0001, 0x77);
    assert_eq!(m.read(0x0000), 0);
    assert_eq!(m.read(0x0002), 0);
    assert_eq!(m.read(0x0800), 0);
    assert_eq!(m.read(0x2001), 0);
    m.write(0x2003, 0x66);
    assert_eq!(m.read(0x2002), 0);
    assert_eq!(m.read(0x2004), 0);
    assert_eq!(m.read(0x0003), 0);
    assert_eq!(m.read(0x4003), 0);
    let mut address: u32 = 0;
    let mut changed: u32 = 0;
    while address <= 0xFFFF {
        if m.read(address as u16) != 0 {
            changed += 1;
        }
        address += 1;
    }
    assert_eq!(changed, 4 + 1024);
}

#[test]
fn unmirrored_regions_do_not_alias() {
    let mut m = Memory::new();
    m.write(0x4000, 1);
    m.write(0x4017, 2);
    m.write(0x4018, 3);
    m.write(0x401F, 4);
    m.write(0x4020, 5);
    m.write(0xFFFF, 6);
    assert_eq!(m.read(0x4000), 1);
    assert_eq!(m.read(0x4017), 2);
    assert_eq!(m.read(0x4018), 3);
    assert_eq!(m.read(0x401F), 4);
    assert_eq!(m.read(0x4020), 5);
    assert_eq!(m.read(0xFFFF), 6);
    assert_eq!(m.read(0x4008), 0);
    assert_eq!(m.read(0x4028), 0);
}

#[test]
fn window_boundaries_keep_apart() {
    let mut m = Memory::new();
    m.write(0x1FFF, 0x10);
    m.write(0x2000, 0x20);
    m.write(0x3FFF, 0x30);
    m.write(0x4000, 0x40);
    assert_eq!(m.read(0x1FFF), 0x10);
    assert_eq!(m.read(0x2000), 0x20);
    assert_eq!(m.read(0x3FFF), 0x30);
    assert_eq!(m.read(0x4000), 0x40);
}

#[test]
fn read_word_is_low_byte_first() {
    let mut m = Memory::new();
    m.write(0x1234, 0x34);
    m.write(0x1235, 0x12);
    assert_eq!(m.readWord(0x1234), 0x1234);
    m.write(0x8000, 0xCD);
    m.write(0x8001, 0xAB);
    assert_eq!(m.readWord(0x8000), 0xABCD);
}

#[test]
fn read_word_leaves_memory_unchanged() {
    let mut m = Memory::new();
    m.write(0x0010, 0x01);
    m.write(0x0011, 0x02);
    assert_eq!(m.readWord(0x0010), 0x0201);
    assert_eq!(m.read(0x0010), 0x01);
    assert_eq!(m.read(0x0011), 0x02);
    assert_eq!(m.readWord(0x0010), 0x0201);
}

#[test]
fn read_word_at_last_address_wraps_to_first() {
    let mut m = Memory::new();
    m.write(0xFFFF, 0x34);
    m.write(0x0000, 0x12);
    assert_eq!(m.readWord(0xFFFF), 0x1234);
}

#[test]
fn read_word_across_window_boundary() {
    let mut m = Memory::new();
    m.write(0x1FFF, 0xEF);
    m.write(0x2000, 0xBE);
    assert_eq!(m.readWord(0x1FFF), 0xBEEF);
    assert_eq!(m.readWord(0x07FF), 0x00EF);
}
