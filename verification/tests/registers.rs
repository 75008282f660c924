use nes_cpu::registers::{Flag, Registers};

#[test]
fn new_registers_are_zero() {
    let r = Registers::new();
    assert_eq!(r, Registers { a: 0, x: 0, y: 0, pc: 0, sp: 0, sr: 0 });
    for f in [Flag::N, Flag::V, Flag::B, Flag::D, Flag::I, Flag::Z, Flag::C] {
        assert!(!r.get_flag(f));
    }
}

#[test]
fn mask_table() {
    assert_eq!(Flag::N.mask(), 0x80);
    assert_eq!(Flag::V.mask(), 0x40);
    assert_eq!(Flag::B.mask(), 0x10);
    assert_eq!(Flag::D.mask(), 0x08);
    assert_eq!(Flag::I.mask(), 0x04);
    assert_eq!(Flag::Z.mask(), 0x02);
    assert_eq!(Flag::C.mask(), 0x01);
}

#[test]
fn set_flag_sets_one_bit() {
    let expected: [(Flag, u8); 7] = [
        (Flag::N, 0x80),
        (Flag::V, 0x40),
        (Flag::B, 0x10),
        (Flag::D, 0x08),
        (Flag::I, 0x04),
        (Flag::Z, 0x02),
        (Flag::C, 0x01),
    ];
    for (f, bit) in expected {
        let mut r = Registers::new();
        r.set_flag(f, true);
        assert_eq!(r.sr, bit);
        assert!(r.get_flag(f));
        r.set_flag(f, false);
        assert_eq!(r.sr, 0);
        assert!(!r.get_flag(f));
    }
}

#[test]
fn set_flag_clears_one_bit() {
    let mut r = Registers::new();
    r.sr = 0xFF;
    r.set_flag(Flag::B, false);
    assert_eq!(r.sr, 0xEF);
    r.set_flag(Flag::C, false);
    assert_eq!(r.sr, 0xEE);
    r.set_flag(Flag::N, false);
    assert_eq!(r.sr, 0x6E);
    r.set_flag(Flag::N, false);
    assert_eq!(r.sr, 0x6E);
}

#[test]
fn set_flag_keeps_other_flags() {
    let all: [Flag; 7] = [Flag::N, Flag::V, Flag::B, Flag::D, Flag::I, Flag::Z, Flag::C];
    for f in all {
        for before in [0x00u8, 0xFF, 0xA5, 0x5A] {
            for b in [false, true] {
                let mut r = Registers::new();
                r.sr = before;
                let old = r;
                r.set_flag(f, b);
                assert_eq!(r.get_flag(f), b);
                for g in all {
                    if g != f {
                        assert_eq!(r.get_flag(g), old.get_flag(g));
                    }
                }
            }
        }
    }
}

#[test]
fn set_flag_keeps_other_registers() {
    let mut r = Registers { a: 1, x: 2, y: 3, pc: 0x1234, sp: 0xFD, sr: 0 };
    r.set_flag(Flag::I, true);
    assert_eq!(r, Registers { a: 1, x: 2, y: 3, pc: 0x1234, sp: 0xFD, sr: 0x04 });
}

#[test]
fn unused_status_bit_is_plain_storage() {
    let mut r = Registers::new();
    assert_eq!(r.sr & 0x20, 0);
    for f in [Flag::N, Flag::V, Flag::B, Flag::D, Flag::I, Flag::Z, Flag::C] {
        r.set_flag(f, true);
    }
    assert_eq!(r.sr, 0xDF);
    r.sr = 0x20;
    for f in [Flag::N, Flag::V, Flag::B, Flag::D, Flag::I, Flag::Z, Flag::C] {
        r.set_flag(f, true);
        r.set_flag(f, false);
    }
    assert_eq!(r.sr, 0x20);
}

#[test]
fn result_flags_for_zero() {
    let mut r = Registers::new();
    r.sr = 0x80;
    r.set_result_flags(0x00);
    assert_eq!(r.sr, 0x02);
    assert!(r.get_flag(Flag::Z));
    assert!(!r.get_flag(Flag::N));
}

#[test]
fn result_flags_for_negative() {
    let mut r = Registers::new();
    r.sr = 0x02;
    r.set_result_flags(0x80);
    assert_eq!(r.sr, 0x80);
    r.set_result_flags(0xFF);
    assert_eq!(r.sr, 0x80);
}

#[test]
fn result_flags_for_positive() {
    let mut r = Registers::new();
    r.sr = 0xFF;
    r.set_result_flags(0x01);
    assert_eq!(r.sr, 0x7D);
    r.set_result_flags(0x7F);
    assert_eq!(r.sr, 0x7D);
}

#[test]
fn result_flags_for_every_byte() {
    let mut value: u32 = 0;
    while value <= 0xFF {
        for before in [0x00u8, 0xFF, 0x21, 0x5C] {
            let mut r = Registers { a: 9, x: 8, y: 7, pc: 0x4321, sp: 6, sr: before };
            r.set_result_flags(value as u8);
            assert_eq!(r.get_flag(Flag::Z), value == 0);
            assert_eq!(r.get_flag(Flag::N), value >= 0x80);
            assert_eq!(r.sr & 0x7D, before & 0x7D);
            assert_eq!((r.a, r.x, r.y, r.pc, r.sp), (9, 8, 7, 0x4321, 6));
        }
        value += 1;
    }
}
