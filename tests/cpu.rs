use minicpu::{BusMode, CheapoMemory, Cpu, CpuState, Flag, Memory, DATA_WIDTH};

#[test]
fn test_get_set_flag() {
    let mut cpu = CpuState::new();

    assert_eq!(cpu.get_flag(Flag::ZRO), false);
    cpu.set_flag(Flag::ZRO, true);
    assert_eq!(cpu.get_flag(Flag::ZRO), true);
    cpu.set_flag(Flag::ZRO, false);
    assert_eq!(cpu.get_flag(Flag::ZRO), false);
}

#[test]
fn test_get_set_flag_ignores_other_flags() {
    let mut cpu = CpuState::new();

    assert_eq!(cpu.get_flag(Flag::ZRO), false);
    cpu.set_flag(Flag::NEG, true);
    assert_eq!(cpu.get_flag(Flag::ZRO), false);
    cpu.set_flag(Flag::ZRO, false);
    assert_eq!(cpu.get_flag(Flag::NEG), true);
}

#[test]
fn test_set_a_sets_a() {
    let mut cpu = CpuState::new();

    cpu.set_a(42);

    assert_eq!(cpu.a, 42);
}

#[test]
fn test_set_a_sets_zro() {
    let mut cpu = CpuState::new();

    cpu.set_a(0);

    assert_eq!(cpu.get_flag(Flag::ZRO), true);

    cpu.set_a(42);

    assert_eq!(cpu.get_flag(Flag::ZRO), false);
}

#[test]
fn test_set_a_sets_neg() {
    let mut cpu = CpuState::new();

    cpu.set_a(1 << DATA_WIDTH - 1);

    assert_eq!(cpu.get_flag(Flag::NEG), true);

    cpu.set_a(0);

    assert_eq!(cpu.get_flag(Flag::NEG), false);
}

#[test]
fn test_cheapo_memory_readwrite() {
    let mut m = CheapoMemory::new();

    assert_eq!(m.read(&0), None);

    m.write(0, 42);

    assert_eq!(m.read(&0).unwrap(), 42);

    m.write(0, 43);

    assert_eq!(m.read(&0).unwrap(), 43);
}

#[test]
fn flag_masks_are_fixed_bits() {
    assert_eq!(Flag::ZRO.to_mask(), 0b0000_0010);
    assert_eq!(Flag::NEG.to_mask(), 0b1000_0000);
}

#[test]
fn fresh_state_is_all_zero() {
    let s = CpuState::new();
    assert_eq!((s.pc, s.sp, s.a, s.ir, s.mar, s.mdr), (0, 0, 0, 0, 0, 0));
    assert!(!s.get_flag(Flag::ZRO));
    assert!(!s.get_flag(Flag::NEG));
}

#[test]
fn setting_one_flag_repeatedly_keeps_the_other() {
    let mut s = CpuState::new();
    s.set_flag(Flag::NEG, true);
    for v in [true, false, true, true, false] {
        s.set_flag(Flag::ZRO, v);
        assert!(s.get_flag(Flag::NEG));
        assert_eq!(s.get_flag(Flag::ZRO), v);
    }
    s.set_flag(Flag::NEG, false);
    for v in [false, true] {
        s.set_flag(Flag::ZRO, v);
        assert!(!s.get_flag(Flag::NEG));
    }
}

#[test]
fn flag_round_trip_both_values() {
    let mut s = CpuState::new();
    for f in [Flag::ZRO, Flag::NEG] {
        s.set_flag(f, true);
        assert!(s.get_flag(f));
        s.set_flag(f, true);
        assert!(s.get_flag(f));
        s.set_flag(f, false);
        assert!(!s.get_flag(f));
    }
}

#[test]
fn set_a_couples_flags_for_every_byte() {
    let mut s = CpuState::new();
    for x in 0..=255u8 {
        s.set_a(x);
        assert_eq!(s.a, x);
        assert_eq!(s.get_flag(Flag::ZRO), x == 0);
        assert_eq!(s.get_flag(Flag::NEG), (x & 0x80) != 0);
    }
}

#[test]
fn set_a_leaves_other_registers() {
    let mut s = CpuState::new();
    s.pc = 0x1234;
    s.sp = 0x01FF;
    s.ir = 7;
    s.mar = 0xBEEF;
    s.mdr = 9;
    s.set_a(200);
    assert_eq!((s.pc, s.sp, s.ir, s.mar, s.mdr), (0x1234, 0x01FF, 7, 0xBEEF, 9));
    assert!(s.get_flag(Flag::NEG));
    assert!(!s.get_flag(Flag::ZRO));
}

#[test]
fn flags_follow_accumulator_loads() {
    let mut s = CpuState::new();
    s.set_a(0);
    assert_eq!((s.get_flag(Flag::ZRO), s.get_flag(Flag::NEG)), (true, false));
    s.set_a(128);
    assert_eq!((s.get_flag(Flag::ZRO), s.get_flag(Flag::NEG)), (false, true));
    s.set_a(0);
    assert_eq!((s.get_flag(Flag::ZRO), s.get_flag(Flag::NEG)), (true, false));
}

#[test]
fn fresh_memory_reads_unset_everywhere() {
    let m = CheapoMemory::new();
    for addr in [0u16, 1, 0xFF, 0x8000, 0xFFFF] {
        assert_eq!(m.read(&addr), None);
    }
}

#[test]
fn memory_stored_zero_differs_from_unset() {
    let mut m = CheapoMemory::new();
    m.write(0xFFFF, 0);
    assert_eq!(m.read(&0xFFFF), Some(0));
    assert_eq!(m.read(&0xFFFE), None);
}

#[test]
fn memory_write_keeps_other_addresses() {
    let mut m = CheapoMemory::new();
    m.write(10, 1);
    m.write(11, 2);
    m.write(10, 3);
    assert_eq!(m.read(&10), Some(3));
    assert_eq!(m.read(&11), Some(2));
}

#[test]
fn new_cpu_mirrors_registers_on_bus() {
    let cpu = Cpu::new();
    assert_eq!(cpu.addr_bus, 0);
    assert_eq!(cpu.data_bus, 0);
    assert_eq!(cpu.rwb, BusMode::READ);
    assert_eq!(cpu.state.a, 0);
}

#[test]
fn setup_cycle_asserts_write_transaction() {
    let mut cpu = Cpu::new();
    cpu.setup_cycle();
    assert_eq!(cpu.addr_bus, 0xFF);
    assert_eq!(cpu.data_bus, 42);
    assert_eq!(cpu.rwb, BusMode::WRITE);
    assert_eq!(cpu.state.a, 0);
}

#[test]
fn full_write_cycle_loads_accumulator_and_memory() {
    let mut cpu = Cpu::new();
    let mut mem = CheapoMemory::new();
    cpu.setup_cycle();
    assert_eq!(cpu.service_bus(&mut mem), Ok(()));
    cpu.complete_cycle();
    assert_eq!(cpu.state.a, 42);
    assert!(!cpu.state.get_flag(Flag::ZRO));
    assert!(!cpu.state.get_flag(Flag::NEG));
    assert_eq!(mem.read(&0xFF), Some(42));
}

#[test]
fn read_cycle_loads_stored_byte() {
    let mut cpu = Cpu::new();
    let mut mem = CheapoMemory::new();
    mem.write(0x0100, 0x90);
    cpu.addr_bus = 0x0100;
    cpu.rwb = BusMode::READ;
    assert_eq!(cpu.service_bus(&mut mem), Ok(()));
    assert_eq!(cpu.data_bus, 0x90);
    cpu.complete_cycle();
    assert_eq!(cpu.state.a, 0x90);
    assert!(cpu.state.get_flag(Flag::NEG));
    assert!(!cpu.state.get_flag(Flag::ZRO));
}

#[test]
fn read_cycle_of_unset_address_is_refused() {
    let mut cpu = Cpu::new();
    let mut mem = CheapoMemory::new();
    cpu.addr_bus = 0x0200;
    cpu.data_bus = 5;
    cpu.rwb = BusMode::READ;
    assert_eq!(cpu.service_bus(&mut mem), Err(0x0200));
    assert_eq!(cpu.data_bus, 5);
    assert_eq!(mem.read(&0x0200), None);
}

#[test]
fn complete_cycle_of_zero_sets_zero_flag() {
    let mut cpu = Cpu::new();
    cpu.data_bus = 0;
    cpu.complete_cycle();
    assert_eq!(cpu.state.a, 0);
    assert!(cpu.state.get_flag(Flag::ZRO));
    assert!(!cpu.state.get_flag(Flag::NEG));
}
