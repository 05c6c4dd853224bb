use component_sharp_lr35902::cpu::Cpu;
use component_sharp_lr35902::registers::{Flag, Reg16, Reg8};

fn assert_cpu_execute(
    cpu: &mut Cpu,
    instruction_bytes: &[u8],
    reg8: &[(Reg8, u8)],
    reg16: &[(Reg16, u16)],
    flags: &[(Flag, bool)],
    mem: Option<(u16, Vec<u8>)>,
    cycles_spent: u8,
) {
    let actual_cycles_spent = cpu.execute(instruction_bytes);

    for (register, value) in reg8 {
        assert_eq!(
            cpu.reg8(*register), *value,
            "Unexpected `{:?}`: actual=0x{:02X}, expected=0x{:02X}",
            register, cpu.reg8(*register), *value
        );
    }

    for (register, value) in reg16 {
        assert_eq!(
            cpu.reg16(*register), *value,
            "Unexpected `{:?}`: actual=0x{:04X}, expected=0x{:04X}",
            register, cpu.reg16(*register), *value
        );
    }

    for (flag, value) in flags {
        assert_eq!(
            cpu.get_flag(*flag), *value,
            "Unexpected `{:?}`: actual={}, expected={}",
            flag, cpu.get_flag(*flag), *value
        );
    }

    if let Some((start_address, expected_values)) = mem {
        for i in 0..expected_values.len() {
            let address = start_address as usize + i;
            assert_eq!(
                cpu.internal_ram[address], expected_values[i],
                "Unexpected mem[0x{:04X}]: actual=0x{:02X}, expected=0x{:02X}",
                address, cpu.internal_ram[address], expected_values[i],
            );
        }
    }

    assert_eq!(actual_cycles_spent, cycles_spent);
}

#[test]
fn sbc_a_hl_9e_with_flag_c_modified() {
    let mut cpu = Cpu::new();
    let instruction_bytes = [0x9E];
    cpu.set_reg16(Reg16::PC, 0x21);
    cpu.set_reg8(Reg8::A, 0x20);
    cpu.set_reg16(Reg16::HL, 0xCAFE);
    cpu.internal_ram[0xCAFE] = 0xF0;
    assert_cpu_execute(
        &mut cpu,
        &instruction_bytes,
        &[(Reg8::A, 0x30)],
        &[(Reg16::PC, 0x22)],
        &[(Flag::c, true)],
        None,
        8,
    );
}

#[test]
fn sbc_a_n_de_without_conditional_flag_modifications() {
    let mut cpu = Cpu::new();
    let instruction_bytes = [0xDE, 0x21];
    cpu.set_reg16(Reg16::PC, 0x21);
    cpu.set_reg8(Reg8::A, 0x30);
    cpu.set_flag(Flag::n, false);
    assert_cpu_execute(
        &mut cpu,
        &instruction_bytes,
        &[(Reg8::A, 0x0F)],
        &[(Reg16::PC, 0x23)],
        &[(Flag::n, true)],
        None,
        8,
    );
}

#[test]
fn sbc_a_n_de_without_conditional_flag_modifications_carry_set() {
    let mut cpu = Cpu::new();
    let instruction_bytes = [0xDE, 0x21];
    cpu.set_reg16(Reg16::PC, 0x21);
    cpu.set_reg8(Reg8::A, 0x30);
    cpu.set_flag(Flag::c, true);
    cpu.set_flag(Flag::n, false);
    assert_cpu_execute(
        &mut cpu,
        &instruction_bytes,
        &[(Reg8::A, 0x0E)],
        &[(Reg16::PC, 0x23)],
        &[(Flag::n, true)],
        None,
        8,
    );
}

#[test]
fn sbc_a_n_de_with_flag_z_modified() {
    let mut cpu = Cpu::new();
    let instruction_bytes = [0xDE, 0x00];
    cpu.set_reg16(Reg16::PC, 0x21);
    assert_cpu_execute(
        &mut cpu,
        &instruction_bytes,
        &[(Reg8::A, 0x00)],
        &[(Reg16::PC, 0x23)],
        &[(Flag::z, true)],
        None,
        8,
    );
}

#[test]
fn sbc_a_n_de_with_flag_h_modified() {
    let mut cpu = Cpu::new();
    let instruction_bytes = [0xDE, 0x01];
    cpu.set_reg16(Reg16::PC, 0x21);
    cpu.set_reg8(Reg8::A, 0x20);
    assert_cpu_execute(
        &mut cpu,
        &instruction_bytes,
        &[(Reg8::A, 0x1F)],
        &[(Reg16::PC, 0x23)],
        &[(Flag::h, true)],
        None,
        8,
    );
}

#[test]
fn sbc_a_n_de_with_flag_c_modified() {
    let mut cpu = Cpu::new();
    let instruction_bytes = [0xDE, 0xF0];
    cpu.set_reg16(Reg16::PC, 0x21);
    cpu.set_reg8(Reg8::A, 0x20);
    assert_cpu_execute(
        &mut cpu,
        &instruction_bytes,
        &[(Reg8::A, 0x30)],
        &[(Reg16::PC, 0x23)],
        &[(Flag::c, true)],
        None,
        8,
    );
}

#[test]
fn and_a_r_a7_a_without_conditional_flag_modifications_a() {
    let mut cpu = Cpu::new();
    let instruction_bytes = [0xA7];
    cpu.set_reg16(Reg16::PC, 0x21);
    cpu.set_reg8(Reg8::A, 0b1010_1001);
    cpu.set_flag(Flag::n, true);
    cpu.set_flag(Flag::h, false);
    cpu.set_flag(Flag::c, true);
    assert_cpu_execute(
        &mut cpu,
        &instruction_bytes,
        &[(Reg8::A, 0b1010_1001)],
        &[(Reg16::PC, 0x22)],
        &[(Flag::n, false), (Flag::h, true), (Flag::c, false)],
        None,
        4,
    );
}

#[test]
fn and_a_r_a7_a_with_flag_z_modified() {
    let mut cpu = Cpu::new();
    let instruction_bytes = [0xA7];
    cpu.set_reg16(Reg16::PC, 0x21);
    cpu.set_reg8(Reg8::A, 0b0000_0000);
    assert_cpu_execute(
        &mut cpu,
        &instruction_bytes,
        &[(Reg8::A, 0b0000_0000)],
        &[(Reg16::PC, 0x22)],
        &[(Flag::z, true)],
        None,
        4,
    );
}

#[test]
fn and_a_r_a0_b_without_conditional_flag_modifications() {
    let mut cpu = Cpu::new();
    let instruction_bytes = [0xA0];
    cpu.set_reg16(Reg16::PC, 0x21);
    cpu.set_reg8(Reg8::A, 0b1010_1001);
    cpu.set_reg8(Reg8::B, 0b0101_1111);
    cpu.set_flag(Flag::n, true);
    cpu.set_flag(Flag::h, false);
    cpu.set_flag(Flag::c, true);
    assert_cpu_execute(
        &mut cpu,
        &instruction_bytes,
        &[(Reg8::A, 0b0000_1001)],
        &[(Reg16::PC, 0x22)],
        &[(Flag::n, false), (Flag::h, true), (Flag::c, false)],
        None,
        4,
    );
}

#[test]
fn and_a_r_a0_b_with_flag_z_modified() {
    let mut cpu = Cpu::new();
    let instruction_bytes = [0xA0];
    cpu.set_reg16(Reg16::PC, 0x21);
    cpu.set_reg8(Reg8::B, 0b0000_0000);
    assert_cpu_execute(
        &mut cpu,
        &instruction_bytes,
        &[(Reg8::A, 0b0000_0000)],
        &[(Reg16::PC, 0x22)],
        &[(Flag::z, true)],
        None,
        4,
    );
}

#[test]
fn and_a_r_a1_c_without_conditional_flag_modifications() {
    let mut cpu = Cpu::new();
    let instruction_bytes = [0xA1];
    cpu.set_reg16(Reg16::PC, 0x21);
    cpu.set_reg8(Reg8::A, 0b1010_1001);
    cpu.set_reg8(Reg8::C, 0b0101_1111);
    cpu.set_flag(Flag::n, true);
    cpu.set_flag(Flag::h, false);
    cpu.set_flag(Flag::c, true);
    assert_cpu_execute(
        &mut cpu,
        &instruction_bytes,
        &[(Reg8::A, 0b0000_1001)],
        &[(Reg16::PC, 0x22)],
        &[(Flag::n, false), (Flag::h, true), (Flag::c, false)],
        None,
        4,
    );
}

#[test]
fn and_a_r_a1_c_with_flag_z_modified() {
    let mut cpu = Cpu::new();
    let instruction_bytes = [0xA1];
    cpu.set_reg16(Reg16::PC, 0x21);
    cpu.set_reg8(Reg8::C, 0b0000_0000);
    assert_cpu_execute(
        &mut cpu,
        &instruction_bytes,
        &[(Reg8::A, 0b0000_0000)],
        &[(Reg16::PC, 0x22)],
        &[(Flag::z, true)],
        None,
        4,
    );
}

#[test]
fn and_a_r_a2_d_without_conditional_flag_modifications() {
    let mut cpu = Cpu::new();
    let instruction_bytes = [0xA2];
    cpu.set_reg16(Reg16::PC, 0x21);
    cpu.set_reg8(Reg8::A, 0b1010_1001);
    cpu.set_reg8(Reg8::D, 0b0101_1111);
    cpu.set_flag(Flag::n, true);
    cpu.set_flag(Flag::h, false);
    cpu.set_flag(Flag::c, true);
    assert_cpu_execute(
        &mut cpu,
        &instruction_bytes,
        &[(Reg8::A, 0b0000_1001)],
        &[(Reg16::PC, 0x22)],
        &[(Flag::n, false), (Flag::h, true), (Flag::c, false)],
        None,
        4,
    );
}

#[test]
fn and_a_r_a2_d_with_flag_z_modified() {
    let mut cpu = Cpu::new();
    let instruction_bytes = [0xA2];
    cpu.set_reg16(Reg16::PC, 0x21);
    cpu.set_reg8(Reg8::D, 0b0000_0000);
    assert_cpu_execute(
        &mut cpu,
        &instruction_bytes,
        &[(Reg8::A, 0b0000_0000)],
        &[(Reg16::PC, 0x22)],
        &[(Flag::z, true)],
        None,
        4,
    );
}

#[test]
fn and_a_r_a3_e_without_conditional_flag_modifications() {
    let mut cpu = Cpu::new();
    let instruction_bytes = [0xA3];
    cpu.set_reg16(Reg16::PC, 0x21);
    cpu.set_reg8(Reg8::A, 0b1010_1001);
    cpu.set_reg8(Reg8::E, 0b0101_1111);
    cpu.set_flag(Flag::n, true);
    cpu.set_flag(Flag::h, false);
    cpu.set_flag(Flag::c, true);
    assert_cpu_execute(
        &mut cpu,
        &instruction_bytes,
        &[(Reg8::A, 0b0000_1001)],
        &[(Reg16::PC, 0x22)],
        &[(Flag::n, false), (Flag::h, true), (Flag::c, false)],
        None,
        4,
    );
}

#[test]
fn and_a_r_a3_e_with_flag_z_modified() {
    let mut cpu = Cpu::new();
    let instruction_bytes = [0xA3];
    cpu.set_reg16(Reg16::PC, 0x21);
    cpu.set_reg8(Reg8::E, 0b0000_0000);
    assert_cpu_execute(
        &mut cpu,
        &instruction_bytes,
        &[(Reg8::A, 0b0000_0000)],
        &[(Reg16::PC, 0x22)],
        &[(Flag::z, true)],
        None,
        4,
    );
}

#[test]
fn and_a_r_a4_h_without_conditional_flag_modifications() {
    let mut cpu = Cpu::new();
    let instruction_bytes = [0xA4];
    cpu.set_reg16(Reg16::PC, 0x21);
    cpu.set_reg8(Reg8::A, 0b1010_1001);
    cpu.set_reg8(Reg8::H, 0b0101_1111);
    cpu.set_flag(Flag::n, true);
    cpu.set_flag(Flag::h, false);
    cpu.set_flag(Flag::c, true);
    assert_cpu_execute(
        &mut cpu,
        &instruction_bytes,
        &[(Reg8::A, 0b0000_1001)],
        &[(Reg16::PC, 0x22)],
        &[(Flag::n, false), (Flag::h, true), (Flag::c, false)],
        None,
        4,
    );
}

#[test]
fn and_a_r_a4_h_with_flag_z_modified() {
    let mut cpu = Cpu::new();
    let instruction_bytes = [0xA4];
    cpu.set_reg16(Reg16::PC, 0x21);
    cpu.set_reg8(Reg8::H, 0b0000_0000);
    assert_cpu_execute(
        &mut cpu,
        &instruction_bytes,
        &[(Reg8::A, 0b0000_0000)],
        &[(Reg16::PC, 0x22)],
        &[(Flag::z, true)],
        None,
        4,
    );
}

#[test]
fn and_a_r_a5_l_without_conditional_flag_modifications() {
    let mut cpu = Cpu::new();
    let instruction_bytes = [0xA5];
    cpu.set_reg16(Reg16::PC, 0x21);
    cpu.set_reg8(Reg8::A, 0b1010_1001);
    cpu.set_reg8(Reg8::L, 0b0101_1111);
    cpu.set_flag(Flag::n, true);
    cpu.set_flag(Flag::h, false);
    cpu.set_flag(Flag::c, true);
    assert_cpu_execute(
        &mut cpu,
        &instruction_bytes,
        &[(Reg8::A, 0b0000_1001)],
        &[(Reg16::PC, 0x22)],
        &[(Flag::n, false), (Flag::h, true), (Flag::c, false)],
        None,
        4,
    );
}

#[test]
fn and_a_r_a5_l_with_flag_z_modified() {
    let mut cpu = Cpu::new();
    let instruction_bytes = [0xA5];
    cpu.set_reg16(Reg16::PC, 0x21);
    cpu.set_reg8(Reg8::L, 0b0000_0000);
    assert_cpu_execute(
        &mut cpu,
        &instruction_bytes,
        &[(Reg8::A, 0b0000_0000)],
        &[(Reg16::PC, 0x22)],
        &[(Flag::z, true)],
        None,
        4,
    );
}

#[test]
fn and_a_hl_a6_without_conditional_flag_modifications() {
    let mut cpu = Cpu::new();
    let instruction_bytes = [0xA6];
    cpu.set_reg16(Reg16::PC, 0x21);
    cpu.set_reg8(Reg8::A, 0b1010_1001);
    cpu.set_reg16(Reg16::HL, 0xCAFE);
    cpu.internal_ram[0xCAFE] = 0b0101_1111;
    cpu.set_flag(Flag::n, true);
    cpu.set_flag(Flag::h, false);
    cpu.set_flag(Flag::c, true);
    assert_cpu_execute(
        &mut cpu,
        &instruction_bytes,
        &[(Reg8::A, 0b0000_1001)],
        &[(Reg16::PC, 0x22)],
        &[(Flag::n, false), (Flag::h, true), (Flag::c, false)],
        None,
        8,
    );
}

#[test]
fn and_a_hl_a6_with_flag_z_modified() {
    let mut cpu = Cpu::new();
    let instruction_bytes = [0xA6];
    cpu.set_reg16(Reg16::PC, 0x21);
    cpu.set_reg8(Reg8::A, 0b1010_1001);
    cpu.set_reg16(Reg16::HL, 0xCAFE);
    cpu.internal_ram[0xCAFE] = 0b0101_0110;
    assert_cpu_execute(
        &mut cpu,
        &instruction_bytes,
        &[(Reg8::A, 0b0000_0000)],
        &[(Reg16::PC, 0x22)],
        &[(Flag::z, true)],
        None,
        8,
    );
}

#[test]
fn and_a_n_e6_without_conditional_flag_modifications() {
    let mut cpu = Cpu::new();
    let instruction_bytes = [0xE6, 0x5F];
    cpu.set_reg16(Reg16::PC, 0x21);
    cpu.set_reg8(Reg8::A, 0b1010_1001);
    cpu.set_flag(Flag::n, true);
    cpu.set_flag(Flag::h, false);
    cpu.set_flag(Flag::c, true);
    assert_cpu_execute(
        &mut cpu,
        &instruction_bytes,
        &[(Reg8::A, 0b0000_1001)],
        &[(Reg16::PC, 0x23)],
        &[(Flag::n, false), (Flag::h, true), (Flag::c, false)],
        None,
        8,
    );
}

#[test]
fn and_a_n_e6_with_flag_z_modified() {
    let mut cpu = Cpu::new();
    let instruction_bytes = [0xE6, 0x56];
    cpu.set_reg16(Reg16::PC, 0x21);
    cpu.set_reg8(Reg8::A, 0b1010_1001);
    assert_cpu_execute(
        &mut cpu,
        &instruction_bytes,
        &[(Reg8::A, 0b0000_0000)],
        &[(Reg16::PC, 0x23)],
        &[(Flag::z, true)],
        None,
        8,
    );
}

#[test]
fn or_a_r_b7_a_without_conditional_flag_modifications_a() {
    let mut cpu = Cpu::new();
    let instruction_bytes = [0xB7];
    cpu.set_reg16(Reg16::PC, 0x21);
    cpu.set_reg8(Reg8::A, 0b1010_1001);
    cpu.set_flag(Flag::n, true);
    cpu.set_flag(Flag::h, true);
    cpu.set_flag(Flag::c, true);
    assert_cpu_execute(
        &mut cpu,
        &instruction_bytes,
        &[(Reg8::A, 0b1010_1001)],
        &[(Reg16::PC, 0x22)],
        &[(Flag::n, false), (Flag::h, false), (Flag::c, false)],
        None,
        4,
    );
}

#[test]
fn or_a_r_b7_a_with_flag_z_modified() {
    let mut cpu = Cpu::new();
    let instruction_bytes = [0xB7];
    cpu.set_reg16(Reg16::PC, 0x21);
    cpu.set_reg8(Reg8::A, 0b0000_0000);
    assert_cpu_execute(
        &mut cpu,
        &instruction_bytes,
        &[(Reg8::A, 0b0000_0000)],
        &[(Reg16::PC, 0x22)],
        &[(Flag::z, true)],
        None,
        4,
    );
}

#[test]
fn or_a_r_b0_b_without_conditional_flag_modifications() {
    let mut cpu = Cpu::new();
    let instruction_bytes = [0xB0];
    cpu.set_reg16(Reg16::PC, 0x21);
    cpu.set_reg8(Reg8::A, 0b1010_1001);
    cpu.set_reg8(Reg8::B, 0b0101_1001);
    cpu.set_flag(Flag::n, true);
    cpu.set_flag(Flag::h, true);
    cpu.set_flag(Flag::c, true);
    assert_cpu_execute(
        &mut cpu,
        &instruction_bytes,
        &[(Reg8::A, 0b1111_1001)],
        &[(Reg16::PC, 0x22)],
        &[(Flag::n, false), (Flag::h, false), (Flag::c, false)],
        None,
        4,
    );
}

#[test]
fn or_a_r_b0_b_with_flag_z_modified() {
    let mut cpu = Cpu::new();
    let instruction_bytes = [0xB0];
    cpu.set_reg16(Reg16::PC, 0x21);
    cpu.set_reg8(Reg8::B, 0b0000_0000);
    assert_cpu_execute(
        &mut cpu,
        &instruction_bytes,
        &[(Reg8::A, 0b0000_0000)],
        &[(Reg16::PC, 0x22)],
        &[(Flag::z, true)],
        None,
        4,
    );
}

#[test]
fn or_a_r_b1_c_without_conditional_flag_modifications() {
    let mut cpu = Cpu::new();
    let instruction_bytes = [0xB1];
    cpu.set_reg16(Reg16::PC, 0x21);
    cpu.set_reg8(Reg8::A, 0b1010_1001);
    cpu.set_reg8(Reg8::C, 0b0101_1001);
    cpu.set_flag(Flag::n, true);
    cpu.set_flag(Flag::h, true);
    cpu.set_flag(Flag::c, true);
    assert_cpu_execute(
        &mut cpu,
        &instruction_bytes,
        &[(Reg8::A, 0b1111_1001)],
        &[(Reg16::PC, 0x22)],
        &[(Flag::n, false), (Flag::h, false), (Flag::c, false)],
        None,
        4,
    );
}

#[test]
fn or_a_r_b1_c_with_flag_z_modified() {
    let mut cpu = Cpu::new();
    let instruction_bytes = [0xB1];
    cpu.set_reg16(Reg16::PC, 0x21);
    cpu.set_reg8(Reg8::C, 0b0000_0000);
    assert_cpu_execute(
        &mut cpu,
        &instruction_bytes,
        &[(Reg8::A, 0b0000_0000)],
        &[(Reg16::PC, 0x22)],
        &[(Flag::z, true)],
        None,
        4,
    );
}

#[test]
fn or_a_r_b2_d_without_conditional_flag_modifications() {
    let mut cpu = Cpu::new();
    let instruction_bytes = [0xB2];
    cpu.set_reg16(Reg16::PC, 0x21);
    cpu.set_reg8(Reg8::A, 0b1010_1001);
    cpu.set_reg8(Reg8::D, 0b0101_1001);
    cpu.set_flag(Flag::n, true);
    cpu.set_flag(Flag::h, true);
    cpu.set_flag(Flag::c, true);
    assert_cpu_execute(
        &mut cpu,
        &instruction_bytes,
        &[(Reg8::A, 0b1111_1001)],
        &[(Reg16::PC, 0x22)],
        &[(Flag::n, false), (Flag::h, false), (Flag::c, false)],
        None,
        4,
    );
}

#[test]
fn or_a_r_b2_d_with_flag_z_modified() {
    let mut cpu = Cpu::new();
    let instruction_bytes = [0xB2];
    cpu.set_reg16(Reg16::PC, 0x21);
    cpu.set_reg8(Reg8::D, 0b0000_0000);
    assert_cpu_execute(
        &mut cpu,
        &instruction_bytes,
        &[(Reg8::A, 0b0000_0000)],
        &[(Reg16::PC, 0x22)],
        &[(Flag::z, true)],
        None,
        4,
    );
}

#[test]
fn or_a_r_b3_e_without_conditional_flag_modifications() {
    let mut cpu = Cpu::new();
    let instruction_bytes = [0xB3];
    cpu.set_reg16(Reg16::PC, 0x21);
    cpu.set_reg8(Reg8::A, 0b1010_1001);
    cpu.set_reg8(Reg8::E, 0b0101_1001);
    cpu.set_flag(Flag::n, true);
    cpu.set_flag(Flag::h, true);
    cpu.set_flag(Flag::c, true);
    assert_cpu_execute(
        &mut cpu,
        &instruction_bytes,
        &[(Reg8::A, 0b1111_1001)],
        &[(Reg16::PC, 0x22)],
        &[(Flag::n, false), (Flag::h, false), (Flag::c, false)],
        None,
        4,
    );
}

#[test]
fn or_a_r_b3_e_with_flag_z_modified() {
    let mut cpu = Cpu::new();
    let instruction_bytes = [0xB3];
    cpu.set_reg16(Reg16::PC, 0x21);
    cpu.set_reg8(Reg8::E, 0b0000_0000);
    assert_cpu_execute(
        &mut cpu,
        &instruction_bytes,
        &[(Reg8::A, 0b0000_0000)],
        &[(Reg16::PC, 0x22)],
        &[(Flag::z, true)],
        None,
        4,
    );
}

#[test]
fn or_a_r_b4_h_without_conditional_flag_modifications() {
    let mut cpu = Cpu::new();
    let instruction_bytes = [0xB4];
    cpu.set_reg16(Reg16::PC, 0x21);
    cpu.set_reg8(Reg8::A, 0b1010_1001);
    cpu.set_reg8(Reg8::H, 0b0101_1001);
    cpu.set_flag(Flag::n, true);
    cpu.set_flag(Flag::h, true);
    cpu.set_flag(Flag::c, true);
    assert_cpu_execute(
        &mut cpu,
        &instruction_bytes,
        &[(Reg8::A, 0b1111_1001)],
        &[(Reg16::PC, 0x22)],
        &[(Flag::n, false), (Flag::h, false), (Flag::c, false)],
        None,
        4,
    );
}

#[test]
fn or_a_r_b4_h_with_flag_z_modified() {
    let mut cpu = Cpu::new();
    let instruction_bytes = [0xB4];
    cpu.set_reg16(Reg16::PC, 0x21);
    cpu.set_reg8(Reg8::H, 0b0000_0000);
    assert_cpu_execute(
        &mut cpu,
        &instruction_bytes,
        &[(Reg8::A, 0b0000_0000)],
        &[(Reg16::PC, 0x22)],
        &[(Flag::z, true)],
        None,
        4,
    );
}

#[test]
fn or_a_r_b5_l_without_conditional_flag_modifications() {
    let mut cpu = Cpu::new();
    let instruction_bytes = [0xB5];
    cpu.set_reg16(Reg16::PC, 0x21);
    cpu.set_reg8(Reg8::A, 0b1010_1001);
    cpu.set_reg8(Reg8::L, 0b0101_1001);
    cpu.set_flag(Flag::n, true);
    cpu.set_flag(Flag::h, true);
    cpu.set_flag(Flag::c, true);
    assert_cpu_execute(
        &mut cpu,
        &instruction_bytes,
        &[(Reg8::A, 0b1111_1001)],
        &[(Reg16::PC, 0x22)],
        &[(Flag::n, false), (Flag::h, false), (Flag::c, false)],
        None,
        4,
    );
}

#[test]
fn or_a_r_b5_l_with_flag_z_modified() {
    let mut cpu = Cpu::new();
    let instruction_bytes = [0xB5];
    cpu.set_reg16(Reg16::PC, 0x21);
    cpu.set_reg8(Reg8::L, 0b0000_0000);
    assert_cpu_execute(
        &mut cpu,
        &instruction_bytes,
        &[(Reg8::A, 0b0000_0000)],
        &[(Reg16::PC, 0x22)],
        &[(Flag::z, true)],
        None,
        4,
    );
}

#[test]
fn or_a_hl_b6_without_conditional_flag_modifications() {
    let mut cpu = Cpu::new();
    let instruction_bytes = [0xB6];
    cpu.set_reg16(Reg16::PC, 0x21);
    cpu.set_reg8(Reg8::A, 0b1010_1001);
    cpu.set_reg16(Reg16::HL, 0xCAFE);
    cpu.internal_ram[0xCAFE] = 0b0101_1001;
    cpu.set_flag(Flag::n, true);
    cpu.set_flag(Flag::h, true);
    cpu.set_flag(Flag::c, true);
    assert_cpu_execute(
        &mut cpu,
        &instruction_bytes,
        &[(Reg8::A, 0b1111_1001)],
        &[(Reg16::PC, 0x22)],
        &[(Flag::n, false), (Flag::h, false), (Flag::c, false)],
        None,
        8,
    );
}

#[test]
fn or_a_hl_b6_with_flag_z_modified() {
    let mut cpu = Cpu::new();
    let instruction_bytes = [0xB6];
    cpu.set_reg16(Reg16::PC, 0x21);
    cpu.set_reg16(Reg16::HL, 0xCAFE);
    cpu.internal_ram[0xCAFE] = 0b0000_0000;
    assert_cpu_execute(
        &mut cpu,
        &instruction_bytes,
        &[(Reg8::A, 0b0000_0000)],
        &[(Reg16::PC, 0x22)],
        &[(Flag::z, true)],
        None,
        8,
    );
}

#[test]
fn or_a_n_f6_without_conditional_flag_modifications() {
    let mut cpu = Cpu::new();
    let instruction_bytes = [0xF6, 0x59];
    cpu.set_reg16(Reg16::PC, 0x21);
    cpu.set_reg8(Reg8::A, 0b1010_1001);
    cpu.set_flag(Flag::n, true);
    cpu.set_flag(Flag::h, true);
    cpu.set_flag(Flag::c, true);
    assert_cpu_execute(
        &mut cpu,
        &instruction_bytes,
        &[(Reg8::A, 0b1111_1001)],
        &[(Reg16::PC, 0x23)],
        &[(Flag::n, false), (Flag::h, false), (Flag::c, false)],
        None,
        8,
    );
}

#[test]
fn or_a_n_f6_with_flag_z_modified() {
    let mut cpu = Cpu::new();
    let instruction_bytes = [0xF6, 0x00];
    cpu.set_reg16(Reg16::PC, 0x21);
    assert_cpu_execute(
        &mut cpu,
        &instruction_bytes,
        &[(Reg8::A, 0b0000_0000)],
        &[(Reg16::PC, 0x23)],
        &[(Flag::z, true)],
        None,
        8,
    );
}

#[test]
fn xor_a_r_af_a_with_flag_z_modified() {
    let mut cpu = Cpu::new();
    let instruction_bytes = [0xAF];
    cpu.set_reg16(Reg16::PC, 0x21);
    cpu.set_reg8(Reg8::A, 0b1010_1001);
    cpu.set_reg8(Reg8::A, 0b1010_1001);
    assert_cpu_execute(
        &mut cpu,
        &instruction_bytes,
        &[(Reg8::A, 0b0000_0000)],
        &[(Reg16::PC, 0x22)],
        &[(Flag::z, true)],
        None,
        4,
    );
}

#[test]
fn xor_a_r_a8_b_without_conditional_flag_modifications() {
    let mut cpu = Cpu::new();
    let instruction_bytes = [0xA8];
    cpu.set_reg16(Reg16::PC, 0x21);
    cpu.set_reg8(Reg8::A, 0b1010_1001);
    cpu.set_reg8(Reg8::B, 0b0101_1001);
    cpu.set_flag(Flag::n, true);
    cpu.set_flag(Flag::h, true);
    cpu.set_flag(Flag::c, true);
    assert_cpu_execute(
        &mut cpu,
        &instruction_bytes,
        &[(Reg8::A, 0b1111_0000)],
        &[(Reg16::PC, 0x22)],
        &[(Flag::n, false), (Flag::h, false), (Flag::c, false)],
        None,
        4,
    );
}

#[test]
fn xor_a_r_a8_b_with_flag_z_modified() {
    let mut cpu = Cpu::new();
    let instruction_bytes = [0xA8];
    cpu.set_reg16(Reg16::PC, 0x21);
    cpu.set_reg8(Reg8::A, 0b1010_1001);
    cpu.set_reg8(Reg8::B, 0b1010_1001);
    assert_cpu_execute(
        &mut cpu,
        &instruction_bytes,
        &[(Reg8::A, 0b0000_0000)],
        &[(Reg16::PC, 0x22)],
        &[(Flag::z, true)],
        None,
        4,
    );
}

#[test]
fn xor_a_r_a9_c_without_conditional_flag_modifications() {
    let mut cpu = Cpu::new();
    let instruction_bytes = [0xA9];
    cpu.set_reg16(Reg16::PC, 0x21);
    cpu.set_reg8(Reg8::A, 0b1010_1001);
    cpu.set_reg8(Reg8::C, 0b0101_1001);
    cpu.set_flag(Flag::n, true);
    cpu.set_flag(Flag::h, true);
    cpu.set_flag(Flag::c, true);
    assert_cpu_execute(
        &mut cpu,
        &instruction_bytes,
        &[(Reg8::A, 0b1111_0000)],
        &[(Reg16::PC, 0x22)],
        &[(Flag::n, false), (Flag::h, false), (Flag::c, false)],
        None,
        4,
    );
}

#[test]
fn xor_a_r_a9_c_with_flag_z_modified() {
    let mut cpu = Cpu::new();
    let instruction_bytes = [0xA9];
    cpu.set_reg16(Reg16::PC, 0x21);
    cpu.set_reg8(Reg8::A, 0b1010_1001);
    cpu.set_reg8(Reg8::C, 0b1010_1001);
    assert_cpu_execute(
        &mut cpu,
        &instruction_bytes,
        &[(Reg8::A, 0b0000_0000)],
        &[(Reg16::PC, 0x22)],
        &[(Flag::z, true)],
        None,
        4,
    );
}

#[test]
fn xor_a_r_aa_d_without_conditional_flag_modifications() {
    let mut cpu = Cpu::new();
    let instruction_bytes = [0xAA];
    cpu.set_reg16(Reg16::PC, 0x21);
    cpu.set_reg8(Reg8::A, 0b1010_1001);
    cpu.set_reg8(Reg8::D, 0b0101_1001);
    cpu.set_flag(Flag::n, true);
    cpu.set_flag(Flag::h, true);
    cpu.set_flag(Flag::c, true);
    assert_cpu_execute(
        &mut cpu,
        &instruction_bytes,
        &[(Reg8::A, 0b1111_0000)],
        &[(Reg16::PC, 0x22)],
        &[(Flag::n, false), (Flag::h, false), (Flag::c, false)],
        None,
        4,
    );
}

#[test]
fn xor_a_r_aa_d_with_flag_z_modified() {
    let mut cpu = Cpu::new();
    let instruction_bytes = [0xAA];
    cpu.set_reg16(Reg16::PC, 0x21);
    cpu.set_reg8(Reg8::A, 0b1010_1001);
    cpu.set_reg8(Reg8::D, 0b1010_1001);
    assert_cpu_execute(
        &mut cpu,
        &instruction_bytes,
        &[(Reg8::A, 0b0000_0000)],
        &[(Reg16::PC, 0x22)],
        &[(Flag::z, true)],
        None,
        4,
    );
}

#[test]
fn xor_a_r_ab_e_without_conditional_flag_modifications() {
    let mut cpu = Cpu::new();
    let instruction_bytes = [0xAB];
    cpu.set_reg16(Reg16::PC, 0x21);
    cpu.set_reg8(Reg8::A, 0b1010_1001);
    cpu.set_reg8(Reg8::E, 0b0101_1001);
    cpu.set_flag(Flag::n, true);
    cpu.set_flag(Flag::h, true);
    cpu.set_flag(Flag::c, true);
    assert_cpu_execute(
        &mut cpu,
        &instruction_bytes,
        &[(Reg8::A, 0b1111_0000)],
        &[(Reg16::PC, 0x22)],
        &[(Flag::n, false), (Flag::h, false), (Flag::c, false)],
        None,
        4,
    );
}

#[test]
fn xor_a_r_ab_e_with_flag_z_modified() {
    let mut cpu = Cpu::new();
    let instruction_bytes = [0xAB];
    cpu.set_reg16(Reg16::PC, 0x21);
    cpu.set_reg8(Reg8::A, 0b1010_1001);
    cpu.set_reg8(Reg8::E, 0b1010_1001);
    assert_cpu_execute(
        &mut cpu,
        &instruction_bytes,
        &[(Reg8::A, 0b0000_0000)],
        &[(Reg16::PC, 0x22)],
        &[(Flag::z, true)],
        None,
        4,
    );
}

#[test]
fn xor_a_r_ac_h_without_conditional_flag_modifications() {
    let mut cpu = Cpu::new();
    let instruction_bytes = [0xAC];
    cpu.set_reg16(Reg16::PC, 0x21);
    cpu.set_reg8(Reg8::A, 0b1010_1001);
    cpu.set_reg8(Reg8::H, 0b0101_1001);
    cpu.set_flag(Flag::n, true);
    cpu.set_flag(Flag::h, true);
    cpu.set_flag(Flag::c, true);
    assert_cpu_execute(
        &mut cpu,
        &instruction_bytes,
        &[(Reg8::A, 0b1111_0000)],
        &[(Reg16::PC, 0x22)],
        &[(Flag::n, false), (Flag::h, false), (Flag::c, false)],
        None,
        4,
    );
}

#[test]
fn xor_a_r_ac_h_with_flag_z_modified() {
    let mut cpu = Cpu::new();
    let instruction_bytes = [0xAC];
    cpu.set_reg16(Reg16::PC, 0x21);
    cpu.set_reg8(Reg8::A, 0b1010_1001);
    cpu.set_reg8(Reg8::H, 0b1010_1001);
    assert_cpu_execute(
        &mut cpu,
        &instruction_bytes,
        &[(Reg8::A, 0b0000_0000)],
        &[(Reg16::PC, 0x22)],
        &[(Flag::z, true)],
        None,
        4,
    );
}

#[test]
fn xor_a_r_ad_l_without_conditional_flag_modifications() {
    let mut cpu = Cpu::new();
    let instruction_bytes = [0xAD];
    cpu.set_reg16(Reg16::PC, 0x21);
    cpu.set_reg8(Reg8::A, 0b1010_1001);
    cpu.set_reg8(Reg8::L, 0b0101_1001);
    cpu.set_flag(Flag::n, true);
    cpu.set_flag(Flag::h, true);
    cpu.set_flag(Flag::c, true);
    assert_cpu_execute(
        &mut cpu,
        &instruction_bytes,
        &[(Reg8::A, 0b1111_0000)],
        &[(Reg16::PC, 0x22)],
        &[(Flag::n, false), (Flag::h, false), (Flag::c, false)],
        None,
        4,
    );
}

#[test]
fn xor_a_r_ad_l_with_flag_z_modified() {
    let mut cpu = Cpu::new();
    let instruction_bytes = [0xAD];
    cpu.set_reg16(Reg16::PC, 0x21);
    cpu.set_reg8(Reg8::A, 0b1010_1001);
    cpu.set_reg8(Reg8::L, 0b1010_1001);
    assert_cpu_execute(
        &mut cpu,
        &instruction_bytes,
        &[(Reg8::A, 0b0000_0000)],
        &[(Reg16::PC, 0x22)],
        &[(Flag::z, true)],
        None,
        4,
    );
}

#[test]
fn xor_a_hl_ae_without_conditional_flag_modifications() {
    let mut cpu = Cpu::new();
    let instruction_bytes = [0xAE];
    cpu.set_reg16(Reg16::PC, 0x21);
    cpu.set_reg8(Reg8::A, 0b1010_1001);
    cpu.set_reg16(Reg16::HL, 0xCAFE);
    cpu.internal_ram[0xCAFE] = 0b0101_1001;
    cpu.set_flag(Flag::n, true);
    cpu.set_flag(Flag::h, true);
    cpu.set_flag(Flag::c, true);
    assert_cpu_execute(
        &mut cpu,
        &instruction_bytes,
        &[(Reg8::A, 0b1111_0000)],
        &[(Reg16::PC, 0x22)],
        &[(Flag::n, false), (Flag::h, false), (Flag::c, false)],
        None,
        8,
    );
}

#[test]
fn xor_a_hl_ae_with_flag_z_modified() {
    let mut cpu = Cpu::new();
    let instruction_bytes = [0xAE];
    cpu.set_reg16(Reg16::PC, 0x21);
    cpu.set_reg8(Reg8::A, 0b1010_1001);
    cpu.set_reg16(Reg16::HL, 0xCAFE);
    cpu.internal_ram[0xCAFE] = 0b1010_1001;
    assert_cpu_execute(
        &mut cpu,
        &instruction_bytes,
        &[(Reg8::A, 0b0000_0000)],
        &[(Reg16::PC, 0x22)],
        &[(Flag::z, true)],
        None,
        8,
    );
}

#[test]
fn xor_a_n_ee_without_conditional_flag_modifications() {
    let mut cpu = Cpu::new();
    let instruction_bytes = [0xEE, 0x59];
    cpu.set_reg16(Reg16::PC, 0x21);
    cpu.set_reg8(Reg8::A, 0b1010_1001);
    cpu.set_flag(Flag::n, true);
    cpu.set_flag(Flag::h, true);
    cpu.set_flag(Flag::c, true);
    assert_cpu_execute(
        &mut cpu,
        &instruction_bytes,
        &[(Reg8::A, 0b1111_0000)],
        &[(Reg16::PC, 0x23)],
        &[(Flag::n, false), (Flag::h, false), (Flag::c, false)],
        None,
        8,
    );
}

#[test]
fn xor_a_n_ee_with_flag_z_modified() {
    let mut cpu = Cpu::new();
    let instruction_bytes = [0xEE, 0xA9];
    cpu.set_reg16(Reg16::PC, 0x21);
    cpu.set_reg8(Reg8::A, 0b1010_1001);
    assert_cpu_execute(
        &mut cpu,
        &instruction_bytes,
        &[(Reg8::A, 0b0000_0000)],
        &[(Reg16::PC, 0x23)],
        &[(Flag::z, true)],
        None,
        8,
    );
}

#[test]
fn cp_a_r_bf_a_with_flag_z_modified() {
    let mut cpu = Cpu::new();
    let instruction_bytes = [0xBF];
    cpu.set_reg16(Reg16::PC, 0x21);
    cpu.set_reg8(Reg8::A, 0x0);
    assert_cpu_execute(
        &mut cpu,
        &instruction_bytes,
        &[(Reg8::A, 0x00)],
        &[(Reg16::PC, 0x22)],
        &[(Flag::z, true), (Flag::n, true)],
        None,
        4,
    );
}

#[test]
fn cp_a_r_b8_b_without_conditional_flag_modifications() {
    let mut cpu = Cpu::new();
    let instruction_bytes = [0xB8];
    cpu.set_reg16(Reg16::PC, 0x21);
    cpu.set_reg8(Reg8::A, 0x22);
    cpu.set_reg8(Reg8::B, 0x21);
    cpu.set_flag(Flag::n, false);
    assert_cpu_execute(
        &mut cpu,
        &instruction_bytes,
        &[(Reg8::A, 0x22)],
        &[(Reg16::PC, 0x22)],
        &[(Flag::n, true)],
        None,
        4,
    );
}

#[test]
fn cp_a_r_b8_b_with_flag_z_modified() {
    let mut cpu = Cpu::new();
    let instruction_bytes = [0xB8];
    cpu.set_reg16(Reg16::PC, 0x21);
    cpu.set_reg8(Reg8::B, 0x0);
    assert_cpu_execute(
        &mut cpu,
        &instruction_bytes,
        &[(Reg8::A, 0x00)],
        &[(Reg16::PC, 0x22)],
        &[(Flag::z, true), (Flag::n, true)],
        None,
        4,
    );
}

#[test]
fn cp_a_r_b8_b_with_flag_h_modified() {
    let mut cpu = Cpu::new();
    let instruction_bytes = [0xB8];
    cpu.set_reg16(Reg16::PC, 0x21);
    cpu.set_reg8(Reg8::A, 0x20);
    cpu.set_reg8(Reg8::B, 0x01);
    assert_cpu_execute(
        &mut cpu,
        &instruction_bytes,
        &[(Reg8::A, 0x20)],
        &[(Reg16::PC, 0x22)],
        &[(Flag::n, true), (Flag::h, true)],
        None,
        4,
    );
}

#[test]
fn cp_a_r_b8_b_with_flag_c_modified() {
    let mut cpu = Cpu::new();
    let instruction_bytes = [0xB8];
    cpu.set_reg16(Reg16::PC, 0x21);
    cpu.set_reg8(Reg8::A, 0x70);
    cpu.set_reg8(Reg8::B, 0x90);
    assert_cpu_execute(
        &mut cpu,
        &instruction_bytes,
        &[(Reg8::A, 0x70)],
        &[(Reg16::PC, 0x22)],
        &[(Flag::n, true), (Flag::c, true)],
        None,
        4,
    );
}

#[test]
fn cp_a_r_b9_c_without_conditional_flag_modifications() {
    let mut cpu = Cpu::new();
    let instruction_bytes = [0xB9];
    cpu.set_reg16(Reg16::PC, 0x21);
    cpu.set_reg8(Reg8::A, 0x22);
    cpu.set_reg8(Reg8::C, 0x21);
    cpu.set_flag(Flag::n, false);
    assert_cpu_execute(
        &mut cpu,
        &instruction_bytes,
        &[(Reg8::A, 0x22)],
        &[(Reg16::PC, 0x22)],
        &[(Flag::n, true)],
        None,
        4,
    );
}

#[test]
fn cp_a_r_b9_c_with_flag_z_modified() {
    let mut cpu = Cpu::new();
    let instruction_bytes = [0xB9];
    cpu.set_reg16(Reg16::PC, 0x21);
    cpu.set_reg8(Reg8::C, 0x0);
    assert_cpu_execute(
        &mut cpu,
        &instruction_bytes,
        &[(Reg8::A, 0x00)],
        &[(Reg16::PC, 0x22)],
        &[(Flag::z, true), (Flag::n, true)],
        None,
        4,
    );
}

#[test]
fn cp_a_r_b9_c_with_flag_h_modified() {
    let mut cpu = Cpu::new();
    let instruction_bytes = [0xB9];
    cpu.set_reg16(Reg16::PC, 0x21);
    cpu.set_reg8(Reg8::A, 0x20);
    cpu.set_reg8(Reg8::C, 0x01);
    assert_cpu_execute(
        &mut cpu,
        &instruction_bytes,
        &[(Reg8::A, 0x20)],
        &[(Reg16::PC, 0x22)],
        &[(Flag::n, true), (Flag::h, true)],
        None,
        4,
    );
}

#[test]
fn cp_a_r_b9_c_with_flag_c_modified() {
    let mut cpu = Cpu::new();
    let instruction_bytes = [0xB9];
    cpu.set_reg16(Reg16::PC, 0x21);
    cpu.set_reg8(Reg8::A, 0x70);
    cpu.set_reg8(Reg8::C, 0x90);
    assert_cpu_execute(
        &mut cpu,
        &instruction_bytes,
        &[(Reg8::A, 0x70)],
        &[(Reg16::PC, 0x22)],
        &[(Flag::n, true), (Flag::c, true)],
        None,
        4,
    );
}

#[test]
fn cp_a_r_ba_d_without_conditional_flag_modifications() {
    let mut cpu = Cpu::new();
    let instruction_bytes = [0xBA];
    cpu.set_reg16(Reg16::PC, 0x21);
    cpu.set_reg8(Reg8::A, 0x22);
    cpu.set_reg8(Reg8::D, 0x21);
    cpu.set_flag(Flag::n, false);
    assert_cpu_execute(
        &mut cpu,
        &instruction_bytes,
        &[(Reg8::A, 0x22)],
        &[(Reg16::PC, 0x22)],
        &[(Flag::n, true)],
        None,
        4,
    );
}

#[test]
fn cp_a_r_ba_d_with_flag_z_modified() {
    let mut cpu = Cpu::new();
    let instruction_bytes = [0xBA];
    cpu.set_reg16(Reg16::PC, 0x21);
    cpu.set_reg8(Reg8::D, 0x0);
    assert_cpu_execute(
        &mut cpu,
        &instruction_bytes,
        &[(Reg8::A, 0x00)],
        &[(Reg16::PC, 0x22)],
        &[(Flag::z, true), (Flag::n, true)],
        None,
        4,
    );
}

#[test]
fn cp_a_r_ba_d_with_flag_h_modified() {
    let mut cpu = Cpu::new();
    let instruction_bytes = [0xBA];
    cpu.set_reg16(Reg16::PC, 0x21);
    cpu.set_reg8(Reg8::A, 0x20);
    cpu.set_reg8(Reg8::D, 0x01);
    assert_cpu_execute(
        &mut cpu,
        &instruction_bytes,
        &[(Reg8::A, 0x20)],
        &[(Reg16::PC, 0x22)],
        &[(Flag::n, true), (Flag::h, true)],
        None,
        4,
    );
}

#[test]
fn cp_a_r_ba_d_with_flag_c_modified() {
    let mut cpu = Cpu::new();
    let instruction_bytes = [0xBA];
    cpu.set_reg16(Reg16::PC, 0x21);
    cpu.set_reg8(Reg8::A, 0x70);
    cpu.set_reg8(Reg8::D, 0x90);
    assert_cpu_execute(
        &mut cpu,
        &instruction_bytes,
        &[(Reg8::A, 0x70)],
        &[(Reg16::PC, 0x22)],
        &[(Flag::n, true), (Flag::c, true)],
        None,
        4,
    );
}

#[test]
fn cp_a_r_bb_e_without_conditional_flag_modifications() {
    let mut cpu = Cpu::new();
    let instruction_bytes = [0xBB];
    cpu.set_reg16(Reg16::PC, 0x21);
    cpu.set_reg8(Reg8::A, 0x22);
    cpu.set_reg8(Reg8::E, 0x21);
    cpu.set_flag(Flag::n, false);
    assert_cpu_execute(
        &mut cpu,
        &instruction_bytes,
        &[(Reg8::A, 0x22)],
        &[(Reg16::PC, 0x22)],
        &[(Flag::n, true)],
        None,
        4,
    );
}

#[test]
fn cp_a_r_bb_e_with_flag_z_modified() {
    let mut cpu = Cpu::new();
    let instruction_bytes = [0xBB];
    cpu.set_reg16(Reg16::PC, 0x21);
    cpu.set_reg8(Reg8::E, 0x0);
    assert_cpu_execute(
        &mut cpu,
        &instruction_bytes,
        &[(Reg8::A, 0x00)],
        &[(Reg16::PC, 0x22)],
        &[(Flag::z, true), (Flag::n, true)],
        None,
        4,
    );
}

#[test]
fn cp_a_r_bb_e_with_flag_h_modified() {
    let mut cpu = Cpu::new();
    let instruction_bytes = [0xBB];
    cpu.set_reg16(Reg16::PC, 0x21);
    cpu.set_reg8(Reg8::A, 0x20);
    cpu.set_reg8(Reg8::E, 0x01);
    assert_cpu_execute(
        &mut cpu,
        &instruction_bytes,
        &[(Reg8::A, 0x20)],
        &[(Reg16::PC, 0x22)],
        &[(Flag::n, true), (Flag::h, true)],
        None,
        4,
    );
}

#[test]
fn cp_a_r_bb_e_with_flag_c_modified() {
    let mut cpu = Cpu::new();
    let instruction_bytes = [0xBB];
    cpu.set_reg16(Reg16::PC, 0x21);
    cpu.set_reg8(Reg8::A, 0x70);
    cpu.set_reg8(Reg8::E, 0x90);
    assert_cpu_execute(
        &mut cpu,
        &instruction_bytes,
        &[(Reg8::A, 0x70)],
        &[(Reg16::PC, 0x22)],
        &[(Flag::n, true), (Flag::c, true)],
        None,
        4,
    );
}

#[test]
fn cp_a_r_bc_h_without_conditional_flag_modifications() {
    let mut cpu = Cpu::new();
    let instruction_bytes = [0xBC];
    cpu.set_reg16(Reg16::PC, 0x21);
    cpu.set_reg8(Reg8::A, 0x22);
    cpu.set_reg8(Reg8::H, 0x21);
    cpu.set_flag(Flag::n, false);
    assert_cpu_execute(
        &mut cpu,
        &instruction_bytes,
        &[(Reg8::A, 0x22)],
        &[(Reg16::PC, 0x22)],
        &[(Flag::n, true)],
        None,
        4,
    );
}

#[test]
fn cp_a_r_bc_h_with_flag_z_modified() {
    let mut cpu = Cpu::new();
    let instruction_bytes = [0xBC];
    cpu.set_reg16(Reg16::PC, 0x21);
    cpu.set_reg8(Reg8::H, 0x0);
    assert_cpu_execute(
        &mut cpu,
        &instruction_bytes,
        &[(Reg8::A, 0x00)],
        &[(Reg16::PC, 0x22)],
        &[(Flag::z, true), (Flag::n, true)],
        None,
        4,
    );
}

#[test]
fn cp_a_r_bc_h_with_flag_h_modified() {
    let mut cpu = Cpu::new();
    let instruction_bytes = [0xBC];
    cpu.set_reg16(Reg16::PC, 0x21);
    cpu.set_reg8(Reg8::A, 0x20);
    cpu.set_reg8(Reg8::H, 0x01);
    assert_cpu_execute(
        &mut cpu,
        &instruction_bytes,
        &[(Reg8::A, 0x20)],
        &[(Reg16::PC, 0x22)],
        &[(Flag::n, true), (Flag::h, true)],
        None,
        4,
    );
}

#[test]
fn cp_a_r_bc_h_with_flag_c_modified() {
    let mut cpu = Cpu::new();
    let instruction_bytes = [0xBC];
    cpu.set_reg16(Reg16::PC, 0x21);
    cpu.set_reg8(Reg8::A, 0x70);
    cpu.set_reg8(Reg8::H, 0x90);
    assert_cpu_execute(
        &mut cpu,
        &instruction_bytes,
        &[(Reg8::A, 0x70)],
        &[(Reg16::PC, 0x22)],
        &[(Flag::n, true), (Flag::c, true)],
        None,
        4,
    );
}

#[test]
fn cp_a_r_bd_l_without_conditional_flag_modifications() {
    let mut cpu = Cpu::new();
    let instruction_bytes = [0xBD];
    cpu.set_reg16(Reg16::PC, 0x21);
    cpu.set_reg8(Reg8::A, 0x22);
    cpu.set_reg8(Reg8::L, 0x21);
    cpu.set_flag(Flag::n, false);
    assert_cpu_execute(
        &mut cpu,
        &instruction_bytes,
        &[(Reg8::A, 0x22)],
        &[(Reg16::PC, 0x22)],
        &[(Flag::n, true)],
        None,
        4,
    );
}

#[test]
fn cp_a_r_bd_l_with_flag_z_modified() {
    let mut cpu = Cpu::new();
    let instruction_bytes = [0xBD];
    cpu.set_reg16(Reg16::PC, 0x21);
    cpu.set_reg8(Reg8::L, 0x0);
    assert_cpu_execute(
        &mut cpu,
        &instruction_bytes,
        &[(Reg8::A, 0x00)],
        &[(Reg16::PC, 0x22)],
        &[(Flag::z, true), (Flag::n, true)],
        None,
        4,
    );
}

#[test]
fn cp_a_r_bd_l_with_flag_h_modified() {
    let mut cpu = Cpu::new();
    let instruction_bytes = [0xBD];
    cpu.set_reg16(Reg16::PC, 0x21);
    cpu.set_reg8(Reg8::A, 0x20);
    cpu.set_reg8(Reg8::L, 0x01);
    assert_cpu_execute(
        &mut cpu,
        &instruction_bytes,
        &[(Reg8::A, 0x20)],
        &[(Reg16::PC, 0x22)],
        &[(Flag::n, true), (Flag::h, true)],
        None,
        4,
    );
}

#[test]
fn cp_a_r_bd_l_with_flag_c_modified() {
    let mut cpu = Cpu::new();
    let instruction_bytes = [0xBD];
    cpu.set_reg16(Reg16::PC, 0x21);
    cpu.set_reg8(Reg8::A, 0x70);
    cpu.set_reg8(Reg8::L, 0x90);
    assert_cpu_execute(
        &mut cpu,
        &instruction_bytes,
        &[(Reg8::A, 0x70)],
        &[(Reg16::PC, 0x22)],
        &[(Flag::n, true), (Flag::c, true)],
        None,
        4,
    );
}

#[test]
fn cp_a_hl_be_without_conditional_flag_modifications() {
    let mut cpu = Cpu::new();
    let instruction_bytes = [0xBE];
    cpu.set_reg16(Reg16::PC, 0x21);
    cpu.set_reg8(Reg8::A, 0x42);
    cpu.set_reg16(Reg16::HL, 0xCAFE);
    cpu.internal_ram[0xCAFE] = 0x21;
    cpu.set_flag(Flag::n, false);
    assert_cpu_execute(
        &mut cpu,
        &instruction_bytes,
        &[(Reg8::A, 0x42)],
        &[(Reg16::PC, 0x22)],
        &[(Flag::n, true)],
        None,
        8,
    );
}

#[test]
fn cp_a_hl_be_with_flag_z_modified() {
    let mut cpu = Cpu::new();
    let instruction_bytes = [0xBE];
    cpu.set_reg16(Reg16::PC, 0x21);
    cpu.set_reg16(Reg16::HL, 0xCAFE);
    cpu.internal_ram[0xCAFE] = 0x00;
    assert_cpu_execute(
        &mut cpu,
        &instruction_bytes,
        &[(Reg8::A, 0x00)],
        &[(Reg16::PC, 0x22)],
        &[(Flag::z, true), (Flag::n, true)],
        None,
        8,
    );
}

#[test]
fn cp_a_hl_be_with_flag_h_modified() {
    let mut cpu = Cpu::new();
    let instruction_bytes = [0xBE];
    cpu.set_reg16(Reg16::PC, 0x21);
    cpu.set_reg8(Reg8::A, 0x20);
    cpu.set_reg16(Reg16::HL, 0xCAFE);
    cpu.internal_ram[0xCAFE] = 0x01;
    assert_cpu_execute(
        &mut cpu,
        &instruction_bytes,
        &[(Reg8::A, 0x20)],
        &[(Reg16::PC, 0x22)],
        &[(Flag::n, true), (Flag::h, true)],
        None,
        8,
    );
}

#[test]
fn cp_a_hl_be_with_flag_c_modified() {
    let mut cpu = Cpu::new();
    let instruction_bytes = [0xBE];
    cpu.set_reg16(Reg16::PC, 0x21);
    cpu.set_reg8(Reg8::A, 0x70);
    cpu.set_reg16(Reg16::HL, 0xCAFE);
    cpu.internal_ram[0xCAFE] = 0x90;
    assert_cpu_execute(
        &mut cpu,
        &instruction_bytes,
        &[(Reg8::A, 0x70)],
        &[(Reg16::PC, 0x22)],
        &[(Flag::n, true), (Flag::c, true)],
        None,
        8,
    );
}

#[test]
fn cp_a_n_fe_without_conditional_flag_modifications() {
    let mut cpu = Cpu::new();
    let instruction_bytes = [0xFE, 0x21];
    cpu.set_reg16(Reg16::PC, 0x21);
    cpu.set_reg8(Reg8::A, 0x42);
    cpu.set_flag(Flag::n, false);
    assert_cpu_execute(
        &mut cpu,
        &instruction_bytes,
        &[(Reg8::A, 0x42)],
        &[(Reg16::PC, 0x23)],
        &[(Flag::n, true)],
        None,
        8,
    );
}

#[test]
fn cp_a_n_fe_with_flag_z_modified() {
    let mut cpu = Cpu::new();
    let instruction_bytes = [0xFE, 0x00];
    cpu.set_reg16(Reg16::PC, 0x21);
    assert_cpu_execute(
        &mut cpu,
        &instruction_bytes,
        &[(Reg8::A, 0x00)],
        &[(Reg16::PC, 0x23)],
        &[(Flag::z, true), (Flag::n, true)],
        None,
        8,
    );
}

#[test]
fn cp_a_n_fe_with_flag_h_modified() {
    let mut cpu = Cpu::new();
    let instruction_bytes = [0xFE, 0x0F];
    cpu.set_reg16(Reg16::PC, 0x21);
    cpu.set_reg8(Reg8::A, 0x21);
    assert_cpu_execute(
        &mut cpu,
        &instruction_bytes,
        &[(Reg8::A, 0x21)],
        &[(Reg16::PC, 0x23)],
        &[(Flag::n, true), (Flag::h, true)],
        None,
        8,
    );
}

#[test]
fn cp_a_n_fe_with_flag_c_modified() {
    let mut cpu = Cpu::new();
    let instruction_bytes = [0xFE, 0xF0];
    cpu.set_reg16(Reg16::PC, 0x21);
    cpu.set_reg8(Reg8::A, 0x10);
    assert_cpu_execute(
        &mut cpu,
        &instruction_bytes,
        &[(Reg8::A, 0x10)],
        &[(Reg16::PC, 0x23)],
        &[(Flag::n, true), (Flag::c, true)],
        None,
        8,
    );
}

#[test]
fn inc_r_3c_a_without_conditional_flag_modifications() {
    let mut cpu = Cpu::new();
    let instruction_bytes = [0x3C];
    cpu.set_reg16(Reg16::PC, 0x21);
    cpu.set_reg8(Reg8::A, 0x21);
    cpu.set_flag(Flag::n, true);
    assert_cpu_execute(
        &mut cpu,
        &instruction_bytes,
        &[(Reg8::A, 0x22)],
        &[(Reg16::PC, 0x22)],
        &[(Flag::n, false)],
        None,
        4,
    );
}

#[test]
fn inc_r_3c_a_with_flag_z_modified() {
    let mut cpu = Cpu::new();
    let instruction_bytes = [0x3C];
    cpu.set_reg16(Reg16::PC, 0x21);
    cpu.set_reg8(Reg8::A, 0xFF);
    assert_cpu_execute(
        &mut cpu,
        &instruction_bytes,
        &[(Reg8::A, 0x00)],
        &[(Reg16::PC, 0x22)],
        &[(Flag::z, true), (Flag::h, true)],
        None,
        4,
    );
}

#[test]
fn inc_r_3c_a_with_flag_h_modified() {
    let mut cpu = Cpu::new();
    let instruction_bytes = [0x3C];
    cpu.set_reg16(Reg16::PC, 0x21);
    cpu.set_reg8(Reg8::A, 0x1F);
    assert_cpu_execute(
        &mut cpu,
        &instruction_bytes,
        &[(Reg8::A, 0x20)],
        &[(Reg16::PC, 0x22)],
        &[(Flag::h, true)],
        None,
        4,
    );
}

#[test]
fn inc_r_04_b_without_conditional_flag_modifications() {
    let mut cpu = Cpu::new();
    let instruction_bytes = [0x04];
    cpu.set_reg16(Reg16::PC, 0x21);
    cpu.set_reg8(Reg8::B, 0x21);
    cpu.set_flag(Flag::n, true);
    assert_cpu_execute(
        &mut cpu,
        &instruction_bytes,
        &[(Reg8::B, 0x22)],
        &[(Reg16::PC, 0x22)],
        &[(Flag::n, false)],
        None,
        4,
    );
}

#[test]
fn inc_r_04_b_with_flag_z_modified() {
    let mut cpu = Cpu::new();
    let instruction_bytes = [0x04];
    cpu.set_reg16(Reg16::PC, 0x21);
    cpu.set_reg8(Reg8::B, 0xFF);
    assert_cpu_execute(
        &mut cpu,
        &instruction_bytes,
        &[(Reg8::B, 0x00)],
        &[(Reg16::PC, 0x22)],
        &[(Flag::z, true), (Flag::h, true)],
        None,
        4,
    );
}

#[test]
fn inc_r_04_b_with_flag_h_modified() {
    let mut cpu = Cpu::new();
    let instruction_bytes = [0x04];
    cpu.set_reg16(Reg16::PC, 0x21);
    cpu.set_reg8(Reg8::B, 0x1F);
    assert_cpu_execute(
        &mut cpu,
        &instruction_bytes,
        &[(Reg8::B, 0x20)],
        &[(Reg16::PC, 0x22)],
        &[(Flag::h, true)],
        None,
        4,
    );
}

#[test]
fn inc_r_0c_c_without_conditional_flag_modifications() {
    let mut cpu = Cpu::new();
    let instruction_bytes = [0x0C];
    cpu.set_reg16(Reg16::PC, 0x21);
    cpu.set_reg8(Reg8::C, 0x21);
    cpu.set_flag(Flag::n, true);
    assert_cpu_execute(
        &mut cpu,
        &instruction_bytes,
        &[(Reg8::C, 0x22)],
        &[(Reg16::PC, 0x22)],
        &[(Flag::n, false)],
        None,
        4,
    );
}

#[test]
fn inc_r_0c_c_with_flag_z_modified() {
    let mut cpu = Cpu::new();
    let instruction_bytes = [0x0C];
    cpu.set_reg16(Reg16::PC, 0x21);
    cpu.set_reg8(Reg8::C, 0xFF);
    assert_cpu_execute(
        &mut cpu,
        &instruction_bytes,
        &[(Reg8::C, 0x00)],
        &[(Reg16::PC, 0x22)],
        &[(Flag::z, true), (Flag::h, true)],
        None,
        4,
    );
}

#[test]
fn inc_r_0c_c_with_flag_h_modified() {
    let mut cpu = Cpu::new();
    let instruction_bytes = [0x0C];
    cpu.set_reg16(Reg16::PC, 0x21);
    cpu.set_reg8(Reg8::C, 0x1F);
    assert_cpu_execute(
        &mut cpu,
        &instruction_bytes,
        &[(Reg8::C, 0x20)],
        &[(Reg16::PC, 0x22)],
        &[(Flag::h, true)],
        None,
        4,
    );
}

#[test]
fn inc_r_14_d_without_conditional_flag_modifications() {
    let mut cpu = Cpu::new();
    let instruction_bytes = [0x14];
    cpu.set_reg16(Reg16::PC, 0x21);
    cpu.set_reg8(Reg8::D, 0x21);
    cpu.set_flag(Flag::n, true);
    assert_cpu_execute(
        &mut cpu,
        &instruction_bytes,
        &[(Reg8::D, 0x22)],
        &[(Reg16::PC, 0x22)],
        &[(Flag::n, false)],
        None,
        4,
    );
}

#[test]
fn inc_r_14_d_with_flag_z_modified() {
    let mut cpu = Cpu::new();
    let instruction_bytes = [0x14];
    cpu.set_reg16(Reg16::PC, 0x21);
    cpu.set_reg8(Reg8::D, 0xFF);
    assert_cpu_execute(
        &mut cpu,
        &instruction_bytes,
        &[(Reg8::D, 0x00)],
        &[(Reg16::PC, 0x22)],
        &[(Flag::z, true), (Flag::h, true)],
        None,
        4,
    );
}

#[test]
fn inc_r_14_d_with_flag_h_modified() {
    let mut cpu = Cpu::new();
    let instruction_bytes = [0x14];
    cpu.set_reg16(Reg16::PC, 0x21);
    cpu.set_reg8(Reg8::D, 0x1F);
    assert_cpu_execute(
        &mut cpu,
        &instruction_bytes,
        &[(Reg8::D, 0x20)],
        &[(Reg16::PC, 0x22)],
        &[(Flag::h, true)],
        None,
        4,
    );
}

#[test]
fn inc_r_1c_e_without_conditional_flag_modifications() {
    let mut cpu = Cpu::new();
    let instruction_bytes = [0x1C];
    cpu.set_reg16(Reg16::PC, 0x21);
    cpu.set_reg8(Reg8::E, 0x21);
    cpu.set_flag(Flag::n, true);
    assert_cpu_execute(
        &mut cpu,
        &instruction_bytes,
        &[(Reg8::E, 0x22)],
        &[(Reg16::PC, 0x22)],
        &[(Flag::n, false)],
        None,
        4,
    );
}

#[test]
fn inc_r_1c_e_with_flag_z_modified() {
    let mut cpu = Cpu::new();
    let instruction_bytes = [0x1C];
    cpu.set_reg16(Reg16::PC, 0x21);
    cpu.set_reg8(Reg8::E, 0xFF);
    assert_cpu_execute(
        &mut cpu,
        &instruction_bytes,
        &[(Reg8::E, 0x00)],
        &[(Reg16::PC, 0x22)],
        &[(Flag::z, true), (Flag::h, true)],
        None,
        4,
    );
}

#[test]
fn inc_r_1c_e_with_flag_h_modified() {
    let mut cpu = Cpu::new();
    let instruction_bytes = [0x1C];
    cpu.set_reg16(Reg16::PC, 0x21);
    cpu.set_reg8(Reg8::E, 0x1F);
    assert_cpu_execute(
        &mut cpu,
        &instruction_bytes,
        &[(Reg8::E, 0x20)],
        &[(Reg16::PC, 0x22)],
        &[(Flag::h, true)],
        None,
        4,
    );
}

#[test]
fn inc_r_24_h_without_conditional_flag_modifications() {
    let mut cpu = Cpu::new();
    let instruction_bytes = [0x24];
    cpu.set_reg16(Reg16::PC, 0x21);
    cpu.set_reg8(Reg8::H, 0x21);
    cpu.set_flag(Flag::n, true);
    assert_cpu_execute(
        &mut cpu,
        &instruction_bytes,
        &[(Reg8::H, 0x22)],
        &[(Reg16::PC, 0x22)],
        &[(Flag::n, false)],
        None,
        4,
    );
}

#[test]
fn inc_r_24_h_with_flag_z_modified() {
    let mut cpu = Cpu::new();
    let instruction_bytes = [0x24];
    cpu.set_reg16(Reg16::PC, 0x21);
    cpu.set_reg8(Reg8::H, 0xFF);
    assert_cpu_execute(
        &mut cpu,
        &instruction_bytes,
        &[(Reg8::H, 0x00)],
        &[(Reg16::PC, 0x22)],
        &[(Flag::z, true), (Flag::h, true)],
        None,
        4,
    );
}

#[test]
fn inc_r_24_h_with_flag_h_modified() {
    let mut cpu = Cpu::new();
    let instruction_bytes = [0x24];
    cpu.set_reg16(Reg16::PC, 0x21);
    cpu.set_reg8(Reg8::H, 0x1F);
    assert_cpu_execute(
        &mut cpu,
        &instruction_bytes,
        &[(Reg8::H, 0x20)],
        &[(Reg16::PC, 0x22)],
        &[(Flag::h, true)],
        None,
        4,
    );
}

#[test]
fn inc_r_2c_l_without_conditional_flag_modifications() {
    let mut cpu = Cpu::new();
    let instruction_bytes = [0x2C];
    cpu.set_reg16(Reg16::PC, 0x21);
    cpu.set_reg8(Reg8::L, 0x21);
    cpu.set_flag(Flag::n, true);
    assert_cpu_execute(
        &mut cpu,
        &instruction_bytes,
        &[(Reg8::L, 0x22)],
        &[(Reg16::PC, 0x22)],
        &[(Flag::n, false)],
        None,
        4,
    );
}

#[test]
fn inc_r_2c_l_with_flag_z_modified() {
    let mut cpu = Cpu::new();
    let instruction_bytes = [0x2C];
    cpu.set_reg16(Reg16::PC, 0x21);
    cpu.set_reg8(Reg8::L, 0xFF);
    assert_cpu_execute(
        &mut cpu,
        &instruction_bytes,
        &[(Reg8::L, 0x00)],
        &[(Reg16::PC, 0x22)],
        &[(Flag::z, true), (Flag::h, true)],
        None,
        4,
    );
}

#[test]
fn inc_r_2c_l_with_flag_h_modified() {
    let mut cpu = Cpu::new();
    let instruction_bytes = [0x2C];
    cpu.set_reg16(Reg16::PC, 0x21);
    cpu.set_reg8(Reg8::L, 0x1F);
    assert_cpu_execute(
        &mut cpu,
        &instruction_bytes,
        &[(Reg8::L, 0x20)],
        &[(Reg16::PC, 0x22)],
        &[(Flag::h, true)],
        None,
        4,
    );
}

#[test]
fn inc_hl_34_without_conditional_flag_modifications() {
    let mut cpu = Cpu::new();
    let instruction_bytes = [0x34];
    cpu.set_reg16(Reg16::PC, 0x21);
    cpu.internal_ram[0x0CAF] = 0x21;
    cpu.set_reg16(Reg16::HL, 0x0CAF);
    cpu.set_flag(Flag::n, true);
    assert_cpu_execute(
        &mut cpu,
        &instruction_bytes,
        &[],
        &[(Reg16::PC, 0x22)],
        &[(Flag::n, false)],
        Some((0x0CAF, vec![0x22])),
        12,
    );
}

#[test]
fn inc_hl_34_with_flag_z_modified() {
    let mut cpu = Cpu::new();
    let instruction_bytes = [0x34];
    cpu.set_reg16(Reg16::PC, 0x21);
    cpu.internal_ram[0x0CAF] = 0xFF;
    cpu.set_reg16(Reg16::HL, 0x0CAF);
    assert_cpu_execute(
        &mut cpu,
        &instruction_bytes,
        &[],
        &[(Reg16::PC, 0x22)],
        &[(Flag::z, true), (Flag::h, true)],
        Some((0x0CAF, vec![0x0])),
        12,
    );
}

#[test]
fn inc_hl_34_with_flag_h_modified() {
    let mut cpu = Cpu::new();
    let instruction_bytes = [0x34];
    cpu.set_reg16(Reg16::PC, 0x21);
    cpu.internal_ram[0x0CAF] = 0x1F;
    cpu.set_reg16(Reg16::HL, 0x0CAF);
    assert_cpu_execute(
        &mut cpu,
        &instruction_bytes,
        &[],
        &[(Reg16::PC, 0x22)],
        &[(Flag::h, true)],
        Some((0x0CAF, vec![0x20])),
        12,
    );
}

#[test]
fn dec_r_3d_a_without_conditional_flag_modifications() {
    let mut cpu = Cpu::new();
    let instruction_bytes = [0x3D];
    cpu.set_reg16(Reg16::PC, 0x21);
    cpu.set_reg8(Reg8::A, 0x22);
    cpu.set_flag(Flag::n, false);
    assert_cpu_execute(
        &mut cpu,
        &instruction_bytes,
        &[(Reg8::A, 0x21)],
        &[(Reg16::PC, 0x22)],
        &[(Flag::n, true)],
        None,
        4,
    );
}

#[test]
fn dec_r_3d_a_with_flag_z_modified() {
    let mut cpu = Cpu::new();
    let instruction_bytes = [0x3D];
    cpu.set_reg16(Reg16::PC, 0x21);
    cpu.set_reg8(Reg8::A, 0x01);
    assert_cpu_execute(
        &mut cpu,
        &instruction_bytes,
        &[(Reg8::A, 0x00)],
        &[(Reg16::PC, 0x22)],
        &[(Flag::z, true)],
        None,
        4,
    );
}

#[test]
fn dec_r_3d_a_with_flag_h_modified() {
    let mut cpu = Cpu::new();
    let instruction_bytes = [0x3D];
    cpu.set_reg16(Reg16::PC, 0x21);
    cpu.set_reg8(Reg8::A, 0x20);
    assert_cpu_execute(
        &mut cpu,
        &instruction_bytes,
        &[(Reg8::A, 0x1F)],
        &[(Reg16::PC, 0x22)],
        &[(Flag::h, true)],
        None,
        4,
    );
}

#[test]
fn dec_r_05_b_without_conditional_flag_modifications() {
    let mut cpu = Cpu::new();
    let instruction_bytes = [0x05];
    cpu.set_reg16(Reg16::PC, 0x21);
    cpu.set_reg8(Reg8::B, 0x22);
    cpu.set_flag(Flag::n, false);
    assert_cpu_execute(
        &mut cpu,
        &instruction_bytes,
        &[(Reg8::B, 0x21)],
        &[(Reg16::PC, 0x22)],
        &[(Flag::n, true)],
        None,
        4,
    );
}

#[test]
fn dec_r_05_b_with_flag_z_modified() {
    let mut cpu = Cpu::new();
    let instruction_bytes = [0x05];
    cpu.set_reg16(Reg16::PC, 0x21);
    cpu.set_reg8(Reg8::B, 0x01);
    assert_cpu_execute(
        &mut cpu,
        &instruction_bytes,
        &[(Reg8::B, 0x00)],
        &[(Reg16::PC, 0x22)],
        &[(Flag::z, true)],
        None,
        4,
    );
}

#[test]
fn dec_r_05_b_with_flag_h_modified() {
    let mut cpu = Cpu::new();
    let instruction_bytes = [0x05];
    cpu.set_reg16(Reg16::PC, 0x21);
    cpu.set_reg8(Reg8::B, 0x20);
    assert_cpu_execute(
        &mut cpu,
        &instruction_bytes,
        &[(Reg8::B, 0x1F)],
        &[(Reg16::PC, 0x22)],
        &[(Flag::h, true)],
        None,
        4,
    );
}

#[test]
fn dec_r_0d_c_without_conditional_flag_modifications() {
    let mut cpu = Cpu::new();
    let instruction_bytes = [0x0D];
    cpu.set_reg16(Reg16::PC, 0x21);
    cpu.set_reg8(Reg8::C, 0x22);
    cpu.set_flag(Flag::n, false);
    assert_cpu_execute(
        &mut cpu,
        &instruction_bytes,
        &[(Reg8::C, 0x21)],
        &[(Reg16::PC, 0x22)],
        &[(Flag::n, true)],
        None,
        4,
    );
}

#[test]
fn dec_r_0d_c_with_flag_z_modified() {
    let mut cpu = Cpu::new();
    let instruction_bytes = [0x0D];
    cpu.set_reg16(Reg16::PC, 0x21);
    cpu.set_reg8(Reg8::C, 0x01);
    assert_cpu_execute(
        &mut cpu,
        &instruction_bytes,
        &[(Reg8::C, 0x00)],
        &[(Reg16::PC, 0x22)],
        &[(Flag::z, true)],
        None,
        4,
    );
}

#[test]
fn dec_r_0d_c_with_flag_h_modified() {
    let mut cpu = Cpu::new();
    let instruction_bytes = [0x0D];
    cpu.set_reg16(Reg16::PC, 0x21);
    cpu.set_reg8(Reg8::C, 0x20);
    assert_cpu_execute(
        &mut cpu,
        &instruction_bytes,
        &[(Reg8::C, 0x1F)],
        &[(Reg16::PC, 0x22)],
        &[(Flag::h, true)],
        None,
        4,
    );
}

#[test]
fn dec_r_15_d_without_conditional_flag_modifications() {
    let mut cpu = Cpu::new();
    let instruction_bytes = [0x15];
    cpu.set_reg16(Reg16::PC, 0x21);
    cpu.set_reg8(Reg8::D, 0x22);
    cpu.set_flag(Flag::n, false);
    assert_cpu_execute(
        &mut cpu,
        &instruction_bytes,
        &[(Reg8::D, 0x21)],
        &[(Reg16::PC, 0x22)],
        &[(Flag::n, true)],
        None,
        4,
    );
}

#[test]
fn dec_r_15_d_with_flag_z_modified() {
    let mut cpu = Cpu::new();
    let instruction_bytes = [0x15];
    cpu.set_reg16(Reg16::PC, 0x21);
    cpu.set_reg8(Reg8::D, 0x01);
    assert_cpu_execute(
        &mut cpu,
        &instruction_bytes,
        &[(Reg8::D, 0x00)],
        &[(Reg16::PC, 0x22)],
        &[(Flag::z, true)],
        None,
        4,
    );
}

#[test]
fn dec_r_15_d_with_flag_h_modified() {
    let mut cpu = Cpu::new();
    let instruction_bytes = [0x15];
    cpu.set_reg16(Reg16::PC, 0x21);
    cpu.set_reg8(Reg8::D, 0x20);
    assert_cpu_execute(
        &mut cpu,
        &instruction_bytes,
        &[(Reg8::D, 0x1F)],
        &[(Reg16::PC, 0x22)],
        &[(Flag::h, true)],
        None,
        4,
    );
}

#[test]
fn dec_r_1d_e_without_conditional_flag_modifications() {
    let mut cpu = Cpu::new();
    let instruction_bytes = [0x1D];
    cpu.set_reg16(Reg16::PC, 0x21);
    cpu.set_reg8(Reg8::E, 0x22);
    cpu.set_flag(Flag::n, false);
    assert_cpu_execute(
        &mut cpu,
        &instruction_bytes,
        &[(Reg8::E, 0x21)],
        &[(Reg16::PC, 0x22)],
        &[(Flag::n, true)],
        None,
        4,
    );
}

#[test]
fn dec_r_1d_e_with_flag_z_modified() {
    let mut cpu = Cpu::new();
    let instruction_bytes = [0x1D];
    cpu.set_reg16(Reg16::PC, 0x21);
    cpu.set_reg8(Reg8::E, 0x01);
    assert_cpu_execute(
        &mut cpu,
        &instruction_bytes,
        &[(Reg8::E, 0x00)],
        &[(Reg16::PC, 0x22)],
        &[(Flag::z, true)],
        None,
        4,
    );
}
