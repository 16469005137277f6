use coral::mos::instructions::lookup;
use coral::mos::operations::Operation;
use coral::mos::primitive::{
    fetch_acc, fetch_pc, get_acc, get_clock, get_complete, get_cycles, get_flag, get_pc, get_ps,
    get_sp, get_super_instruction, map_acc, map_pc, offset_pc, offset_sp, read_from_stack,
    set_acc, set_flag, set_pc, set_pc_if, set_sp, update_clock, update_cycles, write_to_stack,
};
use coral::mos::{execute, new, new_mos, nmi, reset, tick, Access, AddrMode, Bus, Flag, Mos};

/// Plain memory that notes every access.
struct Memory {
    cpu: Mos,
    ram: Vec<u8>,
    log: Vec<Access>,
}

impl Bus for Memory {
    type Frozen = ();

    fn read_byte(&mut self, address: u16) -> u8 {
        let byte = self.ram[address as usize];
        self.log.push(Access::Read { address, byte });
        byte
    }

    fn write_byte(&mut self, address: u16, byte: u8) {
        self.log.push(Access::Write { address, byte });
        self.ram[address as usize] = byte;
    }

    fn peek_byte(&self, address: u16) -> u8 {
        self.ram[address as usize]
    }

    fn fetch_mos(&mut self) -> &mut Mos {
        &mut self.cpu
    }
}

fn memory(bytes: &[(u16, u8)]) -> Memory {
    let mut ram = vec![0; 0x10000];
    for (address, byte) in bytes {
        ram[*address as usize] = *byte;
    }
    Memory { cpu: new(), ram, log: vec![] }
}

#[test]
fn a_new_processor_has_nothing_in_flight() {
    let cpu = new();
    assert_eq!(cpu, new_mos());
    assert_eq!(cpu.registers.pc, 0);
    assert_eq!(cpu.registers.ps, 0);
    assert_eq!(cpu.cycles, 0);
    assert_eq!(cpu.clock, 0);
    assert!(cpu.context.complete);
    assert!(!cpu.context.decimal_enabled);
    assert!(!cpu.context.super_instruction);
}

#[test]
fn a_setter_hands_back_what_it_replaces() {
    let mut bus = memory(&[]);
    assert_eq!(set_pc(&mut bus, 0x1234), 0);
    assert_eq!(set_pc(&mut bus, 0x5678), 0x1234);
    assert_eq!(get_pc(&mut bus), 0x5678);
    assert_eq!(set_acc(&mut bus, 7), 0);
    assert_eq!(get_acc(&mut bus), 7);
    set_pc_if(&mut bus, false, 1);
    assert_eq!(get_pc(&mut bus), 0x5678);
    set_pc_if(&mut bus, true, 1);
    assert_eq!(get_pc(&mut bus), 1);
    assert!(bus.log.is_empty());
}

#[test]
fn a_register_that_is_lent_out_can_be_changed() {
    let mut bus = memory(&[]);
    *fetch_pc(&mut bus) = 0xBEEF;
    *fetch_acc(&mut bus) += 5;
    assert_eq!(bus.cpu.registers.pc, 0xBEEF);
    assert_eq!(bus.cpu.registers.acc, 5);
}

#[test]
fn a_register_is_changed_by_a_function_of_it() {
    let mut bus = memory(&[]);
    set_pc(&mut bus, 0x00FF);
    assert_eq!(map_pc(&mut bus, |pc| pc << 4), 0x00FF);
    assert_eq!(get_pc(&mut bus), 0x0FF0);
    set_acc(&mut bus, 0x0F);
    assert_eq!(map_acc(&mut bus, |a| !a), 0x0F);
    assert_eq!(get_acc(&mut bus), 0xF0);
    assert!(bus.log.is_empty());
}

#[test]
fn offsets_wrap_round_the_register() {
    let mut bus = memory(&[]);
    set_pc(&mut bus, 0xFFFF);
    assert_eq!(offset_pc(&mut bus, 1), 0xFFFF);
    assert_eq!(get_pc(&mut bus), 0x0000);
    assert_eq!(offset_pc(&mut bus, -1), 0x0000);
    assert_eq!(get_pc(&mut bus), 0xFFFF);
    offset_pc(&mut bus, 0x10002);
    assert_eq!(get_pc(&mut bus), 0x0001);
    offset_pc(&mut bus, -0x20003);
    assert_eq!(get_pc(&mut bus), 0xFFFE);
    set_sp(&mut bus, 0x00);
    offset_sp(&mut bus, -1);
    assert_eq!(get_sp(&mut bus), 0xFF);
    offset_sp(&mut bus, 257);
    assert_eq!(get_sp(&mut bus), 0x00);
    offset_sp(&mut bus, i64::MIN);
    assert_eq!(get_sp(&mut bus), 0x00);
    offset_sp(&mut bus, i64::MAX);
    assert_eq!(get_sp(&mut bus), 0xFF);
}

#[test]
fn the_counters_wrap_as_well() {
    let mut bus = memory(&[]);
    assert_eq!(update_cycles(&mut bus, 5), 0);
    assert_eq!(update_cycles(&mut bus, -2), 5);
    assert_eq!(get_cycles(&mut bus), 3);
    assert_eq!(update_clock(&mut bus, -1), 0);
    assert_eq!(get_clock(&mut bus), u64::MAX);
    update_clock(&mut bus, 1);
    assert_eq!(get_clock(&mut bus), 0);
}

#[test]
fn every_flag_has_its_bit() {
    let flags = [
        (Flag::Carry, 0x01),
        (Flag::Zero, 0x02),
        (Flag::InterruptDisable, 0x04),
        (Flag::DecimalMode, 0x08),
        (Flag::BreakCmd, 0x10),
        (Flag::Overflow, 0x40),
        (Flag::Negative, 0x80),
    ];
    for (flag, bit) in flags {
        let mut bus = memory(&[]);
        assert!(!get_flag(&mut bus, flag));
        set_flag(&mut bus, flag, true);
        assert_eq!(get_ps(&mut bus), bit);
        assert!(get_flag(&mut bus, flag));
        bus.cpu.registers.ps = 0xFF;
        set_flag(&mut bus, flag, false);
        assert_eq!(get_ps(&mut bus), 0xFF & !bit);
        assert!(!get_flag(&mut bus, flag));
    }
}

#[test]
fn the_stack_grows_down_from_where_the_pointer_is() {
    let mut bus = memory(&[]);
    set_sp(&mut bus, 0x01);
    write_to_stack(&mut bus, 0xAA);
    write_to_stack(&mut bus, 0xBB);
    write_to_stack(&mut bus, 0xCC);
    assert_eq!(bus.ram[0x0101], 0xAA);
    assert_eq!(bus.ram[0x0100], 0xBB);
    assert_eq!(bus.ram[0x01FF], 0xCC);
    assert_eq!(get_sp(&mut bus), 0xFE);
    assert_eq!(read_from_stack(&mut bus), 0xCC);
    assert_eq!(read_from_stack(&mut bus), 0xBB);
    assert_eq!(read_from_stack(&mut bus), 0xAA);
    assert_eq!(get_sp(&mut bus), 0x01);
    assert_eq!(
        bus.log,
        vec![
            Access::Write { address: 0x0101, byte: 0xAA },
            Access::Write { address: 0x0100, byte: 0xBB },
            Access::Write { address: 0x01FF, byte: 0xCC },
            Access::Read { address: 0x01FF, byte: 0xCC },
            Access::Read { address: 0x0100, byte: 0xBB },
            Access::Read { address: 0x0101, byte: 0xAA },
        ]
    );
}

#[test]
fn an_instruction_occupies_the_processor_for_its_cycles() {
    // LDA $1234 takes four cycles.
    let mut bus = memory(&[(0x0200, 0xAD), (0x0201, 0x34), (0x0202, 0x12), (0x1234, 0x80), (0x0203, 0xEA)]);
    set_pc(&mut bus, 0x0200);
    tick(&mut bus);
    assert_eq!(bus.cpu.registers.acc, 0x80);
    assert_eq!(bus.cpu.registers.pc, 0x0203);
    assert_eq!(bus.cpu.registers.ps, 0x80);
    assert_eq!(bus.cpu.cycles, 3);
    assert!(!get_complete(&mut bus));
    assert_eq!(bus.log.len(), 4);
    for left in [2, 1, 0] {
        tick(&mut bus);
        assert_eq!(bus.cpu.cycles, left);
        assert_eq!(bus.cpu.registers.pc, 0x0203);
        assert_eq!(bus.log.len(), 4);
    }
    assert!(get_complete(&mut bus));
    assert_eq!(bus.cpu.clock, 4);
    tick(&mut bus);
    assert_eq!(bus.cpu.registers.pc, 0x0204);
    assert_eq!(bus.cpu.cycles, 1);
    assert_eq!(bus.cpu.clock, 5);
}

#[test]
fn only_reads_through_an_index_pay_for_a_page_crossing() {
    // LDA $12FF,X and STA $12FF,X with X = 1.
    let mut bus = memory(&[(0x0200, 0xBD), (0x0201, 0xFF), (0x0202, 0x12), (0x1300, 0x55)]);
    set_pc(&mut bus, 0x0200);
    bus.cpu.registers.idx = 1;
    tick(&mut bus);
    assert_eq!(bus.cpu.registers.acc, 0x55);
    assert_eq!(bus.cpu.cycles, 4);
    assert!(get_super_instruction(&mut bus));
    assert_eq!(bus.log[3], Access::Read { address: 0x1200, byte: 0x00 });
    assert_eq!(bus.log[4], Access::Read { address: 0x1300, byte: 0x55 });
    let mut bus = memory(&[(0x0200, 0x9D), (0x0201, 0xFF), (0x0202, 0x12)]);
    set_pc(&mut bus, 0x0200);
    bus.cpu.registers.idx = 1;
    bus.cpu.registers.acc = 0x66;
    tick(&mut bus);
    assert_eq!(bus.ram[0x1300], 0x66);
    assert_eq!(bus.cpu.cycles, 4);
    assert!(!get_super_instruction(&mut bus));
    assert_eq!(bus.log.len(), 5);
}

#[test]
fn a_byte_that_is_no_instruction_takes_one_cycle() {
    for opcode in [0x02u8, 0x03, 0x80, 0xFF] {
        let mut bus = memory(&[(0x0200, opcode)]);
        set_pc(&mut bus, 0x0200);
        bus.cpu.registers.ps = 0x24;
        tick(&mut bus);
        assert_eq!(bus.cpu.registers.pc, 0x0201);
        assert_eq!(bus.cpu.registers.ps, 0x24);
        assert_eq!(bus.cpu.cycles, 0);
        assert_eq!(bus.log, vec![Access::Read { address: 0x0200, byte: opcode }]);
        assert_eq!(lookup(opcode).operation, Operation::Undefined);
    }
}

#[test]
fn execute_runs_an_opcode_that_is_read_already() {
    let mut bus = memory(&[(0x0300, 0x42)]);
    set_pc(&mut bus, 0x0300);
    execute(&mut bus, 0xA9);
    assert_eq!(bus.cpu.registers.acc, 0x42);
    assert_eq!(bus.cpu.registers.pc, 0x0301);
    assert_eq!(bus.cpu.cycles, 2);
    assert_eq!(bus.log, vec![Access::Read { address: 0x0300, byte: 0x42 }]);
}

#[test]
fn the_table_knows_the_documented_opcodes() {
    let lda = lookup(0xB1);
    assert_eq!(lda.operation, Operation::Lda);
    assert_eq!(lda.mode, AddrMode::IndirectY);
    assert_eq!(lda.cycles, 5);
    assert!(lda.page_penalty);
    let sta = lookup(0x91);
    assert_eq!(sta.operation, Operation::Sta);
    assert_eq!(sta.cycles, 6);
    assert!(!sta.page_penalty);
    let tsx = lookup(0xBA);
    assert_eq!(tsx.operation, Operation::Tsx);
    assert_eq!(tsx.mode, AddrMode::Implicit);
    let documented = (0..=255u8).filter(|op| lookup(*op).operation != Operation::Undefined).count();
    assert_eq!(documented, 151);
}

#[test]
fn the_interrupt_saves_the_program_and_enters_the_handler() {
    let mut bus = memory(&[(0xFFFA, 0x00), (0xFFFB, 0x90)]);
    set_pc(&mut bus, 0x1234);
    set_sp(&mut bus, 0xFD);
    bus.cpu.registers.ps = 0xD3;
    bus.cpu.cycles = 2;
    nmi(&mut bus);
    assert_eq!(bus.cpu.registers.pc, 0x9000);
    assert_eq!(bus.cpu.registers.sp, 0xFA);
    assert_eq!(bus.cpu.registers.ps, 0xD7);
    assert_eq!(bus.cpu.cycles, 9);
    assert_eq!(
        bus.log,
        vec![
            Access::Write { address: 0x01FD, byte: 0x12 },
            Access::Write { address: 0x01FC, byte: 0x34 },
            Access::Write { address: 0x01FB, byte: 0xE3 },
            Access::Read { address: 0xFFFA, byte: 0x00 },
            Access::Read { address: 0xFFFB, byte: 0x90 },
        ]
    );
}

#[test]
fn a_reset_starts_the_program_at_its_vector() {
    let mut bus = memory(&[(0xFFFC, 0x34), (0xFFFD, 0x12)]);
    bus.cpu.registers.acc = 9;
    bus.cpu.cycles = 3;
    reset(&mut bus);
    assert_eq!(bus.cpu.registers.pc, 0x1234);
    assert_eq!(bus.cpu.registers.sp, 0xFD);
    assert_eq!(bus.cpu.registers.ps, 0x04);
    assert_eq!(bus.cpu.registers.acc, 9);
    assert_eq!(bus.cpu.cycles, 7);
    assert!(!bus.cpu.context.complete);
    assert_eq!(
        bus.log,
        vec![
            Access::Read { address: 0xFFFC, byte: 0x34 },
            Access::Read { address: 0xFFFD, byte: 0x12 },
        ]
    );
}

#[test]
fn a_subroutine_call_resolves_its_target_before_it_pushes() {
    // JSR $0155 with the stack pointer at 0x55: the pushes overwrite the target address
    // only after it is read.
    let mut bus = memory(&[(0x0153, 0x20), (0x0154, 0x55), (0x0155, 0x01)]);
    set_pc(&mut bus, 0x0153);
    set_sp(&mut bus, 0x55);
    tick(&mut bus);
    assert_eq!(bus.cpu.registers.pc, 0x0155);
    assert_eq!(bus.cpu.registers.sp, 0x53);
    assert_eq!(bus.ram[0x0155], 0x01);
    assert_eq!(bus.ram[0x0154], 0x55);
    assert_eq!(
        bus.log,
        vec![
            Access::Read { address: 0x0153, byte: 0x20 },
            Access::Read { address: 0x0154, byte: 0x55 },
            Access::Read { address: 0x0155, byte: 0x01 },
            Access::Read { address: 0x0155, byte: 0x01 },
            Access::Write { address: 0x0155, byte: 0x01 },
            Access::Write { address: 0x0154, byte: 0x55 },
        ]
    );
}
