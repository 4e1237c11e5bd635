// The single-data-transfer executor: indexing modes, loads and stores, the
// memory-mapped GPIO addresses, the out-of-bounds no-op, and its fatal
// conditions. A word is built as cond<<28 | 1<<26 | I<<25 | P<<24 | U<<23 |
// L<<20 | Rn<<16 | Rd<<12 | offset.

use arm_emu::outcome::{FatalError, MmioEvent};
use arm_emu::state::{CPU, MEMSIZE};

#[test]
fn store_and_load_round_trip_through_memory() {
    let mut cpu = CPU::new();
    cpu.set_register(0, 0xCAFEBABE);
    cpu.set_register(1, 0x100);
    // STR r0, [r1, #8] (pre-indexed, up, immediate offset)
    let str_i = (14 << 28) | (1 << 26) | (1 << 24) | (1 << 23) | (1 << 16) | (0 << 12) | 8;
    assert_eq!(cpu.single_data_transfer_instruction(&str_i), Ok(None));
    assert_eq!(cpu.get_mem_word(0x108), 0xCAFEBABE);
    assert_eq!(cpu.get_register(1), 0x100); // pre-indexing never writes back
    // LDR r2, [r1, #8]
    let ldr_i = (14 << 28) | (1 << 26) | (1 << 24) | (1 << 23) | (1 << 20) | (1 << 16) | (2 << 12)
        | 8;
    assert_eq!(cpu.single_data_transfer_instruction(&ldr_i), Ok(None));
    assert_eq!(cpu.get_register(2), 0xCAFEBABE);
}

#[test]
fn down_bit_subtracts_the_offset() {
    let mut cpu = CPU::new();
    cpu.set_register(0, 7);
    cpu.set_register(1, 0x110);
    // STR r0, [r1, #-16] (pre-indexed, down)
    let str_d = (14 << 28) | (1 << 26) | (1 << 24) | (0 << 23) | (1 << 16) | (0 << 12) | 16;
    assert_eq!(cpu.single_data_transfer_instruction(&str_d), Ok(None));
    assert_eq!(cpu.get_mem_word(0x100), 7);
}

#[test]
fn post_indexing_accesses_the_base_then_writes_it_back() {
    let mut cpu = CPU::new();
    cpu.set_register(0, 99);
    cpu.set_register(1, 0x200);
    // STR r0, [r1], #4 (post-indexed, up)
    let str_p = (14 << 28) | (1 << 26) | (0 << 24) | (1 << 23) | (1 << 16) | (0 << 12) | 4;
    assert_eq!(cpu.single_data_transfer_instruction(&str_p), Ok(None));
    assert_eq!(cpu.get_mem_word(0x200), 99); // access used the unmodified base
    assert_eq!(cpu.get_register(1), 0x204); // write-back always happens
}

#[test]
fn aliased_post_index_store_stores_the_value_before_write_back() {
    let mut cpu = CPU::new();
    cpu.set_register(1, 0x100);
    // STR r1, [r1], #4: the access sees the old r1, then r1 moves
    let str_a = (14 << 28) | (1 << 26) | (0 << 24) | (1 << 23) | (1 << 16) | (1 << 12) | 4;
    assert_eq!(cpu.single_data_transfer_instruction(&str_a), Ok(None));
    assert_eq!(cpu.get_mem_word(0x100), 0x100); // the pre-write-back value
    assert_eq!(cpu.get_register(1), 0x104);
}

#[test]
fn aliased_post_index_load_is_overwritten_by_the_write_back() {
    let mut cpu = CPU::new();
    cpu.set_mem_word(0x200, 0xFEEDF00D);
    cpu.set_register(1, 0x200);
    // LDR r1, [r1], #4: the load lands in r1, then the write-back wins
    let ldr_a = (14 << 28) | (1 << 26) | (0 << 24) | (1 << 23) | (1 << 20) | (1 << 16) | (1 << 12)
        | 4;
    assert_eq!(cpu.single_data_transfer_instruction(&ldr_a), Ok(None));
    assert_eq!(cpu.get_register(1), 0x204);
}

#[test]
fn register_offset_goes_through_the_shifter() {
    let mut cpu = CPU::new();
    cpu.set_register(0, 11);
    cpu.set_register(1, 0x100);
    cpu.set_register(3, 4);
    // STR r0, [r1, r3, LSL #2] (pre-indexed, register offset 4 << 2 = 16)
    let str_r = (14 << 28) | (1 << 26) | (1 << 25) | (1 << 24) | (1 << 23) | (1 << 16) | (0 << 12)
        | (2 << 7) | 3;
    assert_eq!(cpu.single_data_transfer_instruction(&str_r), Ok(None));
    assert_eq!(cpu.get_mem_word(0x110), 11);
}

#[test]
fn pin_select_store_logs_and_touches_no_memory() {
    let mut cpu = CPU::new();
    cpu.set_register(0, 0x12345678);
    cpu.set_register(1, 0x20200004);
    // STR r0, [r1]
    let str_i = (14 << 28) | (1 << 26) | (1 << 24) | (1 << 23) | (1 << 16) | (0 << 12);
    assert_eq!(
        cpu.single_data_transfer_instruction(&str_i),
        Ok(Some(MmioEvent::PinAccess { region: 10 }))
    );
    for loc in (0..MEMSIZE).step_by(4) {
        assert_eq!(cpu.get_mem_word(loc), 0);
    }
}

#[test]
fn pin_select_load_gets_the_address_not_memory() {
    let mut cpu = CPU::new();
    cpu.set_register(1, 0x20200000);
    // LDR r2, [r1]
    let ldr = (14 << 28) | (1 << 26) | (1 << 24) | (1 << 23) | (1 << 20) | (1 << 16) | (2 << 12);
    assert_eq!(
        cpu.single_data_transfer_instruction(&ldr),
        Ok(Some(MmioEvent::PinAccess { region: 0 }))
    );
    assert_eq!(cpu.get_register(2), 0x20200000);
}

#[test]
fn pin_on_store_logs_and_changes_nothing() {
    let mut cpu = CPU::new();
    cpu.set_register(0, 0xFFFF);
    cpu.set_register(1, 0x2020001C);
    let str_i = (14 << 28) | (1 << 26) | (1 << 24) | (1 << 23) | (1 << 16) | (0 << 12);
    assert_eq!(
        cpu.single_data_transfer_instruction(&str_i),
        Ok(Some(MmioEvent::PinOn))
    );
    // no memory slot received the value, not even a truncated address
    assert_eq!(cpu.get_mem_word(0x1C), 0);
    for loc in (0..MEMSIZE).step_by(4) {
        assert_eq!(cpu.get_mem_word(loc), 0);
    }
}

#[test]
fn pin_off_store_logs_and_changes_nothing() {
    let mut cpu = CPU::new();
    cpu.set_register(0, 1);
    cpu.set_register(1, 0x20200028);
    let str_i = (14 << 28) | (1 << 26) | (1 << 24) | (1 << 23) | (1 << 16) | (0 << 12);
    assert_eq!(
        cpu.single_data_transfer_instruction(&str_i),
        Ok(Some(MmioEvent::PinOff))
    );
    for loc in (0..MEMSIZE).step_by(4) {
        assert_eq!(cpu.get_mem_word(loc), 0);
    }
}

#[test]
fn out_of_bounds_access_is_a_logged_no_op() {
    let mut cpu = CPU::new();
    cpu.set_register(0, 55);
    cpu.set_register(1, (MEMSIZE - 4) as u32);
    // STR r0, [r1]: the first address past the accessible range
    let str_i = (14 << 28) | (1 << 26) | (1 << 24) | (1 << 23) | (1 << 16) | (0 << 12);
    assert_eq!(
        cpu.single_data_transfer_instruction(&str_i),
        Ok(Some(MmioEvent::OutOfBounds { address: (MEMSIZE - 4) as u32 }))
    );
    for loc in (0..MEMSIZE).step_by(4) {
        assert_eq!(cpu.get_mem_word(loc), 0);
    }
    assert_eq!(cpu.get_register(0), 55);
    assert_eq!(cpu.get_register(1), (MEMSIZE - 4) as u32);
    // a load from out of bounds is also a no-op
    let ldr = (14 << 28) | (1 << 26) | (1 << 24) | (1 << 23) | (1 << 20) | (1 << 16) | (2 << 12);
    assert_eq!(
        cpu.single_data_transfer_instruction(&ldr),
        Ok(Some(MmioEvent::OutOfBounds { address: (MEMSIZE - 4) as u32 }))
    );
    assert_eq!(cpu.get_register(2), 0);
}

#[test]
fn transfer_rejects_pc_as_destination() {
    let mut cpu = CPU::new();
    let str_pc = (14 << 28) | (1 << 26) | (1 << 24) | (1 << 23) | (1 << 16) | (15 << 12);
    assert_eq!(
        cpu.single_data_transfer_instruction(&str_pc),
        Err(FatalError::TransferPcDestination { instruction: str_pc })
    );
}

#[test]
fn transfer_rejects_aliased_offset_register_when_pre_indexed() {
    let mut cpu = CPU::new();
    // LDR r2, [r1, r2] (pre-indexed, register offset named r2 = Rd)
    let ldr = (14 << 28) | (1 << 26) | (1 << 25) | (1 << 24) | (1 << 23) | (1 << 20) | (1 << 16)
        | (2 << 12) | 2;
    assert_eq!(
        cpu.single_data_transfer_instruction(&ldr),
        Err(FatalError::TransferAliasedOffset { instruction: ldr })
    );
}
