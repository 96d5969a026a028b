use lc3vm::memory::Memory;
use lc3vm::{DecodeGap, LC3, MR, U16_MAX};

const KBSR: usize = 0xFE00;
const KBDR: usize = 0xFE02;

#[test]
fn new_memory_is_zeroed() {
    let memory = Memory::new();
    assert_eq!(memory.contents.len(), U16_MAX);
    assert!(memory.contents.iter().all(|cell| *cell == 0));
    assert_eq!(memory.keyboard, 0);
}

#[test]
fn set_then_get() {
    let mut memory = Memory::new();
    memory.set(0, 7);
    memory.set(0xFFFF, 9);
    memory.set(0x3000, 0xABCD);
    assert_eq!(memory.get(0), 7);
    assert_eq!(memory.get(0xFFFF), 9);
    assert_eq!(memory.get(0x3000), 0xABCD);
    assert_eq!(memory.get(0x3001), 0);
    // a read of a plain cell changes nothing
    assert_eq!(memory.get(0x3000), 0xABCD);
}

#[test]
fn getref_hands_out_the_cell() {
    let mut memory = Memory::new();
    memory.set(10, 5);
    {
        let cell = memory.getref(10);
        assert_eq!(*cell, 5);
        *cell = 6;
    }
    assert_eq!(memory.contents[10], 6);
    assert_eq!(memory.contents[9], 0);
    assert_eq!(memory.contents[11], 0);
}

#[test]
fn status_read_with_a_key_waiting() {
    let mut memory = Memory::new();
    memory.keyboard = 0x41;
    assert_eq!(memory.get(KBSR), 0x8000);
    assert_eq!(memory.contents[KBSR], 0x8000);
    assert_eq!(memory.contents[KBDR], 0x41);
    assert_eq!(memory.keyboard, 0);
    // the data register is a plain cell
    assert_eq!(memory.get(KBDR), 0x41);
    assert_eq!(memory.contents[KBSR], 0x8000);
}

#[test]
fn status_read_without_a_key() {
    let mut memory = Memory::new();
    memory.set(KBSR, 0x8000);
    memory.set(KBDR, 0x41);
    assert_eq!(memory.get(KBSR), 0);
    assert_eq!(memory.contents[KBSR], 0);
    // the data register keeps the last key
    assert_eq!(memory.contents[KBDR], 0x41);
    assert_eq!(memory.keyboard, 0);
}

#[test]
fn a_key_is_seen_once() {
    let mut memory = Memory::new();
    memory.keyboard = 0x61;
    assert_eq!(memory.get(KBSR), 0x8000);
    assert_eq!(memory.get(KBSR), 0);
    assert_eq!(memory.contents[KBDR], 0x61);
}

#[test]
fn a_key_waits_until_the_status_is_read() {
    let mut memory = Memory::new();
    memory.keyboard = 0x62;
    assert_eq!(memory.get(0x3000), 0);
    assert_eq!(memory.get(KBDR), 0);
    memory.set(0x3000, 1);
    assert_eq!(memory.keyboard, 0x62);
    assert_eq!(memory.get(KBSR), 0x8000);
    assert_eq!(memory.get(KBDR), 0x62);
}

#[test]
fn set_stores_to_the_keyboard_registers_directly() {
    let mut memory = Memory::new();
    memory.keyboard = 0x63;
    memory.set(KBSR, 0x1234);
    memory.set(KBDR, 0x5678);
    assert_eq!(memory.contents[KBSR], 0x1234);
    assert_eq!(memory.contents[KBDR], 0x5678);
    assert_eq!(memory.keyboard, 0x63);
}

#[test]
fn getref_of_the_status_register_polls() {
    let mut memory = Memory::new();
    memory.keyboard = 0x64;
    {
        let cell = memory.getref(KBSR);
        assert_eq!(*cell, 0x8000);
        *cell = 1;
    }
    assert_eq!(memory.contents[KBSR], 1);
    assert_eq!(memory.contents[KBDR], 0x64);
    assert_eq!(memory.keyboard, 0);
}

#[test]
fn get_memory_reads_through_the_keyboard() {
    let mut lc3 = LC3::new();
    lc3.memory.set(77, 88);
    assert_eq!(lc3.get_memory(77), 88);
    lc3.memory.keyboard = 0x0A;
    assert_eq!(lc3.get_memory(MR::KBSR.address()), 0x8000);
    assert_eq!(lc3.get_memory(MR::KBDR.address()), 0x0A);
    assert_eq!(lc3.get_memory(MR::KBSR.address()), 0);
}

#[test]
fn polling_instructions_are_recognised() {
    let mut lc3 = LC3::new();
    // LD R0, #-1 with PC = 0xFE01 reads 0xFE00
    lc3.register[8] = 0xFE01;
    assert!(lc3.polls(0b0010_000_111111111));
    assert!(!lc3.polls(0b0010_000_000000000));
    // STI reads its pointer
    assert!(lc3.polls(0b1011_000_111111111));
    // ST, LEA and BR with the same offset read nothing
    assert!(!lc3.polls(0b0011_000_111111111));
    assert!(!lc3.polls(0b1110_000_111111111));
    assert!(!lc3.polls(0b0000_111_111111111));
    // LDR R0, R1, #0 with R1 = 0xFE00
    lc3.register[1] = 0xFE00;
    assert!(lc3.polls(0b0110_000_001_000000));
    assert!(!lc3.polls(0b0110_000_001_000001));
    assert!(!lc3.polls(0b0110_000_001_111111));
    lc3.register[1] = 0xFE01;
    assert!(lc3.polls(0b0110_000_001_111111));
    // LDI whose pointer is the status register's address
    lc3.register[8] = 0x3000;
    lc3.memory.set(0x3001, 0xFE00);
    assert!(lc3.polls(0b1010_000_000000001));
    assert!(!lc3.polls(0b1010_000_000000010));
    // LDI whose pointer lies in the status register
    lc3.register[8] = 0xFE00;
    assert!(lc3.polls(0b1010_000_000000000));
}

#[test]
fn polling_steps_are_recognised() {
    let mut lc3 = LC3::new();
    assert!(!lc3.step_polls());
    // the fetch itself reads the status register
    lc3.register[8] = 0xFE00;
    assert!(lc3.step_polls());
    // LDI R2, #0 at 0x3000: the pointer at 0x3001 is the status register
    lc3.register[8] = 0x3000;
    lc3.memory.set(0x3000, 0b1010_010_000000000);
    lc3.memory.set(0x3001, 0xFE00);
    assert!(lc3.step_polls());
    lc3.memory.set(0x3001, 0xFE02);
    assert!(!lc3.step_polls());
    // LD R0, #-2 at 0xFE01 reads 0xFE00, counted from the advanced PC
    lc3.register[8] = 0xFE01;
    lc3.memory.set(0xFE01, 0b0010_000_111111110);
    assert!(lc3.step_polls());
    lc3.memory.set(0xFE01, 0b0010_000_111111111);
    assert!(!lc3.step_polls());
}

#[test]
fn a_program_waits_for_a_key() {
    // 0x3000  LDI R0, #2      ; R0 = mem[mem[0x3003]] = status
    // 0x3001  BR zp, #-2      ; no key yet: back to 0x3000
    // 0x3002  LDI R1, #1      ; R1 = mem[mem[0x3004]] = data
    // 0x3003  0xFE00
    // 0x3004  0xFE02
    let mut lc3 = LC3::new();
    lc3.memory.set(0x3000, 0b1010_000_000000010);
    lc3.memory.set(0x3001, 0b0000_011_111111110);
    lc3.memory.set(0x3002, 0b1010_001_000000001);
    lc3.memory.set(0x3003, 0xFE00);
    lc3.memory.set(0x3004, 0xFE02);

    // first round: nothing typed
    assert!(lc3.step_polls());
    assert_eq!(lc3.step(), Ok(()));
    assert_eq!(lc3.register[0], 0);
    assert!(!lc3.step_polls());
    assert_eq!(lc3.step(), Ok(()));
    assert_eq!(lc3.register[8], 0x3000);

    // second round: a key arrived
    assert!(lc3.step_polls());
    lc3.memory.keyboard = 0x71;
    assert_eq!(lc3.step(), Ok(()));
    assert_eq!(lc3.register[0], 0x8000);
    assert_eq!(lc3.register[9], 4);
    assert!(!lc3.step_polls());
    assert_eq!(lc3.step(), Ok(()));
    assert_eq!(lc3.register[8], 0x3002);
    assert!(!lc3.step_polls());
    assert_eq!(lc3.step(), Ok(()));
    assert_eq!(lc3.register[1], 0x71);
    assert_eq!(lc3.register[9], 1);
    assert_eq!(lc3.register[8], 0x3003);
}

#[test]
fn an_unpolled_instruction_leaves_the_key_alone() {
    let words: [u16; 12] = [
        0b0001_000_001_1_01111,
        0b0101_000_000_1_01010,
        0b1001_000_000_111111,
        0b0000_111_000000001,
        0b1100_000_100_000000,
        0b0100_1_00000000001,
        0b0010_000_000000001,
        0b1010_000_000000001,
        0b0110_000_001_000001,
        0b1110_000_000000001,
        0b0011_000_000000001,
        0b1011_000_000000001,
    ];
    for word in words {
        let mut quiet = LC3::new();
        let mut typed = LC3::new();
        typed.memory.keyboard = 0x55;
        assert!(!quiet.polls(word));
        assert!(!typed.polls(word));
        assert_eq!(quiet.execute(word), typed.execute(word));
        assert_eq!(quiet.register, typed.register);
        assert!(quiet.memory.contents == typed.memory.contents);
        assert_eq!(quiet.memory.keyboard, 0);
        assert_eq!(typed.memory.keyboard, 0x55);
    }
}

#[test]
fn a_fetch_from_the_status_register() {
    let mut lc3 = LC3::new();
    lc3.register[8] = 0xFE00;
    lc3.memory.keyboard = 0x41;
    assert!(lc3.step_polls());
    // the word fetched is the status itself, which selects RTI
    assert_eq!(lc3.step(), Err(DecodeGap::Privileged));
    assert_eq!(lc3.register[8], 0xFE01);
    assert_eq!(lc3.memory.contents[KBDR], 0x41);
    assert_eq!(lc3.memory.keyboard, 0);

    // without a key the word fetched is zero, a branch never taken
    lc3.register[8] = 0xFE00;
    assert_eq!(lc3.step(), Ok(()));
    assert_eq!(lc3.register[8], 0xFE01);
    assert_eq!(lc3.memory.contents[KBSR], 0);
}
