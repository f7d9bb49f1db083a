use chip8::cpu::Cpu;
use chip8::error::{Error, Fault};
use chip8::keypad::Keypad;
use chip8::model::EngineState;
use chip8::ram::Ram;
use chip8::screen::Screen;
use chip8::timers::Timers;

struct Rig {
    cpu: Cpu,
    ram: Ram,
    screen: Screen,
    keypad: Keypad,
    timers: Timers,
}

impl Rig {
    fn with(image: &[u8]) -> Rig {
        let mut ram = Ram::new();
        ram.load(image).unwrap();
        Rig {
            cpu: Cpu::new(),
            ram,
            screen: Screen::new(),
            keypad: Keypad::new(),
            timers: Timers::new(),
        }
    }

    fn tick_with(&mut self, random: u8) -> Result<(), Error> {
        self.cpu.tick(&mut self.ram, &mut self.screen, &self.keypad, &mut self.timers, random)
    }

    fn tick(&mut self) -> Result<(), Error> {
        self.tick_with(0)
    }

    fn run(&mut self, ticks: usize) {
        for _ in 0..ticks {
            self.tick().unwrap();
        }
    }

    fn slots(&self) -> Vec<u16> {
        (0..16u8).map(|k| self.cpu.slot(k)).collect()
    }

    fn registers(&self) -> Vec<u8> {
        (0..16u8).map(|x| self.cpu.register(x)).collect()
    }

    fn lit(&self) -> Vec<(u8, u8)> {
        let mut on = Vec::new();
        for y in 0..32u8 {
            for x in 0..64u8 {
                if self.screen.pixel(x, y) {
                    on.push((x, y));
                }
            }
        }
        on
    }

    fn memory(&self) -> Vec<u8> {
        self.ram.read_range(0, 4096).unwrap()
    }
}

fn fault(fault: Fault, pc: u16, opcode: u16) -> Result<(), Error> {
    Err(Error { fault, pc, opcode })
}

#[test]
fn new_cpu_starts_at_the_load_address() {
    let cpu = Cpu::new();
    assert_eq!(cpu.pc(), 512);
    assert_eq!(cpu.i(), 0);
    assert_eq!(cpu.sp(), 0);
    assert_eq!(cpu.state(), EngineState::Running);
    for x in 0..16u8 {
        assert_eq!(cpu.register(x), 0);
    }
    for k in 0..16u8 {
        assert_eq!(cpu.slot(k), 0);
    }
}

#[test]
fn call_writes_its_place_into_the_first_free_slot() {
    let mut image = vec![0u8; 0x204];
    image[0x000..0x002].copy_from_slice(&[0x23, 0x00]);
    image[0x100..0x104].copy_from_slice(&[0x24, 0x00, 0x00, 0xEE]);
    image[0x200..0x202].copy_from_slice(&[0x00, 0xEE]);
    let mut rig = Rig::with(&image);
    rig.tick().unwrap();
    let mut expected = vec![0u16; 16];
    expected[0] = 0x200;
    assert_eq!(rig.slots(), expected);
    rig.tick().unwrap();
    expected[1] = 0x300;
    assert_eq!(rig.slots(), expected);
    // A return frees a slot and leaves what it holds.
    rig.run(2);
    assert_eq!(rig.cpu.sp(), 0);
    assert_eq!(rig.slots(), expected);
}

#[test]
fn only_a_call_writes_a_return_slot() {
    // A call and its return, so that a free slot holds something, then a
    // register write, an unmatched word and a key press.
    let mut image = vec![0u8; 0x102];
    image[0..8].copy_from_slice(&[0x23, 0x00, 0x61, 0x2A, 0xF2, 0x0A, 0x51, 0x21]);
    image[0x100..0x102].copy_from_slice(&[0x00, 0xEE]);
    let mut rig = Rig::with(&image);
    rig.run(2);
    let slots = rig.slots();
    assert_eq!(slots[0], 0x200);
    let memory = rig.memory();
    rig.tick().unwrap();
    assert_eq!(rig.cpu.register(1), 0x2A);
    assert_eq!((rig.cpu.i(), rig.cpu.sp()), (0, 0));
    assert_eq!(rig.slots(), slots);
    assert_eq!(rig.memory(), memory);
    rig.tick().unwrap();
    assert!(rig.cpu.key_press(4));
    assert_eq!(rig.slots(), slots);
    assert_eq!(rig.tick(), fault(Fault::UnmatchedOpcode, 518, 0x5121));
    assert_eq!((rig.cpu.i(), rig.cpu.sp()), (0, 0));
    assert_eq!(rig.slots(), slots);
    assert_eq!(rig.memory(), memory);
}

#[test]
fn end_to_end_load_add_jump() {
    let mut rig = Rig::with(&[0x60, 0x05, 0x61, 0x03, 0x80, 0x14, 0x12, 0x04]);
    rig.tick().unwrap();
    assert_eq!(rig.cpu.register(0), 5);
    assert_eq!(rig.cpu.pc(), 514);
    rig.tick().unwrap();
    assert_eq!(rig.cpu.register(1), 3);
    assert_eq!(rig.cpu.pc(), 516);
    rig.tick().unwrap();
    assert_eq!(rig.cpu.register(0), 8);
    assert_eq!(rig.cpu.register(15), 0);
    assert_eq!(rig.cpu.pc(), 518);
    let before = rig.registers();
    rig.tick().unwrap();
    assert_eq!(rig.cpu.pc(), 516);
    assert_eq!(rig.registers(), before);
    // The loop runs the add again on each turn.
    rig.run(2);
    assert_eq!(rig.cpu.pc(), 516);
    assert_eq!(rig.cpu.register(0), 11);
    assert_eq!(rig.cpu.register(1), 3);
}

#[test]
fn load_immediate_sets_exactly_the_byte() {
    for k in [0u8, 1, 0x7F, 0x80, 0xFF] {
        for x in [0u8, 7, 15] {
            let mut rig = Rig::with(&[0x60 | x, k]);
            rig.tick().unwrap();
            let mut expected = vec![0u8; 16];
            expected[x as usize] = k;
            assert_eq!(rig.registers(), expected);
            assert_eq!(rig.cpu.pc(), 514);
        }
    }
}

#[test]
fn add_immediate_wraps_without_flag() {
    let mut rig = Rig::with(&[0x6F, 0x01, 0x60, 0xFA, 0x70, 0x0A, 0x70, 0xFF]);
    rig.run(3);
    assert_eq!(rig.cpu.register(0), 4);
    assert_eq!(rig.cpu.register(15), 1);
    rig.tick().unwrap();
    assert_eq!(rig.cpu.register(0), 3);
    assert_eq!(rig.cpu.register(15), 1);
    assert_eq!(rig.cpu.pc(), 520);
}

#[test]
fn add_immediate_without_carry_leaves_flag_zero() {
    let mut rig = Rig::with(&[0x60, 0xFF, 0x70, 0x01]);
    rig.run(2);
    assert_eq!(rig.cpu.register(0), 0);
    assert_eq!(rig.cpu.register(15), 0);
}

#[test]
fn add_registers_sets_carry() {
    let cases = [(5u8, 3u8, 8u8, 0u8), (200, 100, 44, 1), (255, 1, 0, 1), (255, 0, 255, 0)];
    for (a, b, sum, carry) in cases {
        let mut rig = Rig::with(&[0x6F, 0x07, 0x61, a, 0x62, b, 0x81, 0x24]);
        rig.run(4);
        assert_eq!(rig.cpu.register(1), sum);
        assert_eq!(rig.cpu.register(2), b);
        assert_eq!(rig.cpu.register(15), carry);
        assert_eq!(rig.cpu.pc(), 520);
    }
}

#[test]
fn add_register_to_itself() {
    let mut rig = Rig::with(&[0x61, 0x90, 0x81, 0x14]);
    rig.run(2);
    assert_eq!(rig.cpu.register(1), 0x20);
    assert_eq!(rig.cpu.register(15), 1);
}

#[test]
fn arithmetic_into_the_flag_register_keeps_the_result() {
    // VF = 200, V1 = 100: the flag is written first and the sum last.
    let mut rig = Rig::with(&[0x6F, 0xC8, 0x61, 0x64, 0x8F, 0x14]);
    rig.run(3);
    assert_eq!(rig.cpu.register(15), 44);
    // VF = 5: shifted right into itself.
    let mut rig = Rig::with(&[0x6F, 0x05, 0x8F, 0x06]);
    rig.run(2);
    assert_eq!(rig.cpu.register(15), 2);
}

#[test]
fn flag_register_as_second_operand_is_read_before_it_is_set() {
    // V1 = 10, VF = 250: V1 += VF carries.
    let mut rig = Rig::with(&[0x61, 0x0A, 0x6F, 0xFA, 0x81, 0xF4]);
    rig.run(3);
    assert_eq!(rig.cpu.register(1), 4);
    assert_eq!(rig.cpu.register(15), 1);
}

#[test]
fn subtract_sets_flag_when_nothing_is_borrowed() {
    let cases = [(5u8, 3u8, 2u8, 1u8), (3, 5, 254, 0), (5, 5, 0, 1), (0, 1, 255, 0)];
    for (a, b, difference, flag) in cases {
        let mut rig = Rig::with(&[0x61, a, 0x62, b, 0x81, 0x25]);
        rig.run(3);
        assert_eq!(rig.cpu.register(1), difference);
        assert_eq!(rig.cpu.register(2), b);
        assert_eq!(rig.cpu.register(15), flag);
    }
}

#[test]
fn subtract_from_takes_the_other_order() {
    let cases = [(3u8, 5u8, 2u8, 1u8), (5, 3, 254, 0), (5, 5, 0, 1), (1, 0, 255, 0)];
    for (a, b, difference, flag) in cases {
        let mut rig = Rig::with(&[0x61, a, 0x62, b, 0x81, 0x27]);
        rig.run(3);
        assert_eq!(rig.cpu.register(1), difference);
        assert_eq!(rig.cpu.register(2), b);
        assert_eq!(rig.cpu.register(15), flag);
    }
}

#[test]
fn shift_right_flags_the_low_bit() {
    let cases = [(0b101u8, 0b10u8, 1u8), (4, 2, 0), (255, 127, 1), (0, 0, 0)];
    for (a, shifted, flag) in cases {
        let mut rig = Rig::with(&[0x61, a, 0x62, 0xFF, 0x81, 0x26]);
        rig.run(3);
        assert_eq!(rig.cpu.register(1), shifted);
        assert_eq!(rig.cpu.register(2), 0xFF);
        assert_eq!(rig.cpu.register(15), flag);
    }
}

#[test]
fn shift_left_flags_the_high_bit() {
    let cases = [(0x81u8, 0x02u8, 1u8), (0x40, 0x80, 0), (255, 254, 1), (0, 0, 0)];
    for (a, shifted, flag) in cases {
        let mut rig = Rig::with(&[0x61, a, 0x62, 0xFF, 0x81, 0x2E]);
        rig.run(3);
        assert_eq!(rig.cpu.register(1), shifted);
        assert_eq!(rig.cpu.register(2), 0xFF);
        assert_eq!(rig.cpu.register(15), flag);
    }
}

#[test]
fn copy_and_bitwise_operations() {
    let cases = [(0x0u8, 0b1010u8), (0x1, 0b1110), (0x2, 0b1000), (0x3, 0b0110)];
    for (low, result) in cases {
        let mut rig = Rig::with(&[0x6F, 0x09, 0x61, 0b1100, 0x62, 0b1010, 0x81, 0x20 | low]);
        rig.run(4);
        assert_eq!(rig.cpu.register(1), result);
        assert_eq!(rig.cpu.register(2), 0b1010);
        assert_eq!(rig.cpu.register(15), 9);
        assert_eq!(rig.cpu.pc(), 520);
    }
}

#[test]
fn skip_if_register_equals_immediate() {
    let mut rig = Rig::with(&[0x61, 0x2A, 0x31, 0x2A]);
    rig.run(2);
    assert_eq!(rig.cpu.pc(), 518);
    let mut rig = Rig::with(&[0x61, 0x2A, 0x31, 0x2B]);
    rig.run(2);
    assert_eq!(rig.cpu.pc(), 516);
}

#[test]
fn skip_if_register_differs_from_immediate() {
    let mut rig = Rig::with(&[0x61, 0x2A, 0x41, 0x2A]);
    rig.run(2);
    assert_eq!(rig.cpu.pc(), 516);
    let mut rig = Rig::with(&[0x61, 0x2A, 0x41, 0x2B]);
    rig.run(2);
    assert_eq!(rig.cpu.pc(), 518);
}

#[test]
fn skip_if_registers_equal() {
    let mut rig = Rig::with(&[0x61, 0x07, 0x62, 0x07, 0x51, 0x20]);
    rig.run(3);
    assert_eq!(rig.cpu.pc(), 520);
    let mut rig = Rig::with(&[0x61, 0x07, 0x62, 0x08, 0x51, 0x20]);
    rig.run(3);
    assert_eq!(rig.cpu.pc(), 518);
}

#[test]
fn skip_if_registers_unequal() {
    let mut rig = Rig::with(&[0x61, 0x07, 0x62, 0x07, 0x91, 0x20]);
    rig.run(3);
    assert_eq!(rig.cpu.pc(), 518);
    let mut rig = Rig::with(&[0x61, 0x07, 0x62, 0x08, 0x91, 0x20]);
    rig.run(3);
    assert_eq!(rig.cpu.pc(), 520);
}

#[test]
fn jump_both_variants() {
    let mut rig = Rig::with(&[0x13, 0x45]);
    rig.tick().unwrap();
    assert_eq!(rig.cpu.pc(), 0x345);
    let mut rig = Rig::with(&[0x03, 0x45]);
    rig.tick().unwrap();
    assert_eq!(rig.cpu.pc(), 0x345);
    assert_eq!(rig.cpu.sp(), 0);
}

#[test]
fn jump_with_offset_adds_register_zero() {
    let mut rig = Rig::with(&[0x60, 0x10, 0xB3, 0x00]);
    rig.run(2);
    assert_eq!(rig.cpu.pc(), 0x310);
}

#[test]
fn jump_past_memory_faults_at_the_next_fetch() {
    let mut rig = Rig::with(&[0x60, 0xFF, 0xBF, 0xFF]);
    rig.run(2);
    assert_eq!(rig.cpu.pc(), 4095 + 255);
    assert_eq!(rig.tick(), fault(Fault::OutOfBounds, 4350, 0));
    assert_eq!(rig.cpu.pc(), 4350);
}

#[test]
fn fetch_needs_both_bytes_inside_memory() {
    let mut rig = Rig::with(&[0x1F, 0xFF]);
    rig.tick().unwrap();
    assert_eq!(rig.cpu.pc(), 4095);
    assert_eq!(rig.tick(), fault(Fault::OutOfBounds, 4095, 0));
    let mut rig = Rig::with(&[0x1F, 0xFE]);
    rig.tick().unwrap();
    // 0000 at 4094 is a jump to 0, where the font's first word, F090, lies.
    rig.tick().unwrap();
    assert_eq!(rig.cpu.pc(), 0);
    assert_eq!(rig.tick(), fault(Fault::UnmatchedOpcode, 0, 0xF090));
}

#[test]
fn running_off_the_end_of_memory_faults() {
    let mut image = vec![0u8; 3584];
    image[0] = 0x1F;
    image[1] = 0xFE;
    image[3582] = 0x61;
    image[3583] = 0x01;
    let mut rig = Rig::with(&image);
    rig.run(2);
    assert_eq!(rig.cpu.pc(), 4096);
    assert_eq!(rig.cpu.register(1), 1);
    assert_eq!(rig.tick(), fault(Fault::OutOfBounds, 4096, 0));
}

#[test]
fn call_then_return_resumes_after_the_call() {
    let mut image = vec![0u8; 0x102];
    image[0] = 0x23;
    image[1] = 0x00;
    image[0x100] = 0x00;
    image[0x101] = 0xEE;
    let mut rig = Rig::with(&image);
    rig.tick().unwrap();
    assert_eq!(rig.cpu.pc(), 0x300);
    assert_eq!(rig.cpu.sp(), 1);
    rig.tick().unwrap();
    assert_eq!(rig.cpu.pc(), 514);
    assert_eq!(rig.cpu.sp(), 0);
}

#[test]
fn nested_calls_return_in_reverse_order() {
    let mut image = vec![0u8; 0x204];
    image[0x000..0x002].copy_from_slice(&[0x23, 0x00]);
    image[0x100..0x104].copy_from_slice(&[0x24, 0x00, 0x00, 0xEE]);
    image[0x200..0x202].copy_from_slice(&[0x00, 0xEE]);
    let mut rig = Rig::with(&image);
    rig.run(2);
    assert_eq!(rig.cpu.pc(), 0x400);
    assert_eq!(rig.cpu.sp(), 2);
    rig.tick().unwrap();
    assert_eq!(rig.cpu.pc(), 0x302);
    assert_eq!(rig.cpu.sp(), 1);
    rig.tick().unwrap();
    assert_eq!(rig.cpu.pc(), 514);
    assert_eq!(rig.cpu.sp(), 0);
}

#[test]
fn seventeenth_nested_call_overflows_the_stack() {
    let mut rig = Rig::with(&[0x22, 0x00]);
    rig.run(16);
    assert_eq!(rig.cpu.sp(), 16);
    assert_eq!(rig.tick(), fault(Fault::StackOverflow, 512, 0x2200));
    assert_eq!(rig.cpu.sp(), 16);
    assert_eq!(rig.cpu.pc(), 512);
    assert_eq!(rig.tick(), fault(Fault::StackOverflow, 512, 0x2200));
}

#[test]
fn return_without_call_underflows_the_stack() {
    let mut rig = Rig::with(&[0x00, 0xEE]);
    assert_eq!(rig.tick(), fault(Fault::StackUnderflow, 512, 0x00EE));
    assert_eq!(rig.cpu.sp(), 0);
    assert_eq!(rig.cpu.pc(), 512);
}

#[test]
fn unmatched_word_faults_and_halts() {
    for word in [0x5121u16, 0x8008, 0x800F, 0x9001, 0xE000, 0xE19F, 0xF0FF, 0xF000] {
        let mut rig = Rig::with(&[0x6A, 0x01, (word >> 8) as u8, word as u8]);
        rig.tick().unwrap();
        let memory = rig.memory();
        assert_eq!(rig.tick(), fault(Fault::UnmatchedOpcode, 514, word));
        assert_eq!(rig.cpu.pc(), 514);
        assert_eq!(rig.cpu.register(10), 1);
        assert_eq!(rig.memory(), memory);
        assert_eq!(rig.tick_with(0x55), fault(Fault::UnmatchedOpcode, 514, word));
    }
}

#[test]
fn set_index_and_add_index() {
    let mut rig = Rig::with(&[0xA1, 0x23, 0x60, 0x05, 0x6F, 0x09, 0xF0, 0x1E]);
    rig.tick().unwrap();
    assert_eq!(rig.cpu.i(), 0x123);
    rig.run(3);
    assert_eq!(rig.cpu.i(), 0x128);
    assert_eq!(rig.cpu.register(15), 9);
    assert_eq!(rig.cpu.pc(), 520);
}

#[test]
fn add_index_wraps_at_sixteen_bits() {
    // I = 0xFFF, V0 = 255, then I += V0 over and over.
    let mut rig = Rig::with(&[0xAF, 0xFF, 0x60, 0xFF, 0xF0, 0x1E, 0x12, 0x04]);
    rig.run(2);
    for _ in 0..240 {
        rig.run(2);
    }
    assert_eq!(rig.cpu.i(), 4095 + 240 * 255);
    rig.tick().unwrap();
    assert_eq!(rig.cpu.i(), 14);
    assert_eq!(rig.cpu.register(15), 0);
}

#[test]
fn glyph_address_is_five_times_the_register() {
    let mut rig = Rig::with(&[0x60, 0x0A, 0xF0, 0x29, 0x60, 0xC8, 0xF0, 0x29]);
    rig.run(2);
    assert_eq!(rig.cpu.i(), 50);
    rig.run(2);
    assert_eq!(rig.cpu.i(), 1000);
}

#[test]
fn store_bcd_writes_three_digits() {
    for (value, digits) in [(234u8, [2u8, 3, 4]), (7, [0, 0, 7]), (255, [2, 5, 5]), (0, [0, 0, 0])] {
        let mut rig = Rig::with(&[0x63, value, 0xA3, 0x00, 0xF3, 0x33]);
        rig.run(3);
        assert_eq!(rig.ram.read_range(0x300, 3).unwrap()[..], digits[..]);
        assert_eq!(rig.ram.read_byte(0x2FF), Ok(0));
        assert_eq!(rig.ram.read_byte(0x303), Ok(0));
        assert_eq!(rig.cpu.i(), 0x300);
        assert_eq!(rig.cpu.pc(), 518);
    }
}

#[test]
fn store_bcd_at_the_end_of_memory() {
    let mut rig = Rig::with(&[0x63, 0xEA, 0xAF, 0xFD, 0xF3, 0x33]);
    rig.run(3);
    assert_eq!(rig.ram.read_range(4093, 3).unwrap(), vec![2, 3, 4]);
    let mut rig = Rig::with(&[0x63, 0xEA, 0xAF, 0xFE, 0xF3, 0x33]);
    rig.run(2);
    let memory = rig.memory();
    assert_eq!(rig.tick(), fault(Fault::OutOfBounds, 516, 0xF333));
    assert_eq!(rig.memory(), memory);
    assert_eq!(rig.cpu.pc(), 516);
}

#[test]
fn dump_then_load_restores_registers() {
    let image = [
        0x60, 0x11, 0x61, 0x22, 0x62, 0x33, 0x63, 0x44, 0xA3, 0x00, 0xF2, 0x55, 0x60, 0x00, 0x61,
        0x00, 0x62, 0x00, 0x63, 0x00, 0xF2, 0x65,
    ];
    let mut rig = Rig::with(&image);
    rig.run(6);
    assert_eq!(rig.ram.read_range(0x300, 4).unwrap(), vec![0x11, 0x22, 0x33, 0]);
    assert_eq!(rig.cpu.i(), 0x300);
    rig.run(4);
    assert_eq!(rig.registers()[..4], [0, 0, 0, 0]);
    rig.tick().unwrap();
    assert_eq!(rig.registers()[..4], [0x11, 0x22, 0x33, 0]);
    assert_eq!(rig.cpu.i(), 0x300);
    assert_eq!(rig.cpu.pc(), 512 + 22);
}

#[test]
fn dump_and_load_all_sixteen_registers() {
    let mut image = Vec::new();
    for x in 0..16u8 {
        image.extend_from_slice(&[0x60 | x, 0xA0 + x]);
    }
    image.extend_from_slice(&[0xA4, 0x00, 0xFF, 0x55]);
    for x in 0..16u8 {
        image.extend_from_slice(&[0x60 | x, 0]);
    }
    image.extend_from_slice(&[0xFF, 0x65]);
    let mut rig = Rig::with(&image);
    rig.run(18);
    let expected: Vec<u8> = (0..16u8).map(|x| 0xA0 + x).collect();
    assert_eq!(rig.ram.read_range(0x400, 16).unwrap(), expected);
    rig.run(16);
    assert_eq!(rig.registers(), vec![0; 16]);
    rig.tick().unwrap();
    assert_eq!(rig.registers(), expected);
}

#[test]
fn dump_and_load_stop_at_the_end_of_memory() {
    let mut rig = Rig::with(&[0x60, 0x77, 0xAF, 0xFF, 0xF0, 0x55, 0xF1, 0x55, 0xF1, 0x65]);
    rig.run(3);
    assert_eq!(rig.ram.read_byte(4095), Ok(0x77));
    let memory = rig.memory();
    assert_eq!(rig.tick(), fault(Fault::OutOfBounds, 518, 0xF155));
    assert_eq!(rig.memory(), memory);
    let mut rig = Rig::with(&[0xAF, 0xFF, 0xF1, 0x65]);
    rig.tick().unwrap();
    assert_eq!(rig.tick(), fault(Fault::OutOfBounds, 514, 0xF165));
    assert_eq!(rig.registers(), vec![0; 16]);
}

#[test]
fn random_is_masked_by_the_immediate() {
    let mut rig = Rig::with(&[0xC0, 0x0F, 0xC1, 0xF0, 0xC2, 0x00]);
    rig.tick_with(0xAB).unwrap();
    assert_eq!(rig.cpu.register(0), 0x0B);
    rig.tick_with(0xAB).unwrap();
    assert_eq!(rig.cpu.register(1), 0xA0);
    rig.tick_with(0xFF).unwrap();
    assert_eq!(rig.cpu.register(2), 0);
    assert_eq!(rig.cpu.pc(), 518);
}

#[test]
fn draw_blits_the_sprite_at_the_index_register() {
    // Glyph 0 at (2, 1).
    let mut rig = Rig::with(&[0x60, 0x02, 0x61, 0x01, 0xA0, 0x00, 0xD0, 0x15]);
    rig.run(4);
    let mut expected = Vec::new();
    for (row, byte) in [0xF0u8, 0x90, 0x90, 0x90, 0xF0].iter().enumerate() {
        for column in 0..8u8 {
            if byte & (0x80 >> column) != 0 {
                expected.push((2 + column, 1 + row as u8));
            }
        }
    }
    assert_eq!(rig.lit(), expected);
    assert_eq!(rig.cpu.register(15), 0);
    assert_eq!(rig.cpu.i(), 0);
    assert_eq!(rig.cpu.pc(), 520);
}

#[test]
fn draw_twice_collides_and_clears() {
    let mut rig = Rig::with(&[0xA0, 0x05, 0xD0, 0x15, 0xD0, 0x15, 0xD0, 0x15]);
    rig.run(2);
    assert_eq!(rig.cpu.register(15), 0);
    // Glyph 1 is 20 60 20 20 70: eight set bits.
    assert_eq!(rig.lit().len(), 1 + 2 + 1 + 1 + 3);
    rig.tick().unwrap();
    assert_eq!(rig.cpu.register(15), 1);
    assert_eq!(rig.lit(), vec![]);
    rig.tick().unwrap();
    assert_eq!(rig.cpu.register(15), 0);
}

#[test]
fn draw_wraps_around_the_screen() {
    let mut rig = Rig::with(&[0x60, 0x7E, 0x61, 0x3F, 0xA2, 0x08, 0xD0, 0x12, 0xF0, 0xC0]);
    rig.run(4);
    assert_eq!(rig.lit(), vec![(62, 0), (63, 0), (0, 31), (1, 31), (62, 31), (63, 31)]);
}

#[test]
fn draw_of_no_rows_clears_the_flag() {
    let mut rig = Rig::with(&[0x6F, 0x01, 0xD0, 0x00]);
    rig.run(2);
    assert_eq!(rig.cpu.register(15), 0);
    assert_eq!(rig.lit(), vec![]);
}

#[test]
fn draw_past_memory_faults_and_draws_nothing() {
    let mut rig = Rig::with(&[0x6F, 0x01, 0xAF, 0xFF, 0xD0, 0x01, 0xD0, 0x02]);
    rig.run(3);
    assert_eq!(rig.cpu.register(15), 0);
    rig.screen.xor_blit(0, 0, &[0xFF]);
    let lit = rig.lit();
    assert_eq!(rig.tick(), fault(Fault::OutOfBounds, 518, 0xD002));
    assert_eq!(rig.lit(), lit);
    assert_eq!(rig.cpu.register(15), 0);
    assert_eq!(rig.cpu.pc(), 518);
}

#[test]
fn clear_screen_turns_every_pixel_off() {
    let mut rig = Rig::with(&[0xD0, 0x05, 0x00, 0xE0]);
    rig.tick().unwrap();
    assert!(!rig.lit().is_empty());
    rig.tick().unwrap();
    assert_eq!(rig.lit(), vec![]);
    assert_eq!(rig.cpu.pc(), 516);
}

#[test]
fn skip_if_key_down_and_up() {
    let image = [0x60, 0x15, 0xE0, 0x9E, 0xE0, 0xA1];
    let mut rig = Rig::with(&image);
    rig.run(3);
    assert_eq!(rig.cpu.pc(), 520);
    let mut rig = Rig::with(&image);
    rig.keypad.press(5);
    rig.run(2);
    assert_eq!(rig.cpu.pc(), 518);
    let mut rig = Rig::with(&[0x60, 0x15, 0xE0, 0xA1]);
    rig.keypad.press(5);
    rig.run(2);
    assert_eq!(rig.cpu.pc(), 516);
    let mut rig = Rig::with(&[0x60, 0x15, 0xE0, 0xA1]);
    rig.keypad.press(1);
    rig.run(2);
    assert_eq!(rig.cpu.pc(), 518);
}

#[test]
fn timers_are_written_and_read() {
    let mut rig = Rig::with(&[0x60, 0x09, 0xF0, 0x15, 0x61, 0x04, 0xF1, 0x18, 0xF2, 0x07]);
    rig.run(2);
    assert_eq!(rig.timers, Timers { delay: 9, sound: 0 });
    rig.run(2);
    assert_eq!(rig.timers, Timers { delay: 9, sound: 4 });
    rig.timers.decrement();
    rig.tick().unwrap();
    assert_eq!(rig.cpu.register(2), 8);
    assert_eq!(rig.timers, Timers { delay: 8, sound: 3 });
    assert_eq!(rig.cpu.pc(), 522);
}

#[test]
fn await_key_suspends_until_a_key_press() {
    let mut rig = Rig::with(&[0xF3, 0x0A, 0x61, 0x01]);
    assert!(!rig.cpu.key_press(9));
    assert_eq!(rig.registers(), vec![0; 16]);
    rig.tick().unwrap();
    assert_eq!(rig.cpu.state(), EngineState::AwaitingKey { x: 3 });
    assert_eq!(rig.cpu.pc(), 512);
    rig.run(5);
    assert_eq!(rig.cpu.state(), EngineState::AwaitingKey { x: 3 });
    assert_eq!(rig.cpu.pc(), 512);
    assert_eq!(rig.registers(), vec![0; 16]);
    assert!(rig.cpu.key_press(7));
    assert_eq!(rig.cpu.state(), EngineState::Running);
    assert_eq!(rig.cpu.register(3), 7);
    assert_eq!(rig.cpu.pc(), 514);
    assert!(!rig.cpu.key_press(8));
    assert_eq!(rig.cpu.register(3), 7);
    rig.tick().unwrap();
    assert_eq!(rig.cpu.register(1), 1);
    assert_eq!(rig.cpu.pc(), 516);
}
