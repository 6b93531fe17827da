use vm::Fault;
use vm::Instr;
use vm::Process;
use vm::State;
use vm::StepEvent;
use vm::VirtualMachine;

fn i(x: Instr) -> u8 {
    x as u8
}

fn loop_program() -> [u8; 30] {
    [
        i(Instr::call),
        i(Instr::type_int),
        i(Instr::size_8),
        8,
        i(Instr::jmp),
        i(Instr::type_int),
        i(Instr::size_8),
        29,
        i(Instr::push_u8),
        i(Instr::type_int),
        i(Instr::size_8),
        0,
        i(Instr::push_u8),
        i(Instr::type_int),
        i(Instr::size_8),
        1,
        i(Instr::add_u8),
        i(Instr::copy_u8),
        i(Instr::push_u8),
        i(Instr::type_int),
        i(Instr::size_8),
        3,
        i(Instr::neq_u8),
        i(Instr::if_jmp),
        i(Instr::type_int),
        i(Instr::size_8),
        11,
        i(Instr::pop_u8),
        i(Instr::ret),
        i(Instr::halt),
    ]
}

#[test]
fn test_test_next() {
    let program = loop_program();
    let mut process = Process::new(&program);
    assert_eq!(process.next_u8(), Instr::call as u8);
    assert_eq!(process.next_u8(), Instr::type_int as u8);
    assert_eq!(process.next_u8(), Instr::size_8 as u8);
    assert_eq!(process.next_u8(), 8);
}

#[test]
fn test_test_push_pop() {
    let program = loop_program();
    let mut process = Process::new(&program);
    process.push_u8(1);
    process.push_u16(2);
    process.push_u32(3);
    process.push_u64(4);
    assert_eq!(process.pop_u64(), 4);
    assert_eq!(process.pop_u32(), 3);
    assert_eq!(process.pop_u16(), 2);
    assert_eq!(process.pop_u8(), 1);
}

#[test]
fn test_full_program() {
    let program = loop_program();
    let mut process = Process::new(&program);
    assert_eq!(vm::run(&mut process, 100_000), Ok(true));
    assert_eq!(process.get_state(), State::Terminated);
}

#[test]
fn if_jmp_zero_lands_exactly_past_operand() {
    // The program holds only the target operand of an `if_jmp` whose
    // opcode byte has already been fetched.
    let program = [i(Instr::type_int), i(Instr::size_8), 9];
    let mem: Vec<u8> = Vec::new();
    let mut p = Process::new(&program);
    p.push_u8(0);
    assert_eq!(p.if_jmp(&mem), Ok(()));
    assert_eq!(p.program_counter, 3);
    assert_eq!(p.stack.len(), 0);
}

#[test]
fn if_jmp_nonzero_jumps_to_decoded_target() {
    let program = [i(Instr::type_int), i(Instr::size_8), 9];
    let mem: Vec<u8> = Vec::new();
    let mut p = Process::new(&program);
    p.push_u8(7);
    assert_eq!(p.if_jmp(&mem), Ok(()));
    assert_eq!(p.program_counter, 9);
    assert_eq!(p.stack.len(), 0);
}

#[test]
fn three_nested_calls_return_in_lifo_order() {
    let program = [
        // 0: call 5
        i(Instr::call),
        i(Instr::type_int),
        i(Instr::size_8),
        5,
        // 4: halt
        i(Instr::halt),
        // 5: call 10
        i(Instr::call),
        i(Instr::type_int),
        i(Instr::size_8),
        10,
        // 9: ret
        i(Instr::ret),
        // 10: call 15
        i(Instr::call),
        i(Instr::type_int),
        i(Instr::size_8),
        15,
        // 14: ret
        i(Instr::ret),
        // 15: nop, 16: ret
        i(Instr::nop),
        i(Instr::ret),
    ];
    let mut p = Process::new(&program);
    let mut mem: Vec<u8> = Vec::new();
    // three calls and one nop
    for _ in 0..3 {
        assert_eq!(vm::execute_one(&mut p, &mut mem), Ok(StepEvent::Ran));
    }
    assert_eq!(p.function_stack.len(), 3);
    assert_eq!(vm::execute_one(&mut p, &mut mem), Ok(StepEvent::Ran));
    // each ret lands on the instruction following its call
    assert_eq!(vm::execute_one(&mut p, &mut mem), Ok(StepEvent::Ran));
    assert_eq!(p.program_counter, 14);
    assert_eq!(vm::execute_one(&mut p, &mut mem), Ok(StepEvent::Ran));
    assert_eq!(p.program_counter, 9);
    assert_eq!(vm::execute_one(&mut p, &mut mem), Ok(StepEvent::Ran));
    assert_eq!(p.program_counter, 4);
    assert_eq!(p.function_stack.len(), 0);
    // halt
    assert_eq!(vm::execute_one(&mut p, &mut mem), Ok(StepEvent::Ran));
    assert_eq!(p.get_state(), State::Terminated);
}

fn scenario_a_program() -> Vec<u8> {
    let mut prog: Vec<u8> = Vec::new();
    // 0: push 255
    prog.extend([i(Instr::push_u8), i(Instr::type_int), i(Instr::size_8), 255]);
    // 4: loop: push 1; sub; copy; push 0; neq; if_jmp 4; pop
    prog.extend([i(Instr::push_u8), i(Instr::type_int), i(Instr::size_8), 1]);
    prog.push(i(Instr::sub_u8));
    prog.push(i(Instr::copy_u8));
    prog.extend([i(Instr::push_u8), i(Instr::type_int), i(Instr::size_8), 0]);
    prog.push(i(Instr::neq_u8));
    prog.extend([i(Instr::if_jmp), i(Instr::type_int), i(Instr::size_8), 4]);
    prog.push(i(Instr::pop_u8));
    // 20: push 0
    prog.extend([i(Instr::push_u8), i(Instr::type_int), i(Instr::size_8), 0]);
    // 24: loop: push 1; add; copy; push 255; neq; if_jmp 24; pop; halt
    prog.extend([i(Instr::push_u8), i(Instr::type_int), i(Instr::size_8), 1]);
    prog.push(i(Instr::add_u8));
    prog.push(i(Instr::copy_u8));
    prog.extend([i(Instr::push_u8), i(Instr::type_int), i(Instr::size_8), 255]);
    prog.push(i(Instr::neq_u8));
    prog.extend([i(Instr::if_jmp), i(Instr::type_int), i(Instr::size_8), 24]);
    prog.push(i(Instr::pop_u8));
    prog.push(i(Instr::halt));
    prog
}

#[test]
fn scenario_decrement_then_increment_terminates() {
    let prog = scenario_a_program();
    let mut p = Process::new(&prog);
    assert_eq!(vm::run(&mut p, 100_000), Ok(true));
    assert_eq!(p.get_state(), State::Terminated);
    assert_eq!(p.stack.len(), 0);
}

fn scenario_b_program() -> Vec<u8> {
    let mut prog: Vec<u8> = Vec::new();
    // 0: push 5
    prog.extend([i(Instr::push_u8), i(Instr::type_int), i(Instr::size_8), 5]);
    // 4: loop: push 1; sub; copy; push 0; neq; if_jmp 4; pop
    prog.extend([i(Instr::push_u8), i(Instr::type_int), i(Instr::size_8), 1]);
    prog.push(i(Instr::sub_u8));
    prog.push(i(Instr::copy_u8));
    prog.extend([i(Instr::push_u8), i(Instr::type_int), i(Instr::size_8), 0]);
    prog.push(i(Instr::neq_u8));
    prog.extend([i(Instr::if_jmp), i(Instr::type_int), i(Instr::size_8), 4]);
    prog.push(i(Instr::pop_u8));
    // 20: spawn 28
    prog.extend([i(Instr::spawn), i(Instr::type_int), i(Instr::size_8), 28]);
    // 24: jmp 50
    prog.extend([i(Instr::jmp), i(Instr::type_int), i(Instr::size_8), 50]);
    // 28: child: push 0
    prog.extend([i(Instr::push_u8), i(Instr::type_int), i(Instr::size_8), 0]);
    // 32: loop: push 1; add; copy; push 5; neq; wait; if_jmp 32; pop; halt
    prog.extend([i(Instr::push_u8), i(Instr::type_int), i(Instr::size_8), 1]);
    prog.push(i(Instr::add_u8));
    prog.push(i(Instr::copy_u8));
    prog.extend([i(Instr::push_u8), i(Instr::type_int), i(Instr::size_8), 5]);
    prog.push(i(Instr::neq_u8));
    prog.push(i(Instr::wait));
    prog.extend([i(Instr::if_jmp), i(Instr::type_int), i(Instr::size_8), 32]);
    prog.push(i(Instr::pop_u8));
    prog.push(i(Instr::halt));
    // 50: halt
    prog.push(i(Instr::halt));
    assert_eq!(prog.len(), 51);
    prog
}

#[test]
fn scenario_spawn_terminates_with_empty_waiting_set() {
    let prog = scenario_b_program();
    let mut machine = VirtualMachine::new(&prog);
    assert_eq!(machine.run(100_000), Ok(true));
    assert_eq!(machine.process.get_state(), State::Terminated);
    assert_eq!(machine.processes.len(), 0);
}

fn scenario_c_program() -> Vec<u8> {
    let mut prog: Vec<u8> = Vec::new();
    // 0: call 5
    prog.extend([i(Instr::call), i(Instr::type_int), i(Instr::size_8), 5]);
    // 4: halt
    prog.push(i(Instr::halt));
    // 5: push 0
    prog.extend([i(Instr::push_u8), i(Instr::type_int), i(Instr::size_8), 0]);
    // 9: loop: push 1; add; copy; push 5; neq; if_jmp 9; pop; ret
    prog.extend([i(Instr::push_u8), i(Instr::type_int), i(Instr::size_8), 1]);
    prog.push(i(Instr::add_u8));
    prog.push(i(Instr::copy_u8));
    prog.extend([i(Instr::push_u8), i(Instr::type_int), i(Instr::size_8), 5]);
    prog.push(i(Instr::neq_u8));
    prog.extend([i(Instr::if_jmp), i(Instr::type_int), i(Instr::size_8), 9]);
    prog.push(i(Instr::pop_u8));
    prog.push(i(Instr::ret));
    prog
}

#[test]
fn scenario_called_function_counts_then_returns() {
    let prog = scenario_c_program();
    let mut p = Process::new(&prog);
    assert_eq!(vm::run(&mut p, 100_000), Ok(true));
    assert_eq!(p.get_state(), State::Terminated);
    assert_eq!(p.function_stack.len(), 0);
}

#[test]
fn run_without_halt_exhausts_its_step_budget() {
    // An unconditional self-jump never terminates.
    let program = [i(Instr::jmp), i(Instr::type_int), i(Instr::size_8), 0];
    let mut p = Process::new(&program);
    assert_eq!(vm::run(&mut p, 1_000), Ok(false));
    assert_ne!(p.get_state(), State::Terminated);
}

#[test]
fn run_past_end_of_program_terminates() {
    let program = [i(Instr::nop)];
    let mut p = Process::new(&program);
    assert_eq!(vm::run(&mut p, 10), Ok(true));
    assert_eq!(p.get_state(), State::Terminated);
}

#[test]
fn fault_stack_underflow() {
    let program = [i(Instr::add_u8)];
    let mut p = Process::new(&program);
    assert_eq!(vm::run(&mut p, 10), Err(Fault::StackUnderflow));
    let program = [i(Instr::ret)];
    let mut p = Process::new(&program);
    assert_eq!(vm::run(&mut p, 10), Err(Fault::StackUnderflow));
}

#[test]
fn fault_invalid_opcode() {
    let program = [250u8];
    let mut p = Process::new(&program);
    assert_eq!(vm::run(&mut p, 10), Err(Fault::InvalidOpcode));
}

#[test]
fn fault_invalid_operand() {
    // `nop` is not an operand tag.
    let program = [i(Instr::push_u8), i(Instr::nop), 1];
    let mut p = Process::new(&program);
    assert_eq!(vm::run(&mut p, 10), Err(Fault::InvalidOperand));
}

#[test]
fn fault_divide_by_zero() {
    let program = [
        i(Instr::push_u8),
        i(Instr::type_int),
        i(Instr::size_8),
        1,
        i(Instr::push_u8),
        i(Instr::type_int),
        i(Instr::size_8),
        0,
        i(Instr::div_u8),
    ];
    let mut p = Process::new(&program);
    assert_eq!(vm::run(&mut p, 10), Err(Fault::DivideByZero));
}

#[test]
fn fault_program_counter_out_of_bounds() {
    // The literal byte after the size tag is missing.
    let program = [i(Instr::push_u8), i(Instr::type_int), i(Instr::size_8)];
    let mut p = Process::new(&program);
    assert_eq!(vm::run(&mut p, 10), Err(Fault::ProgramCounterOutOfBounds));
}

#[test]
fn fault_two_simultaneously_waiting_processes() {
    let program = [
        // 0: spawn 8
        i(Instr::spawn),
        i(Instr::type_int),
        i(Instr::size_8),
        8,
        i(Instr::halt),
        i(Instr::nop),
        i(Instr::nop),
        i(Instr::nop),
        // 8: child: spawn 16
        i(Instr::spawn),
        i(Instr::type_int),
        i(Instr::size_8),
        16,
        i(Instr::halt),
        i(Instr::nop),
        i(Instr::nop),
        i(Instr::nop),
        // 16: grandchild: halt
        i(Instr::halt),
    ];
    let mut machine = VirtualMachine::new(&program);
    assert_eq!(machine.run(1_000), Err(Fault::SchedulerInvariantViolated));
}

#[test]
fn pointer_operand_reads_the_arena() {
    let program = [i(Instr::push_u16), i(Instr::type_ptr), i(Instr::size_8), 0, i(Instr::halt)];
    let memory = vec![0xAB, 0xCD];
    let mut machine = VirtualMachine::with_memory(&program, memory);
    assert_eq!(machine.run(10), Ok(true));
    assert_eq!(machine.process.stack, vec![0xAB, 0xCD]);
}

#[test]
fn pointer_offset_operand_adds_base_and_offset() {
    let program = [
        i(Instr::push_u8),
        i(Instr::type_ptr_off),
        i(Instr::size_8),
        2,
        i(Instr::size_8),
        1,
        i(Instr::halt),
    ];
    let memory = vec![0, 0, 0, 99];
    let mut machine = VirtualMachine::with_memory(&program, memory);
    assert_eq!(machine.run(10), Ok(true));
    assert_eq!(machine.process.stack, vec![99]);
}

#[test]
fn indirect_pointer_operand_dereferences_twice() {
    let program = [i(Instr::push_u8), i(Instr::type_idr_ptr), i(Instr::size_8), 0, i(Instr::halt)];
    // eight bytes at 0 hold the address 8, big-endian; the value lives at 8
    let memory = vec![0, 0, 0, 0, 0, 0, 0, 8, 0x2A];
    let mut machine = VirtualMachine::with_memory(&program, memory);
    assert_eq!(machine.run(10), Ok(true));
    assert_eq!(machine.process.stack, vec![0x2A]);
}

#[test]
fn pointer_operand_outside_arena_is_a_fault() {
    let program = [i(Instr::push_u8), i(Instr::type_ptr), i(Instr::size_8), 9, i(Instr::halt)];
    let memory = vec![1, 2, 3];
    let mut machine = VirtualMachine::with_memory(&program, memory);
    assert_eq!(machine.run(10), Err(Fault::InvalidOperand));
}

#[test]
fn register_operand_reads_the_register_file() {
    let program = [i(Instr::push_u8), i(Instr::type_reg), 5, i(Instr::halt)];
    let mut machine = VirtualMachine::new(&program);
    machine.process.regs.set_u8(5, 77);
    assert_eq!(machine.run(10), Ok(true));
    assert_eq!(machine.process.stack, vec![77]);
}

#[test]
fn register_write_targets_the_register_file() {
    let program = [i(Instr::type_reg), 3];
    let mut p = Process::new(&program);
    let mut mem: Vec<u8> = Vec::new();
    assert_eq!(p.write_u8(&mut mem, 42), Ok(()));
    assert_eq!(p.regs.get_u8(3), 42);
}

#[test]
fn immediate_is_not_a_write_target() {
    let program = [i(Instr::type_int), i(Instr::size_8), 1];
    let mut p = Process::new(&program);
    let mut mem: Vec<u8> = Vec::new();
    assert_eq!(p.write_u8(&mut mem, 42), Err(Fault::InvalidOperand));
}

#[test]
fn load_and_save_move_values_through_the_arena() {
    let program: [u8; 0] = [];
    let mut p = Process::new(&program);
    let mut mem = vec![9, 7];
    p.push_u64(1);
    assert_eq!(p.load_u8(&mem), Ok(()));
    assert_eq!(p.pop_u8(), 7);
    p.push_u8(5);
    p.push_u64(0);
    assert_eq!(p.save_u8(&mut mem), Ok(()));
    assert_eq!(mem, vec![5, 7]);
}

#[test]
fn immediate_sizes_truncate_and_extend() {
    // a 16-bit literal read as an 8-bit value keeps its low byte
    let program = [
        i(Instr::push_u8),
        i(Instr::type_int),
        i(Instr::size_16),
        0xAB,
        0xCD,
        i(Instr::halt),
    ];
    let mut machine = VirtualMachine::new(&program);
    assert_eq!(machine.run(10), Ok(true));
    assert_eq!(machine.process.stack, vec![0xCD]);
    // an 8-bit literal read as a 16-bit value zero-extends
    let program = [
        i(Instr::push_u16),
        i(Instr::type_int),
        i(Instr::size_8),
        0xAB,
        i(Instr::halt),
    ];
    let mut machine = VirtualMachine::new(&program);
    assert_eq!(machine.run(10), Ok(true));
    assert_eq!(machine.process.stack, vec![0x00, 0xAB]);
}

#[test]
fn float_opcodes_surface_as_deferred_events() {
    let program = [i(Instr::add_f32)];
    let mut p = Process::new(&program);
    let mut mem: Vec<u8> = Vec::new();
    assert_eq!(vm::execute_one(&mut p, &mut mem), Ok(StepEvent::Float(Instr::add_f32)));
    // the single-process runner reports them as invalid
    let mut p = Process::new(&program);
    assert_eq!(vm::run(&mut p, 10), Err(Fault::InvalidOpcode));
}
