//! The trampoline of a slot, written as a short program and run on a small
//! model of the processor, to show what the transfer leaves of the caller's
//! state.
//!
//! A trampoline is entered in place of the target function. It asks the
//! resolver for the address to go to and jumps there. The caller's arguments
//! must arrive untouched, and the jump must not leave anything on the stack,
//! so that the target returns to the caller.

use crate::definition::Machine;
use crate::text::decimal;
use crate::text::decimal_string;
use vstd::prelude::*;

verus! {

/// The registers a trampoline touches.
#[derive(Debug, Clone, Copy, PartialEq, Eq, Structural)]
pub enum Register {
    Rax,
    Rcx,
    Rdx,
    R8,
    R9,
    R10,
    R11,
    Eax,
    Ecx,
}

/// One step of a trampoline.
#[derive(Debug, Clone, Copy, PartialEq, Eq, Structural)]
pub enum Instruction {
    /// Push the register onto the stack.
    Push(Register),
    /// Pop the top of the stack into the register.
    Pop(Register),
    /// Load the address of the resolver into the register.
    LoadResolver(Register),
    /// Load what the slot holds into the register: zero while unresolved.
    LoadSlot(Register),
    /// Lower the stack pointer by this many bytes.
    Reserve(u8),
    /// Raise the stack pointer by this many bytes.
    Release(u8),
    /// Call the address in the register.
    Call(Register),
    /// Jump to the address in the register.
    Jump(Register),
}

/// Registers and the words pushed since the trampoline was entered; the last
/// word is the top of the stack.
pub struct Cpu {
    pub registers: spec_fn(Register) -> u64,
    pub stack: Seq<u64>,
}

/// What surrounds one entry into a trampoline: where the resolver is, what
/// the slot holds, and what a call of the resolver does. The resolver answers
/// with `target`; like any callee it may leave anything in the registers and
/// in the part of the caller's stack that the calling convention hands to it.
pub struct Entry {
    pub resolver: u64,
    pub slot: u64,
    pub target: u64,
    pub clobbered: spec_fn(Register) -> u64,
    pub scribbled: Seq<u64>,
}

/// Where control goes when the trampoline is left, and in what state.
pub struct Transfer {
    pub target: u64,
    pub registers: spec_fn(Register) -> u64,
    pub stack: Seq<u64>,
}

/// The size of a stack word in bytes.
pub open spec fn word_size(machine: Machine) -> int {
    match machine {
        Machine::I386 => 4,
        Machine::Amd64 => 8,
    }
}

/// How many words on top of the caller's stack a callee may write to: on
/// 64-bit the four words of shadow space, on 32-bit its one argument.
pub open spec fn callee_words(machine: Machine) -> int {
    match machine {
        Machine::I386 => 1,
        Machine::Amd64 => 4,
    }
}

/// The register in which a callee returns its result.
pub open spec fn result_register(machine: Machine) -> Register {
    match machine {
        Machine::I386 => Register::Eax,
        Machine::Amd64 => Register::Rax,
    }
}

/// Whether the resolver can be called in this state: on 64-bit the stack is
/// aligned to sixteen bytes once the return address is pushed, the shadow
/// space is there, and the first argument register holds the slot's content;
/// on 32-bit the slot's content is on top of the stack.
pub open spec fn call_ready(machine: Machine, entry: Entry, cpu: Cpu) -> bool {
    match machine {
        Machine::I386 => cpu.stack.len() >= 1 && cpu.stack.last() == entry.slot,
        Machine::Amd64 => cpu.stack.len() >= 4 && cpu.stack.len() % 2 == 1 && (
        cpu.registers)(Register::Rcx) == entry.slot,
    }
}

/// A register file with one register set.
pub open spec fn with_register(
    registers: spec_fn(Register) -> u64,
    register: Register,
    value: u64,
) -> spec_fn(Register) -> u64 {
    |r: Register|
        if r == register {
            value
        } else {
            registers(r)
        }
}

/// The state after one instruction other than a jump, or nothing where the
/// instruction faults: a pop from an empty stack, a stack pointer moved by
/// part of a word or above where it was on entry, a call of anything but the
/// resolver or in a state that is not ready for it.
pub open spec fn step(machine: Machine, entry: Entry, cpu: Cpu, instruction: Instruction) -> Option<
    Cpu,
> {
    match instruction {
        Instruction::Push(r) => Some(
            Cpu { registers: cpu.registers, stack: cpu.stack.push((cpu.registers)(r)) },
        ),
        Instruction::Pop(r) => if cpu.stack.len() > 0 {
            Some(
                Cpu {
                    registers: with_register(cpu.registers, r, cpu.stack.last()),
                    stack: cpu.stack.drop_last(),
                },
            )
        } else {
            None
        },
        Instruction::LoadResolver(r) => Some(
            Cpu { registers: with_register(cpu.registers, r, entry.resolver), stack: cpu.stack },
        ),
        Instruction::LoadSlot(r) => Some(
            Cpu { registers: with_register(cpu.registers, r, entry.slot), stack: cpu.stack },
        ),
        Instruction::Reserve(bytes) => if bytes as int % word_size(machine) == 0 {
            Some(
                Cpu {
                    registers: cpu.registers,
                    stack: cpu.stack + Seq::new(
                        (bytes as int / word_size(machine)) as nat,
                        |i: int| 0u64,
                    ),
                },
            )
        } else {
            None
        },
        Instruction::Release(bytes) => if bytes as int % word_size(machine) == 0 && bytes as int
            / word_size(machine) <= cpu.stack.len() {
            Some(
                Cpu {
                    registers: cpu.registers,
                    stack: cpu.stack.subrange(
                        0,
                        cpu.stack.len() - bytes as int / word_size(machine),
                    ),
                },
            )
        } else {
            None
        },
        Instruction::Call(r) => if (cpu.registers)(r) == entry.resolver && call_ready(
            machine,
            entry,
            cpu,
        ) && entry.scribbled.len() == callee_words(machine) {
            Some(
                Cpu {
                    registers: with_register(
                        entry.clobbered,
                        result_register(machine),
                        entry.target,
                    ),
                    stack: cpu.stack.subrange(0, cpu.stack.len() - callee_words(machine))
                        + entry.scribbled,
                },
            )
        } else {
            None
        },
        Instruction::Jump(_) => None,
    }
}

/// Runs a program from instruction `at` until it jumps; nothing where an
/// instruction faults or the program ends without a jump.
pub open spec fn run(
    machine: Machine,
    entry: Entry,
    program: Seq<Instruction>,
    at: int,
    cpu: Cpu,
) -> Option<Transfer>
    decreases program.len() - at,
{
    if at < 0 || at >= program.len() {
        None
    } else {
        match program[at] {
            Instruction::Jump(r) => Some(
                Transfer {
                    target: (cpu.registers)(r),
                    registers: cpu.registers,
                    stack: cpu.stack,
                },
            ),
            other => match step(machine, entry, cpu, other) {
                Some(next) => run(machine, entry, program, at + 1, next),
                None => None,
            },
        }
    }
}

/// The trampoline for a machine. On 64-bit the argument registers and the
/// two scratch registers are saved first, the resolver is called with the
/// slot's content over forty bytes of shadow space and padding, and the
/// registers are restored in the reverse order before the jump. On 32-bit the
/// arguments are on the stack; the slot's content is pushed for the resolver
/// and taken off again after the call.
pub open spec fn trampoline_program(machine: Machine) -> Seq<Instruction> {
    match machine {
        Machine::I386 => seq![
            Instruction::LoadResolver(Register::Eax),
            Instruction::LoadSlot(Register::Ecx),
            Instruction::Push(Register::Ecx),
            Instruction::Call(Register::Eax),
            Instruction::Release(4),
            Instruction::Jump(Register::Eax),
        ],
        Machine::Amd64 => seq![
            Instruction::Push(Register::Rcx),
            Instruction::Push(Register::Rdx),
            Instruction::Push(Register::R8),
            Instruction::Push(Register::R9),
            Instruction::Push(Register::R10),
            Instruction::Push(Register::R11),
            Instruction::LoadResolver(Register::Rax),
            Instruction::LoadSlot(Register::Rcx),
            Instruction::Reserve(40),
            Instruction::Call(Register::Rax),
            Instruction::Release(40),
            Instruction::Pop(Register::R11),
            Instruction::Pop(Register::R10),
            Instruction::Pop(Register::R9),
            Instruction::Pop(Register::R8),
            Instruction::Pop(Register::Rdx),
            Instruction::Pop(Register::Rcx),
            Instruction::Jump(Register::Rax),
        ],
    }
}

/// The registers in which the default calling convention of a machine passes
/// arguments, and those it lets a thin call boundary use besides.
pub open spec fn carries_caller_state(machine: Machine, register: Register) -> bool {
    match machine {
        Machine::I386 => false,
        Machine::Amd64 => register == Register::Rcx || register == Register::Rdx || register
            == Register::R8 || register == Register::R9 || register == Register::R10
            || register == Register::R11,
    }
}

/// The name of a register in assembly.
pub open spec fn register_name(register: Register) -> Seq<char> {
    match register {
        Register::Rax => "rax"@,
        Register::Rcx => "rcx"@,
        Register::Rdx => "rdx"@,
        Register::R8 => "r8"@,
        Register::R9 => "r9"@,
        Register::R10 => "r10"@,
        Register::R11 => "r11"@,
        Register::Eax => "eax"@,
        Register::Ecx => "ecx"@,
    }
}

/// The name of a machine's stack pointer in assembly.
pub open spec fn stack_pointer_name(machine: Machine) -> Seq<char> {
    match machine {
        Machine::I386 => "esp"@,
        Machine::Amd64 => "rsp"@,
    }
}

/// The line of assembly for an instruction. The two loads have none: the
/// compiler emits them for the operands of the block that follows.
pub open spec fn assembly_text(machine: Machine, instruction: Instruction) -> Option<Seq<char>> {
    match instruction {
        Instruction::Push(r) => Some("push "@ + register_name(r)),
        Instruction::Pop(r) => Some("pop "@ + register_name(r)),
        Instruction::LoadResolver(_) => None,
        Instruction::LoadSlot(_) => None,
        Instruction::Reserve(bytes) => Some(
            "sub "@ + stack_pointer_name(machine) + ", "@ + decimal(bytes as nat),
        ),
        Instruction::Release(bytes) => Some(
            "add "@ + stack_pointer_name(machine) + ", "@ + decimal(bytes as nat),
        ),
        Instruction::Call(r) => Some("call "@ + register_name(r)),
        Instruction::Jump(r) => Some("jmp "@ + register_name(r)),
    }
}

/// An optional text by its view.
pub open spec fn text_view(text: Option<String>) -> Option<Seq<char>> {
    match text {
        Some(t) => Some(t@),
        None => None,
    }
}

impl Register {
    /// The name of the register in assembly.
    pub fn name(&self) -> (name: &'static str)
        ensures
            name@ == register_name(*self),
    {
        match self {
            Register::Rax => "rax",
            Register::Rcx => "rcx",
            Register::Rdx => "rdx",
            Register::R8 => "r8",
            Register::R9 => "r9",
            Register::R10 => "r10",
            Register::R11 => "r11",
            Register::Eax => "eax",
            Register::Ecx => "ecx",
        }
    }
}

impl Instruction {
    /// The line of assembly for this instruction on a machine, if it has one.
    pub fn assembly(&self, machine: Machine) -> (line: Option<String>)
        ensures
            text_view(line) == assembly_text(machine, *self),
    {
        let stack_pointer = match machine {
            Machine::I386 => "esp",
            Machine::Amd64 => "rsp",
        };
        match self {
            Instruction::Push(r) => {
                let mut line = String::from_str("push ");
                line.append(r.name());
                Some(line)
            },
            Instruction::Pop(r) => {
                let mut line = String::from_str("pop ");
                line.append(r.name());
                Some(line)
            },
            Instruction::LoadResolver(_) => None,
            Instruction::LoadSlot(_) => None,
            Instruction::Reserve(bytes) => {
                let mut line = String::from_str("sub ");
                line.append(stack_pointer);
                line.append(", ");
                line.append(decimal_string(*bytes as u64).as_str());
                Some(line)
            },
            Instruction::Release(bytes) => {
                let mut line = String::from_str("add ");
                line.append(stack_pointer);
                line.append(", ");
                line.append(decimal_string(*bytes as u64).as_str());
                Some(line)
            },
            Instruction::Call(r) => {
                let mut line = String::from_str("call ");
                line.append(r.name());
                Some(line)
            },
            Instruction::Jump(r) => {
                let mut line = String::from_str("jmp ");
                line.append(r.name());
                Some(line)
            },
        }
    }
}

/// Builds the trampoline for a machine.
pub fn trampoline(machine: Machine) -> (program: Vec<Instruction>)
    ensures
        program@ == trampoline_program(machine),
{
    let mut program: Vec<Instruction> = Vec::new();
    match machine {
        Machine::I386 => {
            program.push(Instruction::LoadResolver(Register::Eax));
            program.push(Instruction::LoadSlot(Register::Ecx));
            program.push(Instruction::Push(Register::Ecx));
            program.push(Instruction::Call(Register::Eax));
            program.push(Instruction::Release(4));
            program.push(Instruction::Jump(Register::Eax));
        },
        Machine::Amd64 => {
            program.push(Instruction::Push(Register::Rcx));
            program.push(Instruction::Push(Register::Rdx));
            program.push(Instruction::Push(Register::R8));
            program.push(Instruction::Push(Register::R9));
            program.push(Instruction::Push(Register::R10));
            program.push(Instruction::Push(Register::R11));
            program.push(Instruction::LoadResolver(Register::Rax));
            program.push(Instruction::LoadSlot(Register::Rcx));
            program.push(Instruction::Reserve(40));
            program.push(Instruction::Call(Register::Rax));
            program.push(Instruction::Release(40));
            program.push(Instruction::Pop(Register::R11));
            program.push(Instruction::Pop(Register::R10));
            program.push(Instruction::Pop(Register::R9));
            program.push(Instruction::Pop(Register::R8));
            program.push(Instruction::Pop(Register::Rdx));
            program.push(Instruction::Pop(Register::Rcx));
            program.push(Instruction::Jump(Register::Rax));
        },
    }
    assert(program@ =~= trampoline_program(machine));
    program
}

/// Whether an instruction is one of the two loads.
pub open spec fn is_load(instruction: Instruction) -> bool {
    instruction is LoadResolver || instruction is LoadSlot
}

/// A stretch of a program that can be written as one block of inline
/// assembly: loads, which become the block's input operands, and then the
/// instructions of the block itself.
#[derive(Debug, Clone, PartialEq, Eq)]
pub struct AsmBlock {
    pub loads: Vec<Instruction>,
    pub code: Vec<Instruction>,
}

/// The instructions of a block, in program order.
pub open spec fn block_program(block: AsmBlock) -> Seq<Instruction> {
    block.loads@ + block.code@
}

/// The instructions of a list of blocks, in program order.
pub open spec fn blocks_program(blocks: Seq<AsmBlock>) -> Seq<Instruction>
    decreases blocks.len(),
{
    if blocks.len() == 0 {
        Seq::empty()
    } else {
        blocks_program(blocks.drop_last()) + block_program(blocks.last())
    }
}

/// A block holds loads first and no load after them.
pub open spec fn block_wf(block: AsmBlock) -> bool {
    &&& forall|i: int| 0 <= i < block.loads@.len() ==> is_load(#[trigger] block.loads@[i])
    &&& forall|i: int| 0 <= i < block.code@.len() ==> !is_load(#[trigger] block.code@[i])
}

impl Instruction {
    /// Whether this is one of the two loads.
    pub fn is_load(&self) -> (r: bool)
        ensures
            r == is_load(*self),
    {
        match self {
            Instruction::LoadResolver(_) => true,
            Instruction::LoadSlot(_) => true,
            _ => false,
        }
    }
}

/// Cuts a program into blocks of inline assembly: a new block starts at each
/// load that follows an instruction which is none. The blocks, one after the
/// other, are the program, and only the last of them can be without code.
pub fn asm_blocks(program: &Vec<Instruction>) -> (blocks: Vec<AsmBlock>)
    ensures
        blocks_program(blocks@) == program@,
        forall|k: int| 0 <= k < blocks@.len() ==> block_wf(#[trigger] blocks@[k]),
        forall|k: int| 0 <= k < blocks@.len() - 1 ==> (#[trigger] blocks@[k]).code@.len() > 0,
{
    let mut blocks: Vec<AsmBlock> = Vec::new();
    let mut loads: Vec<Instruction> = Vec::new();
    let mut code: Vec<Instruction> = Vec::new();
    let mut i: usize = 0;
    while i < program.len()
        invariant
            i <= program@.len(),
            blocks_program(blocks@) + loads@ + code@ == program@.subrange(0, i as int),
            forall|k: int| 0 <= k < blocks@.len() ==> block_wf(#[trigger] blocks@[k]),
            forall|k: int| 0 <= k < blocks@.len() ==> (#[trigger] blocks@[k]).code@.len() > 0,
            forall|k: int| 0 <= k < loads@.len() ==> is_load(#[trigger] loads@[k]),
            forall|k: int| 0 <= k < code@.len() ==> !is_load(#[trigger] code@[k]),
        decreases program@.len() - i,
    {
        let instruction = program[i];
        let ghost done = blocks_program(blocks@) + loads@ + code@;
        if instruction.is_load() {
            if code.len() > 0 {
                let ghost before = blocks@;
                let block = AsmBlock { loads, code };
                blocks.push(block);
                loads = Vec::new();
                code = Vec::new();
                proof {
                    assert(blocks@.drop_last() =~= before);
                    assert(blocks_program(blocks@) =~= done);
                }
            }
            loads.push(instruction);
        } else {
            code.push(instruction);
        }
        assert(blocks_program(blocks@) + loads@ + code@ =~= done.push(instruction));
        assert(program@.subrange(0, i as int + 1) =~= program@.subrange(0, i as int).push(
            instruction,
        ));
        i = i + 1;
    }
    assert(program@.subrange(0, i as int) =~= program@);
    if loads.len() > 0 || code.len() > 0 {
        let ghost before = blocks@;
        let ghost done = blocks_program(blocks@) + loads@ + code@;
        blocks.push(AsmBlock { loads, code });
        proof {
            assert(blocks@.drop_last() =~= before);
            assert(blocks_program(blocks@) =~= done);
        }
    } else {
        assert(blocks_program(blocks@) + loads@ + code@ =~= blocks_program(blocks@));
    }
    blocks
}

/// The tail transfer keeps the caller's state. Whatever the registers hold
/// on entry, whatever the slot holds, and whatever the resolver leaves behind,
/// the trampoline runs without a fault and jumps to the address the resolver
/// answered, with every register that carries caller state as it was on
/// entry and with the stack at its entry height: the return address on top is
/// the caller's.
pub proof fn law_tail_transfer_keeps_caller_state(machine: Machine, entry: Entry, cpu: Cpu)
    requires
        cpu.stack.len() == 0,
        entry.scribbled.len() == callee_words(machine),
    ensures
        run(machine, entry, trampoline_program(machine), 0, cpu) is Some,
        ({
            let transfer = run(machine, entry, trampoline_program(machine), 0, cpu)->Some_0;
            &&& transfer.target == entry.target
            &&& transfer.stack.len() == 0
            &&& forall|r: Register|
                carries_caller_state(machine, r) ==> (transfer.registers)(r) == (cpu.registers)(r)
        }),
{
    reveal_with_fuel(run, 19);
    let program = trampoline_program(machine);
    match machine {
        Machine::I386 => {
            let c1 = step(machine, entry, cpu, program[0])->Some_0;
            let c2 = step(machine, entry, c1, program[1])->Some_0;
            let c3 = step(machine, entry, c2, program[2])->Some_0;
            assert(c3.stack.last() == entry.slot);
            let c4 = step(machine, entry, c3, program[3])->Some_0;
            let c5 = step(machine, entry, c4, program[4])->Some_0;
            assert(c5.stack.len() == 0);
        },
        Machine::Amd64 => {
            let c1 = step(machine, entry, cpu, program[0])->Some_0;
            let c2 = step(machine, entry, c1, program[1])->Some_0;
            let c3 = step(machine, entry, c2, program[2])->Some_0;
            let c4 = step(machine, entry, c3, program[3])->Some_0;
            let c5 = step(machine, entry, c4, program[4])->Some_0;
            let c6 = step(machine, entry, c5, program[5])->Some_0;
            let saved = seq![
                (cpu.registers)(Register::Rcx),
                (cpu.registers)(Register::Rdx),
                (cpu.registers)(Register::R8),
                (cpu.registers)(Register::R9),
                (cpu.registers)(Register::R10),
                (cpu.registers)(Register::R11),
            ];
            assert(c6.stack =~= saved);
            let c7 = step(machine, entry, c6, program[6])->Some_0;
            let c8 = step(machine, entry, c7, program[7])->Some_0;
            let c9 = step(machine, entry, c8, program[8])->Some_0;
            assert(c9.stack.len() == 11);
            assert(c9.stack.subrange(0, 6) =~= saved);
            let c10 = step(machine, entry, c9, program[9])->Some_0;
            assert(c10.stack.len() == 11);
            assert(c10.stack.subrange(0, 6) =~= saved);
            let c11 = step(machine, entry, c10, program[10])->Some_0;
            assert(c11.stack =~= saved);
            let c12 = step(machine, entry, c11, program[11])->Some_0;
            assert(c12.stack =~= saved.subrange(0, 5));
            let c13 = step(machine, entry, c12, program[12])->Some_0;
            assert(c13.stack =~= saved.subrange(0, 4));
            let c14 = step(machine, entry, c13, program[13])->Some_0;
            assert(c14.stack =~= saved.subrange(0, 3));
            let c15 = step(machine, entry, c14, program[14])->Some_0;
            assert(c15.stack =~= saved.subrange(0, 2));
            let c16 = step(machine, entry, c15, program[15])->Some_0;
            assert(c16.stack =~= saved.subrange(0, 1));
            let c17 = step(machine, entry, c16, program[16])->Some_0;
            assert(c17.stack =~= saved.subrange(0, 0));
        },
    }
}

} // verus!
