//! The general laws of the machine, stated over the transition function
//! [`crate::semantics::spec_exec`] and proved once and for all. Each theorem
//! quantifies over every well-formed machine state, so it covers every
//! state the executor can reach.

use vstd::prelude::*;
use crate::decode::Instr;
use crate::decode::spec_decode;
use crate::semantics::Chip8Error;
use crate::semantics::MachineView;
use crate::semantics::Signals;
use crate::semantics::lemma_wrap_off;
use crate::semantics::no_sig;
use crate::semantics::ram_off;
use crate::semantics::spec_exec;
use crate::semantics::unrec_sig;
use crate::semantics::wf;
use crate::semantics::wrap_addr;

verus! {

/// Dumping registers V0..=VX to memory and then loading V0..=VX back from
/// the same base address reproduces every register value exactly, for every
/// top index and every well-formed starting state. The index register is
/// untouched by both instructions, so the load reads exactly the cells the
/// dump wrote.
pub proof fn lemma_dump_then_load(pre: MachineView, x: u8, e: Option<u8>)
    requires
        wf(pre),
        x < 16,
    ensures
        spec_exec(pre, Instr::DumpRegs(x), e) matches Ok(first) && {
            let m1 = first.0;
            &&& m1.i == pre.i
            &&& spec_exec(m1, Instr::LoadRegs(x), e) matches Ok(second) && second.0.v == pre.v
        },
{
    let m1 = match spec_exec(pre, Instr::DumpRegs(x), e) {
        Ok(first) => first.0,
        Err(_) => pre,
    };
    let m2 = match spec_exec(m1, Instr::LoadRegs(x), e) {
        Ok(second) => second.0,
        Err(_) => m1,
    };
    assert forall|j: int| 0 <= j < 16 implies m2.v[j] == pre.v[j] by {
        if j <= x {
            lemma_wrap_off(pre.i as int, j, 4096);
            assert(m1.ram[wrap_addr(pre.i, j)] == pre.v[ram_off(pre.i, wrap_addr(pre.i, j))]);
        }
    }
    assert(m2.v =~= pre.v);
}

/// A call pushes the address of the instruction after the call and jumps to
/// the target; the matching return restores the program counter to that
/// address and the stack pointer to its pre-call value. This holds at every
/// nesting depth from 1 through 16; `lemma_call_overflow` covers depth 17.
pub proof fn lemma_call_then_ret(pre: MachineView, nnn: u16, e: Option<u8>)
    requires
        wf(pre),
        nnn < 4096,
        pre.sp < 16,
    ensures
        spec_exec(pre, Instr::Call(nnn), e) matches Ok(first) && {
            let m1 = first.0;
            &&& m1.pc == nnn as int
            &&& m1.sp == pre.sp + 1
            &&& spec_exec(m1, Instr::Ret, e) matches Ok(second) && {
                let m2 = second.0;
                &&& m2.pc == (pre.pc + 2) % 4096
                &&& m2.sp == pre.sp
                &&& m2.ram == pre.ram
                &&& m2.v == pre.v
            }
        },
{
    let m1 = MachineView {
        stack: pre.stack.update(pre.sp, (((pre.pc + 2) % 4096) as u16)),
        sp: pre.sp + 1,
        pc: nnn as int % 4096,
        ..pre
    };
    assert(spec_exec(pre, Instr::Call(nnn), e) == Ok::<(MachineView, Signals), Chip8Error>(
        (m1, no_sig()),
    ));
    assert(m1.stack[m1.sp - 1] == (((pre.pc + 2) % 4096) as u16));
    let m2 = MachineView { sp: m1.sp - 1, pc: m1.stack[m1.sp - 1] as int, ..m1 };
    assert(spec_exec(m1, Instr::Ret, e) == Ok::<(MachineView, Signals), Chip8Error>(
        (m2, no_sig()),
    ));
    assert(m2.pc == (pre.pc + 2) % 4096);
}

/// A call with all sixteen stack levels occupied is the reported
/// `StackOverflow` error, never a write past the stack, and the state is
/// unchanged.
pub proof fn lemma_call_overflow(pre: MachineView, nnn: u16, e: Option<u8>)
    requires
        wf(pre),
        pre.sp == 16,
    ensures
        spec_exec(pre, Instr::Call(nnn), e) == Err::<(MachineView, Signals), Chip8Error>(
            Chip8Error::StackOverflow,
        ),
{
}

/// A return with an empty stack is the reported `StackUnderflow` error and
/// the state is unchanged.
pub proof fn lemma_ret_underflow(pre: MachineView, e: Option<u8>)
    requires
        wf(pre),
        pre.sp == 0,
    ensures
        spec_exec(pre, Instr::Ret, e) == Err::<(MachineView, Signals), Chip8Error>(
            Chip8Error::StackUnderflow,
        ),
{
}

/// The skip-if-equal rule is uniform: when the condition holds the program
/// counter moves past exactly one following two-byte instruction (advance
/// by 4); when it fails, execution falls through to exactly the following
/// instruction (advance by 2). Nothing else changes either way.
pub proof fn lemma_skip_eq_discipline(pre: MachineView, x: u8, nn: u8, e: Option<u8>)
    requires
        wf(pre),
        x < 16,
    ensures
        spec_exec(pre, Instr::SkipEqImm(x, nn), e) matches Ok(r) && r.0 == (MachineView {
            pc: (pre.pc + if pre.v[x as int] == nn { 4int } else { 2int }) % 4096,
            ..pre
        }),
{
}

/// An unrecognized instruction word is an exact no-op with a diagnostic:
/// memory, registers, the index register, the program counter, the stack
/// and everything else are left untouched, and only the unrecognized signal
/// is raised.
pub proof fn lemma_unrecognized_noop(pre: MachineView, w: u16, e: Option<u8>)
    requires
        spec_decode(w) is Unrecognized,
    ensures
        spec_exec(pre, spec_decode(w), e) == Ok::<(MachineView, Signals), Chip8Error>(
            (pre, unrec_sig()),
        ),
{
}

} // verus!
