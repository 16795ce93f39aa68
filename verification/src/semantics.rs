//! The mathematical model of the machine and the meaning of every
//! instruction.
//!
//! [`MachineView`] is the ghost image of the machine state: memory, video
//! buffer, call stack, registers, index register, program counter, the two
//! timers, the keymask, the latched key-down event and the video dirty flag.
//! [`spec_exec`] gives, for each decoded instruction, either the next state
//! and the emitted signals or the fatal error it raises. The executor in
//! [`crate::cpu`] is proved to follow `spec_exec` exactly.
//!
//! Program-counter discipline: every non-branching instruction advances the
//! program counter by 2 (modulo the 4096-byte memory); a satisfied
//! conditional skip advances by 4 and an unsatisfied one by 2; jumps, calls
//! and returns set it directly. An unrecognized word changes nothing at all
//! and only raises the diagnostic signal.

use vstd::prelude::*;
use vstd::arithmetic::div_mod::lemma_add_mod_noop_right;
use vstd::arithmetic::div_mod::lemma_mod_add_multiples_vanish;
use vstd::arithmetic::div_mod::lemma_mod_bound;
use vstd::arithmetic::div_mod::lemma_small_mod;
use vstd::arithmetic::div_mod::lemma_sub_mod_noop;
use vstd::arithmetic::div_mod::lemma_sub_mod_noop_right;

verus! {

/// Bytes of addressable memory.
pub const MEM_SIZE: usize = 4096;

/// First address of a loaded program image.
pub const PROGRAM_START: usize = 0x200;

/// Pixels in the 64 x 32 video buffer.
pub const VRAM_SIZE: usize = 2048;

/// Call-stack capacity.
pub const STACK_SIZE: usize = 16;

/// The side-effect signals one executed instruction can emit. At most one of
/// them is raised per instruction; a beep is emitted by the timer tick, not
/// by `step`.
#[derive(Clone, Copy, Debug, PartialEq, Eq, Structural)]
pub struct Signals {
    /// The draw or clear instruction changed the video buffer.
    pub redraw: bool,
    /// A wait-for-key instruction is suspended: the program counter did not
    /// advance and the same instruction runs again on the next step.
    pub awaiting_input: bool,
    /// The fetched word has no defined meaning; the state is untouched.
    pub unrecognized: bool,
}

/// The fatal error classes. Each aborts the current run; none is ever
/// tolerated silently.
#[derive(Clone, Copy, Debug, PartialEq, Eq, Structural)]
pub enum Chip8Error {
    /// A call at nesting depth 16.
    StackOverflow,
    /// A return with an empty call stack.
    StackUnderflow,
    /// A program image longer than the memory above `PROGRAM_START`.
    OversizeProgram,
    /// The entropy source supplied no byte for a random instruction.
    EntropyUnavailable,
}

/// The ghost image of the whole machine state.
#[verifier::ext_equal]
pub ghost struct MachineView {
    /// The 4096 bytes of memory.
    pub ram: Seq<u8>,
    /// The 2048 pixels, row-major, each 0 or 1.
    pub vram: Seq<u8>,
    /// The 16 call-stack slots; only the first `sp` hold return addresses.
    pub stack: Seq<u16>,
    /// The stack pointer, between 0 and 16.
    pub sp: int,
    /// The sixteen registers V0..=VF.
    pub v: Seq<u8>,
    /// The index register.
    pub i: u16,
    /// The program counter, a byte offset into memory.
    pub pc: int,
    /// The delay timer.
    pub delay: u8,
    /// The sound timer.
    pub sound: u8,
    /// The keymask: bit n set means key n is held.
    pub key: u16,
    /// The latched key-down event awaiting a wait-for-key instruction.
    pub pending: Option<u8>,
    /// Whether the video buffer changed since it was last read.
    pub dirty: bool,
}

/// Well-formedness of a machine state: all storage has its fixed size, the
/// stack pointer and program counter are in bounds, every stored return
/// address is a valid memory offset, every pixel is 0 or 1 and a latched key
/// is one of the sixteen keys.
pub open spec fn wf(m: MachineView) -> bool {
    &&& m.ram.len() == MEM_SIZE
    &&& m.vram.len() == VRAM_SIZE
    &&& m.stack.len() == STACK_SIZE
    &&& m.v.len() == 16
    &&& 0 <= m.sp <= STACK_SIZE
    &&& 0 <= m.pc < MEM_SIZE
    &&& forall|k: int| 0 <= k < m.sp ==> m.stack[k] < 4096
    &&& forall|k: int| 0 <= k < VRAM_SIZE ==> m.vram[k] <= 1
    &&& match m.pending {
        Some(k) => k < 16,
        None => true,
    }
}

/// The all-clear video buffer.
pub open spec fn blank_vram() -> Seq<u8> {
    Seq::new(2048, |k: int| 0u8)
}

/// No signal raised.
pub open spec fn no_sig() -> Signals {
    Signals { redraw: false, awaiting_input: false, unrecognized: false }
}

/// Only the redraw signal.
pub open spec fn redraw_sig() -> Signals {
    Signals { redraw: true, awaiting_input: false, unrecognized: false }
}

/// Only the awaiting-input signal.
pub open spec fn awaiting_sig() -> Signals {
    Signals { redraw: false, awaiting_input: true, unrecognized: false }
}

/// Only the unrecognized-opcode signal.
pub open spec fn unrec_sig() -> Signals {
    Signals { redraw: false, awaiting_input: false, unrecognized: true }
}

/// The state with the program counter advanced by `by` bytes, wrapping at
/// the end of memory.
pub open spec fn adv(m: MachineView, by: int) -> MachineView {
    MachineView { pc: (m.pc + by) % 4096, ..m }
}

/// The memory address `off` bytes past the index register, wrapping at the
/// end of memory.
pub open spec fn wrap_addr(i: u16, off: int) -> int {
    (i + off) % 4096
}

/// The offset of address `a` from the index register, wrapping: the inverse
/// of `wrap_addr`.
pub open spec fn ram_off(i: u16, a: int) -> int {
    (a - i) % 4096
}

/// Memory after registers V0..=VX are copied to consecutive addresses
/// starting at the index register.
pub open spec fn dump_ram(m: MachineView, x: u8) -> Seq<u8> {
    Seq::new(4096, |a: int| if ram_off(m.i, a) <= x {
        m.v[ram_off(m.i, a)]
    } else {
        m.ram[a]
    })
}

/// Registers after V0..=VX are loaded from consecutive addresses starting at
/// the index register; registers above VX keep their values.
pub open spec fn load_regs(m: MachineView, x: u8) -> Seq<u8> {
    Seq::new(16, |j: int| if j <= x {
        m.ram[wrap_addr(m.i, j)]
    } else {
        m.v[j]
    })
}

/// Bit `c` (0 is leftmost) of one 8-pixel sprite row.
pub open spec fn sprite_bit(b: u8, c: int) -> bool {
    (b >> ((7 - c) as u8)) & 1 == 1
}

/// The sprite row that lands on pixel row `idx / 64`, for a sprite drawn at
/// vertical position `vy`: the wrapping distance from `vy`.
pub open spec fn hit_row(vy: u8, idx: int) -> int {
    (idx / 64 - vy) % 32
}

/// The sprite column that lands on pixel column `idx % 64`, for a sprite
/// drawn at horizontal position `vx`: the wrapping distance from `vx`.
pub open spec fn hit_col(vx: u8, idx: int) -> int {
    (idx % 64 - vx) % 64
}

/// Whether the sprite of `rows` rows at (vx, vy) sets the sprite bit that
/// lands on pixel `idx`. Row `r` of the sprite is the memory byte `r` past
/// the index register; both axes wrap.
pub open spec fn draw_hit(m: MachineView, vx: u8, vy: u8, rows: int, idx: int) -> bool {
    hit_col(vx, idx) < 8 && hit_row(vy, idx) < rows && sprite_bit(
        m.ram[wrap_addr(m.i, hit_row(vy, idx))],
        hit_col(vx, idx),
    )
}

/// A pixel toggled by the XOR blit: 1 becomes 0 and 0 becomes 1.
pub open spec fn flip(p: u8) -> u8 {
    if p == 1 {
        0u8
    } else {
        1u8
    }
}

/// The video buffer after the sprite is XOR-blitted.
pub open spec fn draw_vram(m: MachineView, vx: u8, vy: u8, rows: int) -> Seq<u8> {
    Seq::new(2048, |idx: int| if draw_hit(m, vx, vy, rows, idx) {
        flip(m.vram[idx])
    } else {
        m.vram[idx]
    })
}

/// Whether the blit turns any of the first `upto` pixels from set to unset.
pub open spec fn draw_collision_upto(m: MachineView, vx: u8, vy: u8, rows: int, upto: int) -> bool {
    exists|idx: int|
        0 <= idx < upto && draw_hit(m, vx, vy, rows, idx) && m.vram[idx] == 1
}

/// Whether the blit turns any pixel from set to unset: the collision the
/// flag register reports.
pub open spec fn draw_collision(m: MachineView, vx: u8, vy: u8, rows: int) -> bool {
    draw_collision_upto(m, vx, vy, rows, 2048)
}

/// Extending the scanned prefix by one pixel extends the collision test by
/// exactly that pixel.
pub proof fn lemma_collision_step(m: MachineView, vx: u8, vy: u8, rows: int, upto: int)
    requires
        0 <= upto,
    ensures
        draw_collision_upto(m, vx, vy, rows, upto + 1) == (draw_collision_upto(
            m,
            vx,
            vy,
            rows,
            upto,
        ) || (draw_hit(m, vx, vy, rows, upto) && m.vram[upto] == 1)),
{
    if draw_collision_upto(m, vx, vy, rows, upto + 1) {
        let j = choose|j: int|
            0 <= j < upto + 1 && draw_hit(m, vx, vy, rows, j) && m.vram[j] == 1;
        if j < upto {
            assert(draw_collision_upto(m, vx, vy, rows, upto));
        }
    }
    if draw_collision_upto(m, vx, vy, rows, upto) {
        let j = choose|j: int| 0 <= j < upto && draw_hit(m, vx, vy, rows, j) && m.vram[j] == 1;
        assert(0 <= j < upto + 1 && draw_hit(m, vx, vy, rows, j) && m.vram[j] == 1);
        assert(draw_collision_upto(m, vx, vy, rows, upto + 1));
    }
    if draw_hit(m, vx, vy, rows, upto) && m.vram[upto] == 1 {
        assert(0 <= upto < upto + 1 && draw_hit(m, vx, vy, rows, upto) && m.vram[upto] == 1);
        assert(draw_collision_upto(m, vx, vy, rows, upto + 1));
    }
}

/// The meaning of one decoded instruction: the next machine state and the
/// signals it emits, or the fatal error it raises. Pure and total. The
/// entropy byte is consumed only by the random instruction; its absence
/// there is the explicit `EntropyUnavailable` error, never a default value.
/// On every error the state is unchanged.
pub open spec fn spec_exec(pre: MachineView, ins: crate::decode::Instr, entropy: Option<u8>) -> Result<
    (MachineView, Signals),
    Chip8Error,
> {
    match ins {
        crate::decode::Instr::Cls => Ok(
            (
                MachineView {
                    vram: blank_vram(),
                    dirty: true,
                    pc: (pre.pc + 2) % 4096,
                    ..pre
                },
                redraw_sig(),
            ),
        ),
        crate::decode::Instr::Ret => if pre.sp < 1 {
            Err(Chip8Error::StackUnderflow)
        } else {
            Ok(
                (
                    MachineView { sp: pre.sp - 1, pc: pre.stack[pre.sp - 1] as int, ..pre },
                    no_sig(),
                ),
            )
        },
        crate::decode::Instr::Jump(nnn) => Ok(
            (MachineView { pc: nnn as int % 4096, ..pre }, no_sig()),
        ),
        crate::decode::Instr::Call(nnn) => if pre.sp >= 16 {
            Err(Chip8Error::StackOverflow)
        } else {
            Ok(
                (
                    MachineView {
                        stack: pre.stack.update(pre.sp, (((pre.pc + 2) % 4096) as u16)),
                        sp: pre.sp + 1,
                        pc: nnn as int % 4096,
                        ..pre
                    },
                    no_sig(),
                ),
            )
        },
        crate::decode::Instr::SkipEqImm(x, nn) => Ok(
            (adv(pre, if pre.v[x as int] == nn { 4int } else { 2int }), no_sig()),
        ),
        crate::decode::Instr::SkipNeImm(x, nn) => Ok(
            (adv(pre, if pre.v[x as int] != nn { 4int } else { 2int }), no_sig()),
        ),
        crate::decode::Instr::SkipEqReg(x, y) => Ok(
            (adv(pre, if pre.v[x as int] == pre.v[y as int] { 4int } else { 2int }), no_sig()),
        ),
        crate::decode::Instr::SetImm(x, nn) => Ok(
            (adv(MachineView { v: pre.v.update(x as int, nn), ..pre }, 2), no_sig()),
        ),
        crate::decode::Instr::AddImm(x, nn) => Ok(
            (
                adv(
                    MachineView {
                        v: pre.v.update(x as int, ((pre.v[x as int] + nn) % 256) as u8),
                        ..pre
                    },
                    2,
                ),
                no_sig(),
            ),
        ),
        crate::decode::Instr::Mov(x, y) => Ok(
            (adv(MachineView { v: pre.v.update(x as int, pre.v[y as int]), ..pre }, 2), no_sig()),
        ),
        crate::decode::Instr::Or(x, y) => Ok(
            (
                adv(
                    MachineView {
                        v: pre.v.update(x as int, pre.v[x as int] | pre.v[y as int]),
                        ..pre
                    },
                    2,
                ),
                no_sig(),
            ),
        ),
        crate::decode::Instr::And(x, y) => Ok(
            (
                adv(
                    MachineView {
                        v: pre.v.update(x as int, pre.v[x as int] & pre.v[y as int]),
                        ..pre
                    },
                    2,
                ),
                no_sig(),
            ),
        ),
        crate::decode::Instr::Xor(x, y) => Ok(
            (
                adv(
                    MachineView {
                        v: pre.v.update(x as int, pre.v[x as int] ^ pre.v[y as int]),
                        ..pre
                    },
                    2,
                ),
                no_sig(),
            ),
        ),
        crate::decode::Instr::AddReg(x, y) => Ok(
            (
                adv(
                    MachineView {
                        v: pre.v.update(
                            x as int,
                            ((pre.v[x as int] + pre.v[y as int]) % 256) as u8,
                        ).update(
                            15,
                            if pre.v[x as int] + pre.v[y as int] > 255 {
                                1u8
                            } else {
                                0u8
                            },
                        ),
                        ..pre
                    },
                    2,
                ),
                no_sig(),
            ),
        ),
        crate::decode::Instr::SubReg(x, y) => Ok(
            (
                adv(
                    MachineView {
                        v: pre.v.update(
                            x as int,
                            ((pre.v[x as int] - pre.v[y as int]) % 256) as u8,
                        ).update(
                            15,
                            if pre.v[x as int] >= pre.v[y as int] {
                                1u8
                            } else {
                                0u8
                            },
                        ),
                        ..pre
                    },
                    2,
                ),
                no_sig(),
            ),
        ),
        crate::decode::Instr::Shr(x) => Ok(
            (
                adv(
                    MachineView {
                        v: pre.v.update(x as int, pre.v[x as int] >> 1u8).update(
                            15,
                            pre.v[x as int] & 1,
                        ),
                        ..pre
                    },
                    2,
                ),
                no_sig(),
            ),
        ),
        crate::decode::Instr::SubN(x, y) => Ok(
            (
                adv(
                    MachineView {
                        v: pre.v.update(
                            x as int,
                            ((pre.v[y as int] - pre.v[x as int]) % 256) as u8,
                        ).update(
                            15,
                            if pre.v[y as int] >= pre.v[x as int] {
                                1u8
                            } else {
                                0u8
                            },
                        ),
                        ..pre
                    },
                    2,
                ),
                no_sig(),
            ),
        ),
        crate::decode::Instr::Shl(x) => Ok(
            (
                adv(
                    MachineView {
                        v: pre.v.update(x as int, pre.v[x as int] << 1u8).update(
                            15,
                            (pre.v[x as int] & 0x80) >> 7u8,
                        ),
                        ..pre
                    },
                    2,
                ),
                no_sig(),
            ),
        ),
        crate::decode::Instr::SkipNeReg(x, y) => Ok(
            (adv(pre, if pre.v[x as int] != pre.v[y as int] { 4int } else { 2int }), no_sig()),
        ),
        crate::decode::Instr::SetIndex(nnn) => Ok(
            (adv(MachineView { i: nnn, ..pre }, 2), no_sig()),
        ),
        crate::decode::Instr::JumpV0(nnn) => Ok(
            (MachineView { pc: (nnn + pre.v[0]) % 4096, ..pre }, no_sig()),
        ),
        crate::decode::Instr::RandMask(x, nn) => match entropy {
            None => Err(Chip8Error::EntropyUnavailable),
            Some(b) => Ok(
                (adv(MachineView { v: pre.v.update(x as int, b & nn), ..pre }, 2), no_sig()),
            ),
        },
        crate::decode::Instr::Draw(x, y, n) => Ok(
            (
                adv(
                    MachineView {
                        vram: draw_vram(pre, pre.v[x as int], pre.v[y as int], n + 1),
                        v: pre.v.update(
                            15,
                            if draw_collision(pre, pre.v[x as int], pre.v[y as int], n + 1) {
                                1u8
                            } else {
                                0u8
                            },
                        ),
                        dirty: true,
                        ..pre
                    },
                    2,
                ),
                redraw_sig(),
            ),
        ),
        crate::decode::Instr::SkipKey(x) => Ok(
            (
                adv(
                    pre,
                    if (pre.key >> ((pre.v[x as int] & 0x0F) as u16)) & 1 == 1 {
                        4int
                    } else {
                        2int
                    },
                ),
                no_sig(),
            ),
        ),
        crate::decode::Instr::SkipNoKey(x) => Ok(
            (
                adv(
                    pre,
                    if (pre.key >> ((pre.v[x as int] & 0x0F) as u16)) & 1 == 1 {
                        2int
                    } else {
                        4int
                    },
                ),
                no_sig(),
            ),
        ),
        crate::decode::Instr::GetDelay(x) => Ok(
            (adv(MachineView { v: pre.v.update(x as int, pre.delay), ..pre }, 2), no_sig()),
        ),
        crate::decode::Instr::WaitKey(x) => match pre.pending {
            Some(k) => Ok(
                (
                    adv(
                        MachineView { v: pre.v.update(x as int, k), pending: None, ..pre },
                        2,
                    ),
                    no_sig(),
                ),
            ),
            None => Ok((pre, awaiting_sig())),
        },
        crate::decode::Instr::SetDelay(x) => Ok(
            (adv(MachineView { delay: pre.v[x as int], ..pre }, 2), no_sig()),
        ),
        crate::decode::Instr::SetSound(x) => Ok(
            (adv(MachineView { sound: pre.v[x as int], ..pre }, 2), no_sig()),
        ),
        crate::decode::Instr::AddIndex(x) => Ok(
            (
                adv(
                    MachineView { i: ((pre.i + pre.v[x as int]) % 0x10000) as u16, ..pre },
                    2,
                ),
                no_sig(),
            ),
        ),
        crate::decode::Instr::FontAddr(x) => Ok(
            (
                adv(MachineView { i: (5 * (pre.v[x as int] & 0x0F)) as u16, ..pre }, 2),
                no_sig(),
            ),
        ),
        crate::decode::Instr::StoreBcd(x) => Ok(
            (
                adv(
                    MachineView {
                        ram: pre.ram.update(wrap_addr(pre.i, 0), pre.v[x as int] / 100).update(
                            wrap_addr(pre.i, 1),
                            (pre.v[x as int] / 10) % 10,
                        ).update(wrap_addr(pre.i, 2), pre.v[x as int] % 10),
                        ..pre
                    },
                    2,
                ),
                no_sig(),
            ),
        ),
        crate::decode::Instr::DumpRegs(x) => Ok(
            (adv(MachineView { ram: dump_ram(pre, x), ..pre }, 2), no_sig()),
        ),
        crate::decode::Instr::LoadRegs(x) => Ok(
            (adv(MachineView { v: load_regs(pre, x), ..pre }, 2), no_sig()),
        ),
        crate::decode::Instr::Unrecognized(_) => Ok((pre, unrec_sig())),
    }
}

/// The wrapping offset of the address `off` bytes past `base` is `off`
/// itself, for any offset below the modulus.
pub proof fn lemma_wrap_off(base: int, off: int, n: int)
    requires
        0 < n,
        0 <= off < n,
        0 <= base,
    ensures
        0 <= (base + off) % n < n,
        ((base + off) % n - base) % n == off,
{
    let a = (base + off) % n;
    lemma_mod_bound(base + off, n);
    lemma_sub_mod_noop(base + off, base, n);
    lemma_sub_mod_noop_right(a, base, n);
    lemma_small_mod(off as nat, n as nat);
}

/// An address below the modulus is recovered from its wrapping offset: the
/// converse of `lemma_wrap_off`.
pub proof fn lemma_wrap_addr_of_off(base: int, a: int, n: int)
    requires
        0 < n,
        0 <= a < n,
        0 <= base,
    ensures
        (base + ((a - base) % n)) % n == a,
{
    lemma_add_mod_noop_right(base, a - base, n);
    lemma_small_mod(a as nat, n as nat);
}

/// The executor computes a wrapping distance in nonnegative form; it equals
/// the mathematical one.
pub proof fn lemma_wrap_dist(pos: int, base: int, n: int)
    requires
        0 < n,
        0 <= pos < n,
        0 <= base,
    ensures
        (pos + n - base % n) % n == (pos - base) % n,
        0 <= (pos - base) % n < n,
{
    lemma_mod_bound(base, n);
    lemma_mod_bound(pos - base, n);
    lemma_sub_mod_noop_right(pos + n, base, n);
    lemma_mod_add_multiples_vanish(pos - base, n);
}

/// A low nibble is a value below 16.
pub proof fn lemma_low_nibble(b: u8)
    by (bit_vector)
    ensures
        b & 0x0F < 16,
{
}

/// Adding one full wrap before subtracting does not change a value modulo
/// 256: the executor's borrow-free form of wrapping subtraction.
pub proof fn lemma_wrap_sub(a: u8, b: u8)
    ensures
        (256 + a - b) % 256 == (a - b) % 256,
{
    lemma_mod_add_multiples_vanish(a - b, 256);
}

/// The machine state after one timer tick, and whether the tick emits the
/// beep: both timers step toward zero, never below it, and the beep is
/// emitted exactly when the sound timer goes from 1 to 0.
pub open spec fn spec_tick(pre: MachineView) -> (MachineView, bool) {
    (
        MachineView {
            delay: if pre.delay > 0 {
                (pre.delay - 1) as u8
            } else {
                0u8
            },
            sound: if pre.sound > 0 {
                (pre.sound - 1) as u8
            } else {
                0u8
            },
            ..pre
        },
        pre.sound == 1,
    )
}

/// The word fetched at the program counter: two consecutive memory bytes,
/// most-significant byte first, the second wrapping at the end of memory.
pub open spec fn spec_fetch(m: MachineView) -> u16 {
    ((m.ram[m.pc] as u16) << 8u16) | (m.ram[(m.pc + 1) % 4096] as u16)
}

/// Execution preserves well-formedness: from a well-formed state, every
/// instruction a word can decode to either fails (leaving the state alone)
/// or yields a well-formed state.
pub proof fn lemma_exec_wf(pre: MachineView, ins: crate::decode::Instr, entropy: Option<u8>)
    requires
        wf(pre),
        crate::decode::ins_wf(ins),
    ensures
        spec_exec(pre, ins, entropy) matches Ok(r) ==> wf(r.0),
{
}

} // verus!
