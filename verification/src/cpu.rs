//! The machine state and the fetch-decode-execute engine.
//!
//! [`Chip8`] owns all storage. The host drives it through [`Chip8::step`]
//! (one instruction per call), [`Chip8::tick_timers`] (at its own cadence)
//! and [`Chip8::set_keys`]; it reads the video buffer through
//! [`Chip8::pixel`] and [`Chip8::take_dirty`]. Every mutation is proved to
//! follow the transition function [`crate::semantics::spec_exec`].

use vstd::prelude::*;
use crate::decode::Instr;
use crate::decode::decode;
use crate::decode::spec_decode;
use crate::semantics::Chip8Error;
use crate::semantics::MachineView;
use crate::semantics::Signals;
use crate::semantics::adv;
use crate::semantics::spec_exec;
use crate::semantics::spec_fetch;
use crate::semantics::spec_tick;
use crate::semantics::wf;
use crate::semantics::dump_ram;
use crate::semantics::load_regs;
use crate::semantics::wrap_addr;
use crate::semantics::ram_off;
use crate::semantics::draw_vram;
use crate::semantics::draw_hit;
use crate::semantics::draw_collision;
use crate::semantics::draw_collision_upto;
use crate::semantics::flip;
use crate::semantics::blank_vram;
use crate::semantics::lemma_collision_step;
use crate::semantics::lemma_low_nibble;
use crate::semantics::lemma_wrap_addr_of_off;
use crate::semantics::lemma_wrap_dist;
use crate::semantics::lemma_wrap_off;
use crate::semantics::lemma_wrap_sub;
use crate::font::fontset;
use crate::font::spec_fontset;

verus! {

/// The machine state: created once, zero-initialized, font-seeded, then
/// mutated only through `step`, `tick_timers` and `set_keys`.
pub struct Chip8 {
    ram: Vec<u8>,
    vram: Vec<u8>,
    stack: Vec<u16>,
    sp: usize,
    v: Vec<u8>,
    i: u16,
    pc: usize,
    delay_timer: u8,
    sound_timer: u8,
    key: u16,
    pending_key: Option<u8>,
    dirty: bool,
}

impl View for Chip8 {
    type V = MachineView;

    closed spec fn view(&self) -> MachineView {
        MachineView {
            ram: self.ram@,
            vram: self.vram@,
            stack: self.stack@,
            sp: self.sp as int,
            v: self.v@,
            i: self.i,
            pc: self.pc as int,
            delay: self.delay_timer,
            sound: self.sound_timer,
            key: self.key,
            pending: self.pending_key,
            dirty: self.dirty,
        }
    }
}

/// The state of a freshly created machine: everything zero, the program
/// counter at the program start address, no font seeded yet.
pub open spec fn initial_view() -> MachineView {
    MachineView {
        ram: Seq::new(4096, |k: int| 0u8),
        vram: Seq::new(2048, |k: int| 0u8),
        stack: Seq::new(16, |k: int| 0u16),
        sp: 0,
        v: Seq::new(16, |k: int| 0u8),
        i: 0,
        pc: 0x200,
        delay: 0,
        sound: 0,
        key: 0,
        pending: None,
        dirty: false,
    }
}

/// Memory as left by `initialize`: the font in the first eighty bytes,
/// everything else as it was.
pub open spec fn seeded_ram(m: MachineView) -> Seq<u8> {
    Seq::new(4096, |a: int| if a < 80 {
        spec_fontset()[a]
    } else {
        m.ram[a]
    })
}

/// Memory as left by a successful program load: the image verbatim from the
/// program start address, everything else as it was.
pub open spec fn loaded_ram(m: MachineView, image: Seq<u8>) -> Seq<u8> {
    Seq::new(4096, |a: int| if 0x200 <= a < 0x200 + image.len() {
        image[a - 0x200]
    } else {
        m.ram[a]
    })
}

/// A vector of `n` zero bytes.
fn zero_bytes(n: usize) -> (r: Vec<u8>)
    ensures
        r@ == Seq::new(n as nat, |k: int| 0u8),
{
    let mut out: Vec<u8> = Vec::new();
    let mut k: usize = 0;
    while k < n
        invariant
            k == out@.len(),
            k <= n,
            forall|j: int| 0 <= j < k ==> out@[j] == 0u8,
        decreases n - k,
    {
        out.push(0);
        k += 1;
    }
    proof {
        assert(out@ =~= Seq::new(n as nat, |j: int| 0u8));
    }
    out
}

/// A vector of `n` zero words.
fn zero_words(n: usize) -> (r: Vec<u16>)
    ensures
        r@ == Seq::new(n as nat, |k: int| 0u16),
{
    let mut out: Vec<u16> = Vec::new();
    let mut k: usize = 0;
    while k < n
        invariant
            k == out@.len(),
            k <= n,
            forall|j: int| 0 <= j < k ==> out@[j] == 0u16,
        decreases n - k,
    {
        out.push(0);
        k += 1;
    }
    proof {
        assert(out@ =~= Seq::new(n as nat, |j: int| 0u16));
    }
    out
}

/// The clear, return and unrecognized-no-op instructions.
spec fn is_control(ins: Instr) -> bool {
    match ins {
        Instr::Cls | Instr::Ret | Instr::Unrecognized(_) => true,
        _ => false,
    }
}

/// The jump and call instructions: they set the program counter directly.
spec fn is_jump(ins: Instr) -> bool {
    match ins {
        Instr::Jump(_) | Instr::Call(_) | Instr::JumpV0(_) => true,
        _ => false,
    }
}

/// The conditional-skip instructions.
spec fn is_skip(ins: Instr) -> bool {
    match ins {
        Instr::SkipEqImm(..) | Instr::SkipNeImm(..) | Instr::SkipEqReg(..)
            | Instr::SkipNeReg(..) | Instr::SkipKey(_) | Instr::SkipNoKey(_) => true,
        _ => false,
    }
}

/// The register-arithmetic instructions.
spec fn is_alu(ins: Instr) -> bool {
    match ins {
        Instr::SetImm(..) | Instr::AddImm(..) | Instr::Mov(..) | Instr::Or(..) | Instr::And(..)
            | Instr::Xor(..) | Instr::AddReg(..) | Instr::SubReg(..) | Instr::Shr(_)
            | Instr::SubN(..) | Instr::Shl(_) => true,
        _ => false,
    }
}

/// The index-register, timer, keyboard, random, draw and memory-transfer
/// instructions.
spec fn is_system(ins: Instr) -> bool {
    match ins {
        Instr::SetIndex(_) | Instr::RandMask(..) | Instr::Draw(..) | Instr::GetDelay(_)
            | Instr::WaitKey(_) | Instr::SetDelay(_) | Instr::SetSound(_) | Instr::AddIndex(_)
            | Instr::FontAddr(_) | Instr::StoreBcd(_) | Instr::DumpRegs(_)
            | Instr::LoadRegs(_) => true,
        _ => false,
    }
}

impl Chip8 {
    /// The state is well formed: sizes fixed, stack pointer and program
    /// counter in bounds, stored return addresses valid, pixels 0 or 1.
    pub open spec fn wf(&self) -> bool {
        wf(self@)
    }

    /// A fresh machine: memory, video buffer, stack, registers and timers
    /// all zero, the program counter at the program start address.
    pub fn new() -> (r: Self)
        ensures
            r.wf(),
            r@ == initial_view(),
    {
        let r = Chip8 {
            ram: zero_bytes(4096),
            vram: zero_bytes(2048),
            stack: zero_words(16),
            sp: 0,
            v: zero_bytes(16),
            i: 0,
            pc: 0x200,
            delay_timer: 0,
            sound_timer: 0,
            key: 0,
            pending_key: None,
            dirty: false,
        };
        proof {
            assert(r@ =~= initial_view());
        }
        r
    }

    /// Reset the program counter to the program start address and copy the
    /// built-in font into the reserved low region of memory. Nothing else
    /// changes.
    pub fn initialize(&mut self)
        requires
            old(self).wf(),
        ensures
            final(self).wf(),
            final(self)@ == (MachineView { pc: 0x200, ram: seeded_ram(old(self)@), ..old(self)@ }),
    {
        self.pc = 0x200;
        let font = fontset();
        let mut k: usize = 0;
        while k < 80
        invariant
            k <= 80,
            font@ == spec_fontset(),
            font@.len() == 80,
            self@.ram.len() == 4096,
            self@ == (MachineView { pc: 0x200, ram: self@.ram, ..old(self)@ }),
            forall|j: int| 0 <= j < k ==> self@.ram[j] == spec_fontset()[j],
            forall|j: int| k <= j < 4096 ==> self@.ram[j] == old(self)@.ram[j],
        decreases 80 - k,
        {
            self.ram.set(k, font[k]);
            k += 1;
        }
        proof {
            assert(self@.ram =~= seeded_ram(old(self)@));
            assert(self@ =~= (MachineView {
                pc: 0x200,
                ram: seeded_ram(old(self)@),
                ..old(self)@
            }));
        }
    }

    /// Load a program image verbatim starting at the program start address.
    /// An image longer than the memory above that address is rejected with
    /// `OversizeProgram` before anything is written; it is never truncated.
    pub fn load_game(&mut self, game: &[u8]) -> (r: Result<(), Chip8Error>)
        requires
            old(self).wf(),
        ensures
            final(self).wf(),
            game@.len() <= 3584 ==> r is Ok && final(self)@ == (MachineView {
                ram: loaded_ram(old(self)@, game@),
                ..old(self)@
            }),
            game@.len() > 3584 ==> r == Err::<(), Chip8Error>(Chip8Error::OversizeProgram)
                && final(self)@ == old(self)@,
    {
        if game.len() > 3584 {
            return Err(Chip8Error::OversizeProgram);
        }
        let mut j: usize = 0;
        while j < game.len()
        invariant
            j <= game@.len(),
            game@.len() <= 3584,
            self@.ram.len() == 4096,
            old(self).wf(),
            self@ == (MachineView { ram: self@.ram, ..old(self)@ }),
            forall|a: int| 0x200 <= a < 0x200 + j ==> self@.ram[a] == game@[a - 0x200],
            forall|a: int|
                0 <= a < 4096 && !(0x200 <= a < 0x200 + j) ==> self@.ram[a] == old(self)@.ram[a],
        decreases game@.len() - j,
        {
            self.ram.set(0x200 + j, game[j]);
            j += 1;
        }
        proof {
            assert(self@.ram =~= loaded_ram(old(self)@, game@));
            assert(self@ =~= (MachineView { ram: loaded_ram(old(self)@, game@), ..old(self)@ }));
        }
        Ok(())
    }

    /// Fetch the two-byte instruction word at the program counter,
    /// most-significant byte first. Reads only.
    pub fn fetch_opcode(&mut self) -> (r: u16)
        requires
            old(self).wf(),
        ensures
            final(self)@ == old(self)@,
            r == spec_fetch(old(self)@),
    {
        let hi = self.ram[self.pc];
        let lo = self.ram[(self.pc + 1) % 4096];
        ((hi as u16) << 8u16) | (lo as u16)
    }

    /// Advance the program counter past one instruction, wrapping at the end
    /// of memory.
    pub fn next(&mut self)
        requires
            old(self).wf(),
        ensures
            final(self).wf(),
            final(self)@ == adv(old(self)@, 2),
    {
        self.pc = (self.pc + 2) % 4096;
    }

    /// Advance the program counter by 2 or 4 bytes, wrapping.
    fn advance_pc(&mut self, by: usize)
        requires
            old(self).wf(),
            by == 2 || by == 4,
        ensures
            final(self).wf(),
            final(self)@ == adv(old(self)@, by as int),
    {
        self.pc = (self.pc + by) % 4096;
    }

    /// The program-counter rule for conditional skips: advance by 4 when the
    /// condition holds, by 2 when it does not.
    fn skip_if(&mut self, cond: bool)
        requires
            old(self).wf(),
        ensures
            final(self).wf(),
            final(self)@ == adv(old(self)@, if cond { 4int } else { 2int }),
    {
        if cond {
            self.advance_pc(4);
        } else {
            self.advance_pc(2);
        }
    }

    /// One timer tick: both countdown timers step toward zero and never
    /// below it. Returns true exactly when the sound timer went from 1 to 0:
    /// the beep signal.
    pub fn tick_timers(&mut self) -> (beep: bool)
        requires
            old(self).wf(),
        ensures
            final(self).wf(),
            final(self)@ == spec_tick(old(self)@).0,
            beep == spec_tick(old(self)@).1,
    {
        let beep = self.sound_timer == 1;
        if self.delay_timer > 0 {
            self.delay_timer = self.delay_timer - 1;
        }
        if self.sound_timer > 0 {
            self.sound_timer = self.sound_timer - 1;
        }
        beep
    }

    /// Host-driven keymask update: set or clear the bit of one key. A press
    /// of a key that was not already held is latched as the key-down event
    /// that a suspended wait-for-key instruction consumes.
    pub fn set_keys(&mut self, index: u8, pressed: bool)
        requires
            old(self).wf(),
            index < 16,
        ensures
            final(self).wf(),
            final(self)@ == (MachineView {
                key: if pressed {
                    old(self)@.key | (1u16 << index)
                } else {
                    old(self)@.key & !(1u16 << index)
                },
                pending: if pressed && (old(self)@.key >> index) & 1 == 0 {
                    Some(index)
                } else {
                    old(self)@.pending
                },
                ..old(self)@
            }),
    {
        if pressed {
            if (self.key >> index) & 1 == 0 {
                self.pending_key = Some(index);
            }
            self.key = self.key | (1u16 << index);
        } else {
            self.key = self.key & !(1u16 << index);
        }
    }

    /// The value of register VX.
    pub fn reg(&self, x: usize) -> (r: u8)
        requires
            self.wf(),
            x < 16,
        ensures
            r == self@.v[x as int],
    {
        self.v[x]
    }

    /// The program counter.
    pub fn pc(&self) -> (r: usize)
        ensures
            r as int == self@.pc,
    {
        self.pc
    }

    /// The stack pointer.
    pub fn sp(&self) -> (r: usize)
        ensures
            r as int == self@.sp,
    {
        self.sp
    }

    /// The index register.
    pub fn index(&self) -> (r: u16)
        ensures
            r == self@.i,
    {
        self.i
    }

    /// The delay timer.
    pub fn delay(&self) -> (r: u8)
        ensures
            r == self@.delay,
    {
        self.delay_timer
    }

    /// The sound timer.
    pub fn sound(&self) -> (r: u8)
        ensures
            r == self@.sound,
    {
        self.sound_timer
    }

    /// The keymask.
    pub fn keys(&self) -> (r: u16)
        ensures
            r == self@.key,
    {
        self.key
    }

    /// The memory byte at address `a`.
    pub fn ram_at(&self, a: usize) -> (r: u8)
        requires
            self.wf(),
            a < 4096,
        ensures
            r == self@.ram[a as int],
    {
        self.ram[a]
    }

    /// The pixel at column `col`, row `row` of the video buffer: 0 or 1.
    pub fn pixel(&self, col: usize, row: usize) -> (r: u8)
        requires
            self.wf(),
            col < 64,
            row < 32,
        ensures
            r == self@.vram[row * 64 + col],
    {
        self.vram[row * 64 + col]
    }

    /// Clear every pixel of the video buffer.
    fn clear_vram(&mut self)
        requires
            old(self).wf(),
        ensures
            final(self).wf(),
            final(self)@ == (MachineView { vram: blank_vram(), ..old(self)@ }),
    {
        let mut idx: usize = 0;
        while idx < 2048
            invariant
                old(self).wf(),
                idx <= 2048,
                self@.vram.len() == 2048,
                self@ == (MachineView { vram: self@.vram, ..old(self)@ }),
                forall|j: int| 0 <= j < idx ==> self@.vram[j] == 0u8,
            decreases 2048 - idx,
        {
            self.vram.set(idx, 0);
            idx += 1;
        }
        proof {
            assert(self@.vram =~= blank_vram());
            assert(self@ =~= (MachineView { vram: blank_vram(), ..old(self)@ }));
        }
    }

    /// Copy registers V0..=VX to consecutive memory cells starting at the
    /// index register, ascending, wrapping at the end of memory.
    fn op_dump(&mut self, x: u8)
        requires
            old(self).wf(),
            x < 16,
        ensures
            final(self).wf(),
            final(self)@ == (MachineView { ram: dump_ram(old(self)@, x), ..old(self)@ }),
    {
        let mut j: usize = 0;
        while j <= x as usize
            invariant
                old(self).wf(),
                x < 16,
                j <= x as usize + 1,
                self@.ram.len() == 4096,
                self@ == (MachineView { ram: self@.ram, ..old(self)@ }),
                forall|a: int|
                    0 <= a < 4096 ==> self@.ram[a] == (if ram_off(old(self)@.i, a) < j {
                        old(self)@.v[ram_off(old(self)@.i, a)]
                    } else {
                        old(self)@.ram[a]
                    }),
            decreases x as usize + 1 - j,
        {
            let addr = ((self.i as usize) + j) % 4096;
            proof {
                lemma_wrap_off(old(self)@.i as int, j as int, 4096);
            }
            let val = self.v[j];
            self.ram.set(addr, val);
            proof {
                let i0 = old(self)@.i;
                assert forall|a: int|
                    0 <= a < 4096 implies self@.ram[a] == (if ram_off(i0, a) < j + 1 {
                    old(self)@.v[ram_off(i0, a)]
                } else {
                    old(self)@.ram[a]
                }) by {
                    if a != addr as int && ram_off(i0, a) == j {
                        lemma_wrap_addr_of_off(i0 as int, a, 4096);
                        assert(false);
                    }
                }
            }
            j += 1;
        }
        proof {
            assert(self@.ram =~= dump_ram(old(self)@, x));
            assert(self@ =~= (MachineView { ram: dump_ram(old(self)@, x), ..old(self)@ }));
        }
    }

    /// Fill registers V0..=VX from consecutive memory cells starting at the
    /// index register, ascending, wrapping at the end of memory.
    fn op_load(&mut self, x: u8)
        requires
            old(self).wf(),
            x < 16,
        ensures
            final(self).wf(),
            final(self)@ == (MachineView { v: load_regs(old(self)@, x), ..old(self)@ }),
    {
        let mut j: usize = 0;
        while j <= x as usize
            invariant
                old(self).wf(),
                x < 16,
                j <= x as usize + 1,
                self@.v.len() == 16,
                self@ == (MachineView { v: self@.v, ..old(self)@ }),
                forall|k: int|
                    0 <= k < j ==> self@.v[k] == old(self)@.ram[wrap_addr(old(self)@.i, k)],
                forall|k: int| j <= k < 16 ==> self@.v[k] == old(self)@.v[k],
            decreases x as usize + 1 - j,
        {
            let addr = ((self.i as usize) + j) % 4096;
            let val = self.ram[addr];
            self.v.set(j, val);
            j += 1;
        }
        proof {
            assert(self@.v =~= load_regs(old(self)@, x));
            assert(self@ =~= (MachineView { v: load_regs(old(self)@, x), ..old(self)@ }));
        }
    }

    /// XOR-blit an N+1-row sprite read from memory at the index register
    /// onto the video buffer at (VX, VY), wrapping on both axes; VF reports
    /// whether any pixel went from set to unset, and the buffer is marked
    /// dirty.
    fn op_draw(&mut self, x: u8, y: u8, n: u8)
        requires
            old(self).wf(),
            x < 16,
            y < 16,
            n < 16,
        ensures
            final(self).wf(),
            final(self)@ == (MachineView {
                vram: draw_vram(old(self)@, old(self)@.v[x as int], old(self)@.v[y as int], n + 1),
                v: old(self)@.v.update(
                    15,
                    if draw_collision(
                        old(self)@,
                        old(self)@.v[x as int],
                        old(self)@.v[y as int],
                        n + 1,
                    ) {
                        1u8
                    } else {
                        0u8
                    },
                ),
                dirty: true,
                ..old(self)@
            }),
    {
        let vx = self.v[x as usize];
        let vy = self.v[y as usize];
        let rows: usize = n as usize + 1;
        let mut coll = false;
        let mut idx: usize = 0;
        while idx < 2048
            invariant
                old(self).wf(),
                vx == old(self)@.v[x as int],
                vy == old(self)@.v[y as int],
                x < 16,
                y < 16,
                n < 16,
                rows == n as int + 1,
                idx <= 2048,
                self@.vram.len() == 2048,
                self@ == (MachineView { vram: self@.vram, ..old(self)@ }),
                forall|jj: int|
                    0 <= jj < idx ==> self@.vram[jj] == (if draw_hit(
                        old(self)@,
                        vx,
                        vy,
                        rows as int,
                        jj,
                    ) {
                        flip(old(self)@.vram[jj])
                    } else {
                        old(self)@.vram[jj]
                    }),
                forall|jj: int| idx <= jj < 2048 ==> self@.vram[jj] == old(self)@.vram[jj],
                coll == draw_collision_upto(old(self)@, vx, vy, rows as int, idx as int),
            decreases 2048 - idx,
        {
            let px: usize = idx % 64;
            let py: usize = idx / 64;
            let c: usize = (px + 64 - (vx as usize % 64)) % 64;
            let r: usize = (py + 32 - (vy as usize % 32)) % 32;
            proof {
                lemma_wrap_dist(px as int, vx as int, 64);
                lemma_wrap_dist(py as int, vy as int, 32);
                lemma_collision_step(old(self)@, vx, vy, rows as int, idx as int);
            }
            let mut hit_set = false;
            if c < 8 && r < rows {
                let b = self.ram[((self.i as usize) + r) % 4096];
                if (b >> ((7 - c) as u8)) & 1 == 1 {
                    hit_set = true;
                }
            }
            proof {
                assert(hit_set == draw_hit(old(self)@, vx, vy, rows as int, idx as int));
            }
            if hit_set {
                let cur = self.vram[idx];
                if cur == 1 {
                    self.vram.set(idx, 0);
                    coll = true;
                } else {
                    self.vram.set(idx, 1);
                }
            }
            idx += 1;
        }
        self.v.set(15, if coll { 1 } else { 0 });
        self.dirty = true;
        proof {
            assert(self@.vram =~= draw_vram(old(self)@, vx, vy, n + 1));
            assert(self@ =~= (MachineView {
                vram: draw_vram(old(self)@, vx, vy, n + 1),
                v: old(self)@.v.update(
                    15,
                    if draw_collision(old(self)@, vx, vy, n + 1) {
                        1u8
                    } else {
                        0u8
                    },
                ),
                dirty: true,
                ..old(self)@
            }));
        }
    }

    /// Decode and execute one instruction word. Returns the emitted signals,
    /// or the fatal error: a call at full stack depth, a return on an empty
    /// stack, or a random instruction with no entropy byte. On an error the
    /// state is untouched. The entropy byte is consumed only by the random
    /// instruction; timers are not touched here (see `tick_timers`).
    pub fn execute(&mut self, opcode: u16, entropy: Option<u8>) -> (r: Result<Signals, Chip8Error>)
        requires
            old(self).wf(),
        ensures
            final(self).wf(),
            (match spec_exec(old(self)@, spec_decode(opcode), entropy) {
                Ok(post) => r == Ok::<Signals, Chip8Error>(post.1) && final(self)@ == post.0,
                Err(e) => r == Err::<Signals, Chip8Error>(e) && final(self)@ == old(self)@,
            }),
    {
        let ins = decode(opcode);
        match ins {
            Instr::SetImm(..) | Instr::AddImm(..) | Instr::Mov(..) | Instr::Or(..)
                | Instr::And(..) | Instr::Xor(..) | Instr::AddReg(..) | Instr::SubReg(..)
                | Instr::Shr(_) | Instr::SubN(..) | Instr::Shl(_) => self.exec_alu(ins, entropy),
            Instr::SetIndex(_) | Instr::RandMask(..) | Instr::Draw(..) | Instr::GetDelay(_)
                | Instr::WaitKey(_) | Instr::SetDelay(_) | Instr::SetSound(_)
                | Instr::AddIndex(_) | Instr::FontAddr(_) | Instr::StoreBcd(_)
                | Instr::DumpRegs(_) | Instr::LoadRegs(_) => self.exec_system(ins, entropy),
            Instr::SkipEqImm(..) | Instr::SkipNeImm(..) | Instr::SkipEqReg(..)
                | Instr::SkipNeReg(..) | Instr::SkipKey(_) | Instr::SkipNoKey(_) => self
                .exec_skip(ins, entropy),
            Instr::Jump(_) | Instr::Call(_) | Instr::JumpV0(_) => self.exec_jump(ins, entropy),
            _ => self.exec_control(ins, entropy),
        }
    }

    /// Execute a conditional-skip instruction, following the uniform rule:
    /// advance the program counter by 4 when the condition holds, by 2 when
    /// it does not.
    #[verifier::rlimit(100)]
    fn exec_skip(&mut self, ins: Instr, entropy: Option<u8>) -> (r: Result<Signals, Chip8Error>)
        requires
            old(self).wf(),
            is_skip(ins),
            crate::decode::ins_wf(ins),
        ensures
            final(self).wf(),
            (match spec_exec(old(self)@, ins, entropy) {
                Ok(post) => r == Ok::<Signals, Chip8Error>(post.1) && final(self)@ == post.0,
                Err(e) => r == Err::<Signals, Chip8Error>(e) && final(self)@ == old(self)@,
            }),
    {
        match ins {
            Instr::SkipEqImm(x, nn) => {
                let cond = self.v[x as usize] == nn;
                self.skip_if(cond);
                Ok(Signals { redraw: false, awaiting_input: false, unrecognized: false })
            },
            Instr::SkipNeImm(x, nn) => {
                let cond = self.v[x as usize] != nn;
                self.skip_if(cond);
                Ok(Signals { redraw: false, awaiting_input: false, unrecognized: false })
            },
            Instr::SkipEqReg(x, y) => {
                let cond = self.v[x as usize] == self.v[y as usize];
                self.skip_if(cond);
                Ok(Signals { redraw: false, awaiting_input: false, unrecognized: false })
            },
            Instr::SkipNeReg(x, y) => {
                let cond = self.v[x as usize] != self.v[y as usize];
                self.skip_if(cond);
                Ok(Signals { redraw: false, awaiting_input: false, unrecognized: false })
            },
            Instr::SkipKey(x) => {
                let vxv = self.v[x as usize];
                let k = vxv & 0x0F;
                proof {
                    lemma_low_nibble(vxv);
                }
                let cond = (self.key >> (k as u16)) & 1 == 1;
                self.skip_if(cond);
                Ok(Signals { redraw: false, awaiting_input: false, unrecognized: false })
            },
            Instr::SkipNoKey(x) => {
                let vxv = self.v[x as usize];
                let k = vxv & 0x0F;
                proof {
                    lemma_low_nibble(vxv);
                }
                let pressed = (self.key >> (k as u16)) & 1 == 1;
                self.skip_if(!pressed);
                Ok(Signals { redraw: false, awaiting_input: false, unrecognized: false })
            },
            _ => vstd::pervasive::unreached(),
        }
    }

    /// Execute a jump or call: these set the program counter directly and
    /// never advance it afterwards. A call at full stack depth is the
    /// reported `StackOverflow` error with the state untouched.
    #[verifier::rlimit(100)]
    fn exec_jump(&mut self, ins: Instr, entropy: Option<u8>) -> (r: Result<Signals, Chip8Error>)
        requires
            old(self).wf(),
            is_jump(ins),
            crate::decode::ins_wf(ins),
        ensures
            final(self).wf(),
            (match spec_exec(old(self)@, ins, entropy) {
                Ok(post) => r == Ok::<Signals, Chip8Error>(post.1) && final(self)@ == post.0,
                Err(e) => r == Err::<Signals, Chip8Error>(e) && final(self)@ == old(self)@,
            }),
    {
        match ins {
            Instr::Jump(nnn) => {
                self.pc = nnn as usize;
                Ok(Signals { redraw: false, awaiting_input: false, unrecognized: false })
            },
            Instr::Call(nnn) => {
                if self.sp >= 16 {
                    return Err(Chip8Error::StackOverflow);
                }
                let ret_addr: u16 = ((self.pc + 2) % 4096) as u16;
                self.stack.set(self.sp, ret_addr);
                self.sp = self.sp + 1;
                self.pc = nnn as usize;
                Ok(Signals { redraw: false, awaiting_input: false, unrecognized: false })
            },
            Instr::JumpV0(nnn) => {
                self.pc = ((nnn as usize) + (self.v[0] as usize)) % 4096;
                Ok(Signals { redraw: false, awaiting_input: false, unrecognized: false })
            },
            _ => vstd::pervasive::unreached(),
        }
    }

    /// Execute a clear-screen, return or unrecognized instruction.
    #[verifier::rlimit(100)]
    fn exec_control(&mut self, ins: Instr, entropy: Option<u8>) -> (r: Result<Signals, Chip8Error>)
        requires
            old(self).wf(),
            is_control(ins),
            crate::decode::ins_wf(ins),
        ensures
            final(self).wf(),
            (match spec_exec(old(self)@, ins, entropy) {
                Ok(post) => r == Ok::<Signals, Chip8Error>(post.1) && final(self)@ == post.0,
                Err(e) => r == Err::<Signals, Chip8Error>(e) && final(self)@ == old(self)@,
            }),
    {
        match ins {
            Instr::Cls => {
                self.clear_vram();
                self.dirty = true;
                self.advance_pc(2);
                Ok(Signals { redraw: true, awaiting_input: false, unrecognized: false })
            },
            Instr::Ret => {
                if self.sp == 0 {
                    return Err(Chip8Error::StackUnderflow);
                }
                self.sp = self.sp - 1;
                self.pc = self.stack[self.sp] as usize;
                Ok(Signals { redraw: false, awaiting_input: false, unrecognized: false })
            },

            Instr::Unrecognized(_) => Ok(
                Signals { redraw: false, awaiting_input: false, unrecognized: true },
            ),
            _ => vstd::pervasive::unreached(),
        }
    }

    /// Execute a register-arithmetic instruction of the 0x6, 0x7 or 0x8
    /// families.
    #[verifier::rlimit(100)]
    fn exec_alu(&mut self, ins: Instr, entropy: Option<u8>) -> (r: Result<Signals, Chip8Error>)
        requires
            old(self).wf(),
            is_alu(ins),
            crate::decode::ins_wf(ins),
        ensures
            final(self).wf(),
            (match spec_exec(old(self)@, ins, entropy) {
                Ok(post) => r == Ok::<Signals, Chip8Error>(post.1) && final(self)@ == post.0,
                Err(e) => r == Err::<Signals, Chip8Error>(e) && final(self)@ == old(self)@,
            }),
    {
        match ins {
            Instr::SetImm(x, nn) => {
                self.v.set(x as usize, nn);
                self.advance_pc(2);
                Ok(Signals { redraw: false, awaiting_input: false, unrecognized: false })
            },
            Instr::AddImm(x, nn) => {
                let sum: u16 = self.v[x as usize] as u16 + nn as u16;
                self.v.set(x as usize, (sum % 256) as u8);
                self.advance_pc(2);
                Ok(Signals { redraw: false, awaiting_input: false, unrecognized: false })
            },
            Instr::Mov(x, y) => {
                let val = self.v[y as usize];
                self.v.set(x as usize, val);
                self.advance_pc(2);
                Ok(Signals { redraw: false, awaiting_input: false, unrecognized: false })
            },
            Instr::Or(x, y) => {
                let val = self.v[x as usize] | self.v[y as usize];
                self.v.set(x as usize, val);
                self.advance_pc(2);
                Ok(Signals { redraw: false, awaiting_input: false, unrecognized: false })
            },
            Instr::And(x, y) => {
                let val = self.v[x as usize] & self.v[y as usize];
                self.v.set(x as usize, val);
                self.advance_pc(2);
                Ok(Signals { redraw: false, awaiting_input: false, unrecognized: false })
            },
            Instr::Xor(x, y) => {
                let val = self.v[x as usize] ^ self.v[y as usize];
                self.v.set(x as usize, val);
                self.advance_pc(2);
                Ok(Signals { redraw: false, awaiting_input: false, unrecognized: false })
            },
            Instr::AddReg(x, y) => {
                let a = self.v[x as usize];
                let b = self.v[y as usize];
                let sum: u16 = a as u16 + b as u16;
                self.v.set(x as usize, (sum % 256) as u8);
                self.v.set(15, if sum > 255 { 1 } else { 0 });
                self.advance_pc(2);
                Ok(Signals { redraw: false, awaiting_input: false, unrecognized: false })
            },
            Instr::SubReg(x, y) => {
                let a = self.v[x as usize];
                let b = self.v[y as usize];
                let diff: u16 = 256 + a as u16 - b as u16;
                proof {
                    lemma_wrap_sub(a, b);
                }
                self.v.set(x as usize, (diff % 256) as u8);
                self.v.set(15, if a >= b { 1 } else { 0 });
                self.advance_pc(2);
                Ok(Signals { redraw: false, awaiting_input: false, unrecognized: false })
            },
            Instr::Shr(x) => {
                let a = self.v[x as usize];
                self.v.set(x as usize, a >> 1u8);
                self.v.set(15, a & 1);
                self.advance_pc(2);
                Ok(Signals { redraw: false, awaiting_input: false, unrecognized: false })
            },
            Instr::SubN(x, y) => {
                let a = self.v[x as usize];
                let b = self.v[y as usize];
                let diff: u16 = 256 + b as u16 - a as u16;
                proof {
                    lemma_wrap_sub(b, a);
                }
                self.v.set(x as usize, (diff % 256) as u8);
                self.v.set(15, if b >= a { 1 } else { 0 });
                self.advance_pc(2);
                Ok(Signals { redraw: false, awaiting_input: false, unrecognized: false })
            },
            Instr::Shl(x) => {
                let a = self.v[x as usize];
                self.v.set(x as usize, a << 1u8);
                self.v.set(15, (a & 0x80) >> 7u8);
                self.advance_pc(2);
                Ok(Signals { redraw: false, awaiting_input: false, unrecognized: false })
            },
            _ => vstd::pervasive::unreached(),
        }
    }

    /// Execute an index-register, timer, keyboard-wait, random, draw or
    /// memory-transfer instruction.
    #[verifier::rlimit(100)]
    fn exec_system(&mut self, ins: Instr, entropy: Option<u8>) -> (r: Result<Signals, Chip8Error>)
        requires
            old(self).wf(),
            is_system(ins),
            crate::decode::ins_wf(ins),
        ensures
            final(self).wf(),
            (match spec_exec(old(self)@, ins, entropy) {
                Ok(post) => r == Ok::<Signals, Chip8Error>(post.1) && final(self)@ == post.0,
                Err(e) => r == Err::<Signals, Chip8Error>(e) && final(self)@ == old(self)@,
            }),
    {
        match ins {
            Instr::SetIndex(nnn) => {
                self.i = nnn;
                self.advance_pc(2);
                Ok(Signals { redraw: false, awaiting_input: false, unrecognized: false })
            },
            Instr::RandMask(x, nn) => {
                match entropy {
                    None => Err(Chip8Error::EntropyUnavailable),
                    Some(b) => {
                        self.v.set(x as usize, b & nn);
                        self.advance_pc(2);
                        Ok(Signals { redraw: false, awaiting_input: false, unrecognized: false })
                    },
                }
            },
            Instr::Draw(x, y, n) => {
                self.op_draw(x, y, n);
                self.advance_pc(2);
                Ok(Signals { redraw: true, awaiting_input: false, unrecognized: false })
            },
            Instr::GetDelay(x) => {
                let d = self.delay_timer;
                self.v.set(x as usize, d);
                self.advance_pc(2);
                Ok(Signals { redraw: false, awaiting_input: false, unrecognized: false })
            },
            Instr::WaitKey(x) => {
                match self.pending_key {
                    Some(k) => {
                        self.v.set(x as usize, k);
                        self.pending_key = None;
                        self.advance_pc(2);
                        Ok(Signals { redraw: false, awaiting_input: false, unrecognized: false })
                    },
                    None => Ok(
                        Signals { redraw: false, awaiting_input: true, unrecognized: false },
                    ),
                }
            },
            Instr::SetDelay(x) => {
                self.delay_timer = self.v[x as usize];
                self.advance_pc(2);
                Ok(Signals { redraw: false, awaiting_input: false, unrecognized: false })
            },
            Instr::SetSound(x) => {
                self.sound_timer = self.v[x as usize];
                self.advance_pc(2);
                Ok(Signals { redraw: false, awaiting_input: false, unrecognized: false })
            },
            Instr::AddIndex(x) => {
                let s: u32 = self.i as u32 + self.v[x as usize] as u32;
                self.i = (s % 0x10000) as u16;
                self.advance_pc(2);
                Ok(Signals { redraw: false, awaiting_input: false, unrecognized: false })
            },
            Instr::FontAddr(x) => {
                let vxv = self.v[x as usize];
                let d = vxv & 0x0F;
                proof {
                    lemma_low_nibble(vxv);
                }
                self.i = 5u16 * (d as u16);
                self.advance_pc(2);
                Ok(Signals { redraw: false, awaiting_input: false, unrecognized: false })
            },
            Instr::StoreBcd(x) => {
                let val = self.v[x as usize];
                let a0 = (self.i as usize) % 4096;
                let a1 = (self.i as usize + 1) % 4096;
                let a2 = (self.i as usize + 2) % 4096;
                self.ram.set(a0, val / 100);
                self.ram.set(a1, (val / 10) % 10);
                self.ram.set(a2, val % 10);
                self.advance_pc(2);
                Ok(Signals { redraw: false, awaiting_input: false, unrecognized: false })
            },
            Instr::DumpRegs(x) => {
                self.op_dump(x);
                self.advance_pc(2);
                Ok(Signals { redraw: false, awaiting_input: false, unrecognized: false })
            },
            Instr::LoadRegs(x) => {
                self.op_load(x);
                self.advance_pc(2);
                Ok(Signals { redraw: false, awaiting_input: false, unrecognized: false })
            },
            _ => vstd::pervasive::unreached(),
        }
    }

    /// One step of the engine: fetch the word at the program counter, decode
    /// it and execute it. Exactly one instruction runs per call; the only
    /// suspension is the wait-for-key instruction, which reports
    /// `awaiting_input` without advancing until a key-down event arrives.
    pub fn step(&mut self, entropy: Option<u8>) -> (r: Result<Signals, Chip8Error>)
        requires
            old(self).wf(),
        ensures
            final(self).wf(),
            (match spec_exec(old(self)@, spec_decode(spec_fetch(old(self)@)), entropy) {
                Ok(post) => r == Ok::<Signals, Chip8Error>(post.1) && final(self)@ == post.0,
                Err(e) => r == Err::<Signals, Chip8Error>(e) && final(self)@ == old(self)@,
            }),
    {
        let w = self.fetch_opcode();
        self.execute(w, entropy)
    }

    /// Read and clear the video dirty flag.
    pub fn take_dirty(&mut self) -> (r: bool)
        requires
            old(self).wf(),
        ensures
            final(self).wf(),
            r == old(self)@.dirty,
            final(self)@ == (MachineView { dirty: false, ..old(self)@ }),
    {
        let d = self.dirty;
        self.dirty = false;
        d
    }
}

} // verus!
