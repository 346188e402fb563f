//! The fetch-decode-execute engine.

use vstd::prelude::*;
use crate::display::{collides, drawn, Display, CELLS};
use crate::fault::Fault;
use crate::instruction::{operands_in_range, Instruction, Op};
use crate::keypad::{Keypad, KEY_COUNT};
use crate::machine::{
    bcd, exec_op, exec_spec, flag, mem_store, outcome, pause_wf, set_reg, set_reg_flag, skip_if,
    sprite_rows, state_wf, step_spec, wrap16, CpuState, Pause, FLAG, FONT_START, GLYPH_SIZE,
    REGISTER_COUNT,
};
use crate::memory::{with_rom, Memory, MEMORY_SIZE, ROM_START};
use crate::stack::Stack;

verus! {

/// Relies on rand::random::<u8>: a byte drawn from the thread-local
/// generator. Nothing is promised of its value.
#[verifier::external_body]
fn random_byte() -> (r: u8) {
    rand::random::<u8>()
}

/// The state a fresh interpreter starts in.
pub open spec fn initial_state() -> CpuState {
    CpuState {
        pc: ROM_START as u16,
        i: 0,
        dt: 0,
        st: 0,
        drawn_this_frame: false,
        pause: Pause::Running,
        v: Seq::new(REGISTER_COUNT as nat, |r: int| 0u8),
        mem: Seq::new(MEMORY_SIZE as nat, |a: int| 0u8),
        stack: Seq::empty(),
        screen: Seq::new(CELLS as nat, |k: int| false),
        keys: Seq::new(KEY_COUNT as nat, |k: int| false),
        last_keys: Seq::new(KEY_COUNT as nat, |k: int| false),
    }
}

/// The interpreter: registers, timers, memory, stack, display and keys.
pub struct Cpu {
    pc: u16,
    pub dt: u8,
    pub st: u8,
    i: u16,
    /// Set by a draw; the driver clears it at each frame boundary.
    pub drawn_this_frame: bool,
    pause: Pause,
    memory: Memory,
    stack: Stack,
    display: Display,
    keypad: Keypad,
    registers: Vec<u8>,
}

impl View for Cpu {
    type V = CpuState;

    closed spec fn view(&self) -> CpuState {
        CpuState {
            pc: self.pc,
            i: self.i,
            dt: self.dt,
            st: self.st,
            drawn_this_frame: self.drawn_this_frame,
            pause: self.pause,
            v: self.registers@,
            mem: self.memory@,
            stack: self.stack@,
            screen: self.display@,
            keys: self.keypad.down(),
            last_keys: self.keypad.was_down(),
        }
    }
}

impl Cpu {
    pub closed spec fn wf(&self) -> bool {
        &&& self.memory.wf()
        &&& self.stack.wf()
        &&& self.display.wf()
        &&& self.keypad.wf()
        &&& self.registers@.len() == REGISTER_COUNT
        &&& pause_wf(self.pause)
    }

    /// The state of a well-formed interpreter has the sizes the machine fixes.
    pub proof fn lemma_wf(&self)
        requires
            self.wf(),
        ensures
            state_wf(self@),
    {
        self.stack.lemma_depth_bounded();
        self.display.lemma_len();
    }

    pub fn new() -> (r: Cpu)
        ensures
            r.wf(),
            r@ == initial_state(),
    {
        let r = Cpu {
            pc: ROM_START as u16,
            dt: 0,
            st: 0,
            i: 0,
            drawn_this_frame: false,
            pause: Pause::Running,
            memory: Memory::new(),
            stack: Stack::new(),
            display: Display::new(),
            keypad: Keypad::new(),
            registers: vec![0u8; REGISTER_COUNT],
        };
        assert(r@ =~= initial_state());
        r
    }

    pub fn pc(&self) -> (r: u16)
        ensures
            r == self@.pc,
    {
        self.pc
    }

    /// The address register I.
    pub fn index(&self) -> (r: u16)
        ensures
            r == self@.i,
    {
        self.i
    }

    /// Register Vx.
    pub fn register(&self, x: usize) -> (r: u8)
        requires
            self.wf(),
            x < REGISTER_COUNT,
        ensures
            r == self@.v[x as int],
    {
        self.registers[x]
    }

    pub fn pause(&self) -> (r: Pause)
        ensures
            r == self@.pause,
    {
        self.pause
    }

    pub fn memory(&self) -> (r: &Memory)
        requires
            self.wf(),
        ensures
            r.wf(),
            r@ == self@.mem,
    {
        &self.memory
    }

    pub fn stack(&self) -> (r: &Stack)
        requires
            self.wf(),
        ensures
            r.wf(),
            r@ == self@.stack,
    {
        &self.stack
    }

    pub fn display(&self) -> (r: &Display)
        requires
            self.wf(),
        ensures
            r.wf(),
            r@ == self@.screen,
    {
        &self.display
    }

    pub fn keypad(&self) -> (r: &Keypad)
        ensures
            r.down() == self@.keys,
            r.was_down() == self@.last_keys,
    {
        &self.keypad
    }

    fn op_cls(&mut self)
        requires
            old(self).wf(),
        ensures
            final(self).wf(),
            exec_op(old(self)@, Op::Cls, 0) == Ok::<CpuState, Fault>(final(self)@),
    {
        let ghost s0 = self@;
        self.display.clear();
        assert(self@ =~= CpuState { screen: Seq::new(CELLS as nat, |k: int| false), ..s0 });
    }

    fn op_ret(&mut self) -> (r: Result<(), Fault>)
        requires
            old(self).wf(),
        ensures
            final(self).wf(),
            outcome(old(self)@, final(self)@, r, exec_op(old(self)@, Op::Ret, 0)),
    {
        let ghost s0 = self@;
        match self.stack.pop() {
            Ok(addr) => {
                self.pc = addr;
                assert(self@ =~= CpuState { pc: s0.stack.last(), stack: s0.stack.drop_last(), ..s0 });
                Ok(())
            },
            Err(e) => {
                assert(self@ =~= s0);
                Err(e)
            },
        }
    }

    fn op_jp_addr(&mut self, nnn: u16)
        requires
            old(self).wf(),
        ensures
            final(self).wf(),
            exec_op(old(self)@, Op::Jump { nnn }, 0) == Ok::<CpuState, Fault>(final(self)@),
    {
        let ghost s0 = self@;
        self.pc = nnn;
        assert(self@ =~= CpuState { pc: nnn, ..s0 });
    }

    fn op_call_addr(&mut self, nnn: u16) -> (r: Result<(), Fault>)
        requires
            old(self).wf(),
        ensures
            final(self).wf(),
            outcome(old(self)@, final(self)@, r, exec_op(old(self)@, Op::Call { nnn }, 0)),
    {
        let ghost s0 = self@;
        proof {
            self.lemma_wf();
        }
        match self.stack.push(self.pc) {
            Ok(()) => {
                self.pc = nnn;
                assert(self@ =~= CpuState { pc: nnn, stack: s0.stack.push(s0.pc), ..s0 });
                Ok(())
            },
            Err(e) => {
                assert(self@ =~= s0);
                Err(e)
            },
        }
    }

    /// Skips the next instruction where `cond` holds.
    fn skip_when(&mut self, cond: bool)
        requires
            old(self).wf(),
        ensures
            final(self).wf(),
            final(self)@ == skip_if(old(self)@, cond),
    {
        let ghost s0 = self@;
        if cond {
            self.pc = self.pc.wrapping_add(2);
            assert(self@ =~= CpuState { pc: wrap16(s0.pc + 2), ..s0 });
        } else {
            assert(self@ =~= s0);
        }
    }

    fn set_register(&mut self, x: usize, val: u8)
        requires
            old(self).wf(),
            x < REGISTER_COUNT,
        ensures
            final(self).wf(),
            final(self)@ == set_reg(old(self)@, x as int, val),
    {
        let ghost s0 = self@;
        self.registers.set(x, val);
        assert(self@ =~= set_reg(s0, x as int, val));
    }

    /// Writes Vx, then VF.
    fn set_register_and_flag(&mut self, x: usize, val: u8, f: u8)
        requires
            old(self).wf(),
            x < REGISTER_COUNT,
        ensures
            final(self).wf(),
            final(self)@ == set_reg_flag(old(self)@, x as int, val, f),
    {
        let ghost s0 = self@;
        self.registers.set(x, val);
        self.registers.set(FLAG, f);
        assert(self@ =~= set_reg_flag(s0, x as int, val, f));
    }
    fn op_add_vx_vy(&mut self, x: usize, y: usize)
        requires
            old(self).wf(),
            x < REGISTER_COUNT,
            y < REGISTER_COUNT,
        ensures
            final(self).wf(),
            exec_op(old(self)@, Op::AddReg { x, y }, 0) == Ok::<CpuState, Fault>(final(self)@),
    {
        let register_x = self.registers[x];
        let register_y = self.registers[y];
        let carry = register_x as u16 + register_y as u16 > 0xFF;
        self.set_register_and_flag(x, register_x.wrapping_add(register_y), if carry { 1 } else { 0 });
    }

    fn op_sub_vx_vy(&mut self, x: usize, y: usize)
        requires
            old(self).wf(),
            x < REGISTER_COUNT,
            y < REGISTER_COUNT,
        ensures
            final(self).wf(),
            exec_op(old(self)@, Op::Sub { x, y }, 0) == Ok::<CpuState, Fault>(final(self)@),
    {
        let register_x = self.registers[x];
        let register_y = self.registers[y];
        self.set_register_and_flag(
            x,
            register_x.wrapping_sub(register_y),
            if register_x > register_y { 1 } else { 0 },
        );
    }

    fn op_subn_vx_vy(&mut self, x: usize, y: usize)
        requires
            old(self).wf(),
            x < REGISTER_COUNT,
            y < REGISTER_COUNT,
        ensures
            final(self).wf(),
            exec_op(old(self)@, Op::SubN { x, y }, 0) == Ok::<CpuState, Fault>(final(self)@),
    {
        let register_x = self.registers[x];
        let register_y = self.registers[y];
        self.set_register_and_flag(
            x,
            register_y.wrapping_sub(register_x),
            if register_y > register_x { 1 } else { 0 },
        );
    }

    /// Vx = Vy >> 1; VF takes the bit shifted out of Vy.
    fn op_shr_vx_vy(&mut self, x: usize, y: usize)
        requires
            old(self).wf(),
            x < REGISTER_COUNT,
            y < REGISTER_COUNT,
        ensures
            final(self).wf(),
            exec_op(old(self)@, Op::ShiftRight { x, y }, 0) == Ok::<CpuState, Fault>(
                final(self)@,
            ),
    {
        let source = self.registers[y];
        assert(source >> 1u8 == source / 2 && source & 1u8 == source % 2) by (bit_vector);
        self.set_register_and_flag(x, source >> 1u8, source & 1u8);
    }

    /// Vx = Vy << 1; VF takes the bit shifted out of Vy.
    fn op_shl_vx_vy(&mut self, x: usize, y: usize)
        requires
            old(self).wf(),
            x < REGISTER_COUNT,
            y < REGISTER_COUNT,
        ensures
            final(self).wf(),
            exec_op(old(self)@, Op::ShiftLeft { x, y }, 0) == Ok::<CpuState, Fault>(
                final(self)@,
            ),
    {
        let source = self.registers[y];
        assert(source << 1u8 == (source * 2) % 256 && (source & 0x80u8) >> 7u8 == source / 128)
            by (bit_vector);
        self.set_register_and_flag(x, source << 1u8, (source & 0x80u8) >> 7u8);
    }

    fn op_add_i_vx(&mut self, x: usize)
        requires
            old(self).wf(),
            x < REGISTER_COUNT,
        ensures
            final(self).wf(),
            exec_op(old(self)@, Op::AddIndex { x }, 0) == Ok::<CpuState, Fault>(final(self)@),
    {
        let ghost s0 = self@;
        self.i = self.i.wrapping_add(self.registers[x] as u16);
        assert(self@ =~= CpuState { i: wrap16(s0.i + s0.v[x as int]), ..s0 });
    }

    /// I = address of the glyph for the digit in Vx.
    fn op_ld_f_vx(&mut self, x: usize)
        requires
            old(self).wf(),
            x < REGISTER_COUNT,
        ensures
            final(self).wf(),
            exec_op(old(self)@, Op::LoadFont { x }, 0) == Ok::<CpuState, Fault>(final(self)@),
    {
        let ghost s0 = self@;
        self.i = FONT_START + self.registers[x] as u16 * GLYPH_SIZE;
        assert(self@ =~= CpuState { i: (FONT_START + s0.v[x as int] * GLYPH_SIZE) as u16, ..s0 });
    }

    /// Stores the hundreds, tens and ones of Vx at I, I+1 and I+2.
    fn op_ld_b_vx(&mut self, x: usize) -> (r: Result<(), Fault>)
        requires
            old(self).wf(),
            x < REGISTER_COUNT,
        ensures
            final(self).wf(),
            outcome(old(self)@, final(self)@, r, exec_op(old(self)@, Op::StoreBcd { x }, 0)),
    {
        let ghost s0 = self@;
        if self.i as usize + 2 >= MEMORY_SIZE {
            return Err(Fault::AddressOutOfRange { addr: self.i });
        }
        let value: u8 = self.registers[x];
        let ones: u8 = value % 10;
        let tens: u8 = (value / 10) % 10;
        let hundreds: u8 = value / 100;
        self.memory.write_u8(self.i, hundreds);
        self.memory.write_u8(self.i + 1, tens);
        self.memory.write_u8(self.i + 2, ones);
        assert(self@ =~= CpuState { mem: mem_store(s0.mem, s0.i as int, bcd(value)), ..s0 });
        Ok(())
    }

    /// Stores V0 to Vx from I on, then advances I past them.
    fn op_ld_i_vx(&mut self, x: usize) -> (r: Result<(), Fault>)
        requires
            old(self).wf(),
            x < REGISTER_COUNT,
        ensures
            final(self).wf(),
            outcome(old(self)@, final(self)@, r, exec_op(old(self)@, Op::StoreRegs { x }, 0)),
    {
        let ghost s0 = self@;
        if self.i as usize + x >= MEMORY_SIZE {
            return Err(Fault::AddressOutOfRange { addr: self.i });
        }
        assert(mem_store(s0.mem, s0.i as int, s0.v.subrange(0, 0)) =~= s0.mem);
        let mut register: usize = 0;
        while register <= x
            invariant
                self.wf(),
                x < REGISTER_COUNT,
                register <= x + 1,
                self.i + x < MEMORY_SIZE,
                self@ == (CpuState {
                    mem: mem_store(s0.mem, s0.i as int, s0.v.subrange(0, register as int)),
                    ..s0
                }),
            decreases x + 1 - register,
        {
            self.memory.write_u8(self.i + register as u16, self.registers[register]);
            assert(self.memory@ =~= mem_store(
                s0.mem,
                s0.i as int,
                s0.v.subrange(0, register + 1),
            ));
            register = register + 1;
            assert(self@ =~= CpuState {
                mem: mem_store(s0.mem, s0.i as int, s0.v.subrange(0, register as int)),
                ..s0
            });
        }
        self.i = self.i + x as u16 + 1;
        assert(self@ =~= CpuState {
            mem: mem_store(s0.mem, s0.i as int, s0.v.subrange(0, x + 1)),
            i: (s0.i + x + 1) as u16,
            ..s0
        });
        Ok(())
    }

    /// Loads V0 to Vx from I on, then advances I past them.
    fn op_ld_vx_i(&mut self, x: usize) -> (r: Result<(), Fault>)
        requires
            old(self).wf(),
            x < REGISTER_COUNT,
        ensures
            final(self).wf(),
            outcome(old(self)@, final(self)@, r, exec_op(old(self)@, Op::LoadRegs { x }, 0)),
    {
        let ghost s0 = self@;
        if self.i as usize + x >= MEMORY_SIZE {
            return Err(Fault::AddressOutOfRange { addr: self.i });
        }
        let mut register: usize = 0;
        while register <= x
            invariant
                self.wf(),
                x < REGISTER_COUNT,
                register <= x + 1,
                self.i + x < MEMORY_SIZE,
                self@ == (CpuState {
                    v: Seq::new(
                        REGISTER_COUNT as nat,
                        |r: int| if r < register { s0.mem[s0.i + r] } else { s0.v[r] },
                    ),
                    ..s0
                }),
            decreases x + 1 - register,
        {
            let value = self.memory.read_u8(self.i + register as u16);
            self.registers.set(register, value);
            register = register + 1;
            assert(self@ =~= CpuState {
                v: Seq::new(
                    REGISTER_COUNT as nat,
                    |r: int| if r < register { s0.mem[s0.i + r] } else { s0.v[r] },
                ),
                ..s0
            });
        }
        self.i = self.i + x as u16 + 1;
        assert(self@ =~= CpuState {
            v: Seq::new(
                REGISTER_COUNT as nat,
                |r: int| if r <= x { s0.mem[s0.i + r] } else { s0.v[r] },
            ),
            i: (s0.i + x + 1) as u16,
            ..s0
        });
        Ok(())
    }
    /// Draws the `n`-row sprite at I at (Vx, Vy) and sets VF to whether a
    /// lit pixel went off. At most one draw runs per frame: a second one
    /// rewinds the program counter so that it is retried in the next frame.
    fn op_drw_vx_vy_n(&mut self, x: usize, y: usize, n: u16)
        requires
            old(self).wf(),
            x < REGISTER_COUNT,
            y < REGISTER_COUNT,
            n < 16,
        ensures
            final(self).wf(),
            exec_op(old(self)@, Op::Draw { x, y, n }, 0) == Ok::<CpuState, Fault>(final(self)@),
    {
        let ghost s0 = self@;
        if self.drawn_this_frame {
            self.pc = self.pc.wrapping_sub(2);
            assert(self@ =~= CpuState { pc: wrap16(s0.pc - 2), ..s0 });
            return;
        }
        let mut rows: Vec<u8> = Vec::new();
        let mut row: u16 = 0;
        while row < n
            invariant
                self.wf(),
                self@ == s0,
                row <= n,
                rows@.len() == row,
                forall|r: int|
                    0 <= r < row ==> #[trigger] rows@[r] == s0.mem[(s0.i + r) % MEMORY_SIZE as int],
            decreases n - row,
        {
            let address = ((self.i as usize + row as usize) % MEMORY_SIZE) as u16;
            rows.push(self.memory.read_u8(address));
            row = row + 1;
        }
        assert(rows@ =~= sprite_rows(s0.mem, s0.i, n as int));
        let coord_x = self.registers[x];
        let coord_y = self.registers[y];
        self.drawn_this_frame = true;
        let collision = self.display.draw_sprite(coord_x, coord_y, &rows);
        self.registers.set(FLAG, if collision { 1 } else { 0 });
        assert(self@ =~= CpuState {
            drawn_this_frame: true,
            screen: drawn(s0.screen, coord_x, coord_y, rows@),
            v: s0.v.update(FLAG as int, flag(collides(s0.screen, coord_x, coord_y, rows@))),
            ..s0
        });
    }

    /// Enters the wait for a key whose value goes to Vx.
    fn op_ld_vx_k(&mut self, x: usize)
        requires
            old(self).wf(),
            x < REGISTER_COUNT,
        ensures
            final(self).wf(),
            exec_op(old(self)@, Op::WaitKey { x }, 0) == Ok::<CpuState, Fault>(final(self)@),
    {
        let ghost s0 = self@;
        self.pause = Pause::AwaitingPress { register: x };
        assert(self@ =~= CpuState { pause: Pause::AwaitingPress { register: x }, ..s0 });
    }

    /// The index of the key that register Vx names, taken modulo 16.
    fn key_in(&self, x: usize) -> (r: u8)
        requires
            self.wf(),
            x < REGISTER_COUNT,
        ensures
            r == self@.v[x as int] as int % 16,
    {
        self.registers[x] % 16
    }

    fn op_se_vx_byte(&mut self, x: usize, kk: u8)
        requires
            old(self).wf(),
            x < REGISTER_COUNT,
        ensures
            final(self).wf(),
            exec_op(old(self)@, Op::SkipEqByte { x, kk }, 0) == Ok::<CpuState, Fault>(final(self)@),
    {
        let cond = self.registers[x] == kk;
        self.skip_when(cond);
    }

    fn op_sne_vx_byte(&mut self, x: usize, kk: u8)
        requires
            old(self).wf(),
            x < REGISTER_COUNT,
        ensures
            final(self).wf(),
            exec_op(old(self)@, Op::SkipNeByte { x, kk }, 0) == Ok::<CpuState, Fault>(final(self)@),
    {
        let cond = self.registers[x] != kk;
        self.skip_when(cond);
    }

    fn op_se_vx_vy(&mut self, x: usize, y: usize)
        requires
            old(self).wf(),
            x < REGISTER_COUNT,
            y < REGISTER_COUNT,
        ensures
            final(self).wf(),
            exec_op(old(self)@, Op::SkipEqReg { x, y }, 0) == Ok::<CpuState, Fault>(final(self)@),
    {
        let cond = self.registers[x] == self.registers[y];
        self.skip_when(cond);
    }

    fn op_ld_vx_byte(&mut self, x: usize, kk: u8)
        requires
            old(self).wf(),
            x < REGISTER_COUNT,
        ensures
            final(self).wf(),
            exec_op(old(self)@, Op::LoadByte { x, kk }, 0) == Ok::<CpuState, Fault>(final(self)@),
    {
        self.set_register(x, kk);
    }

    fn op_add_vx_byte(&mut self, x: usize, kk: u8)
        requires
            old(self).wf(),
            x < REGISTER_COUNT,
        ensures
            final(self).wf(),
            exec_op(old(self)@, Op::AddByte { x, kk }, 0) == Ok::<CpuState, Fault>(final(self)@),
    {
        let value = self.registers[x].wrapping_add(kk);
        self.set_register(x, value);
    }

    fn op_ld_vx_vy(&mut self, x: usize, y: usize)
        requires
            old(self).wf(),
            x < REGISTER_COUNT,
            y < REGISTER_COUNT,
        ensures
            final(self).wf(),
            exec_op(old(self)@, Op::LoadReg { x, y }, 0) == Ok::<CpuState, Fault>(final(self)@),
    {
        let value = self.registers[y];
        self.set_register(x, value);
    }

    fn op_or_vx_vy(&mut self, x: usize, y: usize)
        requires
            old(self).wf(),
            x < REGISTER_COUNT,
            y < REGISTER_COUNT,
        ensures
            final(self).wf(),
            exec_op(old(self)@, Op::Or { x, y }, 0) == Ok::<CpuState, Fault>(final(self)@),
    {
        let value = self.registers[x] | self.registers[y];
        self.set_register_and_flag(x, value, 0);
    }

    fn op_and_vx_vy(&mut self, x: usize, y: usize)
        requires
            old(self).wf(),
            x < REGISTER_COUNT,
            y < REGISTER_COUNT,
        ensures
            final(self).wf(),
            exec_op(old(self)@, Op::And { x, y }, 0) == Ok::<CpuState, Fault>(final(self)@),
    {
        let value = self.registers[x] & self.registers[y];
        self.set_register_and_flag(x, value, 0);
    }

    fn op_xor_vx_vy(&mut self, x: usize, y: usize)
        requires
            old(self).wf(),
            x < REGISTER_COUNT,
            y < REGISTER_COUNT,
        ensures
            final(self).wf(),
            exec_op(old(self)@, Op::Xor { x, y }, 0) == Ok::<CpuState, Fault>(final(self)@),
    {
        let value = self.registers[x] ^ self.registers[y];
        self.set_register_and_flag(x, value, 0);
    }

    fn op_sne_vx_vy(&mut self, x: usize, y: usize)
        requires
            old(self).wf(),
            x < REGISTER_COUNT,
            y < REGISTER_COUNT,
        ensures
            final(self).wf(),
            exec_op(old(self)@, Op::SkipNeReg { x, y }, 0) == Ok::<CpuState, Fault>(final(self)@),
    {
        let cond = self.registers[x] != self.registers[y];
        self.skip_when(cond);
    }

    fn op_ld_i_addr(&mut self, nnn: u16)
        requires
            old(self).wf(),
        ensures
            final(self).wf(),
            exec_op(old(self)@, Op::LoadIndex { nnn }, 0) == Ok::<CpuState, Fault>(final(self)@),
    {
        let ghost s0 = self@;
        self.i = nnn;
        assert(self@ =~= CpuState { i: nnn, ..s0 });
    }

    fn op_jp_v0_addr(&mut self, nnn: u16)
        requires
            old(self).wf(),
            nnn < 0x1000,
        ensures
            final(self).wf(),
            exec_op(old(self)@, Op::JumpV0 { nnn }, 0) == Ok::<CpuState, Fault>(final(self)@),
    {
        let ghost s0 = self@;
        self.pc = nnn + self.registers[0] as u16;
        assert(self@ =~= CpuState { pc: (nnn + s0.v[0]) as u16, ..s0 });
    }

    fn op_skp_vx(&mut self, x: usize)
        requires
            old(self).wf(),
            x < REGISTER_COUNT,
        ensures
            final(self).wf(),
            exec_op(old(self)@, Op::SkipKey { x }, 0) == Ok::<CpuState, Fault>(final(self)@),
    {
        let key = self.key_in(x);
        let cond = self.keypad.is_down(key);
        self.skip_when(cond);
    }

    fn op_sknp_vx(&mut self, x: usize)
        requires
            old(self).wf(),
            x < REGISTER_COUNT,
        ensures
            final(self).wf(),
            exec_op(old(self)@, Op::SkipNotKey { x }, 0) == Ok::<CpuState, Fault>(final(self)@),
    {
        let key = self.key_in(x);
        let cond = !self.keypad.is_down(key);
        self.skip_when(cond);
    }

    fn op_ld_vx_dt(&mut self, x: usize)
        requires
            old(self).wf(),
            x < REGISTER_COUNT,
        ensures
            final(self).wf(),
            exec_op(old(self)@, Op::LoadDelay { x }, 0) == Ok::<CpuState, Fault>(final(self)@),
    {
        let value = self.dt;
        self.set_register(x, value);
    }

    fn op_ld_dt_vx(&mut self, x: usize)
        requires
            old(self).wf(),
            x < REGISTER_COUNT,
        ensures
            final(self).wf(),
            exec_op(old(self)@, Op::SetDelay { x }, 0) == Ok::<CpuState, Fault>(final(self)@),
    {
        let ghost s0 = self@;
        self.dt = self.registers[x];
        assert(self@ =~= CpuState { dt: s0.v[x as int], ..s0 });
    }

    fn op_ld_st_vx(&mut self, x: usize)
        requires
            old(self).wf(),
            x < REGISTER_COUNT,
        ensures
            final(self).wf(),
            exec_op(old(self)@, Op::SetSound { x }, 0) == Ok::<CpuState, Fault>(final(self)@),
    {
        let ghost s0 = self@;
        self.st = self.registers[x];
        assert(self@ =~= CpuState { st: s0.v[x as int], ..s0 });
    }

    /// Vx = `random` & kk.
    fn op_rnd_vx_byte(&mut self, x: usize, kk: u8, random: u8)
        requires
            old(self).wf(),
            x < REGISTER_COUNT,
        ensures
            final(self).wf(),
            exec_op(old(self)@, Op::Random { x, kk }, random) == Ok::<CpuState, Fault>(final(self)@),
    {
        self.set_register(x, random & kk);
    }

    /// Executes one decoded instruction; the program counter already points
    /// past it. `random` is the byte that a random instruction uses.
    pub fn execute_op(&mut self, op: Op, random: u8) -> (r: Result<(), Fault>)
        requires
            old(self).wf(),
            operands_in_range(op),
        ensures
            final(self).wf(),
            outcome(old(self)@, final(self)@, r, exec_op(old(self)@, op, random)),
    {
        match op {
            Op::Sys { .. } => Ok(()),
            Op::Cls => {
                self.op_cls();
                Ok(())
            },
            Op::Ret => self.op_ret(),
            Op::Jump { nnn } => {
                self.op_jp_addr(nnn);
                Ok(())
            },
            Op::Call { nnn } => self.op_call_addr(nnn),
            Op::SkipEqByte { x, kk } => {
                self.op_se_vx_byte(x, kk);
                Ok(())
            },
            Op::SkipNeByte { x, kk } => {
                self.op_sne_vx_byte(x, kk);
                Ok(())
            },
            Op::SkipEqReg { x, y } => {
                self.op_se_vx_vy(x, y);
                Ok(())
            },
            Op::LoadByte { x, kk } => {
                self.op_ld_vx_byte(x, kk);
                Ok(())
            },
            Op::AddByte { x, kk } => {
                self.op_add_vx_byte(x, kk);
                Ok(())
            },
            Op::LoadReg { x, y } => {
                self.op_ld_vx_vy(x, y);
                Ok(())
            },
            Op::Or { x, y } => {
                self.op_or_vx_vy(x, y);
                Ok(())
            },
            Op::And { x, y } => {
                self.op_and_vx_vy(x, y);
                Ok(())
            },
            Op::Xor { x, y } => {
                self.op_xor_vx_vy(x, y);
                Ok(())
            },
            Op::AddReg { x, y } => {
                self.op_add_vx_vy(x, y);
                Ok(())
            },
            Op::Sub { x, y } => {
                self.op_sub_vx_vy(x, y);
                Ok(())
            },
            Op::ShiftRight { x, y } => {
                self.op_shr_vx_vy(x, y);
                Ok(())
            },
            Op::SubN { x, y } => {
                self.op_subn_vx_vy(x, y);
                Ok(())
            },
            Op::ShiftLeft { x, y } => {
                self.op_shl_vx_vy(x, y);
                Ok(())
            },
            Op::SkipNeReg { x, y } => {
                self.op_sne_vx_vy(x, y);
                Ok(())
            },
            Op::LoadIndex { nnn } => {
                self.op_ld_i_addr(nnn);
                Ok(())
            },
            Op::JumpV0 { nnn } => {
                self.op_jp_v0_addr(nnn);
                Ok(())
            },
            Op::Random { x, kk } => {
                self.op_rnd_vx_byte(x, kk, random);
                Ok(())
            },
            Op::Draw { x, y, n } => {
                self.op_drw_vx_vy_n(x, y, n);
                Ok(())
            },
            Op::SkipKey { x } => {
                self.op_skp_vx(x);
                Ok(())
            },
            Op::SkipNotKey { x } => {
                self.op_sknp_vx(x);
                Ok(())
            },
            Op::LoadDelay { x } => {
                self.op_ld_vx_dt(x);
                Ok(())
            },
            Op::WaitKey { x } => {
                self.op_ld_vx_k(x);
                Ok(())
            },
            Op::SetDelay { x } => {
                self.op_ld_dt_vx(x);
                Ok(())
            },
            Op::SetSound { x } => {
                self.op_ld_st_vx(x);
                Ok(())
            },
            Op::AddIndex { x } => {
                self.op_add_i_vx(x);
                Ok(())
            },
            Op::LoadFont { x } => {
                self.op_ld_f_vx(x);
                Ok(())
            },
            Op::StoreBcd { x } => self.op_ld_b_vx(x),
            Op::StoreRegs { x } => self.op_ld_i_vx(x),
            Op::LoadRegs { x } => self.op_ld_vx_i(x),
        }
    }

    /// Executes one raw instruction; the program counter already points past
    /// it. `random` is the byte that a random instruction uses.
    pub fn execute(&mut self, instruction: &Instruction, random: u8) -> (r: Result<(), Fault>)
        requires
            old(self).wf(),
        ensures
            final(self).wf(),
            outcome(old(self)@, final(self)@, r, exec_spec(old(self)@, instruction.raw, random)),
    {
        match instruction.decode() {
            Some(op) => self.execute_op(op, random),
            None => Err(Fault::UnknownOpcode { raw: instruction.raw }),
        }
    }

    /// One step of the interpreter. While running: fetch the opcode at the
    /// program counter, advance it by two and execute. While waiting for a
    /// key: only record a key that went down since the previous frame, or
    /// resume once that key is up again. On a fault the state is left as it
    /// was before the step.
    pub fn step(&mut self, random: u8) -> (r: Result<(), Fault>)
        requires
            old(self).wf(),
        ensures
            final(self).wf(),
            outcome(old(self)@, final(self)@, r, step_spec(old(self)@, random)),
    {
        let ghost s0 = self@;
        match self.pause {
            Pause::AwaitingPress { register } => {
                match self.keypad.first_press() {
                    Some(key) => {
                        self.registers.set(register, key);
                        self.pause = Pause::AwaitingRelease { register, key };
                        assert(self@ =~= CpuState {
                            v: s0.v.update(register as int, key),
                            pause: Pause::AwaitingRelease { register, key },
                            ..s0
                        });
                    },
                    None => {},
                }
                return Ok(());
            },
            Pause::AwaitingRelease { register, key } => {
                if !self.keypad.is_down(key) {
                    self.pause = Pause::Running;
                    assert(self@ =~= CpuState { pause: Pause::Running, ..s0 });
                }
                return Ok(());
            },
            Pause::Running => {},
        }
        if self.pc as usize + 1 >= MEMORY_SIZE {
            return Err(Fault::AddressOutOfRange { addr: self.pc });
        }
        let opcode = self.memory.read_u16(self.pc);
        let instruction = Instruction::new(opcode);
        self.pc = self.pc + 2;
        let r = self.execute(&instruction, random);
        if r.is_err() {
            self.pc = self.pc - 2;
            assert(self@ =~= s0);
        }
        r
    }
    /// One step, with a random instruction drawing its byte from the
    /// thread-local generator; see `step`.
    pub fn decode_next_instruction(&mut self) -> (r: Result<(), Fault>)
        requires
            old(self).wf(),
        ensures
            final(self).wf(),
            exists|random: u8| outcome(old(self)@, final(self)@, r, step_spec(old(self)@, random)),
    {
        let random = random_byte();
        self.step(random)
    }

    /// Executes one raw instruction, with a random instruction drawing its
    /// byte from the thread-local generator; see `execute`.
    pub fn execute_instruction(&mut self, instruction: &Instruction) -> (r: Result<(), Fault>)
        requires
            old(self).wf(),
        ensures
            final(self).wf(),
            exists|random: u8|
                outcome(old(self)@, final(self)@, r, exec_spec(old(self)@, instruction.raw, random)),
    {
        let random = random_byte();
        self.execute(instruction, random)
    }

    /// Copies a program image to `ROM_START`. Fails, with nothing changed,
    /// where the image would run past the end of memory.
    pub fn load_rom(&mut self, rom: &Vec<u8>) -> (r: Result<(), Fault>)
        requires
            old(self).wf(),
        ensures
            final(self).wf(),
            r is Ok <==> ROM_START + rom@.len() <= MEMORY_SIZE,
            r is Ok ==> final(self)@ == (CpuState { mem: with_rom(old(self)@.mem, rom@), ..old(self)@ }),
            r is Err ==> r == Err::<(), Fault>(Fault::RomTooLarge { len: rom.len() }) && final(self)@
                == old(self)@,
    {
        let ghost s0 = self@;
        let r = self.memory.load_rom(rom);
        assert(self@ =~= CpuState { mem: self.memory@, ..s0 });
        r
    }

    /// Records that key `key` is down or up in this frame.
    pub fn set_key(&mut self, key: u8, down: bool)
        requires
            old(self).wf(),
            key < KEY_COUNT,
        ensures
            final(self).wf(),
            final(self)@ == (CpuState { keys: old(self)@.keys.update(key as int, down), ..old(self)@ }),
    {
        let ghost s0 = self@;
        self.keypad.set_key(key, down);
        assert(self@ =~= CpuState { keys: s0.keys.update(key as int, down), ..s0 });
    }

    /// The frame boundary: this frame's keys become the previous frame's,
    /// and a draw may run again.
    pub fn begin_frame(&mut self)
        requires
            old(self).wf(),
        ensures
            final(self).wf(),
            final(self)@ == (CpuState {
                drawn_this_frame: false,
                last_keys: old(self)@.keys,
                ..old(self)@
            }),
    {
        let ghost s0 = self@;
        self.keypad.begin_frame();
        self.drawn_this_frame = false;
        assert(self@ =~= CpuState { drawn_this_frame: false, last_keys: s0.keys, ..s0 });
    }

    /// One tick of the timer clock: each timer above zero counts down by
    /// one. Returns whether the tone sounds during this tick, that is,
    /// whether the sound timer was above zero.
    pub fn tick_timers(&mut self) -> (tone: bool)
        requires
            old(self).wf(),
        ensures
            final(self).wf(),
            tone == (old(self)@.st > 0),
            final(self)@ == (CpuState {
                dt: if old(self)@.dt > 0 { (old(self)@.dt - 1) as u8 } else { 0 },
                st: if old(self)@.st > 0 { (old(self)@.st - 1) as u8 } else { 0 },
                ..old(self)@
            }),
    {
        if self.dt > 0 {
            self.dt = self.dt - 1;
        }
        let tone = self.st > 0;
        if tone {
            self.st = self.st - 1;
        }
        tone
    }
}

} // verus!
