//! The interpreter's state as a mathematical value, and the meaning of each
//! instruction and of one step as a function on it.

use vstd::prelude::*;
use crate::display::{collides, drawn, CELLS};
use crate::fault::Fault;
use crate::instruction::{decode_spec, Op};
use crate::keypad::{
    first_press_spec, lemma_first_press_finds, lemma_first_press_none, press_edge, KEY_COUNT,
};
use crate::memory::{word_of, MEMORY_SIZE};
use crate::stack::STACK_DEPTH;

verus! {

/// Number of general registers.
pub const REGISTER_COUNT: usize = 16;

/// Index of the flag register VF.
pub const FLAG: usize = 0xF;

/// Address of the glyph for digit 0 in the font table.
pub const FONT_START: u16 = 0x50;

/// Bytes per font glyph.
pub const GLYPH_SIZE: u16 = 5;

/// Whether the interpreter runs, or waits for a key to go down and then up.
#[derive(Clone, Copy, Debug, PartialEq, Eq, Structural)]
pub enum Pause {
    Running,
    /// Waiting for a key to go down; it will be stored in `register`.
    AwaitingPress { register: usize },
    /// `key` went down and was stored in `register`; waiting for it to go up.
    AwaitingRelease { register: usize, key: u8 },
}

/// The whole observable state of the interpreter.
#[verifier::ext_equal]
pub struct CpuState {
    pub pc: u16,
    pub i: u16,
    pub dt: u8,
    pub st: u8,
    pub drawn_this_frame: bool,
    pub pause: Pause,
    /// Registers V0 to VF.
    pub v: Seq<u8>,
    pub mem: Seq<u8>,
    /// Return addresses, oldest first.
    pub stack: Seq<u16>,
    /// Lit pixels, row-major.
    pub screen: Seq<bool>,
    /// Keys down in this frame.
    pub keys: Seq<bool>,
    /// Keys down in the previous frame.
    pub last_keys: Seq<bool>,
}

pub open spec fn pause_wf(p: Pause) -> bool {
    match p {
        Pause::Running => true,
        Pause::AwaitingPress { register } => register < REGISTER_COUNT,
        Pause::AwaitingRelease { register, key } => register < REGISTER_COUNT && key < KEY_COUNT,
    }
}

pub open spec fn state_wf(s: CpuState) -> bool {
    &&& s.v.len() == REGISTER_COUNT
    &&& s.mem.len() == MEMORY_SIZE
    &&& s.stack.len() <= STACK_DEPTH
    &&& s.screen.len() == CELLS
    &&& s.keys.len() == KEY_COUNT
    &&& s.last_keys.len() == KEY_COUNT
    &&& pause_wf(s.pause)
}

/// `a` as an 8-bit value, wrapping modulo 256.
pub open spec fn wrap8(a: int) -> u8 {
    (a % 0x100) as u8
}

/// `a` as a 16-bit value, wrapping modulo 65536.
pub open spec fn wrap16(a: int) -> u16 {
    (a % 0x10000) as u16
}

/// The flag value VF takes for a condition.
pub open spec fn flag(b: bool) -> u8 {
    if b {
        1
    } else {
        0
    }
}

/// The state with the next instruction skipped where `cond` holds.
pub open spec fn skip_if(s: CpuState, cond: bool) -> CpuState {
    if cond {
        CpuState { pc: wrap16(s.pc + 2), ..s }
    } else {
        s
    }
}

pub open spec fn set_reg(s: CpuState, x: int, val: u8) -> CpuState {
    CpuState { v: s.v.update(x, val), ..s }
}

/// Vx is written first, then VF, so that VF holds the flag where x is F.
pub open spec fn set_reg_flag(s: CpuState, x: int, val: u8, f: u8) -> CpuState {
    CpuState { v: s.v.update(x, val).update(FLAG as int, f), ..s }
}

/// Hundreds, tens and ones of a byte.
pub open spec fn bcd(val: u8) -> Seq<u8> {
    seq![(val / 100) as u8, ((val / 10) % 10) as u8, (val % 10) as u8]
}

/// The `n` sprite rows at `i`, their addresses wrapping at the end of memory.
pub open spec fn sprite_rows(mem: Seq<u8>, i: u16, n: int) -> Seq<u8> {
    Seq::new(n as nat, |r: int| mem[(i + r) % MEMORY_SIZE as int])
}

/// Memory with `vals` written from address `at` on.
pub open spec fn mem_store(mem: Seq<u8>, at: int, vals: Seq<u8>) -> Seq<u8> {
    Seq::new(mem.len(), |a: int| if at <= a < at + vals.len() { vals[a - at] } else { mem[a] })
}

/// What executing one decoded instruction does; the program counter already
/// points past it. `rnd` is the byte a random instruction draws.
pub open spec fn exec_op(s: CpuState, op: Op, rnd: u8) -> Result<CpuState, Fault> {
    let v = s.v;
    match op {
        Op::Sys { .. } => Ok(s),
        Op::Cls => Ok(CpuState { screen: Seq::new(CELLS as nat, |k: int| false), ..s }),
        Op::Ret => if s.stack.len() == 0 {
            Err(Fault::StackUnderflow)
        } else {
            Ok(CpuState { pc: s.stack.last(), stack: s.stack.drop_last(), ..s })
        },
        Op::Jump { nnn } => Ok(CpuState { pc: nnn, ..s }),
        Op::Call { nnn } => if s.stack.len() >= STACK_DEPTH {
            Err(Fault::StackOverflow)
        } else {
            Ok(CpuState { pc: nnn, stack: s.stack.push(s.pc), ..s })
        },
        Op::SkipEqByte { x, kk } => Ok(skip_if(s, v[x as int] == kk)),
        Op::SkipNeByte { x, kk } => Ok(skip_if(s, v[x as int] != kk)),
        Op::SkipEqReg { x, y } => Ok(skip_if(s, v[x as int] == v[y as int])),
        Op::LoadByte { x, kk } => Ok(set_reg(s, x as int, kk)),
        Op::AddByte { x, kk } => Ok(set_reg(s, x as int, wrap8(v[x as int] + kk))),
        Op::LoadReg { x, y } => Ok(set_reg(s, x as int, v[y as int])),
        Op::Or { x, y } => Ok(set_reg_flag(s, x as int, v[x as int] | v[y as int], 0)),
        Op::And { x, y } => Ok(set_reg_flag(s, x as int, v[x as int] & v[y as int], 0)),
        Op::Xor { x, y } => Ok(set_reg_flag(s, x as int, v[x as int] ^ v[y as int], 0)),
        Op::AddReg { x, y } => Ok(
            set_reg_flag(
                s,
                x as int,
                wrap8(v[x as int] + v[y as int]),
                flag(v[x as int] + v[y as int] > 0xFF),
            ),
        ),
        Op::Sub { x, y } => Ok(
            set_reg_flag(
                s,
                x as int,
                wrap8(v[x as int] - v[y as int]),
                flag(v[x as int] > v[y as int]),
            ),
        ),
        Op::ShiftRight { x, y } => Ok(
            set_reg_flag(s, x as int, (v[y as int] / 2) as u8, (v[y as int] % 2) as u8),
        ),
        Op::SubN { x, y } => Ok(
            set_reg_flag(
                s,
                x as int,
                wrap8(v[y as int] - v[x as int]),
                flag(v[y as int] > v[x as int]),
            ),
        ),
        Op::ShiftLeft { x, y } => Ok(
            set_reg_flag(s, x as int, wrap8(v[y as int] * 2), (v[y as int] / 0x80) as u8),
        ),
        Op::SkipNeReg { x, y } => Ok(skip_if(s, v[x as int] != v[y as int])),
        Op::LoadIndex { nnn } => Ok(CpuState { i: nnn, ..s }),
        Op::JumpV0 { nnn } => Ok(CpuState { pc: (nnn + v[0]) as u16, ..s }),
        Op::Random { x, kk } => Ok(set_reg(s, x as int, rnd & kk)),
        Op::Draw { x, y, n } => if s.drawn_this_frame {
            Ok(CpuState { pc: wrap16(s.pc - 2), ..s })
        } else {
            let rows = sprite_rows(s.mem, s.i, n as int);
            Ok(
                CpuState {
                    drawn_this_frame: true,
                    screen: drawn(s.screen, v[x as int], v[y as int], rows),
                    v: v.update(FLAG as int, flag(collides(s.screen, v[x as int], v[y as int], rows))),
                    ..s
                },
            )
        },
        Op::SkipKey { x } => Ok(skip_if(s, s.keys[v[x as int] as int % 16])),
        Op::SkipNotKey { x } => Ok(skip_if(s, !s.keys[v[x as int] as int % 16])),
        Op::LoadDelay { x } => Ok(set_reg(s, x as int, s.dt)),
        Op::WaitKey { x } => Ok(CpuState { pause: Pause::AwaitingPress { register: x }, ..s }),
        Op::SetDelay { x } => Ok(CpuState { dt: v[x as int], ..s }),
        Op::SetSound { x } => Ok(CpuState { st: v[x as int], ..s }),
        Op::AddIndex { x } => Ok(CpuState { i: wrap16(s.i + v[x as int]), ..s }),
        Op::LoadFont { x } => Ok(CpuState { i: (FONT_START + v[x as int] * GLYPH_SIZE) as u16, ..s }),
        Op::StoreBcd { x } => if s.i + 2 >= MEMORY_SIZE {
            Err(Fault::AddressOutOfRange { addr: s.i })
        } else {
            Ok(CpuState { mem: mem_store(s.mem, s.i as int, bcd(v[x as int])), ..s })
        },
        Op::StoreRegs { x } => if s.i + x >= MEMORY_SIZE {
            Err(Fault::AddressOutOfRange { addr: s.i })
        } else {
            Ok(
                CpuState {
                    mem: mem_store(s.mem, s.i as int, v.subrange(0, x + 1)),
                    i: (s.i + x + 1) as u16,
                    ..s
                },
            )
        },
        Op::LoadRegs { x } => if s.i + x >= MEMORY_SIZE {
            Err(Fault::AddressOutOfRange { addr: s.i })
        } else {
            Ok(
                CpuState {
                    v: Seq::new(
                        REGISTER_COUNT as nat,
                        |r: int| if r <= x { s.mem[s.i + r] } else { v[r] },
                    ),
                    i: (s.i + x + 1) as u16,
                    ..s
                },
            )
        },
    }
}

/// What executing a raw opcode does; the program counter already points
/// past it.
pub open spec fn exec_spec(s: CpuState, raw: u16, rnd: u8) -> Result<CpuState, Fault> {
    match decode_spec(raw) {
        None => Err(Fault::UnknownOpcode { raw }),
        Some(op) => exec_op(s, op, rnd),
    }
}

/// The opcode at the program counter.
pub open spec fn fetch_spec(s: CpuState) -> u16 {
    word_of(s.mem[s.pc as int], s.mem[s.pc + 1]) as u16
}

/// One step: while running, fetch, advance the program counter and execute;
/// while waiting for a key, only watch for the press and then the release.
pub open spec fn step_spec(s: CpuState, rnd: u8) -> Result<CpuState, Fault> {
    match s.pause {
        Pause::Running => if s.pc + 1 >= MEMORY_SIZE {
            Err(Fault::AddressOutOfRange { addr: s.pc })
        } else {
            exec_spec(CpuState { pc: (s.pc + 2) as u16, ..s }, fetch_spec(s), rnd)
        },
        Pause::AwaitingPress { register } => match first_press_spec(s.last_keys, s.keys) {
            None => Ok(s),
            Some(k) => Ok(
                CpuState {
                    v: s.v.update(register as int, k),
                    pause: Pause::AwaitingRelease { register, key: k },
                    ..s
                },
            ),
        },
        Pause::AwaitingRelease { register, key } => if !s.keys[key as int] {
            Ok(CpuState { pause: Pause::Running, ..s })
        } else {
            Ok(s)
        },
    }
}

/// While a draw has already run in this frame, a step that meets another
/// draw changes nothing: the program counter is rewound onto it, so that it
/// runs after the next frame boundary.
pub proof fn lemma_draw_throttled(s: CpuState, rnd: u8, x: usize, y: usize, n: u16)
    requires
        state_wf(s),
        s.pause == Pause::Running,
        s.pc + 1 < MEMORY_SIZE,
        s.drawn_this_frame,
        decode_spec(fetch_spec(s)) == Some(Op::Draw { x, y, n }),
    ensures
        step_spec(s, rnd) == Ok::<CpuState, Fault>(s),
{
    let t = CpuState { pc: (s.pc + 2) as u16, ..s };
    assert(exec_op(t, Op::Draw { x, y, n }, rnd) == Ok::<CpuState, Fault>(s)) by {
        assert(CpuState { pc: wrap16(t.pc - 2), ..t } =~= s);
    }
}

/// A step that calls a subroutine starting with a return, followed by the
/// step that returns, leaves the machine as it was with the program counter
/// just past the call.
pub proof fn lemma_call_then_return(s: CpuState, nnn: u16, rnd1: u8, rnd2: u8)
    requires
        state_wf(s),
        s.pause == Pause::Running,
        s.pc + 1 < MEMORY_SIZE,
        s.stack.len() < STACK_DEPTH,
        decode_spec(fetch_spec(s)) == Some(Op::Call { nnn }),
        nnn + 1 < MEMORY_SIZE,
        decode_spec(word_of(s.mem[nnn as int], s.mem[nnn + 1]) as u16) == Some(Op::Ret),
    ensures
        step_spec(s, rnd1) is Ok,
        step_spec(step_spec(s, rnd1)->Ok_0, rnd2) == Ok::<CpuState, Fault>(
            CpuState { pc: (s.pc + 2) as u16, ..s },
        ),
{
    let t = step_spec(s, rnd1)->Ok_0;
    assert(t.stack.drop_last() =~= s.stack);
    assert(step_spec(t, rnd2)->Ok_0 =~= CpuState { pc: (s.pc + 2) as u16, ..s });
}

/// The state after a frame boundary at which key `k` is seen down (`down`)
/// or up, all else as in `s`.
pub open spec fn next_frame(s: CpuState, k: int, down: bool) -> CpuState {
    CpuState { drawn_this_frame: false, last_keys: s.keys, keys: s.keys.update(k, down), ..s }
}

/// Waiting for a key into `register`, with every key up: over three frames
/// in which key `k` is up, then down, then up again, the machine keeps
/// waiting through the first frame, stores `k` on the press in the second
/// and keeps waiting for as long as the key stays down, and runs again on
/// the release in the third.
pub proof fn lemma_key_wait(s: CpuState, register: usize, k: u8, rnd: u8)
    requires
        state_wf(s),
        s.pause == (Pause::AwaitingPress { register }),
        k < KEY_COUNT,
        forall|j: int| 0 <= j < KEY_COUNT ==> !#[trigger] s.keys[j] && !s.last_keys[j],
    ensures
        ({
            let f1 = next_frame(s, k as int, false);
            let f2 = next_frame(step_spec(f1, rnd)->Ok_0, k as int, true);
            let pressed = step_spec(f2, rnd)->Ok_0;
            let f3 = next_frame(pressed, k as int, false);
            &&& step_spec(f1, rnd) == Ok::<CpuState, Fault>(f1)
            &&& pressed.v[register as int] == k
            &&& pressed.pause == (Pause::AwaitingRelease { register, key: k })
            &&& step_spec(pressed, rnd) == Ok::<CpuState, Fault>(pressed)
            &&& step_spec(f3, rnd) is Ok
            &&& (step_spec(f3, rnd)->Ok_0).pause == Pause::Running
            &&& (step_spec(f3, rnd)->Ok_0).v[register as int] == k
        }),
{
    let f1 = next_frame(s, k as int, false);
    lemma_first_press_none(f1.last_keys, f1.keys, 0);
    let f2 = next_frame(f1, k as int, true);
    assert(step_spec(f1, rnd) == Ok::<CpuState, Fault>(f1));
    assert forall|i: int| 0 <= i < k implies !press_edge(f2.last_keys, f2.keys, i) by {
        assert(!s.keys[i]);
    }
    lemma_first_press_finds(f2.last_keys, f2.keys, 0, k as int);
}

/// `after` and the result `r` are what `spec` says of a call on `before`: its
/// state where it succeeds, and on a fault the fault with the state unchanged.
pub open spec fn outcome(
    before: CpuState,
    after: CpuState,
    r: Result<(), Fault>,
    spec: Result<CpuState, Fault>,
) -> bool {
    match spec {
        Ok(t) => r is Ok && after == t,
        Err(e) => r == Err::<(), Fault>(e) && after == before,
    }
}

} // verus!
