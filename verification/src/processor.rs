//! The fetch-decode-execute state machine. The processor owns the memory, the
//! screen, the sixteen general registers, the call stack, the two timers and
//! the keypad state, and advances by exactly one cycle per `tick`.
//!
//! Two machine states: running, and awaiting a key. While awaiting, a cycle
//! only inspects the supplied key mask; the wait ends when the mask is nonzero.
//!
//! Conditions the hardware leaves undefined are handled like an unknown
//! opcode — the cycle is reported as an error and the program counter advances
//! by one instruction, with no other state change. These are: a return with an
//! empty call stack, a call with a full one, a memory access through `I` that
//! would leave the address space, and an address-register overflow. A fetch
//! with the program counter at or past the last byte of memory leaves the
//! machine unchanged.

use vstd::prelude::*;

use rand::Rng;

use crate::decoder::DecodedOpcode;
use crate::memory::Memory;
use crate::screen::Screen;
use crate::{MEMORY_SIZE, OPCODE_SIZE, RESERVED_MEMORY_SIZE, SCREEN_HEIGHT, SCREEN_SIZE,
    SCREEN_WIDTH, STACK_SIZE, V_REGISTERS_SIZE};

verus! {

use vstd::std_specs::bits::u16_trailing_zeros;

/// The processor: memory, screen, registers, stack, timers, keypad state.
pub struct Processor {
    /// Machine memory, `MEMORY_SIZE` bytes.
    pub memory: Memory,
    /// The pixel buffer.
    pub screen: Screen,
    /// Return-address slots for subroutine calls.
    pub stack: Vec<usize>,
    /// Next free stack slot; depth of the call stack, in `[0, STACK_SIZE]`.
    pub stack_pointer: usize,
    /// General-purpose registers V0 through VF; VF doubles as the flag register.
    pub v_registers: Vec<u8>,
    /// The address register I.
    pub i_register: usize,
    /// Address of the next instruction.
    pub program_counter: usize,
    /// Delay timer, decremented toward zero once per frame.
    pub delay_timer: u8,
    /// Sound timer, decremented toward zero once per frame; a tone plays while nonzero.
    pub sound_timer: u8,
    /// Current key state: bit `i` set means key `i` is pressed.
    pub keypad: u16,
    /// Whether the machine is blocked awaiting a key press.
    pub keypad_wait: bool,
    /// The register that receives the key index when the wait ends.
    pub keypad_wait_index: usize,
}

/// What one executed instruction asks the processor to do with the program
/// counter: advance past the instruction, skip one more, jump to an address,
/// or report the instruction and advance (`Error`).
#[derive(Clone, Copy, Debug, PartialEq, Eq, Structural)]
pub enum ProcessorCycle {
    Error(DecodedOpcode),
    Next,
    Skip,
    Jump(usize),
}

impl ProcessorCycle {
    /// `Skip` when the condition holds, `Next` otherwise.
    pub fn skip_if(condition: bool) -> (r: ProcessorCycle)
        ensures
            r == (if condition {
                ProcessorCycle::Skip
            } else {
                ProcessorCycle::Next
            }),
    {
        if condition {
            ProcessorCycle::Skip
        } else {
            ProcessorCycle::Next
        }
    }
}

// ------------------------------------------------------------------
// Frame conditions: which parts of the processor a step leaves alone.
// The program counter is always stated separately, since it is set by
// the cycle outcome after the instruction's own effect.
// ------------------------------------------------------------------

pub open spec fn same_memory(a: Processor, b: Processor) -> bool {
    b.memory.bytes@ == a.memory.bytes@ && b.memory.rom_size == a.memory.rom_size
}

pub open spec fn same_screen(a: Processor, b: Processor) -> bool {
    b.screen.pixels@ == a.screen.pixels@ && b.screen.needs_refresh == a.screen.needs_refresh
}

pub open spec fn same_stack(a: Processor, b: Processor) -> bool {
    b.stack@ == a.stack@ && b.stack_pointer == a.stack_pointer
}

pub open spec fn same_regs(a: Processor, b: Processor) -> bool {
    b.v_registers@ == a.v_registers@
}

pub open spec fn same_i(a: Processor, b: Processor) -> bool {
    b.i_register == a.i_register
}

pub open spec fn same_pc(a: Processor, b: Processor) -> bool {
    b.program_counter == a.program_counter
}

pub open spec fn same_timers(a: Processor, b: Processor) -> bool {
    b.delay_timer == a.delay_timer && b.sound_timer == a.sound_timer
}

pub open spec fn same_keypad(a: Processor, b: Processor) -> bool {
    b.keypad == a.keypad
}

pub open spec fn same_wait(a: Processor, b: Processor) -> bool {
    b.keypad_wait == a.keypad_wait && b.keypad_wait_index == a.keypad_wait_index
}

/// Everything but the program counter is unchanged.
pub open spec fn same_except_pc(a: Processor, b: Processor) -> bool {
    &&& same_memory(a, b)
    &&& same_screen(a, b)
    &&& same_stack(a, b)
    &&& same_regs(a, b)
    &&& same_i(a, b)
    &&& same_timers(a, b)
    &&& same_keypad(a, b)
    &&& same_wait(a, b)
}

/// Only the general registers (and the program counter) may differ.
pub open spec fn frame_regs(a: Processor, b: Processor) -> bool {
    &&& same_memory(a, b)
    &&& same_screen(a, b)
    &&& same_stack(a, b)
    &&& same_i(a, b)
    &&& same_timers(a, b)
    &&& same_keypad(a, b)
    &&& same_wait(a, b)
}

/// Only the screen (and the program counter) may differ.
pub open spec fn frame_screen(a: Processor, b: Processor) -> bool {
    &&& same_memory(a, b)
    &&& same_stack(a, b)
    &&& same_regs(a, b)
    &&& same_i(a, b)
    &&& same_timers(a, b)
    &&& same_keypad(a, b)
    &&& same_wait(a, b)
}

/// Only the screen and the general registers (and the program counter) may differ.
pub open spec fn frame_screen_regs(a: Processor, b: Processor) -> bool {
    &&& same_memory(a, b)
    &&& same_stack(a, b)
    &&& same_i(a, b)
    &&& same_timers(a, b)
    &&& same_keypad(a, b)
    &&& same_wait(a, b)
}

/// Only the call stack and its pointer (and the program counter) may differ.
pub open spec fn frame_stack(a: Processor, b: Processor) -> bool {
    &&& same_memory(a, b)
    &&& same_screen(a, b)
    &&& same_regs(a, b)
    &&& same_i(a, b)
    &&& same_timers(a, b)
    &&& same_keypad(a, b)
    &&& same_wait(a, b)
}

/// Only the address register I (and the program counter) may differ.
pub open spec fn frame_i(a: Processor, b: Processor) -> bool {
    &&& same_memory(a, b)
    &&& same_screen(a, b)
    &&& same_stack(a, b)
    &&& same_regs(a, b)
    &&& same_timers(a, b)
    &&& same_keypad(a, b)
    &&& same_wait(a, b)
}

/// Only the address register I and the general registers (and the program
/// counter) may differ.
pub open spec fn frame_i_regs(a: Processor, b: Processor) -> bool {
    &&& same_memory(a, b)
    &&& same_screen(a, b)
    &&& same_stack(a, b)
    &&& same_timers(a, b)
    &&& same_keypad(a, b)
    &&& same_wait(a, b)
}

/// Only the memory (and the program counter) may differ.
pub open spec fn frame_memory(a: Processor, b: Processor) -> bool {
    &&& b.memory.rom_size == a.memory.rom_size
    &&& same_screen(a, b)
    &&& same_stack(a, b)
    &&& same_regs(a, b)
    &&& same_i(a, b)
    &&& same_timers(a, b)
    &&& same_keypad(a, b)
    &&& same_wait(a, b)
}

/// Only the two timers (and the program counter) may differ.
pub open spec fn frame_timers(a: Processor, b: Processor) -> bool {
    &&& same_memory(a, b)
    &&& same_screen(a, b)
    &&& same_stack(a, b)
    &&& same_regs(a, b)
    &&& same_i(a, b)
    &&& same_keypad(a, b)
    &&& same_wait(a, b)
}

/// Only the key-wait state (and the program counter) may differ.
pub open spec fn frame_wait(a: Processor, b: Processor) -> bool {
    &&& same_memory(a, b)
    &&& same_screen(a, b)
    &&& same_stack(a, b)
    &&& same_regs(a, b)
    &&& same_i(a, b)
    &&& same_timers(a, b)
    &&& same_keypad(a, b)
}

// ------------------------------------------------------------------
// Pure views of single machine operations.
// ------------------------------------------------------------------

/// The 16-bit big-endian opcode word at an address.
pub open spec fn spec_fetch(mem: Seq<u8>, pc: int) -> u16 {
    ((mem[pc] as u16) << 8) | (mem[pc + 1] as u16)
}

/// Whether the key selected by a register value is down in the key mask.
/// Only the low four bits of the register select a key.
pub open spec fn key_pressed(keypad: u16, v: u8) -> bool {
    (keypad >> ((v & 0xF) as u16)) & 1 == 1
}

// ------------------------------------------------------------------
// The effect of each instruction family on the state, program counter
// aside. Each handler promises exactly its family's relation, and the
// dispatcher's contract is the union of them.
// ------------------------------------------------------------------

/// Clear screen: every cell off, screen dirty.
pub open spec fn cls_step(pre: Processor, post: Processor) -> bool {
    &&& post.screen.pixels@.len() == SCREEN_SIZE
    &&& forall|k: int| 0 <= k < SCREEN_SIZE ==> post.screen.pixels@[k] == false
    &&& post.screen.needs_refresh == true
    &&& frame_screen(pre, post)
}

/// Return: pop one slot off the call stack; with an empty stack, no change.
pub open spec fn ret_step(pre: Processor, post: Processor) -> bool {
    if pre.stack_pointer >= 1 {
        &&& post.stack@ == pre.stack@
        &&& post.stack_pointer == pre.stack_pointer - 1
        &&& frame_stack(pre, post)
    } else {
        same_except_pc(pre, post)
    }
}

/// Call: push the return address (the instruction after this one) and deepen
/// the stack; with a full stack, no change.
pub open spec fn call_step(pre: Processor, post: Processor) -> bool {
    if pre.stack_pointer < STACK_SIZE {
        &&& post.stack@ == pre.stack@.update(
            pre.stack_pointer as int,
            ((pre.program_counter + OPCODE_SIZE) as usize),
        )
        &&& post.stack_pointer == pre.stack_pointer + 1
        &&& frame_stack(pre, post)
    } else {
        same_except_pc(pre, post)
    }
}

/// Load immediate: VX = NN.
pub open spec fn ld_vx_nn_step(pre: Processor, post: Processor, x: int, nn: u8) -> bool {
    &&& post.v_registers@ == pre.v_registers@.update(x, nn)
    &&& frame_regs(pre, post)
}

/// Add immediate: VX = VX + NN with 8-bit wraparound; no flag is touched.
pub open spec fn add_vx_nn_step(pre: Processor, post: Processor, x: int, nn: u8) -> bool {
    let sum = pre.v_registers@[x] + nn;
    &&& post.v_registers@ == pre.v_registers@.update(
        x,
        (if sum > 0xFF {
            (sum - 0x100) as u8
        } else {
            sum as u8
        }),
    )
    &&& frame_regs(pre, post)
}

/// Copy register: VX = VY.
pub open spec fn ld_vx_vy_step(pre: Processor, post: Processor, x: int, y: int) -> bool {
    &&& post.v_registers@ == pre.v_registers@.update(x, pre.v_registers@[y])
    &&& frame_regs(pre, post)
}

/// Bitwise or: VX = VX | VY.
pub open spec fn or_vx_vy_step(pre: Processor, post: Processor, x: int, y: int) -> bool {
    &&& post.v_registers@ == pre.v_registers@.update(
        x,
        pre.v_registers@[x] | pre.v_registers@[y],
    )
    &&& frame_regs(pre, post)
}

/// Bitwise and: VX = VX & VY.
pub open spec fn and_vx_vy_step(pre: Processor, post: Processor, x: int, y: int) -> bool {
    &&& post.v_registers@ == pre.v_registers@.update(
        x,
        pre.v_registers@[x] & pre.v_registers@[y],
    )
    &&& frame_regs(pre, post)
}

/// Bitwise xor: VX = VX ^ VY.
pub open spec fn xor_vx_vy_step(pre: Processor, post: Processor, x: int, y: int) -> bool {
    &&& post.v_registers@ == pre.v_registers@.update(
        x,
        pre.v_registers@[x] ^ pre.v_registers@[y],
    )
    &&& frame_regs(pre, post)
}

/// Add registers: VX = (VX + VY) mod 256, then VF = 1 exactly when the
/// unclamped sum exceeds 255. The flag write comes second, so it wins when
/// VX is VF itself.
pub open spec fn add_vx_vy_step(pre: Processor, post: Processor, x: int, y: int) -> bool {
    let sum = pre.v_registers@[x] + pre.v_registers@[y];
    &&& post.v_registers@ == pre.v_registers@.update(
        x,
        (if sum > 0xFF {
            (sum - 0x100) as u8
        } else {
            sum as u8
        }),
    ).update(
        15,
        (if sum > 0xFF {
            1u8
        } else {
            0u8
        }),
    )
    &&& frame_regs(pre, post)
}

/// Subtract: VX = VX - VY wrapping, then VF = 1 exactly when no borrow
/// occurred (VX >= VY before the subtraction).
pub open spec fn sub_vx_vy_step(pre: Processor, post: Processor, x: int, y: int) -> bool {
    let a = pre.v_registers@[x];
    let b = pre.v_registers@[y];
    &&& post.v_registers@ == pre.v_registers@.update(
        x,
        (if a >= b {
            (a - b) as u8
        } else {
            (a - b + 0x100) as u8
        }),
    ).update(
        15,
        (if a >= b {
            1u8
        } else {
            0u8
        }),
    )
    &&& frame_regs(pre, post)
}

/// Subtract reversed: VX = VY - VX wrapping, then VF = 1 exactly when no
/// borrow occurred (VY >= VX before the subtraction).
pub open spec fn subn_vx_vy_step(pre: Processor, post: Processor, x: int, y: int) -> bool {
    let a = pre.v_registers@[x];
    let b = pre.v_registers@[y];
    &&& post.v_registers@ == pre.v_registers@.update(
        x,
        (if b >= a {
            (b - a) as u8
        } else {
            (b - a + 0x100) as u8
        }),
    ).update(
        15,
        (if b >= a {
            1u8
        } else {
            0u8
        }),
    )
    &&& frame_regs(pre, post)
}

/// Shift right: VX = VX >> 1, then VF = the bit shifted out (the old least
/// significant bit).
pub open spec fn shr_vx_step(pre: Processor, post: Processor, x: int) -> bool {
    let a = pre.v_registers@[x];
    &&& post.v_registers@ == pre.v_registers@.update(x, a >> 1u8).update(15, a & 1u8)
    &&& frame_regs(pre, post)
}

/// Shift left: VX = VX << 1 (truncated to 8 bits), then VF = the bit shifted
/// out (the old most significant bit).
pub open spec fn shl_vx_step(pre: Processor, post: Processor, x: int) -> bool {
    let a = pre.v_registers@[x];
    &&& post.v_registers@ == pre.v_registers@.update(x, a << 1u8).update(15, a >> 7u8)
    &&& frame_regs(pre, post)
}

/// Set the address register: I = NNN.
pub open spec fn ld_i_nnn_step(pre: Processor, post: Processor, nnn: usize) -> bool {
    &&& post.i_register == nnn
    &&& frame_i(pre, post)
}

/// Random: VX = B & NN for some byte B drawn outside the machine. Every
/// outcome lies under the mask; nothing more is promised of it.
pub open spec fn rnd_vx_nn_step(pre: Processor, post: Processor, x: int, nn: u8) -> bool {
    &&& exists|b: u8| post.v_registers@ == pre.v_registers@.update(x, b & nn)
    &&& frame_regs(pre, post)
}

/// Wait for key: enter the awaiting-key state, remembering the target
/// register. The program counter still advances normally: the instruction is
/// complete the moment the wait begins.
pub open spec fn ld_vx_k_step(pre: Processor, post: Processor, x: int) -> bool {
    &&& post.keypad_wait == true
    &&& post.keypad_wait_index == x
    &&& frame_wait(pre, post)
}

/// Read the delay timer: VX = DT.
pub open spec fn ld_vx_dt_step(pre: Processor, post: Processor, x: int) -> bool {
    &&& post.v_registers@ == pre.v_registers@.update(x, pre.delay_timer)
    &&& frame_regs(pre, post)
}

/// Set the delay timer: DT = VX.
pub open spec fn ld_dt_vx_step(pre: Processor, post: Processor, x: int) -> bool {
    &&& post.delay_timer == pre.v_registers@[x]
    &&& post.sound_timer == pre.sound_timer
    &&& frame_timers(pre, post)
}

/// Set the sound timer: ST = VX.
pub open spec fn ld_st_vx_step(pre: Processor, post: Processor, x: int) -> bool {
    &&& post.sound_timer == pre.v_registers@[x]
    &&& post.delay_timer == pre.delay_timer
    &&& frame_timers(pre, post)
}

/// Add to the address register: I = I + VX, then VF = 1 exactly when the new
/// I exceeds 0xF00 (the documented threshold, smaller than the address space).
/// On address-register overflow, no change.
pub open spec fn add_i_vx_step(pre: Processor, post: Processor, x: int) -> bool {
    let sum = pre.i_register + pre.v_registers@[x];
    if sum <= usize::MAX {
        &&& post.i_register == sum
        &&& post.v_registers@ == pre.v_registers@.update(
            15,
            (if sum > 0xF00 {
                1u8
            } else {
                0u8
            }),
        )
        &&& frame_i_regs(pre, post)
    } else {
        same_except_pc(pre, post)
    }
}

/// Font address: I = VX * 5, the address of the 5-byte glyph for digit VX.
pub open spec fn ld_f_vx_step(pre: Processor, post: Processor, x: int) -> bool {
    &&& post.i_register == pre.v_registers@[x] * 5
    &&& frame_i(pre, post)
}

/// Store register block: V0..VX inclusive go to memory at I..I+X; I itself is
/// unchanged. If the block would leave the address space, no change.
pub open spec fn ld_at_i_vx_step(pre: Processor, post: Processor, x: int) -> bool {
    if pre.i_register + x < MEMORY_SIZE {
        &&& post.memory.bytes@.len() == pre.memory.bytes@.len()
        &&& forall|k: int|
            0 <= k <= x ==> post.memory.bytes@[pre.i_register + k] == pre.v_registers@[k]
        &&& forall|a: int|
            0 <= a < MEMORY_SIZE && !(pre.i_register <= a <= pre.i_register + x)
                ==> post.memory.bytes@[a] == pre.memory.bytes@[a]
        &&& frame_memory(pre, post)
    } else {
        same_except_pc(pre, post)
    }
}

/// Load register block: V0..VX inclusive come from memory at I..I+X; I itself
/// and the registers above VX are unchanged. If the block would leave the
/// address space, no change.
pub open spec fn ld_vx_at_i_step(pre: Processor, post: Processor, x: int) -> bool {
    if pre.i_register + x < MEMORY_SIZE {
        &&& post.v_registers@.len() == pre.v_registers@.len()
        &&& forall|k: int|
            0 <= k <= x ==> post.v_registers@[k] == pre.memory.bytes@[pre.i_register + k]
        &&& forall|k: int|
            x < k < V_REGISTERS_SIZE ==> post.v_registers@[k] == pre.v_registers@[k]
        &&& frame_regs(pre, post)
    } else {
        same_except_pc(pre, post)
    }
}

/// Store digits: the hundreds, tens and ones digits of VX go to I, I+1 and
/// I+2; I itself is unchanged. If the three bytes would leave the address
/// space, no change.
pub open spec fn bcd_vx_step(pre: Processor, post: Processor, x: int) -> bool {
    if pre.i_register + 2 < MEMORY_SIZE {
        let v = pre.v_registers@[x];
        let i = pre.i_register as int;
        &&& post.memory.bytes@ == pre.memory.bytes@.update(i, ((v / 100) as u8)).update(
            i + 1,
            (((v % 100) / 10) as u8),
        ).update(i + 2, ((v % 10) as u8))
        &&& frame_memory(pre, post)
    } else {
        same_except_pc(pre, post)
    }
}

/// Whether a sprite row has its bit set in a column; column 0 is the most
/// significant bit of the row byte.
pub open spec fn sprite_bit(row: u8, col: int) -> bool {
    row & (0x80u8 >> (col as u8)) != 0u8
}

/// Blitting the first `cols` columns of one sprite row onto the screen, at
/// horizontal origin `x0` and (already wrapped) row `y`. Yields the new pixel
/// buffer, whether any toggled cell was already on (a collision), and whether
/// any cell was toggled at all. Columns wrap modulo the screen width, so
/// sprite placement is toroidal.
pub open spec fn blit_row(scr: Seq<bool>, row: u8, x0: int, y: int, cols: int) -> (
    Seq<bool>,
    bool,
    bool,
)
    decreases cols,
{
    if cols <= 0 {
        (scr, false, false)
    } else {
        let prev = blit_row(scr, row, x0, y, cols - 1);
        let c = cols - 1;
        if sprite_bit(row, c) {
            let idx = (x0 + c) % (SCREEN_WIDTH as int) + (SCREEN_WIDTH as int) * y;
            (prev.0.update(idx, !prev.0[idx]), prev.1 || prev.0[idx], true)
        } else {
            prev
        }
    }
}

/// Blitting the first `rows` rows of the 8-bit-wide sprite stored at memory
/// address `i` onto the screen at origin (`x0`, `y0`). Each set bit toggles
/// its cell; rows wrap modulo the screen height, columns modulo the width.
/// Yields the new pixel buffer, whether any toggled cell was already on, and
/// whether any cell was toggled.
pub open spec fn blit_sprite(
    scr: Seq<bool>,
    mem: Seq<u8>,
    i: int,
    x0: int,
    y0: int,
    rows: int,
) -> (Seq<bool>, bool, bool)
    decreases rows,
{
    if rows <= 0 {
        (scr, false, false)
    } else {
        let prev = blit_sprite(scr, mem, i, x0, y0, rows - 1);
        let r = rows - 1;
        let row = blit_row(prev.0, mem[i + r], x0, (y0 + r) % (SCREEN_HEIGHT as int), 8);
        (row.0, prev.1 || row.1, prev.2 || row.2)
    }
}

/// Whether some bit of the 8xN sprite at memory address `i`, drawn at origin
/// (`x0`, `y0`), lands on the cell (`cx`, `cy`): row and column wrap modulo
/// the screen's height and width.
pub open spec fn sprite_covers(
    mem: Seq<u8>,
    i: int,
    x0: int,
    y0: int,
    n: int,
    cx: int,
    cy: int,
) -> bool {
    exists|r: int, c: int|
        0 <= r < n && 0 <= c < 8 && (x0 + c) % (SCREEN_WIDTH as int) == cx && (y0 + r) % (
        SCREEN_HEIGHT as int) == cy && #[trigger] sprite_bit(mem[i + r], c)
}

/// Two offsets below the modulus that wrap to the same place from one base are
/// the same offset.
proof fn lemma_wrap_unique(base: int, a: int, b: int, m: int)
    requires
        0 < m,
        0 <= a < m,
        0 <= b < m,
        (base + a) % m == (base + b) % m,
    ensures
        a == b,
{
    vstd::arithmetic::div_mod::lemma_mod_equivalence(base + a, base + b, m);
    vstd::arithmetic::div_mod::lemma_mod_equivalence(base + b, base + a, m);
    if a > b {
        vstd::arithmetic::div_mod::lemma_small_mod((a - b) as nat, m as nat);
        assert(false);
    } else if b > a {
        vstd::arithmetic::div_mod::lemma_small_mod((b - a) as nat, m as nat);
        assert(false);
    }
}

/// The cell-by-cell reading of one row's blit: the row toggles exactly the
/// cells in its (wrapped) screen row that a set sprite bit lands on; it
/// collides exactly where a toggled cell was already on; and it touches the
/// screen exactly when some bit in range is set. Each cell is toggled at most
/// once, because the eight columns wrap to eight distinct places.
proof fn lemma_blit_row_cells(
    scr: Seq<bool>,
    row: u8,
    x0: int,
    y: int,
    cols: int,
    cx: int,
    cy: int,
)
    requires
        scr.len() == SCREEN_SIZE,
        0 <= cols <= 8,
        0 <= y < SCREEN_HEIGHT,
        0 <= cx < SCREEN_WIDTH,
        0 <= cy < SCREEN_HEIGHT,
    ensures
        blit_row(scr, row, x0, y, cols).0.len() == SCREEN_SIZE,
        blit_row(scr, row, x0, y, cols).0[cx + SCREEN_WIDTH * cy] == (if cy == y && (exists|
            c: int,
        |
            0 <= c < cols && (x0 + c) % (SCREEN_WIDTH as int) == cx && #[trigger] sprite_bit(
                row,
                c,
            )) {
            !scr[cx + SCREEN_WIDTH * cy]
        } else {
            scr[cx + SCREEN_WIDTH * cy]
        }),
        blit_row(scr, row, x0, y, cols).1 == (exists|c: int|
            0 <= c < cols && #[trigger] sprite_bit(row, c) && scr[(x0 + c) % (SCREEN_WIDTH as int)
                + SCREEN_WIDTH * y]),
        blit_row(scr, row, x0, y, cols).2 == (exists|c: int|
            0 <= c < cols && #[trigger] sprite_bit(row, c)),
    decreases cols,
{
    if cols > 0 {
        lemma_blit_row_cells(scr, row, x0, y, cols - 1, cx, cy);
        let prev = blit_row(scr, row, x0, y, cols - 1);
        let c = cols - 1;
        let cell = cx + SCREEN_WIDTH * cy;
        if sprite_bit(row, c) {
            vstd::arithmetic::div_mod::lemma_mod_division_less_than_divisor(
                x0 + c,
                SCREEN_WIDTH as int,
            );
            let px = (x0 + c) % (SCREEN_WIDTH as int);
            let idx = px + SCREEN_WIDTH * y;
            // No column before this one lands on the same cell.
            assert forall|c2: int|
                0 <= c2 < cols - 1 && #[trigger] sprite_bit(row, c2) implies (x0 + c2) % (
            SCREEN_WIDTH as int) != px by {
                if (x0 + c2) % (SCREEN_WIDTH as int) == px {
                    lemma_wrap_unique(x0, c2, c, SCREEN_WIDTH as int);
                }
            }
            lemma_blit_row_cells(scr, row, x0, y, cols - 1, px, y);
            assert(prev.0[idx] == scr[idx]);
            if cell == idx {
                assert(cy == y && cx == px);
            } else {
                // A witness for the extended range cannot land on this cell.
                if cy == y && (exists|c2: int|
                    0 <= c2 < cols && (x0 + c2) % (SCREEN_WIDTH as int) == cx
                        && #[trigger] sprite_bit(row, c2)) {
                    let c2 = choose|c2: int|
                        0 <= c2 < cols && (x0 + c2) % (SCREEN_WIDTH as int) == cx
                            && #[trigger] sprite_bit(row, c2);
                    if c2 == c {
                        assert(cell == idx);
                    }
                    assert(exists|c3: int|
                        0 <= c3 < cols - 1 && (x0 + c3) % (SCREEN_WIDTH as int) == cx
                            && #[trigger] sprite_bit(row, c3));
                }
            }
        } else {
            // Without its bit, this column adds no witness.
            assert forall|c2: int| 0 <= c2 < cols && #[trigger] sprite_bit(row, c2) implies 0 <= c2
                < cols - 1 by {}
        }
    }
}

/// The cell-by-cell (toroidal) reading of the whole sprite blit, the law
/// behind the draw instruction: a cell's new value is its old value toggled
/// exactly when some sprite bit lands on it; a collision is reported exactly
/// when some sprite bit lands on a cell that was already on; and the screen is
/// touched exactly when some sprite bit in range is set. Each cell is toggled
/// at most once: the sprite's rows wrap to distinct screen rows (its height
/// is at most the screen's) and its eight columns to distinct places.
pub proof fn lemma_blit_sprite_cells(
    scr: Seq<bool>,
    mem: Seq<u8>,
    i: int,
    x0: int,
    y0: int,
    n: int,
    cx: int,
    cy: int,
)
    requires
        scr.len() == SCREEN_SIZE,
        0 <= n <= SCREEN_HEIGHT,
        0 <= cx < SCREEN_WIDTH,
        0 <= cy < SCREEN_HEIGHT,
    ensures
        blit_sprite(scr, mem, i, x0, y0, n).0.len() == SCREEN_SIZE,
        blit_sprite(scr, mem, i, x0, y0, n).0[cx + SCREEN_WIDTH * cy] == (if sprite_covers(
            mem,
            i,
            x0,
            y0,
            n,
            cx,
            cy,
        ) {
            !scr[cx + SCREEN_WIDTH * cy]
        } else {
            scr[cx + SCREEN_WIDTH * cy]
        }),
        blit_sprite(scr, mem, i, x0, y0, n).1 == (exists|r: int, c: int|
            0 <= r < n && 0 <= c < 8 && #[trigger] sprite_bit(mem[i + r], c) && scr[(x0 + c) % (
            SCREEN_WIDTH as int) + SCREEN_WIDTH * ((y0 + r) % (SCREEN_HEIGHT as int))]),
        blit_sprite(scr, mem, i, x0, y0, n).2 == (exists|r: int, c: int|
            0 <= r < n && 0 <= c < 8 && #[trigger] sprite_bit(mem[i + r], c)),
    decreases n,
{
    if n > 0 {
        lemma_blit_sprite_cells(scr, mem, i, x0, y0, n - 1, cx, cy);
        let prev = blit_sprite(scr, mem, i, x0, y0, n - 1);
        let r = n - 1;
        let rowbyte = mem[i + r];
        vstd::arithmetic::div_mod::lemma_mod_division_less_than_divisor(
            y0 + r,
            SCREEN_HEIGHT as int,
        );
        let yy = (y0 + r) % (SCREEN_HEIGHT as int);
        // No row before this one wraps to the same screen row.
        assert forall|r2: int| 0 <= r2 < n - 1 implies #[trigger] ((y0 + r2) % (
        SCREEN_HEIGHT as int)) != yy by {
            if (y0 + r2) % (SCREEN_HEIGHT as int) == yy {
                lemma_wrap_unique(y0, r2, r, SCREEN_HEIGHT as int);
            }
        }
        // So the earlier rows left this screen row as it was.
        assert forall|px: int| 0 <= px < SCREEN_WIDTH implies #[trigger] prev.0[px + SCREEN_WIDTH
            * yy] == scr[px + SCREEN_WIDTH * yy] by {
            lemma_blit_sprite_cells(scr, mem, i, x0, y0, n - 1, px, yy);
            if sprite_covers(mem, i, x0, y0, n - 1, px, yy) {
                let (r2, c2) = choose|r2: int, c2: int|
                    0 <= r2 < n - 1 && 0 <= c2 < 8 && (x0 + c2) % (SCREEN_WIDTH as int) == px && (
                    y0 + r2) % (SCREEN_HEIGHT as int) == yy && #[trigger] sprite_bit(
                        mem[i + r2],
                        c2,
                    );
                assert(false);
            }
        }
        lemma_blit_row_cells(prev.0, rowbyte, x0, yy, 8, cx, cy);
        let rowres = blit_row(prev.0, rowbyte, x0, yy, 8);
        // The new cell value.
        if cy == yy {
            assert(prev.0[cx + SCREEN_WIDTH * cy] == scr[cx + SCREEN_WIDTH * cy]);
            assert(!sprite_covers(mem, i, x0, y0, n - 1, cx, cy));
            if exists|c: int|
                0 <= c < 8 && (x0 + c) % (SCREEN_WIDTH as int) == cx && #[trigger] sprite_bit(
                    rowbyte,
                    c,
                ) {
                let c = choose|c: int|
                    0 <= c < 8 && (x0 + c) % (SCREEN_WIDTH as int) == cx && #[trigger] sprite_bit(
                        rowbyte,
                        c,
                    );
                assert(sprite_bit(mem[i + r], c));
                assert(sprite_covers(mem, i, x0, y0, n, cx, cy));
                assert(rowres.0[cx + SCREEN_WIDTH * cy] == !scr[cx + SCREEN_WIDTH * cy]);
            } else {
                if sprite_covers(mem, i, x0, y0, n, cx, cy) {
                    let (r2, c2) = choose|r2: int, c2: int|
                        0 <= r2 < n && 0 <= c2 < 8 && (x0 + c2) % (SCREEN_WIDTH as int) == cx && (
                        y0 + r2) % (SCREEN_HEIGHT as int) == cy && #[trigger] sprite_bit(
                            mem[i + r2],
                            c2,
                        );
                    assert(r2 == r);
                    assert(false);
                }
            }
        } else {
            assert(rowres.0[cx + SCREEN_WIDTH * cy] == prev.0[cx + SCREEN_WIDTH * cy]);
            // The last row adds or removes no witness for this cell.
            if sprite_covers(mem, i, x0, y0, n, cx, cy) {
                let (r2, c2) = choose|r2: int, c2: int|
                    0 <= r2 < n && 0 <= c2 < 8 && (x0 + c2) % (SCREEN_WIDTH as int) == cx && (y0
                        + r2) % (SCREEN_HEIGHT as int) == cy && #[trigger] sprite_bit(
                        mem[i + r2],
                        c2,
                    );
                assert(r2 != r);
                assert(sprite_covers(mem, i, x0, y0, n - 1, cx, cy));
            } else {
                if sprite_covers(mem, i, x0, y0, n - 1, cx, cy) {
                    let (r2, c2) = choose|r2: int, c2: int|
                        0 <= r2 < n - 1 && 0 <= c2 < 8 && (x0 + c2) % (SCREEN_WIDTH as int) == cx
                            && (y0 + r2) % (SCREEN_HEIGHT as int) == cy && #[trigger] sprite_bit(
                            mem[i + r2],
                            c2,
                        );
                    assert(sprite_covers(mem, i, x0, y0, n, cx, cy));
                    assert(false);
                }
            }
        }
        // The collision flag.
        assert(rowres.1 == (exists|c: int|
            0 <= c < 8 && #[trigger] sprite_bit(rowbyte, c) && prev.0[(x0 + c) % (
            SCREEN_WIDTH as int) + SCREEN_WIDTH * yy]));
        assert forall|c: int| 0 <= c < 8 implies #[trigger] prev.0[(x0 + c) % (SCREEN_WIDTH as int)
            + SCREEN_WIDTH * yy] == scr[(x0 + c) % (SCREEN_WIDTH as int) + SCREEN_WIDTH * yy] by {
            vstd::arithmetic::div_mod::lemma_mod_division_less_than_divisor(
                x0 + c,
                SCREEN_WIDTH as int,
            );
        }
        if blit_sprite(scr, mem, i, x0, y0, n).1 {
            if prev.1 {
                let (r2, c2) = choose|r2: int, c2: int|
                    0 <= r2 < n - 1 && 0 <= c2 < 8 && #[trigger] sprite_bit(mem[i + r2], c2)
                        && scr[(x0 + c2) % (SCREEN_WIDTH as int) + SCREEN_WIDTH * ((y0 + r2) % (
                    SCREEN_HEIGHT as int))];
                assert(0 <= r2 < n && 0 <= c2 < 8 && sprite_bit(mem[i + r2], c2) && scr[(x0 + c2)
                    % (SCREEN_WIDTH as int) + SCREEN_WIDTH * ((y0 + r2) % (SCREEN_HEIGHT as int))]);
            } else {
                let c2 = choose|c2: int|
                    0 <= c2 < 8 && #[trigger] sprite_bit(rowbyte, c2) && prev.0[(x0 + c2) % (
                    SCREEN_WIDTH as int) + SCREEN_WIDTH * yy];
                assert(0 <= r < n && 0 <= c2 < 8 && sprite_bit(mem[i + r], c2) && scr[(x0 + c2) % (
                SCREEN_WIDTH as int) + SCREEN_WIDTH * ((y0 + r) % (SCREEN_HEIGHT as int))]);
            }
        } else {
            if exists|r2: int, c2: int|
                0 <= r2 < n && 0 <= c2 < 8 && #[trigger] sprite_bit(mem[i + r2], c2) && scr[(x0
                    + c2) % (SCREEN_WIDTH as int) + SCREEN_WIDTH * ((y0 + r2) % (
                SCREEN_HEIGHT as int))] {
                let (r2, c2) = choose|r2: int, c2: int|
                    0 <= r2 < n && 0 <= c2 < 8 && #[trigger] sprite_bit(mem[i + r2], c2) && scr[(x0
                        + c2) % (SCREEN_WIDTH as int) + SCREEN_WIDTH * ((y0 + r2) % (
                    SCREEN_HEIGHT as int))];
                if r2 < n - 1 {
                    assert(prev.1);
                } else {
                    assert(sprite_bit(rowbyte, c2) && prev.0[(x0 + c2) % (SCREEN_WIDTH as int)
                        + SCREEN_WIDTH * yy]);
                    assert(rowres.1);
                }
                assert(false);
            }
        }
        // The touched flag.
        if blit_sprite(scr, mem, i, x0, y0, n).2 {
            if prev.2 {
                let (r2, c2) = choose|r2: int, c2: int|
                    0 <= r2 < n - 1 && 0 <= c2 < 8 && #[trigger] sprite_bit(mem[i + r2], c2);
                assert(0 <= r2 < n && 0 <= c2 < 8 && sprite_bit(mem[i + r2], c2));
            } else {
                let c2 = choose|c2: int| 0 <= c2 < 8 && #[trigger] sprite_bit(rowbyte, c2);
                assert(0 <= r < n && sprite_bit(mem[i + r], c2));
            }
        } else {
            if exists|r2: int, c2: int|
                0 <= r2 < n && 0 <= c2 < 8 && #[trigger] sprite_bit(mem[i + r2], c2) {
                let (r2, c2) = choose|r2: int, c2: int|
                    0 <= r2 < n && 0 <= c2 < 8 && #[trigger] sprite_bit(mem[i + r2], c2);
                if r2 < n - 1 {
                    assert(prev.2);
                } else {
                    assert(sprite_bit(rowbyte, c2));
                    assert(rowres.2);
                }
                assert(false);
            }
        }
    }
}

/// Draw sprite: XOR-blit the 8xN sprite at memory address I onto the screen at
/// (VX, VY), wrapping both coordinates; then VF = 1 exactly when some toggled
/// cell was already on. The screen is marked dirty when any cell was toggled.
/// If the sprite's rows would leave the address space, no change.
pub open spec fn drw_step(pre: Processor, post: Processor, x: int, y: int, n: int) -> bool {
    if n == 0 || pre.i_register + n <= MEMORY_SIZE {
        let res = blit_sprite(
            pre.screen.pixels@,
            pre.memory.bytes@,
            pre.i_register as int,
            pre.v_registers@[x] as int,
            pre.v_registers@[y] as int,
            n,
        );
        &&& post.screen.pixels@ == res.0
        &&& post.screen.needs_refresh == (pre.screen.needs_refresh || res.2)
        &&& post.v_registers@ == pre.v_registers@.update(
            15,
            (if res.1 {
                1u8
            } else {
                0u8
            }),
        )
        &&& frame_screen_regs(pre, post)
    } else {
        same_except_pc(pre, post)
    }
}

/// The draw instruction, read cell by cell: when the sprite fits the address
/// space, a cell's new value is its old value toggled exactly when a sprite
/// bit lands on it — an 8-bit-wide sprite drawn near the right edge sets its
/// first columns there and wraps the remaining bits to the left edge — and
/// the flag register reports 1 exactly when some sprite bit lands on a cell
/// that was already on.
pub proof fn lemma_drw_step_cells(
    pre: Processor,
    post: Processor,
    x: int,
    y: int,
    n: int,
    cx: int,
    cy: int,
)
    requires
        pre.wf(),
        drw_step(pre, post, x, y, n),
        0 <= n <= 15,
        n == 0 || pre.i_register + n <= MEMORY_SIZE,
        0 <= cx < SCREEN_WIDTH,
        0 <= cy < SCREEN_HEIGHT,
    ensures
        post.screen.pixels@[cx + SCREEN_WIDTH * cy] == (if sprite_covers(
            pre.memory.bytes@,
            pre.i_register as int,
            pre.v_registers@[x] as int,
            pre.v_registers@[y] as int,
            n,
            cx,
            cy,
        ) {
            !pre.screen.pixels@[cx + SCREEN_WIDTH * cy]
        } else {
            pre.screen.pixels@[cx + SCREEN_WIDTH * cy]
        }),
        post.v_registers@[15] == (if exists|r: int, c: int|
            0 <= r < n && 0 <= c < 8 && #[trigger] sprite_bit(pre.memory.bytes@[pre.i_register + r], c)
                && pre.screen.pixels@[(pre.v_registers@[x] + c) % (SCREEN_WIDTH as int)
                + SCREEN_WIDTH * ((pre.v_registers@[y] + r) % (SCREEN_HEIGHT as int))] {
            1u8
        } else {
            0u8
        }),
{
    lemma_blit_sprite_cells(
        pre.screen.pixels@,
        pre.memory.bytes@,
        pre.i_register as int,
        pre.v_registers@[x] as int,
        pre.v_registers@[y] as int,
        n,
        cx,
        cy,
    );
}

/// `Skip` when the condition holds, `Next` otherwise.
pub open spec fn spec_skip_if(condition: bool) -> ProcessorCycle {
    if condition {
        ProcessorCycle::Skip
    } else {
        ProcessorCycle::Next
    }
}

/// The cycle outcome of one instruction in one state: which program-counter
/// effect it asks for, and which instructions are reported instead of
/// executed — the legacy machine-subroutine form, unknown opcodes, and the
/// guarded conditions listed in the module description.
pub open spec fn spec_cycle(pre: Processor, d: DecodedOpcode) -> ProcessorCycle {
    match d {
        DecodedOpcode::Cls => ProcessorCycle::Next,
        DecodedOpcode::Ret => if pre.stack_pointer >= 1 {
            ProcessorCycle::Jump(pre.stack@[pre.stack_pointer - 1])
        } else {
            ProcessorCycle::Error(d)
        },
        DecodedOpcode::SysNnn { nnn } => ProcessorCycle::Error(d),
        DecodedOpcode::CallNnn { nnn } => if pre.stack_pointer < STACK_SIZE {
            ProcessorCycle::Jump(nnn)
        } else {
            ProcessorCycle::Error(d)
        },
        DecodedOpcode::JpNnn { nnn } => ProcessorCycle::Jump(nnn),
        DecodedOpcode::JpV0Nnn { nnn } => ProcessorCycle::Jump(
            ((pre.v_registers@[0] + nnn) as usize),
        ),
        DecodedOpcode::SeVxNn { vx, nn } => spec_skip_if(pre.v_registers@[vx as int] == nn),
        DecodedOpcode::SneVxNn { vx, nn } => spec_skip_if(pre.v_registers@[vx as int] != nn),
        DecodedOpcode::SeVxVy { vx, vy } => spec_skip_if(
            pre.v_registers@[vx as int] == pre.v_registers@[vy as int],
        ),
        DecodedOpcode::SneVxVy { vx, vy } => spec_skip_if(
            pre.v_registers@[vx as int] != pre.v_registers@[vy as int],
        ),
        DecodedOpcode::SkpVx { vx } => spec_skip_if(
            key_pressed(pre.keypad, pre.v_registers@[vx as int]),
        ),
        DecodedOpcode::SknpVx { vx } => spec_skip_if(
            !key_pressed(pre.keypad, pre.v_registers@[vx as int]),
        ),
        DecodedOpcode::LdVxK { vx } => ProcessorCycle::Next,
        DecodedOpcode::LdVxNn { vx, nn } => ProcessorCycle::Next,
        DecodedOpcode::LdVxVy { vx, vy } => ProcessorCycle::Next,
        DecodedOpcode::LdVxDt { vx } => ProcessorCycle::Next,
        DecodedOpcode::LdDtVx { vx } => ProcessorCycle::Next,
        DecodedOpcode::LdStVx { vx } => ProcessorCycle::Next,
        DecodedOpcode::LdINnn { nnn } => ProcessorCycle::Next,
        DecodedOpcode::LdFVx { vx } => ProcessorCycle::Next,
        DecodedOpcode::LdAtIVx { vx } => if pre.i_register + vx < MEMORY_SIZE {
            ProcessorCycle::Next
        } else {
            ProcessorCycle::Error(d)
        },
        DecodedOpcode::LdVxAtI { vx } => if pre.i_register + vx < MEMORY_SIZE {
            ProcessorCycle::Next
        } else {
            ProcessorCycle::Error(d)
        },
        DecodedOpcode::AddIVx { vx } => if pre.i_register + pre.v_registers@[vx as int]
            <= usize::MAX {
            ProcessorCycle::Next
        } else {
            ProcessorCycle::Error(d)
        },
        DecodedOpcode::AddVxNn { vx, nn } => ProcessorCycle::Next,
        DecodedOpcode::AddVxVy { vx, vy } => ProcessorCycle::Next,
        DecodedOpcode::SubVxVy { vx, vy } => ProcessorCycle::Next,
        DecodedOpcode::SubnVxVy { vx, vy } => ProcessorCycle::Next,
        DecodedOpcode::OrVxVy { vx, vy } => ProcessorCycle::Next,
        DecodedOpcode::AndVxVy { vx, vy } => ProcessorCycle::Next,
        DecodedOpcode::XorVxVy { vx, vy } => ProcessorCycle::Next,
        DecodedOpcode::ShrVx { vx } => ProcessorCycle::Next,
        DecodedOpcode::ShlVx { vx } => ProcessorCycle::Next,
        DecodedOpcode::BcdVx { vx } => if pre.i_register + 2 < MEMORY_SIZE {
            ProcessorCycle::Next
        } else {
            ProcessorCycle::Error(d)
        },
        DecodedOpcode::RndVxNn { vx, nn } => ProcessorCycle::Next,
        DecodedOpcode::DrwVxVyN { vx, vy, n } => if n == 0 || pre.i_register + n <= MEMORY_SIZE {
            ProcessorCycle::Next
        } else {
            ProcessorCycle::Error(d)
        },
        DecodedOpcode::Unknown { opcode } => ProcessorCycle::Error(d),
    }
}

/// The state change of one executed instruction, program counter aside: the
/// dispatch table tying each instruction family to its step relation. The
/// families that only pick the next program-counter effect (jumps, skips, the
/// legacy machine-subroutine form, unknown opcodes) change nothing here.
pub open spec fn step_core(pre: Processor, d: DecodedOpcode, post: Processor) -> bool {
    match d {
        DecodedOpcode::Cls => cls_step(pre, post),
        DecodedOpcode::Ret => ret_step(pre, post),
        DecodedOpcode::SysNnn { nnn } => same_except_pc(pre, post),
        DecodedOpcode::CallNnn { nnn } => call_step(pre, post),
        DecodedOpcode::JpNnn { nnn } => same_except_pc(pre, post),
        DecodedOpcode::JpV0Nnn { nnn } => same_except_pc(pre, post),
        DecodedOpcode::SeVxNn { vx, nn } => same_except_pc(pre, post),
        DecodedOpcode::SneVxNn { vx, nn } => same_except_pc(pre, post),
        DecodedOpcode::SeVxVy { vx, vy } => same_except_pc(pre, post),
        DecodedOpcode::SneVxVy { vx, vy } => same_except_pc(pre, post),
        DecodedOpcode::SkpVx { vx } => same_except_pc(pre, post),
        DecodedOpcode::SknpVx { vx } => same_except_pc(pre, post),
        DecodedOpcode::LdVxK { vx } => ld_vx_k_step(pre, post, vx as int),
        DecodedOpcode::LdVxNn { vx, nn } => ld_vx_nn_step(pre, post, vx as int, nn),
        DecodedOpcode::LdVxVy { vx, vy } => ld_vx_vy_step(pre, post, vx as int, vy as int),
        DecodedOpcode::LdVxDt { vx } => ld_vx_dt_step(pre, post, vx as int),
        DecodedOpcode::LdDtVx { vx } => ld_dt_vx_step(pre, post, vx as int),
        DecodedOpcode::LdStVx { vx } => ld_st_vx_step(pre, post, vx as int),
        DecodedOpcode::LdINnn { nnn } => ld_i_nnn_step(pre, post, nnn),
        DecodedOpcode::LdFVx { vx } => ld_f_vx_step(pre, post, vx as int),
        DecodedOpcode::LdAtIVx { vx } => ld_at_i_vx_step(pre, post, vx as int),
        DecodedOpcode::LdVxAtI { vx } => ld_vx_at_i_step(pre, post, vx as int),
        DecodedOpcode::AddIVx { vx } => add_i_vx_step(pre, post, vx as int),
        DecodedOpcode::AddVxNn { vx, nn } => add_vx_nn_step(pre, post, vx as int, nn),
        DecodedOpcode::AddVxVy { vx, vy } => add_vx_vy_step(pre, post, vx as int, vy as int),
        DecodedOpcode::SubVxVy { vx, vy } => sub_vx_vy_step(pre, post, vx as int, vy as int),
        DecodedOpcode::SubnVxVy { vx, vy } => subn_vx_vy_step(pre, post, vx as int, vy as int),
        DecodedOpcode::OrVxVy { vx, vy } => or_vx_vy_step(pre, post, vx as int, vy as int),
        DecodedOpcode::AndVxVy { vx, vy } => and_vx_vy_step(pre, post, vx as int, vy as int),
        DecodedOpcode::XorVxVy { vx, vy } => xor_vx_vy_step(pre, post, vx as int, vy as int),
        DecodedOpcode::ShrVx { vx } => shr_vx_step(pre, post, vx as int),
        DecodedOpcode::ShlVx { vx } => shl_vx_step(pre, post, vx as int),
        DecodedOpcode::BcdVx { vx } => bcd_vx_step(pre, post, vx as int),
        DecodedOpcode::RndVxNn { vx, nn } => rnd_vx_nn_step(pre, post, vx as int, nn),
        DecodedOpcode::DrwVxVyN { vx, vy, n } => drw_step(pre, post, vx as int, vy as int, n as int),
        DecodedOpcode::Unknown { opcode } => same_except_pc(pre, post),
    }
}

/// Where the program counter lands after one cycle outcome: `Next` past the
/// instruction, `Skip` one more, `Jump` to the address; a reported instruction
/// (`Error`) advances like `Next`, treating the cycle as a no-op.
pub open spec fn spec_pc_after(pc: int, r: ProcessorCycle) -> int {
    match r {
        ProcessorCycle::Error(d) => pc + OPCODE_SIZE,
        ProcessorCycle::Next => pc + OPCODE_SIZE,
        ProcessorCycle::Skip => pc + 2 * OPCODE_SIZE,
        ProcessorCycle::Jump(addr) => addr as int,
    }
}

/// The report of one executed instruction: the instruction itself when the
/// cycle was an `Error` (a form that is never executed, or a guarded
/// condition), for the caller to log with its context; nothing otherwise.
pub open spec fn spec_report(pre: Processor, d: DecodedOpcode) -> Option<DecodedOpcode> {
    match spec_cycle(pre, d) {
        ProcessorCycle::Error(reported) => Some(reported),
        ProcessorCycle::Next => None,
        ProcessorCycle::Skip => None,
        ProcessorCycle::Jump(addr) => None,
    }
}

/// The report of one whole cycle: only a running cycle that fetched and
/// decoded an instruction can have one.
pub open spec fn spec_tick_report(pre: Processor, keymask: u16) -> Option<DecodedOpcode> {
    if !pre.keypad_wait && pre.program_counter + 1 < MEMORY_SIZE {
        spec_report(
            with_keypad(pre, keymask),
            DecodedOpcode::spec_decode(spec_fetch(pre.memory.bytes@, pre.program_counter as int)),
        )
    } else {
        None
    }
}

/// A processor state with its key mask replaced: the first thing every cycle
/// does with the polled keys.
pub open spec fn with_keypad(pre: Processor, keymask: u16) -> Processor {
    Processor { keypad: keymask, ..pre }
}

/// One whole cycle, `tick(keymask)`. While awaiting a key: a zero mask leaves
/// the machine blocked with nothing changed but the recorded mask — the
/// program counter stays where it was when the wait began; a nonzero mask ends
/// the wait and writes the index of the lowest-numbered pressed key into the
/// target register, again without moving the program counter. While running:
/// fetch the word at the program counter, decode it and execute it — unless
/// the counter sits at or past the last byte of memory, where no word can be
/// fetched and nothing changes but the recorded mask.
pub open spec fn tick_rel(pre: Processor, keymask: u16, post: Processor) -> bool {
    let mid = with_keypad(pre, keymask);
    if pre.keypad_wait {
        if keymask == 0 {
            &&& same_except_pc(mid, post)
            &&& same_pc(mid, post)
        } else {
            &&& post.v_registers@ == pre.v_registers@.update(
                pre.keypad_wait_index as int,
                (u16_trailing_zeros(keymask) as u8),
            )
            &&& post.keypad_wait == false
            &&& post.keypad_wait_index == pre.keypad_wait_index
            &&& post.keypad == keymask
            &&& same_memory(pre, post)
            &&& same_screen(pre, post)
            &&& same_stack(pre, post)
            &&& same_i(pre, post)
            &&& same_pc(pre, post)
            &&& same_timers(pre, post)
        }
    } else if pre.program_counter + 1 < MEMORY_SIZE {
        let d = DecodedOpcode::spec_decode(
            spec_fetch(pre.memory.bytes@, pre.program_counter as int),
        );
        &&& step_core(mid, d, post)
        &&& post.program_counter == spec_pc_after(
            pre.program_counter as int,
            spec_cycle(mid, d),
        )
    } else {
        &&& same_except_pc(mid, post)
        &&& same_pc(mid, post)
    }
}

/// The keypad wait, across cycles: while the machine is blocked, a cycle with
/// an all-zero key mask leaves it blocked with the program counter unchanged
/// since the wait began; a following cycle with a nonzero mask unblocks it and
/// writes the index of the lowest-numbered pressed key into the target
/// register, still without moving the counter.
pub proof fn lemma_keypad_wait(s0: Processor, s1: Processor, keymask: u16, s2: Processor)
    requires
        s0.keypad_wait,
        keymask != 0,
        tick_rel(s0, 0, s1),
        tick_rel(s1, keymask, s2),
    ensures
        s1.keypad_wait,
        s1.program_counter == s0.program_counter,
        s1.v_registers@ == s0.v_registers@,
        !s2.keypad_wait,
        s2.program_counter == s0.program_counter,
        s2.v_registers@ == s0.v_registers@.update(
            s0.keypad_wait_index as int,
            (u16_trailing_zeros(keymask) as u8),
        ),
{
}

impl Processor {
    /// Structural soundness: every buffer has its architectural length and the
    /// recorded indices stay within their buffers.
    pub open spec fn wf(self) -> bool {
        &&& self.memory.wf()
        &&& self.screen.wf()
        &&& self.stack@.len() == STACK_SIZE
        &&& self.stack_pointer <= STACK_SIZE
        &&& self.v_registers@.len() == V_REGISTERS_SIZE
        &&& self.keypad_wait_index < V_REGISTERS_SIZE
    }

    /// A fresh machine: font-initialised memory, blank screen, zeroed
    /// registers, stack and timers, program counter at the first program
    /// address, not waiting for a key.
    pub fn new() -> (r: Processor)
        ensures
            r.wf(),
            Memory::spec_init(r.memory.bytes@),
            r.memory.rom_size == 0,
            forall|k: int| 0 <= k < SCREEN_SIZE ==> r.screen.pixels@[k] == false,
            r.screen.needs_refresh == false,
            forall|k: int| 0 <= k < STACK_SIZE ==> r.stack@[k] == 0usize,
            r.stack_pointer == 0,
            forall|k: int| 0 <= k < V_REGISTERS_SIZE ==> r.v_registers@[k] == 0u8,
            r.i_register == 0,
            r.program_counter == RESERVED_MEMORY_SIZE,
            r.delay_timer == 0,
            r.sound_timer == 0,
            r.keypad == 0,
            r.keypad_wait == false,
            r.keypad_wait_index == 0,
    {
        let mut stack: Vec<usize> = Vec::new();
        for i in iter: 0..STACK_SIZE
            invariant
                stack@.len() == i,
                forall|k: int| 0 <= k < i ==> stack@[k] == 0usize,
        {
            stack.push(0usize);
        }
        let mut v_registers: Vec<u8> = Vec::new();
        for i in iter: 0..V_REGISTERS_SIZE
            invariant
                v_registers@.len() == i,
                forall|k: int| 0 <= k < i ==> v_registers@[k] == 0u8,
        {
            v_registers.push(0u8);
        }
        Processor {
            memory: Memory::new(),
            screen: Screen::new(),
            stack,
            stack_pointer: 0,
            v_registers,
            i_register: 0,
            program_counter: RESERVED_MEMORY_SIZE,
            delay_timer: 0,
            sound_timer: 0,
            keypad: 0,
            keypad_wait: false,
            keypad_wait_index: 0,
        }
    }

    /// Read the big-endian opcode word at an address.
    pub fn fetch_opcode(&self, address: usize) -> (r: u16)
        requires
            self.wf(),
            address + 1 < MEMORY_SIZE,
        ensures
            r == spec_fetch(self.memory.bytes@, address as int),
    {
        (self.memory.load(address) as u16) << 8 | (self.memory.load(address + 1) as u16)
    }

    /// Decode one opcode word.
    pub fn decode_opcode(&self, opcode: u16) -> (r: DecodedOpcode)
        ensures
            r == DecodedOpcode::spec_decode(opcode),
            r.wf(),
    {
        DecodedOpcode::new(opcode)
    }

    /// Load a program: the memory copies the ROM bytes into the program
    /// region (truncating an oversized one, as `Memory::reset` says); every
    /// other part of the machine keeps its state.
    pub fn load(&mut self, rom_bytes: &[u8], rom_size: usize)
        requires
            old(self).wf(),
        ensures
            final(self).wf(),
            final(self).memory.rom_size == rom_size,
            ({
                let count = Memory::copied_len(rom_bytes@.len() as int, rom_size as int);
                &&& forall|k: int|
                    0 <= k < count ==> final(self).memory.bytes@[RESERVED_MEMORY_SIZE + k]
                        == rom_bytes@[k]
                &&& forall|a: int|
                    0 <= a < MEMORY_SIZE && !(RESERVED_MEMORY_SIZE <= a
                        < RESERVED_MEMORY_SIZE + count) ==> final(self).memory.bytes@[a]
                        == old(self).memory.bytes@[a]
            }),
            same_screen(*old(self), *final(self)),
            same_stack(*old(self), *final(self)),
            same_regs(*old(self), *final(self)),
            same_i(*old(self), *final(self)),
            same_pc(*old(self), *final(self)),
            same_timers(*old(self), *final(self)),
            same_keypad(*old(self), *final(self)),
            same_wait(*old(self), *final(self)),
    {
        self.memory.reset(rom_bytes, rom_size);
    }

    /// Advance the machine by exactly one cycle under the polled key mask.
    /// The whole transition is `tick_rel`: the awaiting-key states only look
    /// at the mask; the running state fetches, decodes and executes one
    /// instruction and applies its program-counter effect.
    pub fn tick(&mut self, keypad: u16) -> (reported: Option<DecodedOpcode>)
        requires
            old(self).wf(),
        ensures
            final(self).wf(),
            tick_rel(*old(self), keypad, *final(self)),
            reported == spec_tick_report(*old(self), keypad),
    {
        self.keypad = keypad;
        if self.keypad_wait {
            if self.keypad > 0 {
                self.keypad_wait = false;
                proof {
                    vstd::std_specs::bits::axiom_u16_trailing_zeros(keypad);
                }
                let key_index = self.keypad.trailing_zeros() as u8;
                let target = self.keypad_wait_index;
                self.v_registers[target] = key_index;
            }
            None
        } else {
            if self.program_counter < MEMORY_SIZE - 1 {
                let address = self.program_counter;
                let opcode = self.fetch_opcode(address);
                let decoded = self.decode_opcode(opcode);
                self.execute_opcode(decoded)
            } else {
                None
            }
        }
    }

    /// Execute one decoded instruction: apply its step relation to the state,
    /// then move the program counter by the cycle outcome. Reported
    /// instructions (`Error` outcomes) change nothing and advance like `Next`.
    pub fn execute_opcode(&mut self, decoded: DecodedOpcode) -> (reported: Option<DecodedOpcode>)
        requires
            old(self).wf(),
            decoded.wf(),
            old(self).program_counter + 2 * OPCODE_SIZE <= usize::MAX,
        ensures
            final(self).wf(),
            step_core(*old(self), decoded, *final(self)),
            final(self).program_counter == spec_pc_after(
                old(self).program_counter as int,
                spec_cycle(*old(self), decoded),
            ),
            reported == spec_report(*old(self), decoded),
    {
        let processor_cycle = match decoded {
            DecodedOpcode::Cls => self.execute_cls(),
            DecodedOpcode::Ret => self.execute_ret(),
            DecodedOpcode::SysNnn { nnn } => self.execute_sys_nnn(nnn),
            DecodedOpcode::JpNnn { nnn } => self.execute_jp_nnn(nnn),
            DecodedOpcode::CallNnn { nnn } => self.execute_call_nnn(nnn),
            DecodedOpcode::SeVxNn { vx, nn } => self.execute_se_vx_nn(vx, nn),
            DecodedOpcode::SneVxNn { vx, nn } => self.execute_sne_vx_nn(vx, nn),
            DecodedOpcode::SeVxVy { vx, vy } => self.execute_se_vx_vy(vx, vy),
            DecodedOpcode::LdVxNn { vx, nn } => self.execute_ld_vx_nn(vx, nn),
            DecodedOpcode::AddVxNn { vx, nn } => self.execute_add_vx_nn(vx, nn),
            DecodedOpcode::LdVxVy { vx, vy } => self.execute_ld_vx_vy(vx, vy),
            DecodedOpcode::OrVxVy { vx, vy } => self.execute_ox_vx_vy(vx, vy),
            DecodedOpcode::AndVxVy { vx, vy } => self.execute_and_vx_vy(vx, vy),
            DecodedOpcode::XorVxVy { vx, vy } => self.execute_xor_vx_vy(vx, vy),
            DecodedOpcode::AddVxVy { vx, vy } => self.execute_add_vx_vy(vx, vy),
            DecodedOpcode::SubVxVy { vx, vy } => self.execute_sub_vx_vy(vx, vy),
            DecodedOpcode::ShrVx { vx } => self.execute_shr_vx(vx),
            DecodedOpcode::SubnVxVy { vx, vy } => self.execute_subn_vx_vy(vx, vy),
            DecodedOpcode::ShlVx { vx } => self.execute_shl_vx(vx),
            DecodedOpcode::SneVxVy { vx, vy } => self.execute_sne_vx_vy(vx, vy),
            DecodedOpcode::LdINnn { nnn } => self.execute_ld_i_nnn(nnn),
            DecodedOpcode::JpV0Nnn { nnn } => self.execute_jp_v0_nnn(nnn),
            DecodedOpcode::RndVxNn { vx, nn } => self.execute_rnd_vx_nn(vx, nn),
            DecodedOpcode::DrwVxVyN { vx, vy, n } => self.execute_drw_vx_vy_n(vx, vy, n),
            DecodedOpcode::SkpVx { vx } => self.execute_skp_vx(vx),
            DecodedOpcode::SknpVx { vx } => self.execute_sknp_vx(vx),
            DecodedOpcode::LdVxK { vx } => self.execute_ld_vx_k(vx),
            DecodedOpcode::LdVxDt { vx } => self.execute_ld_vx_dt(vx),
            DecodedOpcode::LdDtVx { vx } => self.execute_ld_dt_vx(vx),
            DecodedOpcode::LdStVx { vx } => self.execute_ld_st_vx(vx),
            DecodedOpcode::LdFVx { vx } => self.execute_ld_f_vx(vx),
            DecodedOpcode::AddIVx { vx } => self.execute_add_i_vx(vx),
            DecodedOpcode::LdAtIVx { vx } => self.execute_ld_at_i_vx(vx),
            DecodedOpcode::LdVxAtI { vx } => self.execute_ld_vx_at_i(vx),
            DecodedOpcode::BcdVx { vx } => self.execute_bcd_vx(vx),
            DecodedOpcode::Unknown { opcode } => self.execute_unknown(opcode),
        };

        match processor_cycle {
            ProcessorCycle::Error(reported) => {
                self.program_counter = self.program_counter + OPCODE_SIZE;
                Some(reported)
            },
            ProcessorCycle::Next => {
                self.program_counter = self.program_counter + OPCODE_SIZE;
                None
            },
            ProcessorCycle::Skip => {
                self.program_counter = self.program_counter + 2 * OPCODE_SIZE;
                None
            },
            ProcessorCycle::Jump(addr) => {
                self.program_counter = addr;
                None
            },
        }
    }

    /// One frame boundary: each timer moves one step toward zero and a timer
    /// already at zero stays at zero.
    pub fn decrement_timers(&mut self)
        requires
            old(self).wf(),
        ensures
            final(self).wf(),
            final(self).delay_timer == (if old(self).delay_timer > 0 {
                (old(self).delay_timer - 1) as u8
            } else {
                0u8
            }),
            final(self).sound_timer == (if old(self).sound_timer > 0 {
                (old(self).sound_timer - 1) as u8
            } else {
                0u8
            }),
            frame_timers(*old(self), *final(self)),
            same_pc(*old(self), *final(self)),
    {
        if self.sound_timer > 0 {
            self.sound_timer = self.sound_timer - 1;
        }
        if self.delay_timer > 0 {
            self.delay_timer = self.delay_timer - 1;
        }
    }

    // CLS: clear the display.
    pub fn execute_cls(&mut self) -> (r: ProcessorCycle)
        requires
            old(self).wf(),
        ensures
            final(self).wf(),
            cls_step(*old(self), *final(self)),
            same_pc(*old(self), *final(self)),
            r == spec_cycle(*old(self), DecodedOpcode::Cls),
    {
        self.screen.clear();
        ProcessorCycle::Next
    }

    // RET: return from a subroutine, to the address on top of the stack.
    pub fn execute_ret(&mut self) -> (r: ProcessorCycle)
        requires
            old(self).wf(),
        ensures
            final(self).wf(),
            ret_step(*old(self), *final(self)),
            same_pc(*old(self), *final(self)),
            r == spec_cycle(*old(self), DecodedOpcode::Ret),
    {
        if self.stack_pointer >= 1 {
            self.stack_pointer = self.stack_pointer - 1;
            ProcessorCycle::Jump(self.stack[self.stack_pointer])
        } else {
            ProcessorCycle::Error(DecodedOpcode::Ret)
        }
    }

    // SYS nnn: machine subroutine, unimplemented in modern interpreters;
    // reported, never executed.
    pub fn execute_sys_nnn(&mut self, nnn: usize) -> (r: ProcessorCycle)
        requires
            old(self).wf(),
        ensures
            final(self).wf(),
            same_except_pc(*old(self), *final(self)),
            same_pc(*old(self), *final(self)),
            r == spec_cycle(*old(self), (DecodedOpcode::SysNnn { nnn })),
    {
        ProcessorCycle::Error(DecodedOpcode::SysNnn { nnn })
    }

    // JP nnn: jump to the address.
    pub fn execute_jp_nnn(&mut self, nnn: usize) -> (r: ProcessorCycle)
        requires
            old(self).wf(),
        ensures
            final(self).wf(),
            same_except_pc(*old(self), *final(self)),
            same_pc(*old(self), *final(self)),
            r == spec_cycle(*old(self), (DecodedOpcode::JpNnn { nnn })),
    {
        ProcessorCycle::Jump(nnn)
    }

    // CALL nnn: push the return address, then jump to the address.
    pub fn execute_call_nnn(&mut self, nnn: usize) -> (r: ProcessorCycle)
        requires
            old(self).wf(),
            old(self).program_counter + OPCODE_SIZE <= usize::MAX,
        ensures
            final(self).wf(),
            call_step(*old(self), *final(self)),
            same_pc(*old(self), *final(self)),
            r == spec_cycle(*old(self), (DecodedOpcode::CallNnn { nnn })),
    {
        if self.stack_pointer < STACK_SIZE {
            self.stack[self.stack_pointer] = self.program_counter + OPCODE_SIZE;
            self.stack_pointer = self.stack_pointer + 1;
            ProcessorCycle::Jump(nnn)
        } else {
            ProcessorCycle::Error(DecodedOpcode::CallNnn { nnn })
        }
    }

    // SE Vx, nn: skip the next instruction if Vx == nn.
    pub fn execute_se_vx_nn(&mut self, x: usize, nn: u8) -> (r: ProcessorCycle)
        requires
            old(self).wf(),
            x < V_REGISTERS_SIZE,
        ensures
            final(self).wf(),
            same_except_pc(*old(self), *final(self)),
            same_pc(*old(self), *final(self)),
            r == spec_cycle(*old(self), (DecodedOpcode::SeVxNn { vx: x, nn })),
    {
        ProcessorCycle::skip_if(self.v_registers[x] == nn)
    }

    // SNE Vx, nn: skip the next instruction if Vx != nn.
    pub fn execute_sne_vx_nn(&mut self, x: usize, nn: u8) -> (r: ProcessorCycle)
        requires
            old(self).wf(),
            x < V_REGISTERS_SIZE,
        ensures
            final(self).wf(),
            same_except_pc(*old(self), *final(self)),
            same_pc(*old(self), *final(self)),
            r == spec_cycle(*old(self), (DecodedOpcode::SneVxNn { vx: x, nn })),
    {
        ProcessorCycle::skip_if(self.v_registers[x] != nn)
    }

    // SE Vx, Vy: skip the next instruction if Vx == Vy.
    pub fn execute_se_vx_vy(&mut self, x: usize, y: usize) -> (r: ProcessorCycle)
        requires
            old(self).wf(),
            x < V_REGISTERS_SIZE,
            y < V_REGISTERS_SIZE,
        ensures
            final(self).wf(),
            same_except_pc(*old(self), *final(self)),
            same_pc(*old(self), *final(self)),
            r == spec_cycle(*old(self), (DecodedOpcode::SeVxVy { vx: x, vy: y })),
    {
        ProcessorCycle::skip_if(self.v_registers[x] == self.v_registers[y])
    }

    // SNE Vx, Vy: skip the next instruction if Vx != Vy.
    pub fn execute_sne_vx_vy(&mut self, x: usize, y: usize) -> (r: ProcessorCycle)
        requires
            old(self).wf(),
            x < V_REGISTERS_SIZE,
            y < V_REGISTERS_SIZE,
        ensures
            final(self).wf(),
            same_except_pc(*old(self), *final(self)),
            same_pc(*old(self), *final(self)),
            r == spec_cycle(*old(self), (DecodedOpcode::SneVxVy { vx: x, vy: y })),
    {
        ProcessorCycle::skip_if(self.v_registers[x] != self.v_registers[y])
    }

    // LD Vx, nn: set Vx = nn.
    pub fn execute_ld_vx_nn(&mut self, x: usize, nn: u8) -> (r: ProcessorCycle)
        requires
            old(self).wf(),
            x < V_REGISTERS_SIZE,
        ensures
            final(self).wf(),
            ld_vx_nn_step(*old(self), *final(self), x as int, nn),
            same_pc(*old(self), *final(self)),
            r == spec_cycle(*old(self), (DecodedOpcode::LdVxNn { vx: x, nn })),
    {
        self.v_registers[x] = nn;
        ProcessorCycle::Next
    }

    // ADD Vx, nn: set Vx = Vx + nn, wrapping at 8 bits; no flag is touched.
    pub fn execute_add_vx_nn(&mut self, x: usize, nn: u8) -> (r: ProcessorCycle)
        requires
            old(self).wf(),
            x < V_REGISTERS_SIZE,
        ensures
            final(self).wf(),
            add_vx_nn_step(*old(self), *final(self), x as int, nn),
            same_pc(*old(self), *final(self)),
            r == spec_cycle(*old(self), (DecodedOpcode::AddVxNn { vx: x, nn })),
    {
        let result = self.v_registers[x] as u16 + nn as u16;
        self.v_registers[x] = if result > 0xFF {
            (result - 0x100) as u8
        } else {
            result as u8
        };
        ProcessorCycle::Next
    }

    // LD Vx, Vy: set Vx = Vy.
    pub fn execute_ld_vx_vy(&mut self, x: usize, y: usize) -> (r: ProcessorCycle)
        requires
            old(self).wf(),
            x < V_REGISTERS_SIZE,
            y < V_REGISTERS_SIZE,
        ensures
            final(self).wf(),
            ld_vx_vy_step(*old(self), *final(self), x as int, y as int),
            same_pc(*old(self), *final(self)),
            r == spec_cycle(*old(self), (DecodedOpcode::LdVxVy { vx: x, vy: y })),
    {
        self.v_registers[x] = self.v_registers[y];
        ProcessorCycle::Next
    }

    // OR Vx, Vy: set Vx = Vx | Vy.
    pub fn execute_ox_vx_vy(&mut self, x: usize, y: usize) -> (r: ProcessorCycle)
        requires
            old(self).wf(),
            x < V_REGISTERS_SIZE,
            y < V_REGISTERS_SIZE,
        ensures
            final(self).wf(),
            or_vx_vy_step(*old(self), *final(self), x as int, y as int),
            same_pc(*old(self), *final(self)),
            r == spec_cycle(*old(self), (DecodedOpcode::OrVxVy { vx: x, vy: y })),
    {
        self.v_registers[x] = self.v_registers[x] | self.v_registers[y];
        ProcessorCycle::Next
    }

    // AND Vx, Vy: set Vx = Vx & Vy.
    pub fn execute_and_vx_vy(&mut self, x: usize, y: usize) -> (r: ProcessorCycle)
        requires
            old(self).wf(),
            x < V_REGISTERS_SIZE,
            y < V_REGISTERS_SIZE,
        ensures
            final(self).wf(),
            and_vx_vy_step(*old(self), *final(self), x as int, y as int),
            same_pc(*old(self), *final(self)),
            r == spec_cycle(*old(self), (DecodedOpcode::AndVxVy { vx: x, vy: y })),
    {
        self.v_registers[x] = self.v_registers[x] & self.v_registers[y];
        ProcessorCycle::Next
    }

    // XOR Vx, Vy: set Vx = Vx ^ Vy.
    pub fn execute_xor_vx_vy(&mut self, x: usize, y: usize) -> (r: ProcessorCycle)
        requires
            old(self).wf(),
            x < V_REGISTERS_SIZE,
            y < V_REGISTERS_SIZE,
        ensures
            final(self).wf(),
            xor_vx_vy_step(*old(self), *final(self), x as int, y as int),
            same_pc(*old(self), *final(self)),
            r == spec_cycle(*old(self), (DecodedOpcode::XorVxVy { vx: x, vy: y })),
    {
        self.v_registers[x] = self.v_registers[x] ^ self.v_registers[y];
        ProcessorCycle::Next
    }

    // ADD Vx, Vy: Vx = (Vx + Vy) mod 256; VF = 1 exactly when the sum
    // exceeds 255.
    pub fn execute_add_vx_vy(&mut self, x: usize, y: usize) -> (r: ProcessorCycle)
        requires
            old(self).wf(),
            x < V_REGISTERS_SIZE,
            y < V_REGISTERS_SIZE,
        ensures
            final(self).wf(),
            add_vx_vy_step(*old(self), *final(self), x as int, y as int),
            same_pc(*old(self), *final(self)),
            r == spec_cycle(*old(self), (DecodedOpcode::AddVxVy { vx: x, vy: y })),
    {
        let result = self.v_registers[x] as u16 + self.v_registers[y] as u16;
        self.v_registers[x] = if result > 0xFF {
            (result - 0x100) as u8
        } else {
            result as u8
        };
        self.v_registers[0x0F] = if result > 0xFF {
            1
        } else {
            0
        };
        ProcessorCycle::Next
    }

    // SUB Vx, Vy: Vx = Vx - Vy wrapping; VF = 1 exactly when no borrow
    // occurred (Vx >= Vy beforehand).
    pub fn execute_sub_vx_vy(&mut self, x: usize, y: usize) -> (r: ProcessorCycle)
        requires
            old(self).wf(),
            x < V_REGISTERS_SIZE,
            y < V_REGISTERS_SIZE,
        ensures
            final(self).wf(),
            sub_vx_vy_step(*old(self), *final(self), x as int, y as int),
            same_pc(*old(self), *final(self)),
            r == spec_cycle(*old(self), (DecodedOpcode::SubVxVy { vx: x, vy: y })),
    {
        let a = self.v_registers[x];
        let b = self.v_registers[y];
        let flag: u8 = if a >= b {
            1
        } else {
            0
        };
        self.v_registers[x] = a.wrapping_sub(b);
        self.v_registers[0x0F] = flag;
        ProcessorCycle::Next
    }

    // SUBN Vx, Vy: Vx = Vy - Vx wrapping; VF = 1 exactly when no borrow
    // occurred (Vy >= Vx beforehand).
    pub fn execute_subn_vx_vy(&mut self, x: usize, y: usize) -> (r: ProcessorCycle)
        requires
            old(self).wf(),
            x < V_REGISTERS_SIZE,
            y < V_REGISTERS_SIZE,
        ensures
            final(self).wf(),
            subn_vx_vy_step(*old(self), *final(self), x as int, y as int),
            same_pc(*old(self), *final(self)),
            r == spec_cycle(*old(self), (DecodedOpcode::SubnVxVy { vx: x, vy: y })),
    {
        let a = self.v_registers[x];
        let b = self.v_registers[y];
        let flag: u8 = if b >= a {
            1
        } else {
            0
        };
        self.v_registers[x] = b.wrapping_sub(a);
        self.v_registers[0x0F] = flag;
        ProcessorCycle::Next
    }

    // SHR Vx: VF = the old least significant bit of Vx; Vx = Vx >> 1.
    pub fn execute_shr_vx(&mut self, x: usize) -> (r: ProcessorCycle)
        requires
            old(self).wf(),
            x < V_REGISTERS_SIZE,
        ensures
            final(self).wf(),
            shr_vx_step(*old(self), *final(self), x as int),
            same_pc(*old(self), *final(self)),
            r == spec_cycle(*old(self), (DecodedOpcode::ShrVx { vx: x })),
    {
        let a = self.v_registers[x];
        self.v_registers[x] = a >> 1u8;
        self.v_registers[0x0F] = a & 1u8;
        ProcessorCycle::Next
    }

    // SHL Vx: VF = the old most significant bit of Vx; Vx = Vx << 1.
    pub fn execute_shl_vx(&mut self, x: usize) -> (r: ProcessorCycle)
        requires
            old(self).wf(),
            x < V_REGISTERS_SIZE,
        ensures
            final(self).wf(),
            shl_vx_step(*old(self), *final(self), x as int),
            same_pc(*old(self), *final(self)),
            r == spec_cycle(*old(self), (DecodedOpcode::ShlVx { vx: x })),
    {
        let a = self.v_registers[x];
        self.v_registers[x] = a << 1u8;
        self.v_registers[0x0F] = a >> 7u8;
        ProcessorCycle::Next
    }

    // LD I, nnn: set I = nnn.
    pub fn execute_ld_i_nnn(&mut self, nnn: usize) -> (r: ProcessorCycle)
        requires
            old(self).wf(),
        ensures
            final(self).wf(),
            ld_i_nnn_step(*old(self), *final(self), nnn),
            same_pc(*old(self), *final(self)),
            r == spec_cycle(*old(self), (DecodedOpcode::LdINnn { nnn })),
    {
        self.i_register = nnn;
        ProcessorCycle::Next
    }

    // JP V0, nnn: jump to nnn plus V0.
    pub fn execute_jp_v0_nnn(&mut self, nnn: usize) -> (r: ProcessorCycle)
        requires
            old(self).wf(),
            nnn < 0x1000,
        ensures
            final(self).wf(),
            same_except_pc(*old(self), *final(self)),
            same_pc(*old(self), *final(self)),
            r == spec_cycle(*old(self), (DecodedOpcode::JpV0Nnn { nnn })),
    {
        ProcessorCycle::Jump(self.v_registers[0] as usize + nnn)
    }

    // RND Vx, nn: Vx = a random byte masked with nn.
    pub fn execute_rnd_vx_nn(&mut self, x: usize, nn: u8) -> (r: ProcessorCycle)
        requires
            old(self).wf(),
            x < V_REGISTERS_SIZE,
        ensures
            final(self).wf(),
            rnd_vx_nn_step(*old(self), *final(self), x as int, nn),
            same_pc(*old(self), *final(self)),
            r == spec_cycle(*old(self), (DecodedOpcode::RndVxNn { vx: x, nn })),
    {
        let b = random_byte();
        let r = self.execute_rnd_vx_nn_with(x, nn, b);
        proof {
            assert(self.v_registers@ == old(self).v_registers@.update(x as int, b & nn));
        }
        r
    }

    // RND Vx, nn with the drawn byte supplied: Vx = byte & nn. The
    // deterministic core of the random instruction, so that a caller may
    // inject its own source and reproduce a run.
    pub fn execute_rnd_vx_nn_with(&mut self, x: usize, nn: u8, byte: u8) -> (r: ProcessorCycle)
        requires
            old(self).wf(),
            x < V_REGISTERS_SIZE,
        ensures
            final(self).wf(),
            final(self).v_registers@ == old(self).v_registers@.update(x as int, byte & nn),
            frame_regs(*old(self), *final(self)),
            same_pc(*old(self), *final(self)),
            r == ProcessorCycle::Next,
    {
        self.v_registers[x] = byte & nn;
        ProcessorCycle::Next
    }

    // DRW Vx, Vy, n: XOR-blit the 8xN sprite stored at I onto the screen at
    // (Vx, Vy). Coordinates wrap independently, so placement is toroidal.
    // VF reports whether any toggled cell was already on.
    #[verifier::loop_isolation(false)]
    pub fn execute_drw_vx_vy_n(&mut self, x: usize, y: usize, n: usize) -> (r: ProcessorCycle)
        requires
            old(self).wf(),
            x < V_REGISTERS_SIZE,
            y < V_REGISTERS_SIZE,
            n < 16,
        ensures
            final(self).wf(),
            drw_step(*old(self), *final(self), x as int, y as int, n as int),
            same_pc(*old(self), *final(self)),
            r == spec_cycle(*old(self), (DecodedOpcode::DrwVxVyN { vx: x, vy: y, n })),
    {
        if n != 0 && self.i_register > MEMORY_SIZE - n {
            return ProcessorCycle::Error(DecodedOpcode::DrwVxVyN { vx: x, vy: y, n });
        }
        let x_coord = self.v_registers[x] as usize;
        let y_coord = self.v_registers[y] as usize;
        let i = self.i_register;
        let mut collided = false;
        for y_line in iter: 0..n
            invariant
                self.wf(),
                same_memory(*old(self), *self),
                same_stack(*old(self), *self),
                same_regs(*old(self), *self),
                same_i(*old(self), *self),
                same_pc(*old(self), *self),
                same_timers(*old(self), *self),
                same_keypad(*old(self), *self),
                same_wait(*old(self), *self),
                n == 0 || i + n <= MEMORY_SIZE,
                ({
                    let res = blit_sprite(
                        old(self).screen.pixels@,
                        old(self).memory.bytes@,
                        i as int,
                        x_coord as int,
                        y_coord as int,
                        y_line as int,
                    );
                    &&& self.screen.pixels@ == res.0
                    &&& collided == res.1
                    &&& self.screen.needs_refresh == (old(self).screen.needs_refresh || res.2)
                }),
        {
            let row_pixels = self.memory.load(i + y_line);
            let yy = (y_coord + y_line) % SCREEN_HEIGHT;
            for x_column in iter: 0..8usize
                invariant
                    self.wf(),
                    same_memory(*old(self), *self),
                    same_stack(*old(self), *self),
                    same_regs(*old(self), *self),
                    same_i(*old(self), *self),
                    same_pc(*old(self), *self),
                    same_timers(*old(self), *self),
                    same_keypad(*old(self), *self),
                    same_wait(*old(self), *self),
                    row_pixels == old(self).memory.bytes@[i + y_line],
                    yy == (y_coord + y_line) % (SCREEN_HEIGHT as int),
                    ({
                        let res = blit_sprite(
                            old(self).screen.pixels@,
                            old(self).memory.bytes@,
                            i as int,
                            x_coord as int,
                            y_coord as int,
                            y_line as int,
                        );
                        let rr = blit_row(
                            res.0,
                            row_pixels,
                            x_coord as int,
                            yy as int,
                            x_column as int,
                        );
                        &&& self.screen.pixels@ == rr.0
                        &&& collided == (res.1 || rr.1)
                        &&& self.screen.needs_refresh == (old(self).screen.needs_refresh || res.2
                            || rr.2)
                    }),
            {
                if row_pixels & (0x80u8 >> (x_column as u8)) != 0 {
                    let px = (x_coord + x_column) % SCREEN_WIDTH;
                    let idx = px + SCREEN_WIDTH * yy;
                    let prev = self.screen.get_pixel(idx);
                    collided = collided || prev;
                    self.screen.set_pixel(idx, !prev);
                }
            }
        }
        self.v_registers[0x0F] = if collided {
            1
        } else {
            0
        };
        ProcessorCycle::Next
    }

    // SKP Vx: skip the next instruction if the key selected by Vx is pressed.
    pub fn execute_skp_vx(&mut self, x: usize) -> (r: ProcessorCycle)
        requires
            old(self).wf(),
            x < V_REGISTERS_SIZE,
        ensures
            final(self).wf(),
            same_except_pc(*old(self), *final(self)),
            same_pc(*old(self), *final(self)),
            r == spec_cycle(*old(self), (DecodedOpcode::SkpVx { vx: x })),
    {
        let key = self.v_registers[x] & 0xF;
        proof {
            let ghost a = self.v_registers@[x as int];
            assert(a & 0xFu8 < 16) by (bit_vector);
        }
        ProcessorCycle::skip_if((self.keypad >> (key as u16)) & 1 == 1)
    }

    // SKNP Vx: skip the next instruction if the key selected by Vx is not
    // pressed.
    pub fn execute_sknp_vx(&mut self, x: usize) -> (r: ProcessorCycle)
        requires
            old(self).wf(),
            x < V_REGISTERS_SIZE,
        ensures
            final(self).wf(),
            same_except_pc(*old(self), *final(self)),
            same_pc(*old(self), *final(self)),
            r == spec_cycle(*old(self), (DecodedOpcode::SknpVx { vx: x })),
    {
        let key = self.v_registers[x] & 0xF;
        proof {
            let ghost a = self.v_registers@[x as int];
            assert(a & 0xFu8 < 16) by (bit_vector);
            let ghost kp = self.keypad;
            let ghost s = (a & 0xFu8) as u16;
            assert(((kp >> s) & 1u16 == 0) == !((kp >> s) & 1u16 == 1)) by (bit_vector);
        }
        ProcessorCycle::skip_if((self.keypad >> (key as u16)) & 1 == 0)
    }

    // LD Vx, K: begin waiting for a key press; the key index will land in Vx.
    pub fn execute_ld_vx_k(&mut self, x: usize) -> (r: ProcessorCycle)
        requires
            old(self).wf(),
            x < V_REGISTERS_SIZE,
        ensures
            final(self).wf(),
            ld_vx_k_step(*old(self), *final(self), x as int),
            same_pc(*old(self), *final(self)),
            r == spec_cycle(*old(self), (DecodedOpcode::LdVxK { vx: x })),
    {
        self.keypad_wait = true;
        self.keypad_wait_index = x;
        ProcessorCycle::Next
    }

    // LD Vx, DT: set Vx = the delay timer.
    pub fn execute_ld_vx_dt(&mut self, x: usize) -> (r: ProcessorCycle)
        requires
            old(self).wf(),
            x < V_REGISTERS_SIZE,
        ensures
            final(self).wf(),
            ld_vx_dt_step(*old(self), *final(self), x as int),
            same_pc(*old(self), *final(self)),
            r == spec_cycle(*old(self), (DecodedOpcode::LdVxDt { vx: x })),
    {
        self.v_registers[x] = self.delay_timer;
        ProcessorCycle::Next
    }

    // LD DT, Vx: set the delay timer = Vx.
    pub fn execute_ld_dt_vx(&mut self, x: usize) -> (r: ProcessorCycle)
        requires
            old(self).wf(),
            x < V_REGISTERS_SIZE,
        ensures
            final(self).wf(),
            ld_dt_vx_step(*old(self), *final(self), x as int),
            same_pc(*old(self), *final(self)),
            r == spec_cycle(*old(self), (DecodedOpcode::LdDtVx { vx: x })),
    {
        self.delay_timer = self.v_registers[x];
        ProcessorCycle::Next
    }

    // LD ST, Vx: set the sound timer = Vx.
    pub fn execute_ld_st_vx(&mut self, x: usize) -> (r: ProcessorCycle)
        requires
            old(self).wf(),
            x < V_REGISTERS_SIZE,
        ensures
            final(self).wf(),
            ld_st_vx_step(*old(self), *final(self), x as int),
            same_pc(*old(self), *final(self)),
            r == spec_cycle(*old(self), (DecodedOpcode::LdStVx { vx: x })),
    {
        self.sound_timer = self.v_registers[x];
        ProcessorCycle::Next
    }

    // ADD I, Vx: I = I + Vx; VF = 1 exactly when the new I exceeds 0xF00.
    pub fn execute_add_i_vx(&mut self, x: usize) -> (r: ProcessorCycle)
        requires
            old(self).wf(),
            x < V_REGISTERS_SIZE,
        ensures
            final(self).wf(),
            add_i_vx_step(*old(self), *final(self), x as int),
            same_pc(*old(self), *final(self)),
            r == spec_cycle(*old(self), (DecodedOpcode::AddIVx { vx: x })),
    {
        let v = self.v_registers[x] as usize;
        if self.i_register <= usize::MAX - v {
            self.i_register = self.i_register + v;
            self.v_registers[0x0F] = if self.i_register > 0x0F00 {
                1
            } else {
                0
            };
            ProcessorCycle::Next
        } else {
            ProcessorCycle::Error(DecodedOpcode::AddIVx { vx: x })
        }
    }

    // LD F, Vx: I = the address of the font glyph for digit Vx.
    pub fn execute_ld_f_vx(&mut self, x: usize) -> (r: ProcessorCycle)
        requires
            old(self).wf(),
            x < V_REGISTERS_SIZE,
        ensures
            final(self).wf(),
            ld_f_vx_step(*old(self), *final(self), x as int),
            same_pc(*old(self), *final(self)),
            r == spec_cycle(*old(self), (DecodedOpcode::LdFVx { vx: x })),
    {
        self.i_register = (self.v_registers[x] as usize) * 5;
        ProcessorCycle::Next
    }

    // LD [I], Vx: copy V0..Vx inclusive into memory starting at I.
    pub fn execute_ld_at_i_vx(&mut self, x: usize) -> (r: ProcessorCycle)
        requires
            old(self).wf(),
            x < V_REGISTERS_SIZE,
        ensures
            final(self).wf(),
            ld_at_i_vx_step(*old(self), *final(self), x as int),
            same_pc(*old(self), *final(self)),
            r == spec_cycle(*old(self), (DecodedOpcode::LdAtIVx { vx: x })),
    {
        if self.i_register <= MEMORY_SIZE - 1 - x {
            let i = self.i_register;
            for k in iter: 0..x + 1
                invariant
                    self.wf(),
                    x < V_REGISTERS_SIZE,
                    i + x < MEMORY_SIZE,
                    i == self.i_register,
                    same_screen(*old(self), *self),
                    same_stack(*old(self), *self),
                    same_regs(*old(self), *self),
                    same_i(*old(self), *self),
                    same_pc(*old(self), *self),
                    same_timers(*old(self), *self),
                    same_keypad(*old(self), *self),
                    same_wait(*old(self), *self),
                    self.memory.rom_size == old(self).memory.rom_size,
                    self.memory.bytes@.len() == old(self).memory.bytes@.len(),
                    forall|j: int|
                        0 <= j < k ==> self.memory.bytes@[i + j] == old(self).v_registers@[j],
                    forall|a: int|
                        0 <= a < MEMORY_SIZE && !(i <= a < i + k) ==> self.memory.bytes@[a]
                            == old(self).memory.bytes@[a],
            {
                let value = self.v_registers[k];
                self.memory.store(i + k, value);
            }
            ProcessorCycle::Next
        } else {
            ProcessorCycle::Error(DecodedOpcode::LdAtIVx { vx: x })
        }
    }

    // LD Vx, [I]: load V0..Vx inclusive from memory starting at I.
    pub fn execute_ld_vx_at_i(&mut self, x: usize) -> (r: ProcessorCycle)
        requires
            old(self).wf(),
            x < V_REGISTERS_SIZE,
        ensures
            final(self).wf(),
            ld_vx_at_i_step(*old(self), *final(self), x as int),
            same_pc(*old(self), *final(self)),
            r == spec_cycle(*old(self), (DecodedOpcode::LdVxAtI { vx: x })),
    {
        if self.i_register <= MEMORY_SIZE - 1 - x {
            let i = self.i_register;
            for k in iter: 0..x + 1
                invariant
                    self.wf(),
                    x < V_REGISTERS_SIZE,
                    i + x < MEMORY_SIZE,
                    i == self.i_register,
                    same_memory(*old(self), *self),
                    same_screen(*old(self), *self),
                    same_stack(*old(self), *self),
                    same_i(*old(self), *self),
                    same_pc(*old(self), *self),
                    same_timers(*old(self), *self),
                    same_keypad(*old(self), *self),
                    same_wait(*old(self), *self),
                    self.v_registers@.len() == old(self).v_registers@.len(),
                    forall|j: int|
                        0 <= j < k ==> self.v_registers@[j] == old(self).memory.bytes@[i + j],
                    forall|j: int|
                        k <= j < V_REGISTERS_SIZE ==> self.v_registers@[j]
                            == old(self).v_registers@[j],
            {
                let value = self.memory.load(i + k);
                self.v_registers[k] = value;
            }
            ProcessorCycle::Next
        } else {
            ProcessorCycle::Error(DecodedOpcode::LdVxAtI { vx: x })
        }
    }

    // BCD Vx: store the hundreds, tens and ones digits of Vx at I, I+1, I+2.
    pub fn execute_bcd_vx(&mut self, x: usize) -> (r: ProcessorCycle)
        requires
            old(self).wf(),
            x < V_REGISTERS_SIZE,
        ensures
            final(self).wf(),
            bcd_vx_step(*old(self), *final(self), x as int),
            same_pc(*old(self), *final(self)),
            r == spec_cycle(*old(self), (DecodedOpcode::BcdVx { vx: x })),
    {
        if self.i_register <= MEMORY_SIZE - 3 {
            let v = self.v_registers[x];
            let i = self.i_register;
            self.memory.store(i, v / 100);
            self.memory.store(i + 1, (v % 100) / 10);
            self.memory.store(i + 2, v % 10);
            ProcessorCycle::Next
        } else {
            ProcessorCycle::Error(DecodedOpcode::BcdVx { vx: x })
        }
    }

    // An opcode matching no documented form: reported, never executed.
    pub fn execute_unknown(&self, opcode: u16) -> (r: ProcessorCycle)
        ensures
            r == spec_cycle(*self, (DecodedOpcode::Unknown { opcode })),
    {
        ProcessorCycle::Error(DecodedOpcode::Unknown { opcode })
    }
}

/// Relies on rand::thread_rng and rand::Rng::gen: one byte drawn from the
/// thread-local generator. Nothing is promised of the value; callers state
/// what holds of every outcome.
#[verifier::external_body]
fn random_byte() -> u8 {
    rand::thread_rng().gen::<u8>()
}

} // verus!
