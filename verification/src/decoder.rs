//! The opcode decoder: a pure, total map from a 16-bit opcode word to a tagged
//! instruction variant. Any bit pattern that matches no documented form decodes
//! to `Unknown`; a leading nibble of `0` with a suffix other than `00E0`/`00EE`
//! decodes to the legacy machine-subroutine form `SysNnn`.

use vstd::prelude::*;

verus! {

/// One decoded instruction, carrying only the operand fields its family needs:
/// register indices `vx`/`vy`, an 8-bit immediate `nn`, a 12-bit address `nnn`,
/// or a sprite-height nibble `n`.
#[derive(Clone, Copy, Debug, PartialEq, Eq, Structural)]
pub enum DecodedOpcode {
    // 00E0 | CLS | Clear video memory
    Cls,
    // 00EE | RET | Return from subroutine
    Ret,
    // 0NNN | SYS NNN | Call machine subroutine at NNN (ignored in modern interpreters)
    SysNnn { nnn: usize },
    // 2NNN | CALL NNN | Call subroutine at NNN
    CallNnn { nnn: usize },
    // 1NNN | JP NNN | Jump to address NNN
    JpNnn { nnn: usize },
    // BNNN | JP V0, NNN | Jump to address NNN + V0
    JpV0Nnn { nnn: usize },
    // 3XNN | SE VX, NN | Skip next instruction if VX == NN
    SeVxNn { vx: usize, nn: u8 },
    // 4XNN | SNE VX, NN | Skip next instruction if VX != NN
    SneVxNn { vx: usize, nn: u8 },
    // 5XY0 | SE VX, VY | Skip next instruction if VX == VY
    SeVxVy { vx: usize, vy: usize },
    // 9XY0 | SNE VX, VY | Skip next instruction if VX != VY
    SneVxVy { vx: usize, vy: usize },
    // EX9E | SKP VX | Skip next instruction if key(VX) is pressed
    SkpVx { vx: usize },
    // EXA1 | SKNP VX | Skip next instruction if key(VX) is not pressed
    SknpVx { vx: usize },
    // FX0A | LD VX, K | Wait for key press, store key pressed in VX
    LdVxK { vx: usize },
    // 6XNN | LD VX, NN | VX = NN
    LdVxNn { vx: usize, nn: u8 },
    // 8XY0 | LD VX, VY | VX = VY
    LdVxVy { vx: usize, vy: usize },
    // FX07 | LD VX, DT | VX = DT
    LdVxDt { vx: usize },
    // FX15 | LD DT, VX | DT = VX
    LdDtVx { vx: usize },
    // FX18 | LD ST, VX | ST = VX
    LdStVx { vx: usize },
    // ANNN | LD I, NNN | I = NNN
    LdINnn { nnn: usize },
    // FX29 | LD F, VX | I = address of the 4x5 font glyph for digit VX (0..F)
    LdFVx { vx: usize },
    // FX55 | LD [I], VX | Store V0..VX (inclusive) to memory starting at I; I unchanged
    LdAtIVx { vx: usize },
    // FX65 | LD VX, [I] | Load V0..VX (inclusive) from memory starting at I; I unchanged
    LdVxAtI { vx: usize },
    // FX1E | ADD I, VX | I = I + VX; VF = 1 if I > 0xF00 else 0
    AddIVx { vx: usize },
    // 7XNN | ADD VX, NN | VX = VX + NN (8-bit wraparound, no flag)
    AddVxNn { vx: usize, nn: u8 },
    // 8XY4 | ADD VX, VY | VX = VX + VY; VF = 1 if overflow else 0
    AddVxVy { vx: usize, vy: usize },
    // 8XY5 | SUB VX, VY | VX = VX - VY; VF = 1 if no borrow else 0
    SubVxVy { vx: usize, vy: usize },
    // 8XY7 | SUBN VX, VY | VX = VY - VX; VF = 1 if no borrow else 0
    SubnVxVy { vx: usize, vy: usize },
    // 8XY1 | OR VX, VY | VX = VX OR VY
    OrVxVy { vx: usize, vy: usize },
    // 8XY2 | AND VX, VY | VX = VX AND VY
    AndVxVy { vx: usize, vy: usize },
    // 8XY3 | XOR VX, VY | VX = VX XOR VY
    XorVxVy { vx: usize, vy: usize },
    // 8XY6 | SHR VX | VF = LSB(VX); VX = VX >> 1
    ShrVx { vx: usize },
    // 8XYE | SHL VX | VF = MSB(VX); VX = VX << 1
    ShlVx { vx: usize },
    // FX33 | BCD VX | Store the decimal digits of VX at I, I+1, I+2; I unchanged
    BcdVx { vx: usize },
    // CXNN | RND VX, NN | VX = random byte AND NN
    RndVxNn { vx: usize, nn: u8 },
    // DXYN | DRW VX, VY, N | Draw the 8xN sprite at I to (VX, VY); VF = 1 on collision
    DrwVxVyN { vx: usize, vy: usize, n: usize },
    // ____ | UNKNOWN | Unknown opcode, kept for diagnostics
    Unknown { opcode: u16 },
}

impl DecodedOpcode {
    /// Every operand field is within the width of the nibbles it was cut from:
    /// register indices and the sprite height are below 16, the address is
    /// below 0x1000. Decoding always yields a well-formed instruction.
    pub open spec fn wf(self) -> bool {
        match self {
            DecodedOpcode::Cls => true,
            DecodedOpcode::Ret => true,
            DecodedOpcode::SysNnn { nnn } => nnn < 0x1000,
            DecodedOpcode::CallNnn { nnn } => nnn < 0x1000,
            DecodedOpcode::JpNnn { nnn } => nnn < 0x1000,
            DecodedOpcode::JpV0Nnn { nnn } => nnn < 0x1000,
            DecodedOpcode::SeVxNn { vx, nn } => vx < 16,
            DecodedOpcode::SneVxNn { vx, nn } => vx < 16,
            DecodedOpcode::SeVxVy { vx, vy } => vx < 16 && vy < 16,
            DecodedOpcode::SneVxVy { vx, vy } => vx < 16 && vy < 16,
            DecodedOpcode::SkpVx { vx } => vx < 16,
            DecodedOpcode::SknpVx { vx } => vx < 16,
            DecodedOpcode::LdVxK { vx } => vx < 16,
            DecodedOpcode::LdVxNn { vx, nn } => vx < 16,
            DecodedOpcode::LdVxVy { vx, vy } => vx < 16 && vy < 16,
            DecodedOpcode::LdVxDt { vx } => vx < 16,
            DecodedOpcode::LdDtVx { vx } => vx < 16,
            DecodedOpcode::LdStVx { vx } => vx < 16,
            DecodedOpcode::LdINnn { nnn } => nnn < 0x1000,
            DecodedOpcode::LdFVx { vx } => vx < 16,
            DecodedOpcode::LdAtIVx { vx } => vx < 16,
            DecodedOpcode::LdVxAtI { vx } => vx < 16,
            DecodedOpcode::AddIVx { vx } => vx < 16,
            DecodedOpcode::AddVxNn { vx, nn } => vx < 16,
            DecodedOpcode::AddVxVy { vx, vy } => vx < 16 && vy < 16,
            DecodedOpcode::SubVxVy { vx, vy } => vx < 16 && vy < 16,
            DecodedOpcode::SubnVxVy { vx, vy } => vx < 16 && vy < 16,
            DecodedOpcode::OrVxVy { vx, vy } => vx < 16 && vy < 16,
            DecodedOpcode::AndVxVy { vx, vy } => vx < 16 && vy < 16,
            DecodedOpcode::XorVxVy { vx, vy } => vx < 16 && vy < 16,
            DecodedOpcode::ShrVx { vx } => vx < 16,
            DecodedOpcode::ShlVx { vx } => vx < 16,
            DecodedOpcode::BcdVx { vx } => vx < 16,
            DecodedOpcode::RndVxNn { vx, nn } => vx < 16,
            DecodedOpcode::DrwVxVyN { vx, vy, n } => vx < 16 && vy < 16 && n < 16,
            DecodedOpcode::Unknown { opcode } => true,
        }
    }

    /// What `new` returns for each opcode: the most-specific nibble pattern
    /// wins; the top nibble picks the family; anything left is `Unknown`.
    pub open spec fn spec_decode(opcode: u16) -> DecodedOpcode {
        let n0 = opcode >> 12;
        let n1 = (opcode >> 8) & 0xF;
        let n2 = (opcode >> 4) & 0xF;
        let n3 = opcode & 0xF;
        let vx = n1 as usize;
        let vy = n2 as usize;
        let n = n3 as usize;
        let nn = (opcode & 0xFF) as u8;
        let nnn = (opcode & 0xFFF) as usize;
        if opcode == 0x00E0 {
            DecodedOpcode::Cls
        } else if opcode == 0x00EE {
            DecodedOpcode::Ret
        } else if n0 == 0x0 {
            DecodedOpcode::SysNnn { nnn }
        } else if n0 == 0x1 {
            DecodedOpcode::JpNnn { nnn }
        } else if n0 == 0x2 {
            DecodedOpcode::CallNnn { nnn }
        } else if n0 == 0xB {
            DecodedOpcode::JpV0Nnn { nnn }
        } else if n0 == 0x3 {
            DecodedOpcode::SeVxNn { vx, nn }
        } else if n0 == 0x4 {
            DecodedOpcode::SneVxNn { vx, nn }
        } else if n0 == 0x5 && n3 == 0x0 {
            DecodedOpcode::SeVxVy { vx, vy }
        } else if n0 == 0x9 && n3 == 0x0 {
            DecodedOpcode::SneVxVy { vx, vy }
        } else if n0 == 0xE && n2 == 0x9 && n3 == 0xE {
            DecodedOpcode::SkpVx { vx }
        } else if n0 == 0xE && n2 == 0xA && n3 == 0x1 {
            DecodedOpcode::SknpVx { vx }
        } else if n0 == 0xF && n2 == 0x0 && n3 == 0xA {
            DecodedOpcode::LdVxK { vx }
        } else if n0 == 0x6 {
            DecodedOpcode::LdVxNn { vx, nn }
        } else if n0 == 0x8 && n3 == 0x0 {
            DecodedOpcode::LdVxVy { vx, vy }
        } else if n0 == 0xF && n2 == 0x0 && n3 == 0x7 {
            DecodedOpcode::LdVxDt { vx }
        } else if n0 == 0xF && n2 == 0x1 && n3 == 0x5 {
            DecodedOpcode::LdDtVx { vx }
        } else if n0 == 0xF && n2 == 0x1 && n3 == 0x8 {
            DecodedOpcode::LdStVx { vx }
        } else if n0 == 0xA {
            DecodedOpcode::LdINnn { nnn }
        } else if n0 == 0xF && n2 == 0x2 && n3 == 0x9 {
            DecodedOpcode::LdFVx { vx }
        } else if n0 == 0xF && n2 == 0x5 && n3 == 0x5 {
            DecodedOpcode::LdAtIVx { vx }
        } else if n0 == 0xF && n2 == 0x6 && n3 == 0x5 {
            DecodedOpcode::LdVxAtI { vx }
        } else if n0 == 0xF && n2 == 0x1 && n3 == 0xE {
            DecodedOpcode::AddIVx { vx }
        } else if n0 == 0x7 {
            DecodedOpcode::AddVxNn { vx, nn }
        } else if n0 == 0x8 && n3 == 0x4 {
            DecodedOpcode::AddVxVy { vx, vy }
        } else if n0 == 0x8 && n3 == 0x5 {
            DecodedOpcode::SubVxVy { vx, vy }
        } else if n0 == 0x8 && n3 == 0x7 {
            DecodedOpcode::SubnVxVy { vx, vy }
        } else if n0 == 0x8 && n3 == 0x1 {
            DecodedOpcode::OrVxVy { vx, vy }
        } else if n0 == 0x8 && n3 == 0x2 {
            DecodedOpcode::AndVxVy { vx, vy }
        } else if n0 == 0x8 && n3 == 0x3 {
            DecodedOpcode::XorVxVy { vx, vy }
        } else if n0 == 0x8 && n3 == 0x6 {
            DecodedOpcode::ShrVx { vx }
        } else if n0 == 0x8 && n3 == 0xE {
            DecodedOpcode::ShlVx { vx }
        } else if n0 == 0xF && n2 == 0x3 && n3 == 0x3 {
            DecodedOpcode::BcdVx { vx }
        } else if n0 == 0xC {
            DecodedOpcode::RndVxNn { vx, nn }
        } else if n0 == 0xD {
            DecodedOpcode::DrwVxVyN { vx, vy, n }
        } else {
            DecodedOpcode::Unknown { opcode }
        }
    }

    /// Decode one opcode word. Total and deterministic: every one of the 65536
    /// possible words maps to exactly one variant, and every operand field is
    /// in range (`wf`).
    pub fn new(opcode: u16) -> (r: DecodedOpcode)
        ensures
            r == DecodedOpcode::spec_decode(opcode),
            r.wf(),
    {
        let n0 = opcode >> 12;
        let n1 = (opcode >> 8) & 0xF;
        let n2 = (opcode >> 4) & 0xF;
        let n3 = opcode & 0xF;

        proof {
            assert(opcode >> 12 < 16 && (opcode >> 8) & 0xF < 16 && (opcode >> 4) & 0xF < 16
                && opcode & 0xF < 16 && opcode & 0xFF < 256 && opcode & 0xFFF < 0x1000)
                by (bit_vector);
            assert((opcode >> 12 == 0 && (opcode >> 8) & 0xF == 0 && (opcode >> 4) & 0xF == 0xE
                && opcode & 0xF == 0) == (opcode == 0x00E0)) by (bit_vector);
            assert((opcode >> 12 == 0 && (opcode >> 8) & 0xF == 0 && (opcode >> 4) & 0xF == 0xE
                && opcode & 0xF == 0xE) == (opcode == 0x00EE)) by (bit_vector);
        }

        let vx = n1 as usize;
        let vy = n2 as usize;
        let n = n3 as usize;
        let nn = (opcode & 0xFF) as u8;
        let nnn = (opcode & 0xFFF) as usize;

        match (n0, n1, n2, n3) {
            (0x0, 0x0, 0xE, 0x0) => DecodedOpcode::Cls,
            (0x0, 0x0, 0xE, 0xE) => DecodedOpcode::Ret,
            (0x0, _, _, _) => DecodedOpcode::SysNnn { nnn },
            (0x1, _, _, _) => DecodedOpcode::JpNnn { nnn },
            (0x2, _, _, _) => DecodedOpcode::CallNnn { nnn },
            (0xB, _, _, _) => DecodedOpcode::JpV0Nnn { nnn },
            (0x3, _, _, _) => DecodedOpcode::SeVxNn { vx, nn },
            (0x4, _, _, _) => DecodedOpcode::SneVxNn { vx, nn },
            (0x5, _, _, 0x0) => DecodedOpcode::SeVxVy { vx, vy },
            (0x9, _, _, 0x0) => DecodedOpcode::SneVxVy { vx, vy },
            (0xE, _, 0x9, 0xE) => DecodedOpcode::SkpVx { vx },
            (0xE, _, 0xA, 0x1) => DecodedOpcode::SknpVx { vx },
            (0xF, _, 0x0, 0xA) => DecodedOpcode::LdVxK { vx },
            (0x6, _, _, _) => DecodedOpcode::LdVxNn { vx, nn },
            (0x8, _, _, 0x0) => DecodedOpcode::LdVxVy { vx, vy },
            (0xF, _, 0x0, 0x7) => DecodedOpcode::LdVxDt { vx },
            (0xF, _, 0x1, 0x5) => DecodedOpcode::LdDtVx { vx },
            (0xF, _, 0x1, 0x8) => DecodedOpcode::LdStVx { vx },
            (0xA, _, _, _) => DecodedOpcode::LdINnn { nnn },
            (0xF, _, 0x2, 0x9) => DecodedOpcode::LdFVx { vx },
            (0xF, _, 0x5, 0x5) => DecodedOpcode::LdAtIVx { vx },
            (0xF, _, 0x6, 0x5) => DecodedOpcode::LdVxAtI { vx },
            (0xF, _, 0x1, 0xE) => DecodedOpcode::AddIVx { vx },
            (0x7, _, _, _) => DecodedOpcode::AddVxNn { vx, nn },
            (0x8, _, _, 0x4) => DecodedOpcode::AddVxVy { vx, vy },
            (0x8, _, _, 0x5) => DecodedOpcode::SubVxVy { vx, vy },
            (0x8, _, _, 0x7) => DecodedOpcode::SubnVxVy { vx, vy },
            (0x8, _, _, 0x1) => DecodedOpcode::OrVxVy { vx, vy },
            (0x8, _, _, 0x2) => DecodedOpcode::AndVxVy { vx, vy },
            (0x8, _, _, 0x3) => DecodedOpcode::XorVxVy { vx, vy },
            (0x8, _, _, 0x6) => DecodedOpcode::ShrVx { vx },
            (0x8, _, _, 0xE) => DecodedOpcode::ShlVx { vx },
            (0xF, _, 0x3, 0x3) => DecodedOpcode::BcdVx { vx },
            (0xC, _, _, _) => DecodedOpcode::RndVxNn { vx, nn },
            (0xD, _, _, _) => DecodedOpcode::DrwVxVyN { vx, vy, n },
            _ => DecodedOpcode::Unknown { opcode },
        }
    }
}

} // verus!
