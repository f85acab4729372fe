use chip8::decoder::DecodedOpcode;

// Every one of the 65536 opcode words decodes, deterministically, to exactly
// one variant.
#[test]
fn test_decode_total() {
    for opcode in 0..=0xFFFFu16 {
        let first = DecodedOpcode::new(opcode);
        let second = DecodedOpcode::new(opcode);
        assert_eq!(first, second);
    }
}

#[test]
fn test_decode_samples() {
    assert_eq!(DecodedOpcode::new(0x00E0), DecodedOpcode::Cls);
    assert_eq!(DecodedOpcode::new(0x00EE), DecodedOpcode::Ret);
    assert_eq!(DecodedOpcode::new(0x1ABC), DecodedOpcode::JpNnn { nnn: 0xABC });
    assert_eq!(DecodedOpcode::new(0xA123), DecodedOpcode::LdINnn { nnn: 0x123 });
}

#[test]
fn test_decode_operand_fields() {
    assert_eq!(
        DecodedOpcode::new(0x3A7F),
        DecodedOpcode::SeVxNn { vx: 0xA, nn: 0x7F }
    );
    assert_eq!(
        DecodedOpcode::new(0x8AB4),
        DecodedOpcode::AddVxVy { vx: 0xA, vy: 0xB }
    );
    assert_eq!(
        DecodedOpcode::new(0xD12F),
        DecodedOpcode::DrwVxVyN { vx: 1, vy: 2, n: 0xF }
    );
    assert_eq!(DecodedOpcode::new(0xB765), DecodedOpcode::JpV0Nnn { nnn: 0x765 });
    assert_eq!(DecodedOpcode::new(0xC3F0), DecodedOpcode::RndVxNn { vx: 3, nn: 0xF0 });
    assert_eq!(DecodedOpcode::new(0xF50A), DecodedOpcode::LdVxK { vx: 5 });
}

// A leading nibble of 0 with a suffix other than 00E0/00EE is the legacy
// machine-subroutine form, distinct from an unknown opcode.
#[test]
fn test_decode_legacy_subroutine() {
    assert_eq!(DecodedOpcode::new(0x0123), DecodedOpcode::SysNnn { nnn: 0x123 });
    assert_eq!(DecodedOpcode::new(0x00E1), DecodedOpcode::SysNnn { nnn: 0x0E1 });
}

// Undocumented suffixes of the arithmetic and peripheral families decode to
// the unknown variant, which keeps the raw word for diagnostics.
#[test]
fn test_decode_unknown() {
    assert_eq!(DecodedOpcode::new(0x800F), DecodedOpcode::Unknown { opcode: 0x800F });
    assert_eq!(DecodedOpcode::new(0x5AB1), DecodedOpcode::Unknown { opcode: 0x5AB1 });
    assert_eq!(DecodedOpcode::new(0x9AB2), DecodedOpcode::Unknown { opcode: 0x9AB2 });
    assert_eq!(DecodedOpcode::new(0xE5FF), DecodedOpcode::Unknown { opcode: 0xE5FF });
    assert_eq!(DecodedOpcode::new(0xF5FF), DecodedOpcode::Unknown { opcode: 0xF5FF });
}
