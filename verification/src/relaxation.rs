//! The rewriter: what each relaxation does to the instruction bytes around a
//! relocation, to the place at which the relocation is then applied, to its
//! addend, and to the relocation that follows it.
//!
//! Every rewrite writes over a fixed span of bytes. None makes the section
//! longer or shorter, so the code after the span and the relocations that
//! refer to it stay where they were.

use crate::bytes::{lemma_overwrite, occurs_at, overwrite, pattern_after, write_at};
use vstd::prelude::*;

verus! {

/// What the section writer does with the relocation that follows the one it
/// has just handled.
#[derive(Clone, Copy, Debug, PartialEq, Eq, Structural)]
pub enum RelocationModifier {
    /// It handles it like any other.
    Normal,
    /// It passes it over: the rewrite of the instruction pair has used it up.
    SkipNextRelocation,
}

/// A way to rewrite the instruction that a relocation sits in.
#[derive(Clone, Copy, Debug, PartialEq, Eq, Structural)]
pub enum RelaxationKind {
    /// A load of an address from the global offset table becomes the
    /// computation of that address: `mov *x(%rip), reg` to `lea x(%rip), reg`.
    MovIndirectToLea,
    /// A load of a constant from the global offset table becomes a load of
    /// the constant itself: `mov *x(%rip), reg` to `mov x, reg`.
    MovIndirectToAbsolute,
    /// As `MovIndirectToAbsolute`, for an instruction with a REX prefix.
    RexMovIndirectToAbsolute,
    /// A subtraction of a value in the global offset table becomes the
    /// subtraction of a constant.
    RexSubIndirectToAbsolute,
    /// A comparison with a value in the global offset table becomes a
    /// comparison with a constant.
    RexCmpIndirectToAbsolute,
    /// A call through the global offset table becomes a direct call:
    /// `call *x(%rip)` to `call x(%rip)`.
    CallIndirectToRelative,
    /// The instruction stays as it is; only the relocation type changes.
    NoOp,
    /// General-dynamic thread-local access becomes local-exec access.
    TlsGdToLocalExec,
    /// As `TlsGdToLocalExec`, for the instructions of the large code model.
    TlsGdToLocalExecLarge,
    /// Local-dynamic thread-local access becomes local-exec access.
    TlsLdToLocalExec,
    /// General-dynamic thread-local access becomes initial-exec access.
    TlsGdToInitialExec,
}

/// A REX prefix with its R bit moved to its B bit: the register that the
/// prefix extended sat in the reg field of ModR/M and now sits in the r/m
/// field.
pub open spec fn rex_r_to_b(rex: u8) -> u8 {
    (rex & !4u8) | ((rex & 4u8) >> 2u8)
}

/// A register-direct ModR/M byte whose r/m field is the reg field of
/// `mod_rm`. `base` gives the mode bits and the reg field: `0xc0` for `/0`,
/// `0xe8` for `/5`, `0xf8` for `/7`.
pub open spec fn modrm_reg_as_rm(mod_rm: u8, base: u8) -> u8 {
    ((mod_rm >> 3u8) & 0x7u8) | base
}

/// Moving the R bit clears it, sets the B bit where either was set and
/// keeps every other bit of the prefix.
pub proof fn lemma_rex_r_to_b(rex: u8)
    by (bit_vector)
    ensures
        rex_r_to_b(rex) & 4 == 0,
        rex_r_to_b(rex) & 1 == (rex & 1) | ((rex >> 2) & 1),
        rex_r_to_b(rex) & 0xfa == rex & 0xfa,
        rex_r_to_b(0x48) == 0x48,
        rex_r_to_b(0x4c) == 0x49,
{
}

/// The rewritten ModR/M byte is register-direct, names in its r/m field the
/// register that the reg field named, and has the reg field of `base`.
pub proof fn lemma_modrm_reg_as_rm(mod_rm: u8, base: u8)
    by (bit_vector)
    requires
        base == 0xc0 || base == 0xe8 || base == 0xf8,
    ensures
        modrm_reg_as_rm(mod_rm, base) & 0xc0 == 0xc0,
        modrm_reg_as_rm(mod_rm, base) & 0x07 == (mod_rm >> 3) & 0x07,
        modrm_reg_as_rm(mod_rm, base) & 0x38 == base & 0x38,
{
}

/// `mov %fs:0,%rax`, followed by `lea x(%rax),%rax` up to its displacement.
pub open spec fn tls_gd_to_local_exec_code() -> Seq<u8> {
    seq![0x64u8, 0x48, 0x8b, 0x04, 0x25, 0, 0, 0, 0, 0x48, 0x8d, 0x80]
}

/// `mov %fs:0,%rax`, then `lea x(%rax),%rax` with its displacement, then
/// `nopw 0(%rax,%rax)` to fill the room of the longer sequence.
pub open spec fn tls_gd_to_local_exec_large_code() -> Seq<u8> {
    seq![
        0x64u8, 0x48, 0x8b, 0x04, 0x25, 0, 0, 0, 0,
        0x48, 0x8d, 0x80, 0, 0, 0, 0,
        0x66, 0x0f, 0x1f, 0x44, 0, 0,
    ]
}

/// `mov %fs:0,%rax`, followed by `add x(%rip),%rax` up to its displacement.
pub open spec fn tls_gd_to_initial_exec_code() -> Seq<u8> {
    seq![0x64u8, 0x48, 0x8b, 0x04, 0x25, 0, 0, 0, 0, 0x48, 0x03, 0x05]
}

/// Three `data16` prefixes, then `mov %fs:0,%rax`.
pub open spec fn tls_ld_to_local_exec_code() -> Seq<u8> {
    seq![0x66u8, 0x66, 0x66, 0x64, 0x48, 0x8b, 0x04, 0x25, 0, 0, 0, 0]
}

/// A no-op of thirteen bytes, then `mov %fs:0,%rax`.
pub open spec fn tls_ld_to_local_exec_large_code() -> Seq<u8> {
    seq![
        0x66u8, 0x66, 0x66, 0x66, 0x2e, 0x0f, 0x1f, 0x84, 0, 0, 0, 0, 0,
        0x64, 0x48, 0x8b, 0x04, 0x25, 0, 0, 0, 0,
    ]
}

/// Whether the instruction that follows a local-dynamic load is the 64-bit
/// one of the large code model: `movabs x,%rax`, which begins four bytes
/// after the relocation's place.
pub open spec fn tls_ld_is_large(bytes: Seq<u8>, offset: int) -> bool {
    occurs_at(bytes, offset + 4, seq![0x48u8, 0xb8])
}

/// The addend that the initial-exec form asks for: -12 as 64 bits.
pub open spec fn minus_twelve() -> u64 {
    0xffff_ffff_ffff_fff4
}

/// `minus_twelve` is -12 modulo 2^64.
pub proof fn lemma_minus_twelve()
    ensures
        minus_twelve() + 12 == 0x1_0000_0000_0000_0000,
{
}

impl RelaxationKind {
    /// The bytes that the rewrite writes: from the first position of the
    /// pair up to, but not including, the second. `offset` is the place of
    /// the relocation's four bytes.
    pub open spec fn span(self, bytes: Seq<u8>, offset: int) -> (int, int) {
        match self {
            RelaxationKind::MovIndirectToLea => (offset - 2, offset - 1),
            RelaxationKind::MovIndirectToAbsolute => (offset - 2, offset),
            RelaxationKind::RexMovIndirectToAbsolute => (offset - 3, offset),
            RelaxationKind::RexSubIndirectToAbsolute => (offset - 3, offset),
            RelaxationKind::RexCmpIndirectToAbsolute => (offset - 3, offset),
            RelaxationKind::CallIndirectToRelative => (offset - 2, offset),
            RelaxationKind::NoOp => (offset, offset),
            RelaxationKind::TlsGdToLocalExec => (offset - 4, offset + 8),
            RelaxationKind::TlsGdToLocalExecLarge => (offset - 3, offset + 19),
            RelaxationKind::TlsGdToInitialExec => (offset - 4, offset + 8),
            RelaxationKind::TlsLdToLocalExec => if tls_ld_is_large(bytes, offset) {
                (offset - 3, offset + 19)
            } else {
                (offset - 3, offset + 9)
            },
        }
    }

    /// Whether the bytes that the rewrite writes all lie in `bytes`. A
    /// rewrite that writes nothing can be applied anywhere.
    pub open spec fn applicable(self, bytes: Seq<u8>, offset: int) -> bool {
        self is NoOp || (0 <= self.span(bytes, offset).0 && self.span(bytes, offset).1
            <= bytes.len())
    }

    /// The section after the rewrite.
    pub open spec fn rewritten(self, bytes: Seq<u8>, offset: int) -> Seq<u8>
        recommends
            self.applicable(bytes, offset),
    {
        match self {
            RelaxationKind::MovIndirectToLea => bytes.update(offset - 2, 0x8du8),
            RelaxationKind::MovIndirectToAbsolute => bytes.update(offset - 2, 0xc7u8).update(
                offset - 1,
                modrm_reg_as_rm(bytes[offset - 1], 0xc0),
            ),
            RelaxationKind::RexMovIndirectToAbsolute => Self::rex_rewritten(
                bytes,
                offset,
                0xc7,
                0xc0,
            ),
            RelaxationKind::RexSubIndirectToAbsolute => Self::rex_rewritten(
                bytes,
                offset,
                0x81,
                0xe8,
            ),
            RelaxationKind::RexCmpIndirectToAbsolute => Self::rex_rewritten(
                bytes,
                offset,
                0x81,
                0xf8,
            ),
            RelaxationKind::CallIndirectToRelative => overwrite(
                bytes,
                offset - 2,
                seq![0x67u8, 0xe8],
            ),
            RelaxationKind::NoOp => bytes,
            RelaxationKind::TlsGdToLocalExec => overwrite(
                bytes,
                offset - 4,
                tls_gd_to_local_exec_code(),
            ),
            RelaxationKind::TlsGdToLocalExecLarge => overwrite(
                bytes,
                offset - 3,
                tls_gd_to_local_exec_large_code(),
            ),
            RelaxationKind::TlsGdToInitialExec => overwrite(
                bytes,
                offset - 4,
                tls_gd_to_initial_exec_code(),
            ),
            RelaxationKind::TlsLdToLocalExec => if tls_ld_is_large(bytes, offset) {
                overwrite(bytes, offset - 3, tls_ld_to_local_exec_large_code())
            } else {
                overwrite(bytes, offset - 3, tls_ld_to_local_exec_code())
            },
        }
    }

    /// The three bytes before `offset`, a REX prefix, an opcode and a
    /// ModR/M byte, turned into the form that takes an immediate: the
    /// prefix with R moved to B, `opcode`, and the register-direct ModR/M
    /// byte over `base`.
    pub open spec fn rex_rewritten(bytes: Seq<u8>, offset: int, opcode: u8, base: u8) -> Seq<u8> {
        bytes.update(offset - 3, rex_r_to_b(bytes[offset - 3])).update(offset - 2, opcode).update(
            offset - 1,
            modrm_reg_as_rm(bytes[offset - 1], base),
        )
    }

    /// By how many bytes the rewrite moves the place at which the
    /// relocation is applied.
    pub open spec fn advance(self, bytes: Seq<u8>, offset: int) -> int {
        match self {
            RelaxationKind::TlsGdToLocalExec => 8,
            RelaxationKind::TlsGdToLocalExecLarge => 9,
            RelaxationKind::TlsGdToInitialExec => 8,
            RelaxationKind::TlsLdToLocalExec => if tls_ld_is_large(bytes, offset) {
                15
            } else {
                5
            },
            _ => 0,
        }
    }

    /// The addend after the rewrite, where it was `addend` before.
    pub open spec fn addend_after(self, addend: u64) -> u64 {
        match self {
            RelaxationKind::MovIndirectToAbsolute => 0,
            RelaxationKind::RexMovIndirectToAbsolute => 0,
            RelaxationKind::RexSubIndirectToAbsolute => 0,
            RelaxationKind::RexCmpIndirectToAbsolute => 0,
            RelaxationKind::TlsGdToLocalExec => 0,
            RelaxationKind::TlsGdToLocalExecLarge => 0,
            RelaxationKind::TlsGdToInitialExec => minus_twelve(),
            _ => addend,
        }
    }

    /// Whether the rewrite uses up the relocation that follows: the
    /// thread-local rewrites replace a pair of instructions, and the second
    /// of the pair, a call of `__tls_get_addr`, had a relocation of its own.
    pub open spec fn consumes_next(self) -> bool {
        ||| self is TlsGdToLocalExec
        ||| self is TlsGdToLocalExecLarge
        ||| self is TlsGdToInitialExec
        ||| self is TlsLdToLocalExec
    }

    /// What the section writer is told about the next relocation after the
    /// rewrite, where it had been told `modifier` before.
    pub open spec fn modifier_after(self, modifier: RelocationModifier) -> RelocationModifier {
        if self.consumes_next() {
            RelocationModifier::SkipNextRelocation
        } else {
            modifier
        }
    }

    /// Whether the bytes that the rewrite writes all lie in `bytes`, so that
    /// [`RelaxationKind::apply`] may be called.
    pub fn fits(self, bytes: &[u8], offset: u64) -> (b: bool)
        ensures
            b == self.applicable(bytes@, offset as int),
    {
        let len = bytes.len() as u64;
        let (back, ahead): (u64, u64) = match self {
            RelaxationKind::MovIndirectToLea => {
                return 2 <= offset && offset - 2 < len;
            },
            RelaxationKind::NoOp => {
                return true;
            },
            RelaxationKind::MovIndirectToAbsolute => (2, 0),
            RelaxationKind::RexMovIndirectToAbsolute => (3, 0),
            RelaxationKind::RexSubIndirectToAbsolute => (3, 0),
            RelaxationKind::RexCmpIndirectToAbsolute => (3, 0),
            RelaxationKind::CallIndirectToRelative => (2, 0),
            RelaxationKind::TlsGdToLocalExec => (4, 8),
            RelaxationKind::TlsGdToLocalExecLarge => (3, 19),
            RelaxationKind::TlsGdToInitialExec => (4, 8),
            RelaxationKind::TlsLdToLocalExec => if pattern_after(bytes, offset, 4, &[0x48, 0xb8]) {
                (3, 19)
            } else {
                (3, 9)
            },
        };
        back <= offset && offset <= len && ahead <= len - offset
    }

    /// Rewrites the instruction at a relocation.
    ///
    /// `offset_in_section` is the place of the relocation's four bytes in
    /// `section_bytes`. The bytes around it are rewritten in place. Where
    /// the rewrite replaces a pair of instructions, the place moves to the
    /// displacement of the new second instruction and `next_modifier` tells
    /// the section writer to pass over the relocation that the old second
    /// instruction had. Where the new instruction takes the value itself,
    /// the addend that allowed for the end of the old instruction is
    /// replaced.
    pub fn apply(
        self,
        section_bytes: &mut [u8],
        offset_in_section: &mut u64,
        addend: &mut u64,
        next_modifier: &mut RelocationModifier,
    )
        requires
            self.applicable(old(section_bytes)@, *old(offset_in_section) as int),
        ensures
            final(section_bytes)@ == self.rewritten(
                old(section_bytes)@,
                *old(offset_in_section) as int,
            ),
            final(section_bytes)@.len() == old(section_bytes)@.len(),
            *final(offset_in_section) == *old(offset_in_section) + self.advance(
                old(section_bytes)@,
                *old(offset_in_section) as int,
            ),
            *final(addend) == self.addend_after(*old(addend)),
            *final(next_modifier) == self.modifier_after(*old(next_modifier)),
            *final(offset_in_section) != *old(offset_in_section) ==> *final(next_modifier)
                == RelocationModifier::SkipNextRelocation,
    {
        let len = section_bytes.len();
        let offset: u64 = *offset_in_section;
        proof {
            lemma_rewrite_in_place(self, section_bytes@, offset as int);
        }
        match self {
            RelaxationKind::MovIndirectToLea => {
                section_bytes[(offset - 2) as usize] = 0x8d;
            },
            RelaxationKind::MovIndirectToAbsolute => {
                let at = offset as usize;
                section_bytes[at - 2] = 0xc7;
                let mod_rm: u8 = section_bytes[at - 1];
                section_bytes[at - 1] = ((mod_rm >> 3) & 0x7) | 0xc0;
                *addend = 0;
            },
            RelaxationKind::RexMovIndirectToAbsolute => {
                rewrite_rex(section_bytes, offset as usize, 0xc7, 0xc0);
                *addend = 0;
            },
            RelaxationKind::RexSubIndirectToAbsolute => {
                rewrite_rex(section_bytes, offset as usize, 0x81, 0xe8);
                *addend = 0;
            },
            RelaxationKind::RexCmpIndirectToAbsolute => {
                rewrite_rex(section_bytes, offset as usize, 0x81, 0xf8);
                *addend = 0;
            },
            RelaxationKind::CallIndirectToRelative => {
                let code: [u8; 2] = [0x67, 0xe8];
                assert(code@ =~= seq![0x67u8, 0xe8]);
                write_at(section_bytes, offset as usize - 2, code.as_slice());
            },
            RelaxationKind::TlsGdToLocalExec => {
                let code: [u8; 12] = [0x64, 0x48, 0x8b, 0x04, 0x25, 0, 0, 0, 0, 0x48, 0x8d, 0x80];
                assert(code@ =~= tls_gd_to_local_exec_code());
                write_at(section_bytes, offset as usize - 4, code.as_slice());
                *offset_in_section = offset + 8;
                *addend = 0;
                *next_modifier = RelocationModifier::SkipNextRelocation;
            },
            RelaxationKind::TlsGdToLocalExecLarge => {
                let code: [u8; 22] = [
                    0x64, 0x48, 0x8b, 0x04, 0x25, 0, 0, 0, 0,
                    0x48, 0x8d, 0x80, 0, 0, 0, 0,
                    0x66, 0x0f, 0x1f, 0x44, 0, 0,
                ];
                assert(code@ =~= tls_gd_to_local_exec_large_code());
                write_at(section_bytes, offset as usize - 3, code.as_slice());
                *offset_in_section = offset + 9;
                *addend = 0;
                *next_modifier = RelocationModifier::SkipNextRelocation;
            },
            RelaxationKind::TlsGdToInitialExec => {
                let code: [u8; 12] = [0x64, 0x48, 0x8b, 0x04, 0x25, 0, 0, 0, 0, 0x48, 0x03, 0x05];
                assert(code@ =~= tls_gd_to_initial_exec_code());
                write_at(section_bytes, offset as usize - 4, code.as_slice());
                *offset_in_section = offset + 8;
                *addend = 0xffff_ffff_ffff_fff4;
                *next_modifier = RelocationModifier::SkipNextRelocation;
            },
            RelaxationKind::TlsLdToLocalExec => {
                let follow: [u8; 2] = [0x48, 0xb8];
                assert(follow@ =~= seq![0x48u8, 0xb8]);
                if pattern_after(section_bytes, offset, 4, follow.as_slice()) {
                    let code: [u8; 22] = [
                        0x66, 0x66, 0x66, 0x66, 0x2e, 0x0f, 0x1f, 0x84, 0, 0, 0, 0, 0,
                        0x64, 0x48, 0x8b, 0x04, 0x25, 0, 0, 0, 0,
                    ];
                    assert(code@ =~= tls_ld_to_local_exec_large_code());
                    write_at(section_bytes, offset as usize - 3, code.as_slice());
                    *offset_in_section = offset + 15;
                } else {
                    let code: [u8; 12] = [
                        0x66, 0x66, 0x66, 0x64, 0x48, 0x8b, 0x04, 0x25, 0, 0, 0, 0,
                    ];
                    assert(code@ =~= tls_ld_to_local_exec_code());
                    write_at(section_bytes, offset as usize - 3, code.as_slice());
                    *offset_in_section = offset + 5;
                }
                *next_modifier = RelocationModifier::SkipNextRelocation;
            },
            RelaxationKind::NoOp => {},
        }
    }
}

/// Rewrites the REX prefix, the opcode and the ModR/M byte that end at `at`.
fn rewrite_rex(bytes: &mut [u8], at: usize, opcode: u8, base: u8)
    requires
        3 <= at <= old(bytes)@.len(),
    ensures
        final(bytes)@ == RelaxationKind::rex_rewritten(old(bytes)@, at as int, opcode, base),
{
    let rex: u8 = bytes[at - 3];
    bytes[at - 3] = (rex & !4) | ((rex & 4) >> 2);
    bytes[at - 2] = opcode;
    let mod_rm: u8 = bytes[at - 1];
    bytes[at - 1] = ((mod_rm >> 3) & 0x7) | base;
}

/// A rewrite is in place: it keeps the length of the section and every byte
/// outside its span, and it moves the relocation's place to a position
/// inside the span or at its end.
pub proof fn lemma_rewrite_in_place(kind: RelaxationKind, bytes: Seq<u8>, offset: int)
    requires
        kind.applicable(bytes, offset),
    ensures
        kind.rewritten(bytes, offset).len() == bytes.len(),
        forall|i: int|
            0 <= i < bytes.len() && !(kind.span(bytes, offset).0 <= i < kind.span(bytes, offset).1)
                ==> kind.rewritten(bytes, offset)[i] == bytes[i],
        kind.advance(bytes, offset) >= 0,
        kind.advance(bytes, offset) > 0 ==> offset + kind.advance(bytes, offset) <= kind.span(
            bytes,
            offset,
        ).1,
{
    match kind {
        RelaxationKind::CallIndirectToRelative => {
            lemma_overwrite(bytes, offset - 2, seq![0x67u8, 0xe8]);
        },
        RelaxationKind::TlsGdToLocalExec => {
            lemma_overwrite(bytes, offset - 4, tls_gd_to_local_exec_code());
        },
        RelaxationKind::TlsGdToLocalExecLarge => {
            lemma_overwrite(bytes, offset - 3, tls_gd_to_local_exec_large_code());
        },
        RelaxationKind::TlsGdToInitialExec => {
            lemma_overwrite(bytes, offset - 4, tls_gd_to_initial_exec_code());
        },
        RelaxationKind::TlsLdToLocalExec => {
            if tls_ld_is_large(bytes, offset) {
                lemma_overwrite(bytes, offset - 3, tls_ld_to_local_exec_large_code());
            } else {
                lemma_overwrite(bytes, offset - 3, tls_ld_to_local_exec_code());
            }
        },
        _ => {},
    }
}

/// A rewrite that moves the relocation's place uses up the next relocation.
pub proof fn lemma_advance_consumes_next(kind: RelaxationKind, bytes: Seq<u8>, offset: int)
    ensures
        kind.advance(bytes, offset) != 0 ==> kind.consumes_next(),
        kind.consumes_next() ==> forall|modifier: RelocationModifier|
            kind.modifier_after(modifier) == RelocationModifier::SkipNextRelocation,
{
}

} // verus!
