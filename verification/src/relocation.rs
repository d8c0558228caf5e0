//! Relocation types of x86-64 and what the linker knows of each.
//!
//! A relocation type arrives as a number. [`RelocationType`] is that number
//! decoded; the tables below give each type its mnemonic and say how a
//! relocation of that type writes its value.

use crate::elf;
use vstd::prelude::*;

verus! {

/// A relocation type of the x86-64 processor supplement.
#[derive(Clone, Copy, Debug, PartialEq, Eq, Structural)]
pub enum RelocationType {
    /// `R_X86_64_NONE`: no relocation at all.
    NoReloc,
    /// `R_X86_64_64`: the symbol's 64-bit address.
    R64,
    /// `R_X86_64_PC32`: a signed 32-bit offset from the place to the symbol.
    Pc32,
    /// `R_X86_64_GOT32`: a 32-bit offset of the symbol's entry in the global
    /// offset table.
    Got32,
    /// `R_X86_64_PLT32`: a signed 32-bit offset from the place to the symbol's
    /// linkage stub.
    Plt32,
    /// `R_X86_64_COPY`: a copy of the symbol made when the program is loaded.
    Copy,
    /// `R_X86_64_GLOB_DAT`: the filling of a global offset table entry with the
    /// symbol's address.
    GlobDat,
    /// `R_X86_64_JUMP_SLOT`: the filling of a linkage table slot.
    JumpSlot,
    /// `R_X86_64_RELATIVE`: an address adjusted by the load base.
    Relative,
    /// `R_X86_64_GOTPCREL`: a signed 32-bit offset from the place to the
    /// symbol's table entry.
    GotPcRel,
    /// `R_X86_64_32`: the symbol's address as 32 bits, zero extended.
    R32,
    /// `R_X86_64_32S`: the symbol's address as 32 bits, sign extended.
    R32S,
    /// `R_X86_64_16`: the symbol's address as 16 bits, zero extended.
    R16,
    /// `R_X86_64_PC16`: a signed 16-bit offset from the place to the symbol.
    Pc16,
    /// `R_X86_64_8`: the symbol's address as 8 bits, sign extended.
    R8,
    /// `R_X86_64_PC8`: a signed 8-bit offset from the place to the symbol.
    Pc8,
    /// `R_X86_64_DTPMOD64`: the number of the module that holds a thread-local
    /// symbol.
    DtpMod64,
    /// `R_X86_64_DTPOFF64`: a 64-bit offset in the module's thread-local block.
    DtpOff64,
    /// `R_X86_64_TPOFF64`: a 64-bit offset in the initial thread-local block.
    TpOff64,
    /// `R_X86_64_TLSGD`: a signed 32-bit offset to the table entry pair of a
    /// general-dynamic symbol.
    TlsGd,
    /// `R_X86_64_TLSLD`: a signed 32-bit offset to the table entry pair of a
    /// local-dynamic symbol.
    TlsLd,
    /// `R_X86_64_DTPOFF32`: a 32-bit offset in the module's thread-local block.
    DtpOff32,
    /// `R_X86_64_GOTTPOFF`: a signed 32-bit offset to the table entry of an
    /// initial-exec symbol.
    GotTpOff,
    /// `R_X86_64_TPOFF32`: a 32-bit offset in the initial thread-local block.
    TpOff32,
    /// `R_X86_64_PC64`: a 64-bit offset from the place to the symbol.
    Pc64,
    /// `R_X86_64_GOTOFF64`: a 64-bit offset from the global offset table to the
    /// symbol.
    GotOff64,
    /// `R_X86_64_GOTPC32`: a signed 32-bit offset from the place to the global
    /// offset table.
    GotPc32,
    /// `R_X86_64_GOT64`: a 64-bit offset of the symbol's entry in the global
    /// offset table.
    Got64,
    /// `R_X86_64_GOTPCREL64`: a 64-bit offset from the place to the symbol's
    /// table entry.
    GotPcRel64,
    /// `R_X86_64_GOTPC64`: a 64-bit offset from the place to the global offset
    /// table.
    GotPc64,
    /// `R_X86_64_GOTPLT64`: a 64-bit table entry offset that also asks for a
    /// linkage stub.
    GotPlt64,
    /// `R_X86_64_PLTOFF64`: a 64-bit offset from the global offset table to the
    /// symbol's linkage stub.
    PltOff64,
    /// `R_X86_64_SIZE32`: the symbol's size plus a 32-bit addend.
    Size32,
    /// `R_X86_64_SIZE64`: the symbol's size plus a 64-bit addend.
    Size64,
    /// `R_X86_64_GOTPC32_TLSDESC`: a signed 32-bit offset to the table entry of
    /// a thread-local descriptor.
    GotPc32TlsDesc,
    /// `R_X86_64_TLSDESC_CALL`: the marker of a call through a thread-local
    /// descriptor.
    TlsDescCall,
    /// `R_X86_64_TLSDESC`: a thread-local descriptor.
    TlsDesc,
    /// `R_X86_64_IRELATIVE`: an address that a resolver function yields at load
    /// time.
    IRelative,
    /// `R_X86_64_RELATIVE64`: a 64-bit address adjusted by the load base.
    Relative64,
    /// `R_X86_64_GOTPCRELX`: a relaxable load through the symbol's table entry,
    /// without a REX prefix.
    GotPcRelX,
    /// `R_X86_64_REX_GOTPCRELX`: a relaxable load through the symbol's table
    /// entry, with a REX prefix.
    RexGotPcRelX,
}

impl RelocationType {
    /// The number that stands for this type in a relocation record.
    pub open spec fn spec_raw(self) -> u32 {
        match self {
            RelocationType::NoReloc => 0,
            RelocationType::R64 => 1,
            RelocationType::Pc32 => 2,
            RelocationType::Got32 => 3,
            RelocationType::Plt32 => 4,
            RelocationType::Copy => 5,
            RelocationType::GlobDat => 6,
            RelocationType::JumpSlot => 7,
            RelocationType::Relative => 8,
            RelocationType::GotPcRel => 9,
            RelocationType::R32 => 10,
            RelocationType::R32S => 11,
            RelocationType::R16 => 12,
            RelocationType::Pc16 => 13,
            RelocationType::R8 => 14,
            RelocationType::Pc8 => 15,
            RelocationType::DtpMod64 => 16,
            RelocationType::DtpOff64 => 17,
            RelocationType::TpOff64 => 18,
            RelocationType::TlsGd => 19,
            RelocationType::TlsLd => 20,
            RelocationType::DtpOff32 => 21,
            RelocationType::GotTpOff => 22,
            RelocationType::TpOff32 => 23,
            RelocationType::Pc64 => 24,
            RelocationType::GotOff64 => 25,
            RelocationType::GotPc32 => 26,
            RelocationType::Got64 => 27,
            RelocationType::GotPcRel64 => 28,
            RelocationType::GotPc64 => 29,
            RelocationType::GotPlt64 => 30,
            RelocationType::PltOff64 => 31,
            RelocationType::Size32 => 32,
            RelocationType::Size64 => 33,
            RelocationType::GotPc32TlsDesc => 34,
            RelocationType::TlsDescCall => 35,
            RelocationType::TlsDesc => 36,
            RelocationType::IRelative => 37,
            RelocationType::Relative64 => 38,
            RelocationType::GotPcRelX => 41,
            RelocationType::RexGotPcRelX => 42,
        }
    }

    /// The type that the number `r_type` stands for, if it stands for one.
    pub open spec fn of_raw(r_type: u32) -> Option<RelocationType> {
        match r_type {
            0 => Some(RelocationType::NoReloc),
            1 => Some(RelocationType::R64),
            2 => Some(RelocationType::Pc32),
            3 => Some(RelocationType::Got32),
            4 => Some(RelocationType::Plt32),
            5 => Some(RelocationType::Copy),
            6 => Some(RelocationType::GlobDat),
            7 => Some(RelocationType::JumpSlot),
            8 => Some(RelocationType::Relative),
            9 => Some(RelocationType::GotPcRel),
            10 => Some(RelocationType::R32),
            11 => Some(RelocationType::R32S),
            12 => Some(RelocationType::R16),
            13 => Some(RelocationType::Pc16),
            14 => Some(RelocationType::R8),
            15 => Some(RelocationType::Pc8),
            16 => Some(RelocationType::DtpMod64),
            17 => Some(RelocationType::DtpOff64),
            18 => Some(RelocationType::TpOff64),
            19 => Some(RelocationType::TlsGd),
            20 => Some(RelocationType::TlsLd),
            21 => Some(RelocationType::DtpOff32),
            22 => Some(RelocationType::GotTpOff),
            23 => Some(RelocationType::TpOff32),
            24 => Some(RelocationType::Pc64),
            25 => Some(RelocationType::GotOff64),
            26 => Some(RelocationType::GotPc32),
            27 => Some(RelocationType::Got64),
            28 => Some(RelocationType::GotPcRel64),
            29 => Some(RelocationType::GotPc64),
            30 => Some(RelocationType::GotPlt64),
            31 => Some(RelocationType::PltOff64),
            32 => Some(RelocationType::Size32),
            33 => Some(RelocationType::Size64),
            34 => Some(RelocationType::GotPc32TlsDesc),
            35 => Some(RelocationType::TlsDescCall),
            36 => Some(RelocationType::TlsDesc),
            37 => Some(RelocationType::IRelative),
            38 => Some(RelocationType::Relative64),
            41 => Some(RelocationType::GotPcRelX),
            42 => Some(RelocationType::RexGotPcRelX),
            _ => None,
        }
    }

    /// The mnemonic of this type.
    pub open spec fn spec_name(self) -> Seq<char> {
        match self {
            RelocationType::NoReloc => "R_X86_64_NONE"@,
            RelocationType::R64 => "R_X86_64_64"@,
            RelocationType::Pc32 => "R_X86_64_PC32"@,
            RelocationType::Got32 => "R_X86_64_GOT32"@,
            RelocationType::Plt32 => "R_X86_64_PLT32"@,
            RelocationType::Copy => "R_X86_64_COPY"@,
            RelocationType::GlobDat => "R_X86_64_GLOB_DAT"@,
            RelocationType::JumpSlot => "R_X86_64_JUMP_SLOT"@,
            RelocationType::Relative => "R_X86_64_RELATIVE"@,
            RelocationType::GotPcRel => "R_X86_64_GOTPCREL"@,
            RelocationType::R32 => "R_X86_64_32"@,
            RelocationType::R32S => "R_X86_64_32S"@,
            RelocationType::R16 => "R_X86_64_16"@,
            RelocationType::Pc16 => "R_X86_64_PC16"@,
            RelocationType::R8 => "R_X86_64_8"@,
            RelocationType::Pc8 => "R_X86_64_PC8"@,
            RelocationType::DtpMod64 => "R_X86_64_DTPMOD64"@,
            RelocationType::DtpOff64 => "R_X86_64_DTPOFF64"@,
            RelocationType::TpOff64 => "R_X86_64_TPOFF64"@,
            RelocationType::TlsGd => "R_X86_64_TLSGD"@,
            RelocationType::TlsLd => "R_X86_64_TLSLD"@,
            RelocationType::DtpOff32 => "R_X86_64_DTPOFF32"@,
            RelocationType::GotTpOff => "R_X86_64_GOTTPOFF"@,
            RelocationType::TpOff32 => "R_X86_64_TPOFF32"@,
            RelocationType::Pc64 => "R_X86_64_PC64"@,
            RelocationType::GotOff64 => "R_X86_64_GOTOFF64"@,
            RelocationType::GotPc32 => "R_X86_64_GOTPC32"@,
            RelocationType::Got64 => "R_X86_64_GOT64"@,
            RelocationType::GotPcRel64 => "R_X86_64_GOTPCREL64"@,
            RelocationType::GotPc64 => "R_X86_64_GOTPC64"@,
            RelocationType::GotPlt64 => "R_X86_64_GOTPLT64"@,
            RelocationType::PltOff64 => "R_X86_64_PLTOFF64"@,
            RelocationType::Size32 => "R_X86_64_SIZE32"@,
            RelocationType::Size64 => "R_X86_64_SIZE64"@,
            RelocationType::GotPc32TlsDesc => "R_X86_64_GOTPC32_TLSDESC"@,
            RelocationType::TlsDescCall => "R_X86_64_TLSDESC_CALL"@,
            RelocationType::TlsDesc => "R_X86_64_TLSDESC"@,
            RelocationType::IRelative => "R_X86_64_IRELATIVE"@,
            RelocationType::Relative64 => "R_X86_64_RELATIVE64"@,
            RelocationType::GotPcRelX => "R_X86_64_GOTPCRELX"@,
            RelocationType::RexGotPcRelX => "R_X86_64_REX_GOTPCRELX"@,
        }
    }

    /// Decodes a relocation type. Numbers that the supplement leaves
    /// unassigned, or assigned after `R_X86_64_REX_GOTPCRELX`, give `None`.
    pub fn from_raw(r_type: u32) -> (t: Option<RelocationType>)
        ensures
            t == Self::of_raw(r_type),
    {
        if r_type == elf::r_x86_64_none() {
            Some(RelocationType::NoReloc)
        } else if r_type == elf::r_x86_64_64() {
            Some(RelocationType::R64)
        } else if r_type == elf::r_x86_64_pc32() {
            Some(RelocationType::Pc32)
        } else if r_type == elf::r_x86_64_got32() {
            Some(RelocationType::Got32)
        } else if r_type == elf::r_x86_64_plt32() {
            Some(RelocationType::Plt32)
        } else if r_type == elf::r_x86_64_copy() {
            Some(RelocationType::Copy)
        } else if r_type == elf::r_x86_64_glob_dat() {
            Some(RelocationType::GlobDat)
        } else if r_type == elf::r_x86_64_jump_slot() {
            Some(RelocationType::JumpSlot)
        } else if r_type == elf::r_x86_64_relative() {
            Some(RelocationType::Relative)
        } else if r_type == elf::r_x86_64_gotpcrel() {
            Some(RelocationType::GotPcRel)
        } else if r_type == elf::r_x86_64_32() {
            Some(RelocationType::R32)
        } else if r_type == elf::r_x86_64_32s() {
            Some(RelocationType::R32S)
        } else if r_type == elf::r_x86_64_16() {
            Some(RelocationType::R16)
        } else if r_type == elf::r_x86_64_pc16() {
            Some(RelocationType::Pc16)
        } else if r_type == elf::r_x86_64_8() {
            Some(RelocationType::R8)
        } else if r_type == elf::r_x86_64_pc8() {
            Some(RelocationType::Pc8)
        } else if r_type == elf::r_x86_64_dtpmod64() {
            Some(RelocationType::DtpMod64)
        } else if r_type == elf::r_x86_64_dtpoff64() {
            Some(RelocationType::DtpOff64)
        } else if r_type == elf::r_x86_64_tpoff64() {
            Some(RelocationType::TpOff64)
        } else if r_type == elf::r_x86_64_tlsgd() {
            Some(RelocationType::TlsGd)
        } else if r_type == elf::r_x86_64_tlsld() {
            Some(RelocationType::TlsLd)
        } else if r_type == elf::r_x86_64_dtpoff32() {
            Some(RelocationType::DtpOff32)
        } else if r_type == elf::r_x86_64_gottpoff() {
            Some(RelocationType::GotTpOff)
        } else if r_type == elf::r_x86_64_tpoff32() {
            Some(RelocationType::TpOff32)
        } else if r_type == elf::r_x86_64_pc64() {
            Some(RelocationType::Pc64)
        } else if r_type == elf::r_x86_64_gotoff64() {
            Some(RelocationType::GotOff64)
        } else if r_type == elf::r_x86_64_gotpc32() {
            Some(RelocationType::GotPc32)
        } else if r_type == elf::r_x86_64_got64() {
            Some(RelocationType::Got64)
        } else if r_type == elf::r_x86_64_gotpcrel64() {
            Some(RelocationType::GotPcRel64)
        } else if r_type == elf::r_x86_64_gotpc64() {
            Some(RelocationType::GotPc64)
        } else if r_type == elf::r_x86_64_gotplt64() {
            Some(RelocationType::GotPlt64)
        } else if r_type == elf::r_x86_64_pltoff64() {
            Some(RelocationType::PltOff64)
        } else if r_type == elf::r_x86_64_size32() {
            Some(RelocationType::Size32)
        } else if r_type == elf::r_x86_64_size64() {
            Some(RelocationType::Size64)
        } else if r_type == elf::r_x86_64_gotpc32_tlsdesc() {
            Some(RelocationType::GotPc32TlsDesc)
        } else if r_type == elf::r_x86_64_tlsdesc_call() {
            Some(RelocationType::TlsDescCall)
        } else if r_type == elf::r_x86_64_tlsdesc() {
            Some(RelocationType::TlsDesc)
        } else if r_type == elf::r_x86_64_irelative() {
            Some(RelocationType::IRelative)
        } else if r_type == elf::r_x86_64_relative64() {
            Some(RelocationType::Relative64)
        } else if r_type == elf::r_x86_64_gotpcrelx() {
            Some(RelocationType::GotPcRelX)
        } else if r_type == elf::r_x86_64_rex_gotpcrelx() {
            Some(RelocationType::RexGotPcRelX)
        } else {
            None
        }
    }

    /// The number that stands for this type in a relocation record.
    #[verifier::when_used_as_spec(spec_raw)]
    pub fn raw(self) -> (r: u32)
        ensures
            r == self.spec_raw(),
    {
        match self {
            RelocationType::NoReloc => elf::r_x86_64_none(),
            RelocationType::R64 => elf::r_x86_64_64(),
            RelocationType::Pc32 => elf::r_x86_64_pc32(),
            RelocationType::Got32 => elf::r_x86_64_got32(),
            RelocationType::Plt32 => elf::r_x86_64_plt32(),
            RelocationType::Copy => elf::r_x86_64_copy(),
            RelocationType::GlobDat => elf::r_x86_64_glob_dat(),
            RelocationType::JumpSlot => elf::r_x86_64_jump_slot(),
            RelocationType::Relative => elf::r_x86_64_relative(),
            RelocationType::GotPcRel => elf::r_x86_64_gotpcrel(),
            RelocationType::R32 => elf::r_x86_64_32(),
            RelocationType::R32S => elf::r_x86_64_32s(),
            RelocationType::R16 => elf::r_x86_64_16(),
            RelocationType::Pc16 => elf::r_x86_64_pc16(),
            RelocationType::R8 => elf::r_x86_64_8(),
            RelocationType::Pc8 => elf::r_x86_64_pc8(),
            RelocationType::DtpMod64 => elf::r_x86_64_dtpmod64(),
            RelocationType::DtpOff64 => elf::r_x86_64_dtpoff64(),
            RelocationType::TpOff64 => elf::r_x86_64_tpoff64(),
            RelocationType::TlsGd => elf::r_x86_64_tlsgd(),
            RelocationType::TlsLd => elf::r_x86_64_tlsld(),
            RelocationType::DtpOff32 => elf::r_x86_64_dtpoff32(),
            RelocationType::GotTpOff => elf::r_x86_64_gottpoff(),
            RelocationType::TpOff32 => elf::r_x86_64_tpoff32(),
            RelocationType::Pc64 => elf::r_x86_64_pc64(),
            RelocationType::GotOff64 => elf::r_x86_64_gotoff64(),
            RelocationType::GotPc32 => elf::r_x86_64_gotpc32(),
            RelocationType::Got64 => elf::r_x86_64_got64(),
            RelocationType::GotPcRel64 => elf::r_x86_64_gotpcrel64(),
            RelocationType::GotPc64 => elf::r_x86_64_gotpc64(),
            RelocationType::GotPlt64 => elf::r_x86_64_gotplt64(),
            RelocationType::PltOff64 => elf::r_x86_64_pltoff64(),
            RelocationType::Size32 => elf::r_x86_64_size32(),
            RelocationType::Size64 => elf::r_x86_64_size64(),
            RelocationType::GotPc32TlsDesc => elf::r_x86_64_gotpc32_tlsdesc(),
            RelocationType::TlsDescCall => elf::r_x86_64_tlsdesc_call(),
            RelocationType::TlsDesc => elf::r_x86_64_tlsdesc(),
            RelocationType::IRelative => elf::r_x86_64_irelative(),
            RelocationType::Relative64 => elf::r_x86_64_relative64(),
            RelocationType::GotPcRelX => elf::r_x86_64_gotpcrelx(),
            RelocationType::RexGotPcRelX => elf::r_x86_64_rex_gotpcrelx(),
        }
    }

    /// The mnemonic of this type, as diagnostics print it.
    pub fn name(self) -> (s: &'static str)
        ensures
            s@ == self.spec_name(),
    {
        match self {
            RelocationType::NoReloc => "R_X86_64_NONE",
            RelocationType::R64 => "R_X86_64_64",
            RelocationType::Pc32 => "R_X86_64_PC32",
            RelocationType::Got32 => "R_X86_64_GOT32",
            RelocationType::Plt32 => "R_X86_64_PLT32",
            RelocationType::Copy => "R_X86_64_COPY",
            RelocationType::GlobDat => "R_X86_64_GLOB_DAT",
            RelocationType::JumpSlot => "R_X86_64_JUMP_SLOT",
            RelocationType::Relative => "R_X86_64_RELATIVE",
            RelocationType::GotPcRel => "R_X86_64_GOTPCREL",
            RelocationType::R32 => "R_X86_64_32",
            RelocationType::R32S => "R_X86_64_32S",
            RelocationType::R16 => "R_X86_64_16",
            RelocationType::Pc16 => "R_X86_64_PC16",
            RelocationType::R8 => "R_X86_64_8",
            RelocationType::Pc8 => "R_X86_64_PC8",
            RelocationType::DtpMod64 => "R_X86_64_DTPMOD64",
            RelocationType::DtpOff64 => "R_X86_64_DTPOFF64",
            RelocationType::TpOff64 => "R_X86_64_TPOFF64",
            RelocationType::TlsGd => "R_X86_64_TLSGD",
            RelocationType::TlsLd => "R_X86_64_TLSLD",
            RelocationType::DtpOff32 => "R_X86_64_DTPOFF32",
            RelocationType::GotTpOff => "R_X86_64_GOTTPOFF",
            RelocationType::TpOff32 => "R_X86_64_TPOFF32",
            RelocationType::Pc64 => "R_X86_64_PC64",
            RelocationType::GotOff64 => "R_X86_64_GOTOFF64",
            RelocationType::GotPc32 => "R_X86_64_GOTPC32",
            RelocationType::Got64 => "R_X86_64_GOT64",
            RelocationType::GotPcRel64 => "R_X86_64_GOTPCREL64",
            RelocationType::GotPc64 => "R_X86_64_GOTPC64",
            RelocationType::GotPlt64 => "R_X86_64_GOTPLT64",
            RelocationType::PltOff64 => "R_X86_64_PLTOFF64",
            RelocationType::Size32 => "R_X86_64_SIZE32",
            RelocationType::Size64 => "R_X86_64_SIZE64",
            RelocationType::GotPc32TlsDesc => "R_X86_64_GOTPC32_TLSDESC",
            RelocationType::TlsDescCall => "R_X86_64_TLSDESC_CALL",
            RelocationType::TlsDesc => "R_X86_64_TLSDESC",
            RelocationType::IRelative => "R_X86_64_IRELATIVE",
            RelocationType::Relative64 => "R_X86_64_RELATIVE64",
            RelocationType::GotPcRelX => "R_X86_64_GOTPCRELX",
            RelocationType::RexGotPcRelX => "R_X86_64_REX_GOTPCRELX",
        }
    }
}

/// Decoding undoes encoding, and a number decodes to the one type that
/// encodes to it.
pub proof fn lemma_raw_round_trip(t: RelocationType, r_type: u32)
    ensures
        RelocationType::of_raw(t.spec_raw()) == Some(t),
        RelocationType::of_raw(r_type) == Some(t) ==> t.spec_raw() == r_type,
{
}

/// How a relocation arrives at the value that it writes.
#[derive(Clone, Copy, Debug, PartialEq, Eq, Structural)]
pub enum RelocationKind {
    /// The address of the symbol.
    Absolute,
    /// The address of the symbol, relative to the place that is written.
    Relative,
    /// The address of the symbol, relative to the start of the global offset
    /// table.
    SymRelGotBase,
    /// The address of the symbol's table entry, relative to the start of the
    /// global offset table.
    GotRelGotBase,
    /// The address of the symbol's linkage stub, relative to the start of the
    /// global offset table.
    PltRelGotBase,
    /// The address of the symbol's linkage stub, relative to the place.
    PltRelative,
    /// The address of the symbol's table entry, relative to the place.
    GotRelative,
    /// The table entry pair of a general-dynamic thread-local symbol,
    /// relative to the place.
    TlsGd,
    /// The table entry pair of the module's thread-local block, relative to
    /// the place.
    TlsLd,
    /// The offset of a thread-local symbol in its module's block.
    DtpOff,
    /// The table entry that holds a thread-local symbol's offset from the
    /// thread pointer, relative to the place.
    GotTpOff,
    /// The offset of a thread-local symbol from the thread pointer.
    TpOff,
    /// The table entry of a thread-local descriptor, relative to the place.
    TlsDesc,
    /// The call through a thread-local descriptor: nothing is written.
    TlsDescCall,
    /// Nothing is written.
    NoRelocation,
}

/// What the linker needs to know of a relocation type in order to apply it.
#[derive(Clone, Copy, Debug, PartialEq, Eq)]
pub struct RelocationKindInfo {
    /// How the value is arrived at.
    pub kind: RelocationKind,
    /// How many bytes the value takes at the place.
    pub size: usize,
    /// The bits of the value that are kept, where not all are. No x86-64
    /// relocation masks its value.
    pub mask: Option<u64>,
}

impl RelocationType {
    /// The table of the relocation types that the linker applies: how each
    /// finds its value and how many bytes it writes. The types that only a
    /// dynamic loader applies, and the size relocations, are not in it.
    pub open spec fn spec_kind_and_size(self) -> Option<(RelocationKind, usize)> {
        match self {
            RelocationType::R64 => Some((RelocationKind::Absolute, 8usize)),
            RelocationType::Pc32 => Some((RelocationKind::Relative, 4usize)),
            RelocationType::Pc64 => Some((RelocationKind::Relative, 8usize)),
            RelocationType::Got32 => Some((RelocationKind::GotRelGotBase, 4usize)),
            RelocationType::Got64 => Some((RelocationKind::GotRelGotBase, 8usize)),
            RelocationType::GotOff64 => Some((RelocationKind::SymRelGotBase, 8usize)),
            RelocationType::Plt32 => Some((RelocationKind::PltRelative, 4usize)),
            RelocationType::PltOff64 => Some((RelocationKind::PltRelGotBase, 8usize)),
            RelocationType::GotPcRel => Some((RelocationKind::GotRelative, 4usize)),
            RelocationType::GotPc64 => Some((RelocationKind::Relative, 8usize)),
            RelocationType::GotPc32 => Some((RelocationKind::Relative, 4usize)),
            RelocationType::R32 | RelocationType::R32S => Some(
                (RelocationKind::Absolute, 4usize),
            ),
            RelocationType::R16 => Some((RelocationKind::Absolute, 2usize)),
            RelocationType::Pc16 => Some((RelocationKind::Relative, 2usize)),
            RelocationType::R8 => Some((RelocationKind::Absolute, 1usize)),
            RelocationType::Pc8 => Some((RelocationKind::Relative, 1usize)),
            RelocationType::TlsGd => Some((RelocationKind::TlsGd, 4usize)),
            RelocationType::TlsLd => Some((RelocationKind::TlsLd, 4usize)),
            RelocationType::DtpOff32 => Some((RelocationKind::DtpOff, 4usize)),
            RelocationType::DtpOff64 => Some((RelocationKind::DtpOff, 8usize)),
            RelocationType::GotTpOff => Some((RelocationKind::GotTpOff, 4usize)),
            RelocationType::GotPcRelX | RelocationType::RexGotPcRelX => Some(
                (RelocationKind::GotRelative, 4usize),
            ),
            RelocationType::TpOff32 => Some((RelocationKind::TpOff, 4usize)),
            RelocationType::GotPc32TlsDesc => Some((RelocationKind::TlsDesc, 4usize)),
            RelocationType::TlsDescCall => Some((RelocationKind::TlsDescCall, 0usize)),
            RelocationType::NoReloc => Some((RelocationKind::NoRelocation, 0usize)),
            _ => None,
        }
    }

    /// The table entry of this type as the linker carries it: no x86-64
    /// relocation has a mask.
    pub open spec fn spec_info(self) -> Option<RelocationKindInfo> {
        match self.spec_kind_and_size() {
            Some((kind, size)) => Some(RelocationKindInfo { kind, size, mask: None }),
            None => None,
        }
    }

    /// Looks this type up in the table of the relocation types that the
    /// linker applies.
    pub fn kind_and_size(self) -> (r: Option<(RelocationKind, usize)>)
        ensures
            r == self.spec_kind_and_size(),
    {
        match self {
            RelocationType::R64 => Some((RelocationKind::Absolute, 8)),
            RelocationType::Pc32 => Some((RelocationKind::Relative, 4)),
            RelocationType::Pc64 => Some((RelocationKind::Relative, 8)),
            RelocationType::Got32 => Some((RelocationKind::GotRelGotBase, 4)),
            RelocationType::Got64 => Some((RelocationKind::GotRelGotBase, 8)),
            RelocationType::GotOff64 => Some((RelocationKind::SymRelGotBase, 8)),
            RelocationType::Plt32 => Some((RelocationKind::PltRelative, 4)),
            RelocationType::PltOff64 => Some((RelocationKind::PltRelGotBase, 8)),
            RelocationType::GotPcRel => Some((RelocationKind::GotRelative, 4)),
            // Both are only ever asked for the global offset table's own
            // symbol, so an ordinary relative relocation does their work.
            RelocationType::GotPc64 => Some((RelocationKind::Relative, 8)),
            RelocationType::GotPc32 => Some((RelocationKind::Relative, 4)),
            RelocationType::R32 | RelocationType::R32S => Some((RelocationKind::Absolute, 4)),
            RelocationType::R16 => Some((RelocationKind::Absolute, 2)),
            RelocationType::Pc16 => Some((RelocationKind::Relative, 2)),
            RelocationType::R8 => Some((RelocationKind::Absolute, 1)),
            RelocationType::Pc8 => Some((RelocationKind::Relative, 1)),
            RelocationType::TlsGd => Some((RelocationKind::TlsGd, 4)),
            RelocationType::TlsLd => Some((RelocationKind::TlsLd, 4)),
            RelocationType::DtpOff32 => Some((RelocationKind::DtpOff, 4)),
            RelocationType::DtpOff64 => Some((RelocationKind::DtpOff, 8)),
            RelocationType::GotTpOff => Some((RelocationKind::GotTpOff, 4)),
            RelocationType::GotPcRelX | RelocationType::RexGotPcRelX => Some(
                (RelocationKind::GotRelative, 4),
            ),
            RelocationType::TpOff32 => Some((RelocationKind::TpOff, 4)),
            RelocationType::GotPc32TlsDesc => Some((RelocationKind::TlsDesc, 4)),
            RelocationType::TlsDescCall => Some((RelocationKind::TlsDescCall, 0)),
            RelocationType::NoReloc => Some((RelocationKind::NoRelocation, 0)),
            _ => None,
        }
    }
}

/// What the number `r_type` has in the table of relocation types, if it is a
/// relocation type and the table holds it.
pub open spec fn spec_relocation_kind_and_size(r_type: u32) -> Option<(RelocationKind, usize)> {
    match RelocationType::of_raw(r_type) {
        Some(t) => t.spec_kind_and_size(),
        None => None,
    }
}

/// Decodes `r_type` and looks it up in the table of relocation types.
pub fn relocation_kind_and_size(r_type: u32) -> (r: Option<(RelocationKind, usize)>)
    ensures
        r == spec_relocation_kind_and_size(r_type),
{
    match RelocationType::from_raw(r_type) {
        Some(t) => t.kind_and_size(),
        None => None,
    }
}

/// The relocations that the linker leaves to the dynamic loader.
#[derive(Clone, Copy, Debug, PartialEq, Eq, Structural)]
pub enum DynamicRelocationKind {
    /// Copy the symbol's data into the executable.
    Copy,
    /// Call a resolver and store the address that it returns.
    Irelative,
    /// Store the number of the module that holds a thread-local symbol.
    DtpMod,
    /// Store the offset of a thread-local symbol in its module's block.
    DtpOff,
    /// Store the offset of a thread-local symbol from the thread pointer.
    TpOff,
    /// Store an address adjusted by the load base.
    Relative,
    /// Store the address of a symbol that the loader looks up.
    DynamicSymbol,
}

impl DynamicRelocationKind {
    /// The x86-64 relocation type that asks the loader for this.
    pub open spec fn spec_x86_64_type(self) -> RelocationType {
        match self {
            DynamicRelocationKind::Copy => RelocationType::Copy,
            DynamicRelocationKind::Irelative => RelocationType::IRelative,
            DynamicRelocationKind::DtpMod => RelocationType::DtpMod64,
            DynamicRelocationKind::DtpOff => RelocationType::DtpOff64,
            DynamicRelocationKind::TpOff => RelocationType::TpOff64,
            DynamicRelocationKind::Relative => RelocationType::Relative,
            DynamicRelocationKind::DynamicSymbol => RelocationType::GlobDat,
        }
    }

    /// The x86-64 relocation type that asks the loader for this.
    #[verifier::when_used_as_spec(spec_x86_64_type)]
    pub fn x86_64_type(self) -> (t: RelocationType)
        ensures
            t == self.spec_x86_64_type(),
    {
        match self {
            DynamicRelocationKind::Copy => RelocationType::Copy,
            DynamicRelocationKind::Irelative => RelocationType::IRelative,
            DynamicRelocationKind::DtpMod => RelocationType::DtpMod64,
            DynamicRelocationKind::DtpOff => RelocationType::DtpOff64,
            DynamicRelocationKind::TpOff => RelocationType::TpOff64,
            DynamicRelocationKind::Relative => RelocationType::Relative,
            DynamicRelocationKind::DynamicSymbol => RelocationType::GlobDat,
        }
    }
}

} // verus!
