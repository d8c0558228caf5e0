//! The ELF numbers that this library handles, taken from the `object` crate.
//!
//! Every function here reads one constant of `object::elf` and is trusted to
//! return the number that its contract gives: the bodies are not verified.
//! The numbers are those of the x86-64 processor supplement of the ELF
//! standard. Executable code takes relocation types, the machine number
//! and the section flag from here and from nowhere else; the contracts
//! speak of the numbers themselves.

use vstd::prelude::*;

verus! {

/// Reads `object::elf::EM_X86_64`, the machine number of x86-64 in an ELF
/// header. Trusted: it is 62.
#[verifier::external_body]
pub(crate) fn em_x86_64() -> (m: u16)
    ensures
        m == 62,
{
    object::elf::EM_X86_64
}

/// Reads `object::elf::SHF_EXECINSTR`, the section flag of executable code.
/// Trusted: it is bit 2, that is 4.
#[verifier::external_body]
pub(crate) fn shf_execinstr() -> (f: u32)
    ensures
        f == 4,
{
    object::elf::SHF_EXECINSTR
}

/// Reads `object::elf::R_X86_64_NONE`, the relocation type for
/// no relocation at all. Trusted: it is 0.
#[verifier::external_body]
pub(crate) fn r_x86_64_none() -> (r: u32)
    ensures
        r == 0,
{
    object::elf::R_X86_64_NONE
}

/// Reads `object::elf::R_X86_64_64`, the relocation type for
/// the symbol's 64-bit address. Trusted: it is 1.
#[verifier::external_body]
pub(crate) fn r_x86_64_64() -> (r: u32)
    ensures
        r == 1,
{
    object::elf::R_X86_64_64
}

/// Reads `object::elf::R_X86_64_PC32`, the relocation type for
/// a signed 32-bit offset from the place to the symbol. Trusted: it is 2.
#[verifier::external_body]
pub(crate) fn r_x86_64_pc32() -> (r: u32)
    ensures
        r == 2,
{
    object::elf::R_X86_64_PC32
}

/// Reads `object::elf::R_X86_64_GOT32`, the relocation type for
/// a 32-bit offset of the symbol's entry in the global offset table. Trusted:
/// it is 3.
#[verifier::external_body]
pub(crate) fn r_x86_64_got32() -> (r: u32)
    ensures
        r == 3,
{
    object::elf::R_X86_64_GOT32
}

/// Reads `object::elf::R_X86_64_PLT32`, the relocation type for
/// a signed 32-bit offset from the place to the symbol's linkage stub. Trusted:
/// it is 4.
#[verifier::external_body]
pub(crate) fn r_x86_64_plt32() -> (r: u32)
    ensures
        r == 4,
{
    object::elf::R_X86_64_PLT32
}

/// Reads `object::elf::R_X86_64_COPY`, the relocation type for
/// a copy of the symbol made when the program is loaded. Trusted: it is 5.
#[verifier::external_body]
pub(crate) fn r_x86_64_copy() -> (r: u32)
    ensures
        r == 5,
{
    object::elf::R_X86_64_COPY
}

/// Reads `object::elf::R_X86_64_GLOB_DAT`, the relocation type for
/// the filling of a global offset table entry with the symbol's address.
/// Trusted: it is 6.
#[verifier::external_body]
pub(crate) fn r_x86_64_glob_dat() -> (r: u32)
    ensures
        r == 6,
{
    object::elf::R_X86_64_GLOB_DAT
}

/// Reads `object::elf::R_X86_64_JUMP_SLOT`, the relocation type for
/// the filling of a linkage table slot. Trusted: it is 7.
#[verifier::external_body]
pub(crate) fn r_x86_64_jump_slot() -> (r: u32)
    ensures
        r == 7,
{
    object::elf::R_X86_64_JUMP_SLOT
}

/// Reads `object::elf::R_X86_64_RELATIVE`, the relocation type for
/// an address adjusted by the load base. Trusted: it is 8.
#[verifier::external_body]
pub(crate) fn r_x86_64_relative() -> (r: u32)
    ensures
        r == 8,
{
    object::elf::R_X86_64_RELATIVE
}

/// Reads `object::elf::R_X86_64_GOTPCREL`, the relocation type for
/// a signed 32-bit offset from the place to the symbol's table entry. Trusted:
/// it is 9.
#[verifier::external_body]
pub(crate) fn r_x86_64_gotpcrel() -> (r: u32)
    ensures
        r == 9,
{
    object::elf::R_X86_64_GOTPCREL
}

/// Reads `object::elf::R_X86_64_32`, the relocation type for
/// the symbol's address as 32 bits, zero extended. Trusted: it is 10.
#[verifier::external_body]
pub(crate) fn r_x86_64_32() -> (r: u32)
    ensures
        r == 10,
{
    object::elf::R_X86_64_32
}

/// Reads `object::elf::R_X86_64_32S`, the relocation type for
/// the symbol's address as 32 bits, sign extended. Trusted: it is 11.
#[verifier::external_body]
pub(crate) fn r_x86_64_32s() -> (r: u32)
    ensures
        r == 11,
{
    object::elf::R_X86_64_32S
}

/// Reads `object::elf::R_X86_64_16`, the relocation type for
/// the symbol's address as 16 bits, zero extended. Trusted: it is 12.
#[verifier::external_body]
pub(crate) fn r_x86_64_16() -> (r: u32)
    ensures
        r == 12,
{
    object::elf::R_X86_64_16
}

/// Reads `object::elf::R_X86_64_PC16`, the relocation type for
/// a signed 16-bit offset from the place to the symbol. Trusted: it is 13.
#[verifier::external_body]
pub(crate) fn r_x86_64_pc16() -> (r: u32)
    ensures
        r == 13,
{
    object::elf::R_X86_64_PC16
}

/// Reads `object::elf::R_X86_64_8`, the relocation type for
/// the symbol's address as 8 bits, sign extended. Trusted: it is 14.
#[verifier::external_body]
pub(crate) fn r_x86_64_8() -> (r: u32)
    ensures
        r == 14,
{
    object::elf::R_X86_64_8
}

/// Reads `object::elf::R_X86_64_PC8`, the relocation type for
/// a signed 8-bit offset from the place to the symbol. Trusted: it is 15.
#[verifier::external_body]
pub(crate) fn r_x86_64_pc8() -> (r: u32)
    ensures
        r == 15,
{
    object::elf::R_X86_64_PC8
}

/// Reads `object::elf::R_X86_64_DTPMOD64`, the relocation type for
/// the number of the module that holds a thread-local symbol. Trusted: it is
/// 16.
#[verifier::external_body]
pub(crate) fn r_x86_64_dtpmod64() -> (r: u32)
    ensures
        r == 16,
{
    object::elf::R_X86_64_DTPMOD64
}

/// Reads `object::elf::R_X86_64_DTPOFF64`, the relocation type for
/// a 64-bit offset in the module's thread-local block. Trusted: it is 17.
#[verifier::external_body]
pub(crate) fn r_x86_64_dtpoff64() -> (r: u32)
    ensures
        r == 17,
{
    object::elf::R_X86_64_DTPOFF64
}

/// Reads `object::elf::R_X86_64_TPOFF64`, the relocation type for
/// a 64-bit offset in the initial thread-local block. Trusted: it is 18.
#[verifier::external_body]
pub(crate) fn r_x86_64_tpoff64() -> (r: u32)
    ensures
        r == 18,
{
    object::elf::R_X86_64_TPOFF64
}

/// Reads `object::elf::R_X86_64_TLSGD`, the relocation type for
/// a signed 32-bit offset to the table entry pair of a general-dynamic symbol.
/// Trusted: it is 19.
#[verifier::external_body]
pub(crate) fn r_x86_64_tlsgd() -> (r: u32)
    ensures
        r == 19,
{
    object::elf::R_X86_64_TLSGD
}

/// Reads `object::elf::R_X86_64_TLSLD`, the relocation type for
/// a signed 32-bit offset to the table entry pair of a local-dynamic symbol.
/// Trusted: it is 20.
#[verifier::external_body]
pub(crate) fn r_x86_64_tlsld() -> (r: u32)
    ensures
        r == 20,
{
    object::elf::R_X86_64_TLSLD
}

/// Reads `object::elf::R_X86_64_DTPOFF32`, the relocation type for
/// a 32-bit offset in the module's thread-local block. Trusted: it is 21.
#[verifier::external_body]
pub(crate) fn r_x86_64_dtpoff32() -> (r: u32)
    ensures
        r == 21,
{
    object::elf::R_X86_64_DTPOFF32
}

/// Reads `object::elf::R_X86_64_GOTTPOFF`, the relocation type for
/// a signed 32-bit offset to the table entry of an initial-exec symbol.
/// Trusted: it is 22.
#[verifier::external_body]
pub(crate) fn r_x86_64_gottpoff() -> (r: u32)
    ensures
        r == 22,
{
    object::elf::R_X86_64_GOTTPOFF
}

/// Reads `object::elf::R_X86_64_TPOFF32`, the relocation type for
/// a 32-bit offset in the initial thread-local block. Trusted: it is 23.
#[verifier::external_body]
pub(crate) fn r_x86_64_tpoff32() -> (r: u32)
    ensures
        r == 23,
{
    object::elf::R_X86_64_TPOFF32
}

/// Reads `object::elf::R_X86_64_PC64`, the relocation type for
/// a 64-bit offset from the place to the symbol. Trusted: it is 24.
#[verifier::external_body]
pub(crate) fn r_x86_64_pc64() -> (r: u32)
    ensures
        r == 24,
{
    object::elf::R_X86_64_PC64
}

/// Reads `object::elf::R_X86_64_GOTOFF64`, the relocation type for
/// a 64-bit offset from the global offset table to the symbol. Trusted: it is
/// 25.
#[verifier::external_body]
pub(crate) fn r_x86_64_gotoff64() -> (r: u32)
    ensures
        r == 25,
{
    object::elf::R_X86_64_GOTOFF64
}

/// Reads `object::elf::R_X86_64_GOTPC32`, the relocation type for
/// a signed 32-bit offset from the place to the global offset table. Trusted:
/// it is 26.
#[verifier::external_body]
pub(crate) fn r_x86_64_gotpc32() -> (r: u32)
    ensures
        r == 26,
{
    object::elf::R_X86_64_GOTPC32
}

/// Reads `object::elf::R_X86_64_GOT64`, the relocation type for
/// a 64-bit offset of the symbol's entry in the global offset table. Trusted:
/// it is 27.
#[verifier::external_body]
pub(crate) fn r_x86_64_got64() -> (r: u32)
    ensures
        r == 27,
{
    object::elf::R_X86_64_GOT64
}

/// Reads `object::elf::R_X86_64_GOTPCREL64`, the relocation type for
/// a 64-bit offset from the place to the symbol's table entry. Trusted: it is
/// 28.
#[verifier::external_body]
pub(crate) fn r_x86_64_gotpcrel64() -> (r: u32)
    ensures
        r == 28,
{
    object::elf::R_X86_64_GOTPCREL64
}

/// Reads `object::elf::R_X86_64_GOTPC64`, the relocation type for
/// a 64-bit offset from the place to the global offset table. Trusted: it is
/// 29.
#[verifier::external_body]
pub(crate) fn r_x86_64_gotpc64() -> (r: u32)
    ensures
        r == 29,
{
    object::elf::R_X86_64_GOTPC64
}

/// Reads `object::elf::R_X86_64_GOTPLT64`, the relocation type for
/// a 64-bit table entry offset that also asks for a linkage stub. Trusted: it
/// is 30.
#[verifier::external_body]
pub(crate) fn r_x86_64_gotplt64() -> (r: u32)
    ensures
        r == 30,
{
    object::elf::R_X86_64_GOTPLT64
}

/// Reads `object::elf::R_X86_64_PLTOFF64`, the relocation type for
/// a 64-bit offset from the global offset table to the symbol's linkage stub.
/// Trusted: it is 31.
#[verifier::external_body]
pub(crate) fn r_x86_64_pltoff64() -> (r: u32)
    ensures
        r == 31,
{
    object::elf::R_X86_64_PLTOFF64
}

/// Reads `object::elf::R_X86_64_SIZE32`, the relocation type for
/// the symbol's size plus a 32-bit addend. Trusted: it is 32.
#[verifier::external_body]
pub(crate) fn r_x86_64_size32() -> (r: u32)
    ensures
        r == 32,
{
    object::elf::R_X86_64_SIZE32
}

/// Reads `object::elf::R_X86_64_SIZE64`, the relocation type for
/// the symbol's size plus a 64-bit addend. Trusted: it is 33.
#[verifier::external_body]
pub(crate) fn r_x86_64_size64() -> (r: u32)
    ensures
        r == 33,
{
    object::elf::R_X86_64_SIZE64
}

/// Reads `object::elf::R_X86_64_GOTPC32_TLSDESC`, the relocation type for
/// a signed 32-bit offset to the table entry of a thread-local descriptor.
/// Trusted: it is 34.
#[verifier::external_body]
pub(crate) fn r_x86_64_gotpc32_tlsdesc() -> (r: u32)
    ensures
        r == 34,
{
    object::elf::R_X86_64_GOTPC32_TLSDESC
}

/// Reads `object::elf::R_X86_64_TLSDESC_CALL`, the relocation type for
/// the marker of a call through a thread-local descriptor. Trusted: it is 35.
#[verifier::external_body]
pub(crate) fn r_x86_64_tlsdesc_call() -> (r: u32)
    ensures
        r == 35,
{
    object::elf::R_X86_64_TLSDESC_CALL
}

/// Reads `object::elf::R_X86_64_TLSDESC`, the relocation type for
/// a thread-local descriptor. Trusted: it is 36.
#[verifier::external_body]
pub(crate) fn r_x86_64_tlsdesc() -> (r: u32)
    ensures
        r == 36,
{
    object::elf::R_X86_64_TLSDESC
}

/// Reads `object::elf::R_X86_64_IRELATIVE`, the relocation type for
/// an address that a resolver function yields at load time. Trusted: it is 37.
#[verifier::external_body]
pub(crate) fn r_x86_64_irelative() -> (r: u32)
    ensures
        r == 37,
{
    object::elf::R_X86_64_IRELATIVE
}

/// Reads `object::elf::R_X86_64_RELATIVE64`, the relocation type for
/// a 64-bit address adjusted by the load base. Trusted: it is 38.
#[verifier::external_body]
pub(crate) fn r_x86_64_relative64() -> (r: u32)
    ensures
        r == 38,
{
    object::elf::R_X86_64_RELATIVE64
}

/// Reads `object::elf::R_X86_64_GOTPCRELX`, the relocation type for
/// a relaxable load through the symbol's table entry, without a REX prefix.
/// Trusted: it is 41.
#[verifier::external_body]
pub(crate) fn r_x86_64_gotpcrelx() -> (r: u32)
    ensures
        r == 41,
{
    object::elf::R_X86_64_GOTPCRELX
}

/// Reads `object::elf::R_X86_64_REX_GOTPCRELX`, the relocation type for
/// a relaxable load through the symbol's table entry, with a REX prefix.
/// Trusted: it is 42.
#[verifier::external_body]
pub(crate) fn r_x86_64_rex_gotpcrelx() -> (r: u32)
    ensures
        r == 42,
{
    object::elf::R_X86_64_REX_GOTPCRELX
}

} // verus!
