//! What the linker asks of x86-64 as an architecture: its number in the ELF
//! header, its relocation types, and the stub of its procedure linkage
//! table.

use crate::bytes::{
    i32_from_le_bytes, i32_to_le_bytes, le_bytes_of_i32, lemma_i32_le_round_trip, lemma_overwrite,
    overwrite, write_at,
};
use crate::elf;
use crate::error::Error;
use crate::relocation::{
    relocation_kind_and_size, spec_relocation_kind_and_size, DynamicRelocationKind,
    RelocationKindInfo,
};
use crate::text::{spec_rel_type_to_string, x86_64_rel_type_to_string};
use vstd::prelude::*;

verus! {

/// The length of one stub of the procedure linkage table.
pub const PLT_ENTRY_SIZE: u64 = 16;

/// A stub of the procedure linkage table whose jump has the displacement
/// zero: `endbr64`, then `bnd jmp *0(%rip)`, then `nopl 0(%rax,%rax,1)`.
pub open spec fn plt_entry_template() -> Seq<u8> {
    seq![
        0xf3u8, 0x0f, 0x1e, 0xfa,
        0xf2, 0xff, 0x25, 0, 0, 0, 0,
        0x0f, 0x1f, 0x44, 0, 0,
    ]
}

/// How far the global offset table entry at `got_address` lies from the end
/// of the jump in the stub at `plt_address`. The jump ends eleven bytes into
/// the stub, and its displacement counts from there.
pub open spec fn plt_displacement(got_address: u64, plt_address: u64) -> int {
    got_address - (plt_address + 0xb)
}

/// Whether `value` is a signed 32-bit number.
pub open spec fn fits_i32(value: int) -> bool {
    -0x8000_0000 <= value < 0x8000_0000
}

/// The stub at `plt_address` that jumps through the global offset table
/// entry at `got_address`.
pub open spec fn plt_entry(got_address: u64, plt_address: u64) -> Seq<u8>
    recommends
        fits_i32(plt_displacement(got_address, plt_address)),
{
    overwrite(plt_entry_template(), 7, i32_to_le_bytes(plt_displacement(got_address, plt_address)))
}

/// What the table of relocation types gives for the number `r_type`, or the
/// error that says that it gives nothing.
pub open spec fn spec_relocation_from_raw(r_type: u32) -> Result<RelocationKindInfo, Error> {
    match spec_relocation_kind_and_size(r_type) {
        Some((kind, size)) => Ok(RelocationKindInfo { kind, size, mask: None }),
        None => Err(Error::UnsupportedRelocation(r_type)),
    }
}

/// The x86-64 architecture.
#[derive(Clone, Copy, Debug)]
pub struct X86_64;

impl X86_64 {
    /// The machine number of x86-64 in an ELF header: `EM_X86_64`.
    pub fn elf_header_arch_magic() -> (magic: u16)
        ensures
            magic == 0x3e,
    {
        elf::em_x86_64()
    }

    /// How a relocation of the type with the number `r_type` writes its
    /// value.
    pub fn relocation_from_raw(r_type: u32) -> (info: Result<RelocationKindInfo, Error>)
        ensures
            info == spec_relocation_from_raw(r_type),
    {
        match relocation_kind_and_size(r_type) {
            Some((kind, size)) => Ok(RelocationKindInfo { kind, size, mask: None }),
            None => Err(Error::UnsupportedRelocation(r_type)),
        }
    }

    /// The number of the relocation type that asks the dynamic loader for
    /// `relocation`.
    pub fn get_dynamic_relocation_type(relocation: DynamicRelocationKind) -> (r_type: u32)
        ensures
            r_type == relocation.spec_x86_64_type().spec_raw(),
    {
        relocation.x86_64_type().raw()
    }

    /// Writes the stub at `plt_address` that jumps through the global
    /// offset table entry at `got_address`.
    ///
    /// The stub is written even where the entry is out of the jump's reach:
    /// its displacement is then zero, and the error says so.
    pub fn write_plt_entry(
        plt_entry: &mut [u8],
        got_address: u64,
        plt_address: u64,
    ) -> (done: Result<(), Error>)
        requires
            old(plt_entry)@.len() == PLT_ENTRY_SIZE,
        ensures
            done is Ok <==> fits_i32(plt_displacement(got_address, plt_address)),
            done is Ok ==> final(plt_entry)@ == self::plt_entry(got_address, plt_address),
            done is Ok ==> i32_from_le_bytes(final(plt_entry)@.subrange(7, 11)) + (plt_address
                + 0xb) == got_address,
            done is Err ==> done == Err::<(), Error>(Error::PltGotTooFar),
            done is Err ==> final(plt_entry)@ == plt_entry_template(),
            final(plt_entry)@.len() == PLT_ENTRY_SIZE,
    {
        let template: [u8; 16] = [
            0xf3, 0x0f, 0x1e, 0xfa,
            0xf2, 0xff, 0x25, 0, 0, 0, 0,
            0x0f, 0x1f, 0x44, 0, 0,
        ];
        write_at(plt_entry, 0, template.as_slice());
        assert(plt_entry@ =~= plt_entry_template());
        let distance: i128 = got_address as i128 - (plt_address as i128 + 0xb);
        if distance < -0x8000_0000 || distance > 0x7fff_ffff {
            return Err(Error::PltGotTooFar);
        }
        let displacement = le_bytes_of_i32(distance as i32);
        write_at(plt_entry, 7, displacement.as_slice());
        proof {
            lemma_i32_le_round_trip(distance as int);
            lemma_overwrite(plt_entry_template(), 7, i32_to_le_bytes(distance as int));
            assert(plt_entry@.subrange(7, 11) =~= i32_to_le_bytes(distance as int));
        }
        Ok(())
    }

    /// What diagnostics call the relocation type with the number `r_type`.
    pub fn rel_type_to_string(r_type: u32) -> (name: String)
        ensures
            name@ == spec_rel_type_to_string(r_type),
    {
        x86_64_rel_type_to_string(r_type)
    }
}

/// Where the global offset table entry is in reach of the stub's jump, the
/// displacement in the stub, read back as a signed 32-bit number and added
/// to the address at which the jump ends, is the address of the entry.
pub proof fn lemma_plt_displacement_round_trip(got_address: u64, plt_address: u64)
    requires
        fits_i32(plt_displacement(got_address, plt_address)),
    ensures
        plt_entry(got_address, plt_address).len() == PLT_ENTRY_SIZE,
        i32_from_le_bytes(plt_entry(got_address, plt_address).subrange(7, 11)) + (plt_address
            + 0xb) == got_address,
        forall|i: int|
            0 <= i < 16 && !(7 <= i < 11) ==> plt_entry(got_address, plt_address)[i]
                == plt_entry_template()[i],
{
    let distance = plt_displacement(got_address, plt_address);
    lemma_i32_le_round_trip(distance);
    lemma_overwrite(plt_entry_template(), 7, i32_to_le_bytes(distance));
    assert(plt_entry(got_address, plt_address).subrange(7, 11) =~= i32_to_le_bytes(distance));
}

} // verus!
