//! What holds of every decision, whatever the bytes and the flags.

use crate::bytes::occurs_at;
use crate::decider::{
    can_bypass_got, decide, ifunc_redirection, is_absolute, relaxable, Relaxation, TlsGdForm,
};
use crate::flags::{OutputKind, SectionFlags, ValueFlag, ValueFlags};
use crate::relaxation::tls_ld_is_large;
use crate::relocation::RelocationType;
use vstd::prelude::*;

verus! {

/// A reference to an indirect function is never relaxed. A relative one,
/// `R_X86_64_PC32`, is sent through the function's linkage stub, whatever
/// the other flags, the section, the output and the bytes are; any other
/// is left as it was found.
pub proof fn lemma_ifunc_is_only_redirected(
    relocation_kind: u32,
    bytes: Seq<u8>,
    offset: int,
    value_flags: ValueFlags,
    output_kind: OutputKind,
    section_flags: SectionFlags,
)
    requires
        value_flags@.contains(ValueFlag::Ifunc),
    ensures
        relocation_kind == RelocationType::Pc32.spec_raw() ==> decide(
            relocation_kind,
            bytes,
            offset,
            value_flags,
            output_kind,
            section_flags,
        ) == ifunc_redirection(),
        relocation_kind != RelocationType::Pc32.spec_raw() ==> decide(
            relocation_kind,
            bytes,
            offset,
            value_flags,
            output_kind,
            section_flags,
        ) is None,
        ifunc_redirection() matches Some(redirection) && redirection.kind is NoOp
            && RelocationType::Plt32.spec_info() == Some(redirection.rel_info),
{
}

/// Outside of a section that holds machine instructions, nothing is
/// relaxed, unless the symbol is an indirect function.
pub proof fn lemma_only_code_is_relaxed(
    relocation_kind: u32,
    bytes: Seq<u8>,
    offset: int,
    value_flags: ValueFlags,
    output_kind: OutputKind,
    section_flags: SectionFlags,
)
    requires
        !section_flags.is_executable(),
        !value_flags@.contains(ValueFlag::Ifunc),
    ensures
        decide(relocation_kind, bytes, offset, value_flags, output_kind, section_flags) is None,
{
}

/// Bytes, and a place in them, for which a relocation of the type
/// `relocation` is relaxed if it is relaxed for any.
pub open spec fn relaxable_sample(relocation: RelocationType, value_flags: ValueFlags) -> (
    Seq<u8>,
    int,
) {
    match relocation {
        RelocationType::GotPcRelX => if can_bypass_got(value_flags) {
            (seq![0xffu8, 0x15], 2)
        } else {
            (seq![0x8bu8, 0x05], 2)
        },
        RelocationType::TlsGd => (
            seq![0x66u8, 0x48, 0x8d, 0x3d, 0, 0, 0, 0, 0x66, 0x66, 0x48, 0xe8],
            4,
        ),
        RelocationType::TlsLd => (seq![0x48u8, 0x8d, 0x3d], 3),
        _ => (seq![0x48u8, 0x8b, 0x05], 3),
    }
}

/// A relaxation is only decided for where the flags allow one: the symbol
/// is an indirect function, or the section holds machine instructions and
/// the relocation type is one that [`relaxable`] admits for the flags.
pub proof fn lemma_decision_needs_relaxable(
    relocation_kind: u32,
    bytes: Seq<u8>,
    offset: int,
    value_flags: ValueFlags,
    output_kind: OutputKind,
    section_flags: SectionFlags,
)
    requires
        decide(relocation_kind, bytes, offset, value_flags, output_kind, section_flags) is Some,
        !value_flags@.contains(ValueFlag::Ifunc),
    ensures
        section_flags.is_executable(),
        RelocationType::of_raw(relocation_kind) matches Some(relocation) && relaxable(
            relocation,
            value_flags,
            output_kind,
        ),
{
}

/// Where the flags allow a relaxation, there are bytes for which one is
/// decided for: those of [`relaxable_sample`].
pub proof fn lemma_relaxable_is_relaxed_somewhere(
    relocation: RelocationType,
    value_flags: ValueFlags,
    output_kind: OutputKind,
    section_flags: SectionFlags,
)
    requires
        !value_flags@.contains(ValueFlag::Ifunc),
        section_flags.is_executable(),
        relaxable(relocation, value_flags, output_kind),
    ensures
        decide(
            relocation.spec_raw(),
            relaxable_sample(relocation, value_flags).0,
            relaxable_sample(relocation, value_flags).1,
            value_flags,
            output_kind,
            section_flags,
        ) is Some,
{
    let (bytes, offset) = relaxable_sample(relocation, value_flags);
    match relocation {
        RelocationType::GotPcRelX => {
            if can_bypass_got(value_flags) {
                assert(bytes.subrange(0, 2) =~= seq![0xffu8, 0x15]);
                assert(occurs_at(bytes, offset - 2, seq![0xffu8, 0x15]));
            }
        },
        RelocationType::TlsGd => {
            assert(bytes.subrange(0, 4) =~= seq![0x66u8, 0x48, 0x8d, 0x3d]);
            assert(bytes.subrange(8, 12) =~= seq![0x66u8, 0x66, 0x48, 0xe8]);
            assert(occurs_at(bytes, offset - 4, seq![0x66u8, 0x48, 0x8d, 0x3d]));
            assert(occurs_at(bytes, offset + 4, seq![0x66u8, 0x66, 0x48, 0xe8]));
            assert(TlsGdForm::spec_identify(bytes, offset) == Some(TlsGdForm::Regular));
        },
        RelocationType::TlsLd => {
            assert(bytes.subrange(0, 3) =~= seq![0x48u8, 0x8d, 0x3d]);
            assert(occurs_at(bytes, offset - 3, seq![0x48u8, 0x8d, 0x3d]));
        },
        _ => {},
    }
}

/// In an output that may be loaded at any address, no address is known when
/// linking, and a relaxation that rests on nothing but a known address is
/// not decided for. Where the flags admit no relaxation without one, the
/// decision is to leave the relocation as it was found, or, for an indirect
/// function, to redirect it.
///
/// The flags do admit relaxations in such an output: of references to a
/// constant, of references to a symbol that is near, and of thread-local
/// access in a program. By the two lemmas above, the relocations that are
/// left out here are those, and only those, that some bytes relax.
pub proof fn lemma_relocatable_output_is_not_relaxed(
    relocation_kind: u32,
    bytes: Seq<u8>,
    offset: int,
    value_flags: ValueFlags,
    output_kind: OutputKind,
    section_flags: SectionFlags,
)
    requires
        output_kind.spec_is_relocatable(),
        ({
            ||| value_flags@.contains(ValueFlag::Ifunc)
            ||| !section_flags.is_executable()
            ||| RelocationType::of_raw(relocation_kind) is None
            ||| !relaxable(
                RelocationType::of_raw(relocation_kind)->Some_0,
                value_flags,
                output_kind,
            )
        }),
    ensures
        ({
            let decision = decide(
                relocation_kind,
                bytes,
                offset,
                value_flags,
                output_kind,
                section_flags,
            );
            decision is None || (value_flags@.contains(ValueFlag::Ifunc) && relocation_kind
                == RelocationType::Pc32.spec_raw() && decision == ifunc_redirection())
        }),
{
}

/// In an output that may be loaded at any address, whether the symbol's
/// value is an address plays no part in what the flags admit.
pub proof fn lemma_relocatable_output_admits_no_address_form(
    relocation: RelocationType,
    value_flags: ValueFlags,
    output_kind: OutputKind,
)
    requires
        output_kind.spec_is_relocatable(),
    ensures
        relaxable(relocation, value_flags, output_kind) == match relocation {
            RelocationType::RexGotPcRelX | RelocationType::GotPcRelX => is_absolute(value_flags)
                || can_bypass_got(value_flags),
            RelocationType::GotPcRel
            | RelocationType::GotTpOff
            | RelocationType::Plt32
            | RelocationType::PltOff64 => can_bypass_got(value_flags),
            RelocationType::TlsGd | RelocationType::TlsLd => output_kind.spec_is_executable(),
            _ => false,
        },
{
}

/// In an output that may be loaded at any address, the decision does not
/// depend on whether the symbol's value is an address: two sets of flags
/// that differ in that at most lead to the same decision.
pub proof fn lemma_relocatable_output_ignores_address(
    relocation_kind: u32,
    bytes: Seq<u8>,
    offset: int,
    value_flags: ValueFlags,
    other_flags: ValueFlags,
    output_kind: OutputKind,
    section_flags: SectionFlags,
)
    requires
        output_kind.spec_is_relocatable(),
        value_flags@.remove(ValueFlag::Address) == other_flags@.remove(ValueFlag::Address),
    ensures
        decide(relocation_kind, bytes, offset, value_flags, output_kind, section_flags) == decide(
            relocation_kind,
            bytes,
            offset,
            other_flags,
            output_kind,
            section_flags,
        ),
{
    assert forall|flag: ValueFlag| flag != ValueFlag::Address implies value_flags@.contains(flag)
        == other_flags@.contains(flag) by {
        assert(value_flags@.remove(ValueFlag::Address).contains(flag) == value_flags@.contains(
            flag,
        ));
        assert(other_flags@.remove(ValueFlag::Address).contains(flag) == other_flags@.contains(
            flag,
        ));
    }
}

/// The decider has looked at every byte that the rewrite it decides for
/// writes, provided that the relocation's place begins in the section or at
/// its end. The one exception is the rewrite of local-dynamic access, which
/// also writes over the call that follows: it fits exactly where the
/// section reaches to the end of that call.
pub proof fn lemma_decision_fits(
    relocation_kind: u32,
    bytes: Seq<u8>,
    offset: int,
    value_flags: ValueFlags,
    output_kind: OutputKind,
    section_flags: SectionFlags,
    relaxation: Relaxation,
)
    requires
        decide(relocation_kind, bytes, offset, value_flags, output_kind, section_flags) == Some(
            relaxation,
        ),
        0 <= offset <= bytes.len(),
    ensures
        !(relaxation.kind is TlsLdToLocalExec) ==> relaxation.kind.applicable(bytes, offset),
        relaxation.kind is TlsLdToLocalExec ==> (relaxation.kind.applicable(bytes, offset) <==> (
        if tls_ld_is_large(bytes, offset) {
            offset + 19 <= bytes.len()
        } else {
            offset + 9 <= bytes.len()
        })),
{
}

/// Every decision names a relocation type that the linker applies: one of
/// the seven that a relaxation can turn a relocation into.
pub proof fn lemma_replacement_is_supported(
    relocation_kind: u32,
    bytes: Seq<u8>,
    offset: int,
    value_flags: ValueFlags,
    output_kind: OutputKind,
    section_flags: SectionFlags,
    relaxation: Relaxation,
)
    requires
        decide(relocation_kind, bytes, offset, value_flags, output_kind, section_flags) == Some(
            relaxation,
        ),
    ensures
        ({
            ||| RelocationType::Plt32.spec_info() == Some(relaxation.rel_info)
            ||| RelocationType::Pc32.spec_info() == Some(relaxation.rel_info)
            ||| RelocationType::R32.spec_info() == Some(relaxation.rel_info)
            ||| RelocationType::TpOff32.spec_info() == Some(relaxation.rel_info)
            ||| RelocationType::GotTpOff.spec_info() == Some(relaxation.rel_info)
            ||| RelocationType::GotOff64.spec_info() == Some(relaxation.rel_info)
            ||| RelocationType::NoReloc.spec_info() == Some(relaxation.rel_info)
        }),
{
}

} // verus!
