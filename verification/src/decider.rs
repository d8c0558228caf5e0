//! The decider: whether the instruction at a relocation can be rewritten
//! into a cheaper one, and into which.
//!
//! The decision is a function of the relocation type, the bytes around the
//! relocation's place, the flags of the symbol and of the section, and the
//! kind of output. It looks at nothing else and changes nothing. Where the
//! bytes are not an instruction that it knows, or do not reach as far as it
//! has to look, it decides against a relaxation: the relocation as it was
//! found is always right.

use crate::bytes::{byte_at, byte_before, occurs_at, pattern_after, pattern_before};
use crate::flags::{lemma_execinstr_is_one_bit, OutputKind, SectionFlags, ValueFlag, ValueFlags};
use crate::relaxation::{RelaxationKind, RelocationModifier};
use crate::relocation::{RelocationKindInfo, RelocationType};
use vstd::prelude::*;

verus! {

/// The two instruction sequences that compilers emit for general-dynamic
/// access to a thread-local variable.
#[derive(Clone, Copy, Debug, PartialEq, Eq, Structural)]
pub enum TlsGdForm {
    /// `data16 lea x(%rip),%rdi`, then `data16 data16 rex.W call
    /// __tls_get_addr`.
    Regular,
    /// `lea x(%rip),%rdi`, then `movabs $__tls_get_addr,%rax`, then
    /// `add %rbx,%rax` and `call *%rax`: the large code model.
    Large,
}

impl TlsGdForm {
    /// Which of the two sequences stands around the relocation's place
    /// `offset`, if either does. The place itself, four bytes long, is not
    /// looked at.
    pub open spec fn spec_identify(bytes: Seq<u8>, offset: int) -> Option<TlsGdForm> {
        if occurs_at(bytes, offset - 4, seq![0x66u8, 0x48, 0x8d, 0x3d]) && occurs_at(
            bytes,
            offset + 4,
            seq![0x66u8, 0x66, 0x48, 0xe8],
        ) {
            Some(TlsGdForm::Regular)
        } else if occurs_at(bytes, offset - 3, seq![0x48u8, 0x8d, 0x3d]) && occurs_at(
            bytes,
            offset + 4,
            seq![0x48u8, 0xb8],
        ) && occurs_at(bytes, offset + 14, seq![0x48u8, 0x01, 0xd8, 0xff, 0xd0]) {
            Some(TlsGdForm::Large)
        } else {
            None
        }
    }

    /// Which of the two sequences stands around the relocation's place
    /// `offset`, if either does.
    pub fn identify(bytes: &[u8], offset: usize) -> (form: Option<TlsGdForm>)
        ensures
            form == Self::spec_identify(bytes@, offset as int),
    {
        let at = offset as u64;
        let lea: [u8; 3] = [0x48, 0x8d, 0x3d];
        let data16_lea: [u8; 4] = [0x66, 0x48, 0x8d, 0x3d];
        let call: [u8; 4] = [0x66, 0x66, 0x48, 0xe8];
        let movabs: [u8; 2] = [0x48, 0xb8];
        let add_call: [u8; 5] = [0x48, 0x01, 0xd8, 0xff, 0xd0];
        proof {
            assert(lea@ =~= seq![0x48u8, 0x8d, 0x3d]);
            assert(data16_lea@ =~= seq![0x66u8, 0x48, 0x8d, 0x3d]);
            assert(call@ =~= seq![0x66u8, 0x66, 0x48, 0xe8]);
            assert(movabs@ =~= seq![0x48u8, 0xb8]);
            assert(add_call@ =~= seq![0x48u8, 0x01, 0xd8, 0xff, 0xd0]);
        }
        if pattern_before(bytes, at, 4, data16_lea.as_slice()) && pattern_after(
            bytes,
            at,
            4,
            call.as_slice(),
        ) {
            Some(TlsGdForm::Regular)
        } else if pattern_before(bytes, at, 3, lea.as_slice()) && pattern_after(
            bytes,
            at,
            4,
            movabs.as_slice(),
        ) && pattern_after(bytes, at, 14, add_call.as_slice()) {
            Some(TlsGdForm::Large)
        } else {
            None
        }
    }
}

/// A decision for a relaxation: how to rewrite the instruction, and what the
/// relocation is applied as afterwards.
#[derive(Clone, Copy, Debug, PartialEq, Eq)]
pub struct Relaxation {
    /// How the instruction is rewritten.
    pub kind: RelaxationKind,
    /// How the relocation writes its value once the instruction is
    /// rewritten: the table entry of the relocation type that replaces the
    /// one that was found.
    pub rel_info: RelocationKindInfo,
}

/// The decision to rewrite as `kind` says and to apply the relocation as one
/// of type `replacement` from then on.
pub open spec fn relaxation_to(kind: RelaxationKind, replacement: RelocationType) -> Option<
    Relaxation,
>
    recommends
        replacement.spec_info() is Some,
{
    Some(Relaxation { kind, rel_info: replacement.spec_info()->Some_0 })
}

/// Whether the symbol's value is a constant that is known when linking.
pub open spec fn is_absolute(value_flags: ValueFlags) -> bool {
    value_flags@.contains(ValueFlag::Absolute) && !value_flags@.contains(ValueFlag::Dynamic)
}

/// Whether the symbol's value is an address that is known when linking: the
/// address of a symbol in an output that runs where it was linked.
pub open spec fn is_absolute_address(value_flags: ValueFlags, output_kind: OutputKind) -> bool {
    value_flags@.contains(ValueFlag::Address) && !output_kind.spec_is_relocatable()
}

/// Whether the instruction can take the symbol's value as an immediate.
pub open spec fn takes_immediate(value_flags: ValueFlags, output_kind: OutputKind) -> bool {
    is_absolute(value_flags) || is_absolute_address(value_flags, output_kind)
}

/// Whether a reference to the symbol may go past the global offset table.
pub open spec fn can_bypass_got(value_flags: ValueFlags) -> bool {
    value_flags@.contains(ValueFlag::CanBypassGot)
}

/// Whether `byte` is a REX prefix that the decider rewrites: REX.W, with or
/// without REX.R.
pub open spec fn is_rex_w(byte: Option<u8>) -> bool {
    byte == Some(0x48u8) || byte == Some(0x4cu8)
}

/// The decision for `R_X86_64_REX_GOTPCRELX`. The REX prefix stands three
/// bytes before the place and the opcode two bytes before it. A `mov`, a
/// `sub` or a `cmp` with a value that is known becomes the same instruction
/// with an immediate; a `mov` of an address that is near becomes a `lea`.
pub open spec fn decide_rex_gotpcrelx(
    bytes: Seq<u8>,
    offset: int,
    value_flags: ValueFlags,
    output_kind: OutputKind,
) -> Option<Relaxation> {
    let rex = byte_at(bytes, offset - 3);
    let opcode = byte_at(bytes, offset - 2);
    if offset < 3 || opcode is None || !is_rex_w(rex) {
        None
    } else if takes_immediate(value_flags, output_kind) {
        if opcode == Some(0x8bu8) {
            relaxation_to(RelaxationKind::RexMovIndirectToAbsolute, RelocationType::R32)
        } else if opcode == Some(0x2bu8) {
            relaxation_to(RelaxationKind::RexSubIndirectToAbsolute, RelocationType::R32)
        } else if opcode == Some(0x3bu8) {
            relaxation_to(RelaxationKind::RexCmpIndirectToAbsolute, RelocationType::R32)
        } else {
            None
        }
    } else if can_bypass_got(value_flags) && opcode == Some(0x8bu8) {
        relaxation_to(RelaxationKind::MovIndirectToLea, RelocationType::Pc32)
    } else {
        None
    }
}

/// The decision for `R_X86_64_GOTPCRELX`. A `mov` of a value that is known
/// becomes a `mov` of an immediate. Failing that, a `call` through the
/// table of a function that is near becomes a direct call.
pub open spec fn decide_gotpcrelx(
    bytes: Seq<u8>,
    offset: int,
    value_flags: ValueFlags,
    output_kind: OutputKind,
) -> Option<Relaxation> {
    if takes_immediate(value_flags, output_kind) && byte_at(bytes, offset - 2) == Some(0x8bu8) {
        relaxation_to(RelaxationKind::MovIndirectToAbsolute, RelocationType::R32)
    } else if can_bypass_got(value_flags) && occurs_at(bytes, offset - 2, seq![0xffu8, 0x15]) {
        relaxation_to(RelaxationKind::CallIndirectToRelative, RelocationType::Pc32)
    } else {
        None
    }
}

/// The decision for `R_X86_64_GOTPCREL`: a `mov` of an address that is near
/// becomes a `lea`.
pub open spec fn decide_gotpcrel(bytes: Seq<u8>, offset: int, value_flags: ValueFlags) -> Option<
    Relaxation,
> {
    if can_bypass_got(value_flags) && byte_at(bytes, offset - 2) == Some(0x8bu8) {
        relaxation_to(RelaxationKind::MovIndirectToLea, RelocationType::Pc32)
    } else {
        None
    }
}

/// The decision for `R_X86_64_GOTTPOFF`: a `mov` with a REX.W prefix that
/// loads the thread-pointer offset of a variable that is near becomes a
/// `mov` of that offset.
pub open spec fn decide_gottpoff(bytes: Seq<u8>, offset: int, value_flags: ValueFlags) -> Option<
    Relaxation,
> {
    if can_bypass_got(value_flags) && is_rex_w(byte_at(bytes, offset - 3)) && byte_at(
        bytes,
        offset - 2,
    ) == Some(0x8bu8) {
        relaxation_to(RelaxationKind::RexMovIndirectToAbsolute, RelocationType::TpOff32)
    } else {
        None
    }
}

/// The decision for `R_X86_64_TLSGD`, which is only relaxed in a program.
/// For a variable that is near, either sequence becomes local-exec access;
/// for any other, the regular sequence becomes initial-exec access and the
/// large one stays.
pub open spec fn decide_tlsgd(
    bytes: Seq<u8>,
    offset: int,
    value_flags: ValueFlags,
    output_kind: OutputKind,
) -> Option<Relaxation> {
    if !output_kind.spec_is_executable() {
        None
    } else {
        match TlsGdForm::spec_identify(bytes, offset) {
            None => None,
            Some(TlsGdForm::Regular) => if can_bypass_got(value_flags) {
                relaxation_to(RelaxationKind::TlsGdToLocalExec, RelocationType::TpOff32)
            } else {
                relaxation_to(RelaxationKind::TlsGdToInitialExec, RelocationType::GotTpOff)
            },
            Some(TlsGdForm::Large) => if can_bypass_got(value_flags) {
                relaxation_to(RelaxationKind::TlsGdToLocalExecLarge, RelocationType::TpOff32)
            } else {
                None
            },
        }
    }
}

/// The decision for `R_X86_64_TLSLD`, which is only relaxed in a program:
/// `lea x(%rip),%rdi` and the call that follows it become local-exec access.
pub open spec fn decide_tlsld(bytes: Seq<u8>, offset: int, output_kind: OutputKind) -> Option<
    Relaxation,
> {
    if output_kind.spec_is_executable() && occurs_at(
        bytes,
        offset - 3,
        seq![0x48u8, 0x8d, 0x3d],
    ) {
        relaxation_to(RelaxationKind::TlsLdToLocalExec, RelocationType::NoReloc)
    } else {
        None
    }
}

/// The redirection of a reference to an indirect function: a relative
/// reference goes to the function's linkage stub, and the instruction stays.
pub open spec fn ifunc_redirection() -> Option<Relaxation> {
    relaxation_to(RelaxationKind::NoOp, RelocationType::Plt32)
}

/// The decision for a relocation with the type number `relocation_kind`
/// whose four bytes stand at `offset` in `bytes`.
///
/// An indirect function is dealt with first: a relative reference to one is
/// sent through its linkage stub, and no other reference to one is touched.
/// Then, outside of sections that hold machine instructions, nothing is
/// relaxed. Then the relocation type decides.
pub open spec fn decide(
    relocation_kind: u32,
    bytes: Seq<u8>,
    offset: int,
    value_flags: ValueFlags,
    output_kind: OutputKind,
    section_flags: SectionFlags,
) -> Option<Relaxation> {
    let relocation = RelocationType::of_raw(relocation_kind);
    if value_flags@.contains(ValueFlag::Ifunc) {
        if relocation == Some(RelocationType::Pc32) {
            ifunc_redirection()
        } else {
            None
        }
    } else if !section_flags.is_executable() {
        None
    } else {
        match relocation {
            Some(RelocationType::RexGotPcRelX) => decide_rex_gotpcrelx(
                bytes,
                offset,
                value_flags,
                output_kind,
            ),
            Some(RelocationType::GotPcRelX) => decide_gotpcrelx(
                bytes,
                offset,
                value_flags,
                output_kind,
            ),
            Some(RelocationType::GotPcRel) => decide_gotpcrel(bytes, offset, value_flags),
            Some(RelocationType::GotTpOff) => decide_gottpoff(bytes, offset, value_flags),
            Some(RelocationType::Plt32) => if can_bypass_got(value_flags) {
                relaxation_to(RelaxationKind::NoOp, RelocationType::Pc32)
            } else {
                None
            },
            Some(RelocationType::PltOff64) => if can_bypass_got(value_flags) {
                relaxation_to(RelaxationKind::NoOp, RelocationType::GotOff64)
            } else {
                None
            },
            Some(RelocationType::TlsGd) => decide_tlsgd(bytes, offset, value_flags, output_kind),
            Some(RelocationType::TlsLd) => decide_tlsld(bytes, offset, output_kind),
            _ => None,
        }
    }
}

/// Whether there are bytes for which a relocation of the type `relocation`
/// is relaxed, where it refers to a symbol with the flags `value_flags`
/// that is no indirect function and sits in a section of machine
/// instructions of an output of the kind `output_kind`.
pub open spec fn relaxable(
    relocation: RelocationType,
    value_flags: ValueFlags,
    output_kind: OutputKind,
) -> bool {
    match relocation {
        RelocationType::RexGotPcRelX | RelocationType::GotPcRelX => takes_immediate(
            value_flags,
            output_kind,
        ) || can_bypass_got(value_flags),
        RelocationType::GotPcRel
        | RelocationType::GotTpOff
        | RelocationType::Plt32
        | RelocationType::PltOff64 => can_bypass_got(value_flags),
        RelocationType::TlsGd | RelocationType::TlsLd => output_kind.spec_is_executable(),
        _ => false,
    }
}

/// The decision to rewrite as `kind` says and to apply the relocation as one
/// of type `replacement` from then on.
fn choose_relaxation(kind: RelaxationKind, replacement: RelocationType) -> (chosen: Option<
    Relaxation,
>)
    requires
        replacement.spec_info() is Some,
    ensures
        chosen == relaxation_to(kind, replacement),
{
    match replacement.kind_and_size() {
        Some((rel_kind, size)) => Some(
            Relaxation { kind, rel_info: RelocationKindInfo { kind: rel_kind, size, mask: None } },
        ),
        None => None,
    }
}

fn is_rex_w_byte(byte: Option<u8>) -> (b: bool)
    ensures
        b == is_rex_w(byte),
{
    match byte {
        Some(rex) => rex == 0x48 || rex == 0x4c,
        None => false,
    }
}

fn is_byte(byte: Option<u8>, value: u8) -> (b: bool)
    ensures
        b == (byte == Some(value)),
{
    match byte {
        Some(found) => found == value,
        None => false,
    }
}

impl Relaxation {
    /// Decides whether the instruction at a relocation is rewritten, and
    /// how.
    ///
    /// `relocation_kind` is the number of the relocation's type,
    /// `offset_in_section` the place of its four bytes in `section_bytes`.
    /// The flags are those of the symbol that the relocation refers to and
    /// of the section that it sits in. `None` says that the relocation is
    /// applied as it was found.
    pub fn new(
        relocation_kind: u32,
        section_bytes: &[u8],
        offset_in_section: u64,
        value_flags: ValueFlags,
        output_kind: OutputKind,
        section_flags: SectionFlags,
    ) -> (relaxation: Option<Relaxation>)
        ensures
            relaxation == decide(
                relocation_kind,
                section_bytes@,
                offset_in_section as int,
                value_flags,
                output_kind,
                section_flags,
            ),
            value_flags@.contains(ValueFlag::Ifunc) ==> relaxation == (if relocation_kind
                == RelocationType::Pc32.spec_raw() {
                ifunc_redirection()
            } else {
                None
            }),
            !value_flags@.contains(ValueFlag::Ifunc) && !section_flags.is_executable()
                ==> relaxation is None,
            !value_flags@.contains(ValueFlag::Ifunc) && relaxation is Some ==> (
            RelocationType::of_raw(relocation_kind) matches Some(relocation) && relaxable(
                relocation,
                value_flags,
                output_kind,
            )),
    {
        let relocation = RelocationType::from_raw(relocation_kind);
        let is_known_address = value_flags.contains(ValueFlag::Address);
        let is_absolute = value_flags.contains(ValueFlag::Absolute) && !value_flags.contains(
            ValueFlag::Dynamic,
        );
        let non_relocatable = !output_kind.is_relocatable();
        let is_absolute_address = is_known_address && non_relocatable;
        let can_bypass_got = value_flags.contains(ValueFlag::CanBypassGot);

        // An indirect function is never referred to directly. A reference
        // through the linkage table stays as it is even in a static
        // executable, and a direct one is made to go through the table.
        if value_flags.contains(ValueFlag::Ifunc) {
            return match relocation {
                Some(RelocationType::Pc32) => choose_relaxation(
                    RelaxationKind::NoOp,
                    RelocationType::Plt32,
                ),
                _ => None,
            };
        }
        // Everything below rewrites machine instructions.
        proof {
            lemma_execinstr_is_one_bit(section_flags.spec_raw());
        }
        if !section_flags.contains(SectionFlags::execinstr()) {
            return None;
        }
        let offset = offset_in_section;
        match relocation {
            Some(RelocationType::RexGotPcRelX) => {
                if offset < 3 {
                    return None;
                }
                let opcode = byte_before(section_bytes, offset, 2);
                let rex = byte_before(section_bytes, offset, 3);
                if opcode.is_none() || !is_rex_w_byte(rex) {
                    return None;
                }
                if is_absolute || is_absolute_address {
                    if is_byte(opcode, 0x8b) {
                        choose_relaxation(
                            RelaxationKind::RexMovIndirectToAbsolute,
                            RelocationType::R32,
                        )
                    } else if is_byte(opcode, 0x2b) {
                        choose_relaxation(
                            RelaxationKind::RexSubIndirectToAbsolute,
                            RelocationType::R32,
                        )
                    } else if is_byte(opcode, 0x3b) {
                        choose_relaxation(
                            RelaxationKind::RexCmpIndirectToAbsolute,
                            RelocationType::R32,
                        )
                    } else {
                        None
                    }
                } else if can_bypass_got && is_byte(opcode, 0x8b) {
                    choose_relaxation(RelaxationKind::MovIndirectToLea, RelocationType::Pc32)
                } else {
                    None
                }
            },
            Some(RelocationType::GotPcRelX) => {
                let call: [u8; 2] = [0xff, 0x15];
                assert(call@ =~= seq![0xffu8, 0x15]);
                if (is_absolute || is_absolute_address) && is_byte(
                    byte_before(section_bytes, offset, 2),
                    0x8b,
                ) {
                    choose_relaxation(RelaxationKind::MovIndirectToAbsolute, RelocationType::R32)
                } else if can_bypass_got && pattern_before(
                    section_bytes,
                    offset,
                    2,
                    call.as_slice(),
                ) {
                    choose_relaxation(RelaxationKind::CallIndirectToRelative, RelocationType::Pc32)
                } else {
                    None
                }
            },
            Some(RelocationType::GotPcRel) => {
                if can_bypass_got && is_byte(byte_before(section_bytes, offset, 2), 0x8b) {
                    choose_relaxation(RelaxationKind::MovIndirectToLea, RelocationType::Pc32)
                } else {
                    None
                }
            },
            Some(RelocationType::GotTpOff) => {
                if can_bypass_got && is_rex_w_byte(byte_before(section_bytes, offset, 3))
                    && is_byte(byte_before(section_bytes, offset, 2), 0x8b) {
                    choose_relaxation(
                        RelaxationKind::RexMovIndirectToAbsolute,
                        RelocationType::TpOff32,
                    )
                } else {
                    None
                }
            },
            Some(RelocationType::Plt32) => {
                if can_bypass_got {
                    choose_relaxation(RelaxationKind::NoOp, RelocationType::Pc32)
                } else {
                    None
                }
            },
            Some(RelocationType::PltOff64) => {
                if can_bypass_got {
                    choose_relaxation(RelaxationKind::NoOp, RelocationType::GotOff64)
                } else {
                    None
                }
            },
            Some(RelocationType::TlsGd) => {
                if !output_kind.is_executable() {
                    return None;
                }
                match identify_at(section_bytes, offset) {
                    Some(TlsGdForm::Regular) => {
                        if can_bypass_got {
                            choose_relaxation(
                                RelaxationKind::TlsGdToLocalExec,
                                RelocationType::TpOff32,
                            )
                        } else {
                            choose_relaxation(
                                RelaxationKind::TlsGdToInitialExec,
                                RelocationType::GotTpOff,
                            )
                        }
                    },
                    Some(TlsGdForm::Large) => {
                        if can_bypass_got {
                            choose_relaxation(
                                RelaxationKind::TlsGdToLocalExecLarge,
                                RelocationType::TpOff32,
                            )
                        } else {
                            None
                        }
                    },
                    None => None,
                }
            },
            Some(RelocationType::TlsLd) => {
                let lea: [u8; 3] = [0x48, 0x8d, 0x3d];
                assert(lea@ =~= seq![0x48u8, 0x8d, 0x3d]);
                if output_kind.is_executable() && pattern_before(
                    section_bytes,
                    offset,
                    3,
                    lea.as_slice(),
                ) {
                    choose_relaxation(RelaxationKind::TlsLdToLocalExec, RelocationType::NoReloc)
                } else {
                    None
                }
            },
            _ => None,
        }
    }

    /// Rewrites the instruction as was decided. See
    /// [`RelaxationKind::apply`].
    pub fn apply(
        &self,
        section_bytes: &mut [u8],
        offset_in_section: &mut u64,
        addend: &mut u64,
        next_modifier: &mut RelocationModifier,
    )
        requires
            self.kind.applicable(old(section_bytes)@, *old(offset_in_section) as int),
        ensures
            final(section_bytes)@ == self.kind.rewritten(
                old(section_bytes)@,
                *old(offset_in_section) as int,
            ),
            final(section_bytes)@.len() == old(section_bytes)@.len(),
            *final(offset_in_section) == *old(offset_in_section) + self.kind.advance(
                old(section_bytes)@,
                *old(offset_in_section) as int,
            ),
            *final(addend) == self.kind.addend_after(*old(addend)),
            *final(next_modifier) == self.kind.modifier_after(*old(next_modifier)),
            *final(offset_in_section) != *old(offset_in_section) ==> *final(next_modifier)
                == RelocationModifier::SkipNextRelocation,
    {
        self.kind.apply(section_bytes, offset_in_section, addend, next_modifier);
    }

    /// How the relocation writes its value once the instruction is
    /// rewritten.
    pub fn rel_info(&self) -> (info: RelocationKindInfo)
        ensures
            info == self.rel_info,
    {
        self.rel_info
    }

    /// How the instruction is rewritten, for diagnostics.
    pub fn debug_kind(&self) -> (kind: RelaxationKind)
        ensures
            kind == self.kind,
    {
        self.kind
    }
}

/// Which sequence of general-dynamic access stands around `offset`. Neither
/// stands around a place past the end of the section.
fn identify_at(bytes: &[u8], offset: u64) -> (form: Option<TlsGdForm>)
    ensures
        form == TlsGdForm::spec_identify(bytes@, offset as int),
{
    if offset > bytes.len() as u64 {
        None
    } else {
        TlsGdForm::identify(bytes, offset as usize)
    }
}

} // verus!
