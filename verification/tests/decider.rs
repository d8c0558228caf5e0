use x86_64_relax::decider::{Relaxation, TlsGdForm};
use x86_64_relax::flags::{OutputKind, RelocationModel, SectionFlags, ValueFlag, ValueFlags};
use x86_64_relax::relaxation::{RelaxationKind, RelocationModifier};
use x86_64_relax::relocation::{RelocationKind, RelocationKindInfo};

const STATIC: OutputKind = OutputKind::StaticExecutable(RelocationModel::NonRelocatable);
const STATIC_PIE: OutputKind = OutputKind::StaticExecutable(RelocationModel::Relocatable);
const DYNAMIC: OutputKind = OutputKind::DynamicExecutable(RelocationModel::NonRelocatable);
const PIE: OutputKind = OutputKind::DynamicExecutable(RelocationModel::Relocatable);

fn flags(list: &[ValueFlag]) -> ValueFlags {
    let mut flags = ValueFlags::empty();
    for flag in list {
        flags = flags.with(*flag);
    }
    flags
}

fn code() -> SectionFlags {
    SectionFlags::execinstr()
}

fn info(kind: RelocationKind, size: usize) -> RelocationKindInfo {
    RelocationKindInfo { kind, size, mask: None }
}

fn decision(relaxation: Option<Relaxation>) -> Option<(RelaxationKind, RelocationKindInfo)> {
    relaxation.map(|r| (r.debug_kind(), r.rel_info()))
}

fn check(relocation_kind: u32, bytes_in: &[u8], address: &[u8], absolute: &[u8]) {
    let mut out = bytes_in.to_owned();
    let mut offset = bytes_in.len() as u64;
    let mut modifier = RelocationModifier::Normal;
    if let Some(r) = Relaxation::new(
        relocation_kind,
        bytes_in,
        offset,
        ValueFlags::empty().with(ValueFlag::Address),
        OutputKind::StaticExecutable(RelocationModel::Relocatable),
        SectionFlags::execinstr(),
    ) {
        assert!(r.debug_kind().fits(&out, offset));
        r.apply(&mut out, &mut offset, &mut 0, &mut modifier);

        assert_eq!(
            out, address,
            "resolved: Expected {address:x?}, got {out:x?}"
        );
    }
    if let Some(r) = Relaxation::new(
        relocation_kind,
        bytes_in,
        offset,
        ValueFlags::empty().with(ValueFlag::Absolute),
        OutputKind::StaticExecutable(RelocationModel::Relocatable),
        SectionFlags::execinstr(),
    ) {
        out.copy_from_slice(bytes_in);
        assert!(r.debug_kind().fits(&out, offset));
        r.apply(&mut out, &mut offset, &mut 0, &mut modifier);
        assert_eq!(
            out, absolute,
            "unresolved: Expected {absolute:x?}, got {out:x?}"
        );
    }
}

#[test]
fn test_relaxation() {
    check(
        object::elf::R_X86_64_REX_GOTPCRELX,
        &[0x48, 0x8b, 0xae],
        &[0x48, 0x8d, 0xae],
        &[0x48, 0xc7, 0xc5],
    );
}

#[test]
fn rex_gotpcrelx_constant_is_decided_for_in_a_relocatable_output() {
    let r = Relaxation::new(
        object::elf::R_X86_64_REX_GOTPCRELX,
        &[0x48, 0x8b, 0xae],
        3,
        flags(&[ValueFlag::Absolute]),
        STATIC_PIE,
        code(),
    );
    assert_eq!(
        decision(r),
        Some((RelaxationKind::RexMovIndirectToAbsolute, info(RelocationKind::Absolute, 4)))
    );
}

#[test]
fn rex_gotpcrelx_address_alone_is_not_relaxed_in_a_relocatable_output() {
    let r = Relaxation::new(
        object::elf::R_X86_64_REX_GOTPCRELX,
        &[0x48, 0x8b, 0xae],
        3,
        flags(&[ValueFlag::Address]),
        STATIC_PIE,
        code(),
    );
    assert_eq!(r, None);
}

#[test]
fn rex_gotpcrelx_mov_of_a_near_address_becomes_lea() {
    let bytes = [0x48, 0x8b, 0xae];
    let r = Relaxation::new(
        object::elf::R_X86_64_REX_GOTPCRELX,
        &bytes,
        3,
        flags(&[ValueFlag::Address, ValueFlag::CanBypassGot]),
        STATIC_PIE,
        code(),
    )
    .unwrap();
    assert_eq!(r.debug_kind(), RelaxationKind::MovIndirectToLea);
    assert_eq!(r.rel_info(), info(RelocationKind::Relative, 4));
    let mut out = bytes.to_vec();
    let mut offset = 3;
    let mut addend = 0xffff_ffff_ffff_fffc;
    let mut modifier = RelocationModifier::Normal;
    assert!(r.debug_kind().fits(&out, offset));
    r.apply(&mut out, &mut offset, &mut addend, &mut modifier);
    assert_eq!(out, [0x48, 0x8d, 0xae]);
    assert_eq!(offset, 3);
    assert_eq!(addend, 0xffff_ffff_ffff_fffc);
    assert_eq!(modifier, RelocationModifier::Normal);
}

#[test]
fn rex_gotpcrelx_mov_of_a_known_address_becomes_absolute_mov() {
    let bytes = [0x48, 0x8b, 0xae];
    let r = Relaxation::new(
        object::elf::R_X86_64_REX_GOTPCRELX,
        &bytes,
        3,
        flags(&[ValueFlag::Address]),
        STATIC,
        code(),
    )
    .unwrap();
    assert_eq!(r.debug_kind(), RelaxationKind::RexMovIndirectToAbsolute);
    assert_eq!(r.rel_info(), info(RelocationKind::Absolute, 4));
}

#[test]
fn rex_gotpcrelx_mov_of_a_constant_becomes_absolute_mov() {
    let bytes = [0x48, 0x8b, 0xae];
    let r = Relaxation::new(
        object::elf::R_X86_64_REX_GOTPCRELX,
        &bytes,
        3,
        flags(&[ValueFlag::Absolute]),
        STATIC,
        code(),
    )
    .unwrap();
    assert_eq!(r.debug_kind(), RelaxationKind::RexMovIndirectToAbsolute);
    let mut out = bytes.to_vec();
    let mut offset = 3;
    let mut addend = 0xffff_ffff_ffff_fffc;
    let mut modifier = RelocationModifier::Normal;
    assert!(r.debug_kind().fits(&out, offset));
    r.apply(&mut out, &mut offset, &mut addend, &mut modifier);
    assert_eq!(out, [0x48, 0xc7, 0xc5]);
    assert_eq!(offset, 3);
    assert_eq!(addend, 0);
    assert_eq!(modifier, RelocationModifier::Normal);
}

#[test]
fn rex_gotpcrelx_dynamic_constant_is_no_constant() {
    let r = Relaxation::new(
        object::elf::R_X86_64_REX_GOTPCRELX,
        &[0x48, 0x8b, 0xae],
        3,
        flags(&[ValueFlag::Absolute, ValueFlag::Dynamic]),
        STATIC,
        code(),
    );
    assert_eq!(r, None);
}

#[test]
fn rex_gotpcrelx_sub_and_cmp_take_an_immediate() {
    let vf = flags(&[ValueFlag::Absolute]);
    let sub = Relaxation::new(object::elf::R_X86_64_REX_GOTPCRELX, &[0x4c, 0x2b, 0x05], 3, vf, STATIC, code());
    assert_eq!(
        decision(sub),
        Some((RelaxationKind::RexSubIndirectToAbsolute, info(RelocationKind::Absolute, 4)))
    );
    let cmp = Relaxation::new(object::elf::R_X86_64_REX_GOTPCRELX, &[0x48, 0x3b, 0x05], 3, vf, STATIC, code());
    assert_eq!(
        decision(cmp),
        Some((RelaxationKind::RexCmpIndirectToAbsolute, info(RelocationKind::Absolute, 4)))
    );
    let other = Relaxation::new(object::elf::R_X86_64_REX_GOTPCRELX, &[0x48, 0x03, 0x05], 3, vf, STATIC, code());
    assert_eq!(other, None);
}

#[test]
fn rex_gotpcrelx_known_value_with_other_opcode_does_not_fall_back_to_lea() {
    // The value is known, so the immediate forms are the only ones tried.
    let vf = flags(&[ValueFlag::Absolute, ValueFlag::CanBypassGot]);
    let r = Relaxation::new(object::elf::R_X86_64_REX_GOTPCRELX, &[0x48, 0x85, 0x05], 3, vf, STATIC, code());
    assert_eq!(r, None);
}

#[test]
fn rex_gotpcrelx_sub_of_a_near_address_is_not_relaxed() {
    let vf = flags(&[ValueFlag::CanBypassGot]);
    let r = Relaxation::new(object::elf::R_X86_64_REX_GOTPCRELX, &[0x48, 0x2b, 0x05], 3, vf, PIE, code());
    assert_eq!(r, None);
}

#[test]
fn rex_gotpcrelx_needs_a_rex_w_prefix() {
    let vf = flags(&[ValueFlag::Absolute]);
    for rex in [0x40u8, 0x41, 0x44, 0x49, 0x4d, 0x66, 0x00] {
        let r = Relaxation::new(object::elf::R_X86_64_REX_GOTPCRELX, &[rex, 0x8b, 0x05], 3, vf, STATIC, code());
        assert_eq!(r, None, "prefix {rex:x}");
    }
    for rex in [0x48u8, 0x4c] {
        let r = Relaxation::new(object::elf::R_X86_64_REX_GOTPCRELX, &[rex, 0x8b, 0x05], 3, vf, STATIC, code());
        assert!(r.is_some(), "prefix {rex:x}");
    }
}

#[test]
fn rex_gotpcrelx_near_the_start_of_the_section_is_not_relaxed() {
    let vf = flags(&[ValueFlag::Absolute, ValueFlag::CanBypassGot]);
    for offset in 0..3u64 {
        let r = Relaxation::new(object::elf::R_X86_64_REX_GOTPCRELX, &[0x48, 0x8b, 0x05, 0x48, 0x8b], offset, vf, STATIC, code());
        assert_eq!(r, None, "offset {offset}");
    }
}

#[test]
fn place_past_the_bytes_is_not_relaxed() {
    let vf = flags(&[ValueFlag::Absolute, ValueFlag::CanBypassGot]);
    let bytes = [0x48, 0x8b, 0x05];
    for kind in [
        object::elf::R_X86_64_REX_GOTPCRELX,
        object::elf::R_X86_64_GOTPCRELX,
        object::elf::R_X86_64_GOTPCREL,
        object::elf::R_X86_64_GOTTPOFF,
        object::elf::R_X86_64_TLSGD,
        object::elf::R_X86_64_TLSLD,
    ] {
        for offset in [5u64, 6, 100, u32::MAX as u64 + 3, u64::MAX - 1, u64::MAX] {
            let r = Relaxation::new(kind, &bytes, offset, vf, STATIC, code());
            assert_eq!(r, None, "type {kind} at {offset}");
        }
    }
}

#[test]
fn empty_section_is_not_relaxed_by_a_look_at_bytes() {
    let vf = flags(&[ValueFlag::Absolute, ValueFlag::CanBypassGot]);
    for kind in [
        object::elf::R_X86_64_REX_GOTPCRELX,
        object::elf::R_X86_64_GOTPCRELX,
        object::elf::R_X86_64_GOTPCREL,
        object::elf::R_X86_64_GOTTPOFF,
        object::elf::R_X86_64_TLSGD,
        object::elf::R_X86_64_TLSLD,
    ] {
        for offset in 0..6u64 {
            assert_eq!(Relaxation::new(kind, &[], offset, vf, STATIC, code()), None);
        }
    }
}

#[test]
fn gotpcrelx_mov_of_a_known_value_becomes_absolute_mov() {
    let bytes = [0x8b, 0x05];
    for vf in [flags(&[ValueFlag::Absolute]), flags(&[ValueFlag::Address])] {
        let r = Relaxation::new(object::elf::R_X86_64_GOTPCRELX, &bytes, 2, vf, STATIC, code());
        assert_eq!(
            decision(r),
            Some((RelaxationKind::MovIndirectToAbsolute, info(RelocationKind::Absolute, 4)))
        );
    }
}

#[test]
fn gotpcrelx_call_of_a_near_function_becomes_direct() {
    let bytes = [0xff, 0x15];
    let r = Relaxation::new(
        object::elf::R_X86_64_GOTPCRELX,
        &bytes,
        2,
        flags(&[ValueFlag::CanBypassGot]),
        PIE,
        code(),
    )
    .unwrap();
    assert_eq!(r.debug_kind(), RelaxationKind::CallIndirectToRelative);
    assert_eq!(r.rel_info(), info(RelocationKind::Relative, 4));
    let mut out = bytes.to_vec();
    let mut offset = 2;
    let mut addend = 0xffff_ffff_ffff_fffc;
    let mut modifier = RelocationModifier::Normal;
    assert!(r.debug_kind().fits(&out, offset));
    r.apply(&mut out, &mut offset, &mut addend, &mut modifier);
    assert_eq!(out, [0x67, 0xe8]);
    assert_eq!(offset, 2);
    assert_eq!(addend, 0xffff_ffff_ffff_fffc);
    assert_eq!(modifier, RelocationModifier::Normal);
}

#[test]
fn gotpcrelx_tries_the_call_after_the_mov() {
    // A known value whose instruction is no mov: the call form is still tried.
    let vf = flags(&[ValueFlag::Absolute, ValueFlag::CanBypassGot]);
    let call = Relaxation::new(object::elf::R_X86_64_GOTPCRELX, &[0xff, 0x15], 2, vf, STATIC, code());
    assert_eq!(
        decision(call),
        Some((RelaxationKind::CallIndirectToRelative, info(RelocationKind::Relative, 4)))
    );
    // A mov goes to the first form that applies.
    let mov = Relaxation::new(object::elf::R_X86_64_GOTPCRELX, &[0x8b, 0x15], 2, vf, STATIC, code());
    assert_eq!(
        decision(mov),
        Some((RelaxationKind::MovIndirectToAbsolute, info(RelocationKind::Absolute, 4)))
    );
    // Neither.
    let jmp = Relaxation::new(object::elf::R_X86_64_GOTPCRELX, &[0xff, 0x25], 2, vf, STATIC, code());
    assert_eq!(jmp, None);
    // The call form needs the symbol to be near.
    let far = Relaxation::new(
        object::elf::R_X86_64_GOTPCRELX,
        &[0xff, 0x15],
        2,
        flags(&[ValueFlag::Absolute]),
        STATIC,
        code(),
    );
    assert_eq!(far, None);
}

#[test]
fn gotpcrelx_near_the_start_of_the_section_is_not_relaxed() {
    let vf = flags(&[ValueFlag::Absolute, ValueFlag::CanBypassGot]);
    for offset in 0..2u64 {
        let r = Relaxation::new(object::elf::R_X86_64_GOTPCRELX, &[0x8b, 0x05, 0xff, 0x15], offset, vf, STATIC, code());
        assert_eq!(r, None);
    }
}

#[test]
fn gotpcrelx_mov_whose_modrm_lies_past_the_bytes_is_decided_for_but_does_not_fit() {
    let vf = flags(&[ValueFlag::Absolute]);
    let bytes = [0x90, 0x8b];
    let r = Relaxation::new(object::elf::R_X86_64_GOTPCRELX, &bytes, 3, vf, STATIC, code()).unwrap();
    assert_eq!(r.debug_kind(), RelaxationKind::MovIndirectToAbsolute);
    assert!(!r.debug_kind().fits(&bytes, 3));
}

#[test]
fn gotpcrel_mov_of_a_near_address_becomes_lea() {
    let vf = flags(&[ValueFlag::CanBypassGot]);
    let r = Relaxation::new(object::elf::R_X86_64_GOTPCREL, &[0x48, 0x8b, 0x05], 3, vf, PIE, code());
    assert_eq!(
        decision(r),
        Some((RelaxationKind::MovIndirectToLea, info(RelocationKind::Relative, 4)))
    );
    let other = Relaxation::new(object::elf::R_X86_64_GOTPCREL, &[0x48, 0x3b, 0x05], 3, vf, PIE, code());
    assert_eq!(other, None);
    let far = Relaxation::new(
        object::elf::R_X86_64_GOTPCREL,
        &[0x48, 0x8b, 0x05],
        3,
        flags(&[ValueFlag::Address, ValueFlag::Absolute]),
        STATIC,
        code(),
    );
    assert_eq!(far, None);
    for offset in 0..2u64 {
        assert_eq!(
            Relaxation::new(object::elf::R_X86_64_GOTPCREL, &[0x8b, 0x8b, 0x8b], offset, vf, PIE, code()),
            None
        );
    }
}

#[test]
fn gottpoff_mov_of_a_near_variable_becomes_absolute_mov() {
    let vf = flags(&[ValueFlag::CanBypassGot]);
    for rex in [0x48u8, 0x4c] {
        let r = Relaxation::new(object::elf::R_X86_64_GOTTPOFF, &[rex, 0x8b, 0x05], 3, vf, STATIC, code());
        assert_eq!(
            decision(r),
            Some((RelaxationKind::RexMovIndirectToAbsolute, info(RelocationKind::TpOff, 4)))
        );
    }
    assert_eq!(
        Relaxation::new(object::elf::R_X86_64_GOTTPOFF, &[0x49, 0x8b, 0x05], 3, vf, STATIC, code()),
        None
    );
    assert_eq!(
        Relaxation::new(object::elf::R_X86_64_GOTTPOFF, &[0x48, 0x03, 0x05], 3, vf, STATIC, code()),
        None
    );
    assert_eq!(
        Relaxation::new(
            object::elf::R_X86_64_GOTTPOFF,
            &[0x48, 0x8b, 0x05],
            3,
            flags(&[ValueFlag::Address, ValueFlag::Absolute]),
            STATIC,
            code()
        ),
        None
    );
    for offset in 0..3u64 {
        assert_eq!(
            Relaxation::new(object::elf::R_X86_64_GOTTPOFF, &[0x48, 0x8b, 0x05], offset, vf, STATIC, code()),
            None
        );
    }
}

#[test]
fn plt32_to_a_near_function_becomes_pc32() {
    let near = flags(&[ValueFlag::CanBypassGot]);
    let r = Relaxation::new(object::elf::R_X86_64_PLT32, &[], 0, near, PIE, code());
    assert_eq!(decision(r), Some((RelaxationKind::NoOp, info(RelocationKind::Relative, 4))));
    let r = Relaxation::new(object::elf::R_X86_64_PLT32, &[0xe8], u64::MAX, near, OutputKind::SharedObject, code());
    assert_eq!(decision(r), Some((RelaxationKind::NoOp, info(RelocationKind::Relative, 4))));
    let far = Relaxation::new(
        object::elf::R_X86_64_PLT32,
        &[0xe8],
        1,
        flags(&[ValueFlag::Address, ValueFlag::Absolute]),
        STATIC,
        code(),
    );
    assert_eq!(far, None);
}

#[test]
fn pltoff64_to_a_near_function_becomes_gotoff64() {
    let near = flags(&[ValueFlag::CanBypassGot]);
    let r = Relaxation::new(object::elf::R_X86_64_PLTOFF64, &[], 0, near, PIE, code());
    assert_eq!(decision(r), Some((RelaxationKind::NoOp, info(RelocationKind::SymRelGotBase, 8))));
    let far = Relaxation::new(object::elf::R_X86_64_PLTOFF64, &[], 0, ValueFlags::empty(), PIE, code());
    assert_eq!(far, None);
}

fn tls_gd_regular() -> Vec<u8> {
    vec![0x66, 0x48, 0x8d, 0x3d, 0xaa, 0xbb, 0xcc, 0xdd, 0x66, 0x66, 0x48, 0xe8, 0x11, 0x22, 0x33, 0x44]
}

fn tls_gd_large() -> Vec<u8> {
    vec![
        0x48, 0x8d, 0x3d, 0xaa, 0xbb, 0xcc, 0xdd, // lea x(%rip),%rdi
        0x48, 0xb8, 1, 2, 3, 4, 5, 6, 7, 8, // movabs $__tls_get_addr,%rax
        0x48, 0x01, 0xd8, // add %rbx,%rax
        0xff, 0xd0, // call *%rax
    ]
}

#[test]
fn tlsgd_regular_form_is_identified() {
    assert_eq!(TlsGdForm::identify(&tls_gd_regular(), 4), Some(TlsGdForm::Regular));
    let mut longer = vec![0x90, 0x90];
    longer.extend(tls_gd_regular());
    longer.push(0x90);
    assert_eq!(TlsGdForm::identify(&longer, 6), Some(TlsGdForm::Regular));
    assert_eq!(TlsGdForm::identify(&longer, 4), None);
    assert_eq!(TlsGdForm::identify(&longer, 5), None);
    assert_eq!(TlsGdForm::identify(&longer, 7), None);
}

#[test]
fn tlsgd_large_form_is_identified() {
    assert_eq!(TlsGdForm::identify(&tls_gd_large(), 3), Some(TlsGdForm::Large));
}

#[test]
fn tlsgd_form_needs_every_byte() {
    let regular = tls_gd_regular();
    for at in (0..4).chain(8..12) {
        let mut bytes = regular.clone();
        bytes[at] ^= 1;
        assert_eq!(TlsGdForm::identify(&bytes, 4), None, "byte {at}");
    }
    // The four bytes of the place and what follows the call are not looked at.
    for at in (4..8).chain(12..16) {
        let mut bytes = regular.clone();
        bytes[at] ^= 0xff;
        assert_eq!(TlsGdForm::identify(&bytes, 4), Some(TlsGdForm::Regular), "byte {at}");
    }
    let large = tls_gd_large();
    for at in (0..3).chain(7..9).chain(17..22) {
        let mut bytes = large.clone();
        bytes[at] ^= 1;
        assert_eq!(TlsGdForm::identify(&bytes, 3), None, "byte {at}");
    }
    for at in (3..7).chain(9..17) {
        let mut bytes = large.clone();
        bytes[at] ^= 0xff;
        assert_eq!(TlsGdForm::identify(&bytes, 3), Some(TlsGdForm::Large), "byte {at}");
    }
}

#[test]
fn tlsgd_form_that_is_cut_short_is_not_identified() {
    let regular = tls_gd_regular();
    assert_eq!(TlsGdForm::identify(&regular[..12], 4), Some(TlsGdForm::Regular));
    for len in 0..12 {
        assert_eq!(TlsGdForm::identify(&regular[..len], 4), None, "length {len}");
    }
    let large = tls_gd_large();
    assert_eq!(TlsGdForm::identify(&large[..22], 3), Some(TlsGdForm::Large));
    for len in 0..22 {
        assert_eq!(TlsGdForm::identify(&large[..len], 3), None, "length {len}");
    }
    for offset in [0usize, 1, 2, 3, 5, 16, 17, usize::MAX - 20, usize::MAX - 4, usize::MAX] {
        assert_eq!(TlsGdForm::identify(&regular, offset), None, "offset {offset}");
    }
}

#[test]
fn tlsgd_to_local_exec() {
    let bytes = tls_gd_regular();
    let r = Relaxation::new(
        object::elf::R_X86_64_TLSGD,
        &bytes,
        4,
        flags(&[ValueFlag::CanBypassGot]),
        STATIC,
        code(),
    )
    .unwrap();
    assert_eq!(r.debug_kind(), RelaxationKind::TlsGdToLocalExec);
    assert_eq!(r.rel_info(), info(RelocationKind::TpOff, 4));
    let mut out = bytes.clone();
    let mut offset = 4;
    let mut addend = 0xffff_ffff_ffff_fffc;
    let mut modifier = RelocationModifier::Normal;
    assert!(r.debug_kind().fits(&out, offset));
    r.apply(&mut out, &mut offset, &mut addend, &mut modifier);
    assert_eq!(
        out,
        [0x64, 0x48, 0x8b, 0x04, 0x25, 0, 0, 0, 0, 0x48, 0x8d, 0x80, 0x11, 0x22, 0x33, 0x44]
    );
    assert_eq!(offset, 12);
    assert_eq!(addend, 0);
    assert_eq!(modifier, RelocationModifier::SkipNextRelocation);
}

#[test]
fn tlsgd_large_to_local_exec() {
    let r = Relaxation::new(
        object::elf::R_X86_64_TLSGD,
        &tls_gd_large(),
        3,
        flags(&[ValueFlag::CanBypassGot]),
        STATIC_PIE,
        code(),
    );
    assert_eq!(
        decision(r),
        Some((RelaxationKind::TlsGdToLocalExecLarge, info(RelocationKind::TpOff, 4)))
    );
}

#[test]
fn tlsgd_to_initial_exec() {
    let r = Relaxation::new(object::elf::R_X86_64_TLSGD, &tls_gd_regular(), 4, ValueFlags::empty(), DYNAMIC, code());
    assert_eq!(
        decision(r),
        Some((RelaxationKind::TlsGdToInitialExec, info(RelocationKind::GotTpOff, 4)))
    );
}

#[test]
fn tlsgd_large_has_no_initial_exec_form() {
    let r = Relaxation::new(object::elf::R_X86_64_TLSGD, &tls_gd_large(), 3, ValueFlags::empty(), DYNAMIC, code());
    assert_eq!(r, None);
}

#[test]
fn tlsgd_is_only_relaxed_in_a_program() {
    for vf in [ValueFlags::empty(), flags(&[ValueFlag::CanBypassGot])] {
        let r = Relaxation::new(object::elf::R_X86_64_TLSGD, &tls_gd_regular(), 4, vf, OutputKind::SharedObject, code());
        assert_eq!(r, None);
        let r = Relaxation::new(object::elf::R_X86_64_TLSGD, &tls_gd_large(), 3, vf, OutputKind::SharedObject, code());
        assert_eq!(r, None);
    }
}

#[test]
fn tlsgd_with_other_bytes_is_not_relaxed() {
    let mut bytes = tls_gd_regular();
    bytes[0] = 0x67;
    let r = Relaxation::new(
        object::elf::R_X86_64_TLSGD,
        &bytes,
        4,
        flags(&[ValueFlag::CanBypassGot]),
        STATIC,
        code(),
    );
    assert_eq!(r, None);
}

#[test]
fn tlsld_to_local_exec() {
    let bytes = [0x48, 0x8d, 0x3d, 0, 0, 0, 0, 0xe8, 0, 0, 0, 0];
    for vf in [ValueFlags::empty(), flags(&[ValueFlag::CanBypassGot])] {
        let r = Relaxation::new(object::elf::R_X86_64_TLSLD, &bytes, 3, vf, STATIC, code());
        assert_eq!(
            decision(r),
            Some((RelaxationKind::TlsLdToLocalExec, info(RelocationKind::NoRelocation, 0)))
        );
    }
    let r = Relaxation::new(object::elf::R_X86_64_TLSLD, &bytes, 3, ValueFlags::empty(), OutputKind::SharedObject, code());
    assert_eq!(r, None);
    let r = Relaxation::new(object::elf::R_X86_64_TLSLD, &bytes, 4, ValueFlags::empty(), STATIC, code());
    assert_eq!(r, None);
    let other = [0x48, 0x8d, 0x05, 0, 0, 0, 0, 0xe8, 0, 0, 0, 0];
    let r = Relaxation::new(object::elf::R_X86_64_TLSLD, &other, 3, ValueFlags::empty(), STATIC, code());
    assert_eq!(r, None);
}

#[test]
fn ifunc_pc32_goes_through_the_linkage_table() {
    let bytes = [0xe8, 0, 0, 0, 0];
    for output in [STATIC, STATIC_PIE, DYNAMIC, PIE, OutputKind::SharedObject] {
        for section in [code(), SectionFlags::from_raw(0), SectionFlags::from_raw(3)] {
            let r = Relaxation::new(
                object::elf::R_X86_64_PC32,
                &bytes,
                1,
                flags(&[ValueFlag::Ifunc, ValueFlag::CanBypassGot]),
                output,
                section,
            )
            .unwrap();
            assert_eq!(r.debug_kind(), RelaxationKind::NoOp);
            assert_eq!(r.rel_info(), info(RelocationKind::PltRelative, 4));
            let mut out = bytes.to_vec();
            let mut offset = 1;
            let mut addend = 0xffff_ffff_ffff_fffc;
            let mut modifier = RelocationModifier::Normal;
            assert!(r.debug_kind().fits(&out, offset));
            r.apply(&mut out, &mut offset, &mut addend, &mut modifier);
            assert_eq!(out, bytes);
            assert_eq!(offset, 1);
            assert_eq!(addend, 0xffff_ffff_ffff_fffc);
            assert_eq!(modifier, RelocationModifier::Normal);
        }
    }
}

#[test]
fn ifunc_is_never_relaxed() {
    let all = flags(&[
        ValueFlag::Ifunc,
        ValueFlag::Address,
        ValueFlag::Absolute,
        ValueFlag::CanBypassGot,
    ]);
    let samples: [(u32, Vec<u8>, u64); 8] = [
        (object::elf::R_X86_64_REX_GOTPCRELX, vec![0x48, 0x8b, 0x05], 3),
        (object::elf::R_X86_64_GOTPCRELX, vec![0xff, 0x15], 2),
        (object::elf::R_X86_64_GOTPCREL, vec![0x48, 0x8b, 0x05], 3),
        (object::elf::R_X86_64_GOTTPOFF, vec![0x48, 0x8b, 0x05], 3),
        (object::elf::R_X86_64_PLT32, vec![0xe8], 1),
        (object::elf::R_X86_64_PLTOFF64, vec![], 0),
        (object::elf::R_X86_64_TLSGD, tls_gd_regular(), 4),
        (object::elf::R_X86_64_TLSLD, vec![0x48, 0x8d, 0x3d], 3),
    ];
    for (kind, bytes, offset) in samples {
        assert_eq!(Relaxation::new(kind, &bytes, offset, all, STATIC, code()), None, "type {kind}");
        let without = all.without(ValueFlag::Ifunc);
        assert!(Relaxation::new(kind, &bytes, offset, without, STATIC, code()).is_some(), "type {kind}");
    }
    for kind in (0..2).chain(3..64) {
        assert_eq!(Relaxation::new(kind, &[0x48, 0x8b, 0x05], 3, all, STATIC, code()), None);
    }
}

#[test]
fn data_sections_are_not_relaxed() {
    let vf = flags(&[ValueFlag::Address, ValueFlag::Absolute, ValueFlag::CanBypassGot]);
    let samples: [(u32, Vec<u8>, u64); 8] = [
        (object::elf::R_X86_64_REX_GOTPCRELX, vec![0x48, 0x8b, 0x05], 3),
        (object::elf::R_X86_64_GOTPCRELX, vec![0xff, 0x15], 2),
        (object::elf::R_X86_64_GOTPCREL, vec![0x48, 0x8b, 0x05], 3),
        (object::elf::R_X86_64_GOTTPOFF, vec![0x48, 0x8b, 0x05], 3),
        (object::elf::R_X86_64_PLT32, vec![0xe8], 1),
        (object::elf::R_X86_64_PLTOFF64, vec![], 0),
        (object::elf::R_X86_64_TLSGD, tls_gd_regular(), 4),
        (object::elf::R_X86_64_TLSLD, vec![0x48, 0x8d, 0x3d], 3),
    ];
    for (kind, bytes, offset) in samples {
        for raw in [0u64, 1, 2, 3, 0x10, 0xffff_ffff_ffff_fffb] {
            let section = SectionFlags::from_raw(raw);
            assert_eq!(Relaxation::new(kind, &bytes, offset, vf, STATIC, section), None);
        }
        for raw in [4u64, 6, 7, u64::MAX] {
            let section = SectionFlags::from_raw(raw);
            assert!(Relaxation::new(kind, &bytes, offset, vf, STATIC, section).is_some());
        }
    }
}

#[test]
fn relocatable_output_without_constant_or_near_symbol_is_not_relaxed() {
    let vf = flags(&[ValueFlag::Address, ValueFlag::Dynamic]);
    let samples: [(u32, Vec<u8>, u64); 6] = [
        (object::elf::R_X86_64_REX_GOTPCRELX, vec![0x48, 0x8b, 0x05], 3),
        (object::elf::R_X86_64_GOTPCRELX, vec![0x8b, 0x05], 2),
        (object::elf::R_X86_64_GOTPCREL, vec![0x48, 0x8b, 0x05], 3),
        (object::elf::R_X86_64_GOTTPOFF, vec![0x48, 0x8b, 0x05], 3),
        (object::elf::R_X86_64_PLT32, vec![0xe8], 1),
        (object::elf::R_X86_64_PLTOFF64, vec![], 0),
    ];
    for (kind, bytes, offset) in samples {
        for output in [STATIC_PIE, PIE, OutputKind::SharedObject] {
            assert_eq!(Relaxation::new(kind, &bytes, offset, vf, output, code()), None);
        }
    }
    // Thread-local access is not relaxed in a shared object either.
    assert_eq!(
        Relaxation::new(object::elf::R_X86_64_TLSGD, &tls_gd_regular(), 4, vf, OutputKind::SharedObject, code()),
        None
    );
    // With an indirect function, only the redirection is left.
    let ifunc = vf.with(ValueFlag::Ifunc);
    for output in [STATIC_PIE, PIE, OutputKind::SharedObject] {
        let r = Relaxation::new(object::elf::R_X86_64_PC32, &[], 0, ifunc, output, code());
        assert_eq!(decision(r), Some((RelaxationKind::NoOp, info(RelocationKind::PltRelative, 4))));
    }
}

#[test]
fn relocatable_output_decides_without_the_address_flag() {
    let samples: [(u32, Vec<u8>, u64); 8] = [
        (object::elf::R_X86_64_REX_GOTPCRELX, vec![0x48, 0x8b, 0x05], 3),
        (object::elf::R_X86_64_GOTPCRELX, vec![0x8b, 0x05], 2),
        (object::elf::R_X86_64_GOTPCREL, vec![0x48, 0x8b, 0x05], 3),
        (object::elf::R_X86_64_GOTTPOFF, vec![0x48, 0x8b, 0x05], 3),
        (object::elf::R_X86_64_PLT32, vec![0xe8], 1),
        (object::elf::R_X86_64_PC32, vec![0xe8], 1),
        (object::elf::R_X86_64_TLSGD, tls_gd_regular(), 4),
        (object::elf::R_X86_64_TLSLD, vec![0x48, 0x8d, 0x3d], 3),
    ];
    let others = [ValueFlag::Absolute, ValueFlag::Dynamic, ValueFlag::CanBypassGot, ValueFlag::Ifunc];
    for set in 0..16u32 {
        let mut vf = ValueFlags::empty();
        for (bit, flag) in others.iter().enumerate() {
            if set & (1 << bit) != 0 {
                vf = vf.with(*flag);
            }
        }
        for (kind, bytes, offset) in &samples {
            for output in [STATIC_PIE, PIE, OutputKind::SharedObject] {
                assert_eq!(
                    Relaxation::new(*kind, bytes, *offset, vf.with(ValueFlag::Address), output, code()),
                    Relaxation::new(*kind, bytes, *offset, vf, output, code()),
                );
            }
        }
    }
}

#[test]
fn other_relocation_types_are_not_relaxed() {
    let vf = flags(&[ValueFlag::Address, ValueFlag::Absolute, ValueFlag::CanBypassGot]);
    let relaxed = [
        object::elf::R_X86_64_REX_GOTPCRELX,
        object::elf::R_X86_64_GOTPCRELX,
        object::elf::R_X86_64_GOTPCREL,
        object::elf::R_X86_64_GOTTPOFF,
        object::elf::R_X86_64_PLT32,
        object::elf::R_X86_64_PLTOFF64,
        object::elf::R_X86_64_TLSGD,
        object::elf::R_X86_64_TLSLD,
    ];
    for kind in (0..100).chain([u32::MAX, 0x8000_0000, 256 + 4]) {
        if !relaxed.contains(&kind) {
            assert_eq!(Relaxation::new(kind, &[0x48, 0x8b, 0x05], 3, vf, STATIC, code()), None);
        }
    }
}

#[test]
fn decision_does_not_touch_the_bytes() {
    let bytes = tls_gd_regular();
    let copy = bytes.clone();
    let _ = Relaxation::new(object::elf::R_X86_64_TLSGD, &bytes, 4, ValueFlags::empty(), STATIC, code());
    assert_eq!(bytes, copy);
}

#[test]
fn decisions_fit_where_the_place_lies_in_the_section() {
    let vf_sets = [
        flags(&[ValueFlag::Absolute]),
        flags(&[ValueFlag::Address]),
        flags(&[ValueFlag::CanBypassGot]),
        ValueFlags::empty(),
    ];
    let samples: [(u32, Vec<u8>, u64); 8] = [
        (object::elf::R_X86_64_REX_GOTPCRELX, vec![0x48, 0x8b, 0x05], 3),
        (object::elf::R_X86_64_GOTPCRELX, vec![0x8b, 0x05], 2),
        (object::elf::R_X86_64_GOTPCRELX, vec![0xff, 0x15], 2),
        (object::elf::R_X86_64_GOTPCREL, vec![0x48, 0x8b, 0x05], 3),
        (object::elf::R_X86_64_GOTTPOFF, vec![0x4c, 0x8b, 0x05], 3),
        (object::elf::R_X86_64_PLT32, vec![0xe8], 1),
        (object::elf::R_X86_64_TLSGD, tls_gd_regular(), 4),
        (object::elf::R_X86_64_TLSGD, tls_gd_large(), 3),
    ];
    let mut decided = 0;
    for vf in vf_sets {
        for (kind, bytes, offset) in &samples {
            if let Some(r) = Relaxation::new(*kind, bytes, *offset, vf, STATIC, code()) {
                assert!(r.debug_kind().fits(bytes, *offset));
                decided += 1;
            }
        }
    }
    assert_eq!(decided, 14);
}

/// Whether the flags admit a relaxation of a relocation of this type.
fn admitted(kind: u32, vf: ValueFlags, output: OutputKind) -> bool {
    let constant = vf.contains(ValueFlag::Absolute) && !vf.contains(ValueFlag::Dynamic);
    let address = vf.contains(ValueFlag::Address) && !output.is_relocatable();
    let near = vf.contains(ValueFlag::CanBypassGot);
    match kind {
        object::elf::R_X86_64_REX_GOTPCRELX | object::elf::R_X86_64_GOTPCRELX => {
            constant || address || near
        }
        object::elf::R_X86_64_GOTPCREL
        | object::elf::R_X86_64_GOTTPOFF
        | object::elf::R_X86_64_PLT32
        | object::elf::R_X86_64_PLTOFF64 => near,
        object::elf::R_X86_64_TLSGD | object::elf::R_X86_64_TLSLD => output.is_executable(),
        _ => false,
    }
}

fn sample(kind: u32, vf: ValueFlags) -> (Vec<u8>, u64) {
    match kind {
        object::elf::R_X86_64_GOTPCRELX if vf.contains(ValueFlag::CanBypassGot) => (vec![0xff, 0x15], 2),
        object::elf::R_X86_64_GOTPCRELX => (vec![0x8b, 0x05], 2),
        object::elf::R_X86_64_TLSGD => (tls_gd_regular()[..12].to_vec(), 4),
        object::elf::R_X86_64_TLSLD => (vec![0x48, 0x8d, 0x3d], 3),
        _ => (vec![0x48, 0x8b, 0x05], 3),
    }
}

#[test]
fn relaxations_are_decided_for_where_the_flags_admit_them_and_nowhere_else() {
    let others = [ValueFlag::Address, ValueFlag::Absolute, ValueFlag::Dynamic, ValueFlag::CanBypassGot];
    let instructions: [(Vec<u8>, u64); 9] = [
        (vec![0x48, 0x8b, 0x05], 3),
        (vec![0x4c, 0x2b, 0x05], 3),
        (vec![0x48, 0x3b, 0x05], 3),
        (vec![0x8b, 0x05], 2),
        (vec![0xff, 0x15], 2),
        (tls_gd_regular(), 4),
        (tls_gd_large(), 3),
        (vec![0x48, 0x8d, 0x3d], 3),
        (vec![], 0),
    ];
    let mut admitted_count = 0;
    for set in 0..16u32 {
        let mut vf = ValueFlags::empty();
        for (bit, flag) in others.iter().enumerate() {
            if set & (1 << bit) != 0 {
                vf = vf.with(*flag);
            }
        }
        for output in [STATIC, STATIC_PIE, DYNAMIC, PIE, OutputKind::SharedObject] {
            for kind in 0..48u32 {
                let (bytes, offset) = sample(kind, vf);
                let on_sample = Relaxation::new(kind, &bytes, offset, vf, output, code());
                assert_eq!(on_sample.is_some(), admitted(kind, vf, output), "type {kind}, {vf:?}, {output:?}");
                if on_sample.is_some() {
                    admitted_count += 1;
                }
                for (bytes, offset) in &instructions {
                    if Relaxation::new(kind, bytes, *offset, vf, output, code()).is_some() {
                        assert!(admitted(kind, vf, output));
                    }
                }
            }
        }
    }
    assert!(admitted_count > 200);
}
