use x86_64_relax::flags::{OutputKind, RelocationModel, SectionFlags, ValueFlag, ValueFlags};

const FLAGS: [ValueFlag; 5] = [
    ValueFlag::Address,
    ValueFlag::Absolute,
    ValueFlag::Dynamic,
    ValueFlag::CanBypassGot,
    ValueFlag::Ifunc,
];

#[test]
fn empty_value_flags_hold_nothing() {
    for flag in FLAGS {
        assert!(!ValueFlags::empty().contains(flag));
    }
}

#[test]
fn value_flags_are_a_set() {
    for a in FLAGS {
        let one = ValueFlags::empty().with(a);
        assert_eq!(one.with(a), one);
        assert_eq!(one.without(a), ValueFlags::empty());
        for b in FLAGS {
            assert_eq!(one.contains(b), a == b);
            let two = one.with(b);
            assert_eq!(two, ValueFlags::empty().with(b).with(a));
            for c in FLAGS {
                assert_eq!(two.contains(c), c == a || c == b);
                assert_eq!(two.without(b).contains(c), c == a && c != b);
            }
        }
    }
}

#[test]
fn section_flags_hold_what_they_were_made_of() {
    for raw in [0u64, 1, 4, 6, 0x30, u64::MAX, 1 << 63] {
        assert_eq!(SectionFlags::from_raw(raw).raw(), raw);
    }
    assert_eq!(SectionFlags::execinstr().raw(), 4);
    assert_eq!(SectionFlags::execinstr().raw(), object::elf::SHF_EXECINSTR as u64);
}

#[test]
fn section_flags_contain_their_subsets() {
    let code = SectionFlags::execinstr();
    assert!(SectionFlags::from_raw(6).contains(code));
    assert!(SectionFlags::from_raw(4).contains(code));
    assert!(!SectionFlags::from_raw(3).contains(code));
    assert!(!SectionFlags::from_raw(0).contains(code));
    assert!(SectionFlags::from_raw(7).contains(SectionFlags::from_raw(5)));
    assert!(!SectionFlags::from_raw(6).contains(SectionFlags::from_raw(5)));
    assert!(SectionFlags::from_raw(0).contains(SectionFlags::from_raw(0)));
}

#[test]
fn output_kinds() {
    let table = [
        (OutputKind::StaticExecutable(RelocationModel::NonRelocatable), true, false),
        (OutputKind::StaticExecutable(RelocationModel::Relocatable), true, true),
        (OutputKind::DynamicExecutable(RelocationModel::NonRelocatable), true, false),
        (OutputKind::DynamicExecutable(RelocationModel::Relocatable), true, true),
        (OutputKind::SharedObject, false, true),
    ];
    for (kind, executable, relocatable) in table {
        assert_eq!(kind.is_executable(), executable, "{kind:?}");
        assert_eq!(kind.is_relocatable(), relocatable, "{kind:?}");
    }
}
