//! What the rest of the linker tells the relaxation code about a relocation:
//! the flags of the symbol it refers to, the flags of the section it sits
//! in, and the kind of file that is being written.

use crate::elf;
use vstd::prelude::*;

verus! {

/// One thing that symbol resolution found out about a symbol's value.
#[derive(Clone, Copy, Debug, PartialEq, Eq, Structural)]
pub enum ValueFlag {
    /// The value is an address that is known when the program runs.
    Address,
    /// The value is a constant, not an address.
    Absolute,
    /// The dynamic loader supplies the value. What `Absolute` says cannot
    /// be relied on then.
    Dynamic,
    /// The definition is near enough that a reference need not go through
    /// the global offset table.
    CanBypassGot,
    /// The symbol is an indirect function: a resolver picks its address at
    /// load time, so it is only ever reached through a linkage stub.
    Ifunc,
}

impl ValueFlag {
    /// The bit that stands for this flag in a [`ValueFlags`].
    spec fn spec_bit(self) -> u8 {
        match self {
            ValueFlag::Address => 1,
            ValueFlag::Absolute => 2,
            ValueFlag::Dynamic => 4,
            ValueFlag::CanBypassGot => 8,
            ValueFlag::Ifunc => 16,
        }
    }

    fn bit(self) -> (b: u8)
        ensures
            b == self.spec_bit(),
    {
        match self {
            ValueFlag::Address => 1,
            ValueFlag::Absolute => 2,
            ValueFlag::Dynamic => 4,
            ValueFlag::CanBypassGot => 8,
            ValueFlag::Ifunc => 16,
        }
    }
}

/// A set of [`ValueFlag`]s.
#[derive(Clone, Copy, Debug, PartialEq, Eq)]
pub struct ValueFlags {
    bits: u8,
}

impl View for ValueFlags {
    type V = Set<ValueFlag>;

    closed spec fn view(&self) -> Set<ValueFlag> {
        Set::new(|flag: ValueFlag| self.bits & flag.spec_bit() != 0)
    }
}

proof fn lemma_bit_set(bits: u8, mask: u8, other: u8)
    by (bit_vector)
    requires
        mask == 1 || mask == 2 || mask == 4 || mask == 8 || mask == 16,
        other == 1 || other == 2 || other == 4 || other == 8 || other == 16,
    ensures
        0u8 & mask == 0,
        ((bits | mask) & other != 0) == (mask == other || bits & other != 0),
        ((bits & !mask) & other != 0) == (mask != other && bits & other != 0),
{
}

impl ValueFlags {
    /// The set without a flag.
    pub fn empty() -> (flags: ValueFlags)
        ensures
            flags@ == Set::<ValueFlag>::empty(),
    {
        let flags = ValueFlags { bits: 0 };
        proof {
            assert forall|flag: ValueFlag| !flags@.contains(flag) by {
                lemma_bit_set(0, flag.spec_bit(), flag.spec_bit());
            }
            assert(flags@ =~= Set::<ValueFlag>::empty());
        }
        flags
    }

    /// This set and `flag`.
    pub fn with(self, flag: ValueFlag) -> (flags: ValueFlags)
        ensures
            flags@ == self@.insert(flag),
    {
        let flags = ValueFlags { bits: self.bits | flag.bit() };
        proof {
            assert forall|other: ValueFlag|
                flags@.contains(other) == self@.insert(flag).contains(other) by {
                lemma_bit_set(self.bits, flag.spec_bit(), other.spec_bit());
            }
            assert(flags@ =~= self@.insert(flag));
        }
        flags
    }

    /// This set less `flag`.
    pub fn without(self, flag: ValueFlag) -> (flags: ValueFlags)
        ensures
            flags@ == self@.remove(flag),
    {
        let flags = ValueFlags { bits: self.bits & !flag.bit() };
        proof {
            assert forall|other: ValueFlag|
                flags@.contains(other) == self@.remove(flag).contains(other) by {
                lemma_bit_set(self.bits, flag.spec_bit(), other.spec_bit());
            }
            assert(flags@ =~= self@.remove(flag));
        }
        flags
    }

    /// Whether `flag` is in this set.
    pub fn contains(self, flag: ValueFlag) -> (b: bool)
        ensures
            b == self@.contains(flag),
    {
        self.bits & flag.bit() != 0
    }
}

/// The `sh_flags` of an ELF section.
#[derive(Clone, Copy, Debug, PartialEq, Eq)]
pub struct SectionFlags {
    raw: u64,
}

impl SectionFlags {
    /// The flags as the section header holds them.
    pub closed spec fn spec_raw(self) -> u64 {
        self.raw
    }

    /// Whether every flag of `flags` is among these.
    pub open spec fn spec_contains(self, flags: SectionFlags) -> bool {
        self.spec_raw() & flags.spec_raw() == flags.spec_raw()
    }

    /// Whether the section holds machine instructions: `SHF_EXECINSTR`,
    /// which is bit 2 of the flags.
    pub open spec fn is_executable(self) -> bool {
        self.spec_raw() & 4 != 0
    }

    /// The flags of a section header.
    pub fn from_raw(raw: u64) -> (flags: SectionFlags)
        ensures
            flags.spec_raw() == raw,
    {
        SectionFlags { raw }
    }

    /// The flags as the section header holds them.
    #[verifier::when_used_as_spec(spec_raw)]
    pub fn raw(self) -> (raw: u64)
        ensures
            raw == self.spec_raw(),
    {
        self.raw
    }

    /// The flag of a section that holds machine instructions, and no other.
    pub fn execinstr() -> (flags: SectionFlags)
        ensures
            flags.spec_raw() == 4,
    {
        SectionFlags { raw: elf::shf_execinstr() as u64 }
    }

    /// Whether every flag of `flags` is among these.
    #[verifier::when_used_as_spec(spec_contains)]
    pub fn contains(self, flags: SectionFlags) -> (b: bool)
        ensures
            b == self.spec_contains(flags),
    {
        self.raw & flags.raw == flags.raw
    }
}

/// For a section with the flags `raw`, holding the executable flag and
/// holding machine instructions are one thing.
pub proof fn lemma_execinstr_is_one_bit(raw: u64)
    by (bit_vector)
    ensures
        (raw & 4 == 4) == (raw & 4 != 0),
{
}

/// Whether the addresses in the output are fixed when it is linked.
#[derive(Clone, Copy, Debug, PartialEq, Eq, Structural)]
pub enum RelocationModel {
    /// The output runs at the address it was linked for.
    NonRelocatable,
    /// The output may be loaded at any address.
    Relocatable,
}

/// The kind of file that the linker writes.
#[derive(Clone, Copy, Debug, PartialEq, Eq, Structural)]
pub enum OutputKind {
    /// An executable that needs no dynamic loader.
    StaticExecutable(RelocationModel),
    /// An executable that a dynamic loader completes.
    DynamicExecutable(RelocationModel),
    /// A shared object.
    SharedObject,
}

impl OutputKind {
    /// Whether the output is a program, not a library.
    pub open spec fn spec_is_executable(self) -> bool {
        !(self is SharedObject)
    }

    /// Whether the output may be loaded at an address other than the one it
    /// was linked for, so that no address is known at link time.
    pub open spec fn spec_is_relocatable(self) -> bool {
        match self {
            OutputKind::StaticExecutable(model) => model is Relocatable,
            OutputKind::DynamicExecutable(model) => model is Relocatable,
            OutputKind::SharedObject => true,
        }
    }

    /// Whether the output is a program, not a library.
    #[verifier::when_used_as_spec(spec_is_executable)]
    pub fn is_executable(self) -> (b: bool)
        ensures
            b == self.spec_is_executable(),
    {
        match self {
            OutputKind::SharedObject => false,
            _ => true,
        }
    }

    /// Whether the output may be loaded at an address other than the one it
    /// was linked for.
    #[verifier::when_used_as_spec(spec_is_relocatable)]
    pub fn is_relocatable(self) -> (b: bool)
        ensures
            b == self.spec_is_relocatable(),
    {
        match self {
            OutputKind::StaticExecutable(RelocationModel::Relocatable) => true,
            OutputKind::DynamicExecutable(RelocationModel::Relocatable) => true,
            OutputKind::SharedObject => true,
            _ => false,
        }
    }
}

} // verus!
