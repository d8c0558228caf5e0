//! Decision and rewrite together: what the section writer does for one
//! relocation before it applies it.
//!
//! The decision is made on the bytes as they were found, and the rewrite
//! follows at once, before any other relocation of the section is looked
//! at. Where no relaxation is decided for, nothing is touched.

use crate::decider::{decide, Relaxation};
use crate::error::Error;
use crate::flags::{OutputKind, SectionFlags, ValueFlags};
use crate::relaxation::RelocationModifier;
use vstd::prelude::*;

verus! {

/// What comes of a decision at `offset` in `bytes`: the decision itself,
/// unless its rewrite would write outside of `bytes`.
pub open spec fn relax_outcome(decision: Option<Relaxation>, bytes: Seq<u8>, offset: int) -> Result<
    Option<Relaxation>,
    Error,
> {
    match decision {
        None => Ok(None),
        Some(relaxation) => if relaxation.kind.applicable(bytes, offset) {
            Ok(Some(relaxation))
        } else {
            Err(Error::RewriteOutOfBounds)
        },
    }
}

/// Decides whether the instruction at a relocation is rewritten and, if so,
/// rewrites it.
///
/// The arguments are those of [`Relaxation::new`] and of
/// [`Relaxation::apply`]. The relaxation that was carried out is returned:
/// the relocation is then applied as its `rel_info` says, at the place that
/// `offset_in_section` holds afterwards. Where none was decided for, and
/// where the one that was decided for does not fit the section, the bytes,
/// the place, the addend and the modifier are left as they were.
pub fn relax_in_place(
    relocation_kind: u32,
    section_bytes: &mut [u8],
    offset_in_section: &mut u64,
    addend: &mut u64,
    next_modifier: &mut RelocationModifier,
    value_flags: ValueFlags,
    output_kind: OutputKind,
    section_flags: SectionFlags,
) -> (outcome: Result<Option<Relaxation>, Error>)
    ensures
        outcome == relax_outcome(
            decide(
                relocation_kind,
                old(section_bytes)@,
                *old(offset_in_section) as int,
                value_flags,
                output_kind,
                section_flags,
            ),
            old(section_bytes)@,
            *old(offset_in_section) as int,
        ),
        outcome matches Ok(Some(relaxation)) ==> {
            &&& final(section_bytes)@ == relaxation.kind.rewritten(
                old(section_bytes)@,
                *old(offset_in_section) as int,
            )
            &&& *final(offset_in_section) == *old(offset_in_section) + relaxation.kind.advance(
                old(section_bytes)@,
                *old(offset_in_section) as int,
            )
            &&& *final(addend) == relaxation.kind.addend_after(*old(addend))
            &&& *final(next_modifier) == relaxation.kind.modifier_after(*old(next_modifier))
        },
        decide(
            relocation_kind,
            old(section_bytes)@,
            *old(offset_in_section) as int,
            value_flags,
            output_kind,
            section_flags,
        ) is None ==> outcome == Ok::<Option<Relaxation>, Error>(None) && final(section_bytes)@
            == old(section_bytes)@,
        !(outcome matches Ok(Some(_))) ==> {
            &&& final(section_bytes)@ == old(section_bytes)@
            &&& *final(offset_in_section) == *old(offset_in_section)
            &&& *final(addend) == *old(addend)
            &&& *final(next_modifier) == *old(next_modifier)
        },
        final(section_bytes)@.len() == old(section_bytes)@.len(),
{
    let decision = Relaxation::new(
        relocation_kind,
        section_bytes,
        *offset_in_section,
        value_flags,
        output_kind,
        section_flags,
    );
    match decision {
        None => Ok(None),
        Some(relaxation) => {
            if !relaxation.kind.fits(section_bytes, *offset_in_section) {
                return Err(Error::RewriteOutOfBounds);
            }
            relaxation.apply(section_bytes, offset_in_section, addend, next_modifier);
            Ok(Some(relaxation))
        },
    }
}

} // verus!
