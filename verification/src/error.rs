//! What can go wrong.

use crate::text::{spec_rel_type_to_string, x86_64_rel_type_to_string};
use vstd::prelude::*;
use vstd::string::StringExecFns;

verus! {

/// Why a request was not carried out.
#[derive(Clone, Copy, Debug, PartialEq, Eq, Structural)]
pub enum Error {
    /// The number is not that of a relocation type that the linker applies.
    UnsupportedRelocation(u32),
    /// The global offset table entry is too far from the linkage stub for
    /// the signed 32-bit displacement of the stub's jump.
    PltGotTooFar,
    /// A relaxation was chosen whose rewrite would write outside the
    /// section. The bytes that the choice was made on do not hold the
    /// whole instruction sequence.
    RewriteOutOfBounds,
}

impl Error {
    /// The error in words.
    pub open spec fn spec_message(self) -> Seq<char> {
        match self {
            Error::UnsupportedRelocation(r_type) => "Unsupported relocation type "@
                + spec_rel_type_to_string(r_type),
            Error::PltGotTooFar => "PLT is more than 2 GiB away from GOT"@,
            Error::RewriteOutOfBounds => "Relaxation would write outside of the section"@,
        }
    }

    /// The error in words.
    pub fn message(&self) -> (text: String)
        ensures
            text@ == self.spec_message(),
    {
        match self {
            Error::UnsupportedRelocation(r_type) => {
                let name = x86_64_rel_type_to_string(*r_type);
                String::from_str("Unsupported relocation type ").concat(name.as_str())
            },
            Error::PltGotTooFar => String::from_str("PLT is more than 2 GiB away from GOT"),
            Error::RewriteOutOfBounds => String::from_str(
                "Relaxation would write outside of the section",
            ),
        }
    }
}

} // verus!
