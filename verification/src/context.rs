//! Kinds of stream context that a dequeue pointer can name.

use vstd::prelude::*;

verus! {

/// The stream context type field of a dequeue pointer, in the order of its
/// three-bit encoding.
#[derive(Clone, Copy, Debug, PartialEq, Eq, Structural)]
pub enum StreamContextType {
    SecondaryRing,
    PrimaryRing,
    PrimarySsa8,
    PrimarySsa16,
    PrimarySsa32,
    PrimarySsa64,
    PrimarySsa128,
    PrimarySsa256,
}

impl StreamContextType {
    /// The three-bit encoding of the type.
    pub open spec fn spec_code(self) -> u8 {
        match self {
            StreamContextType::SecondaryRing => 0,
            StreamContextType::PrimaryRing => 1,
            StreamContextType::PrimarySsa8 => 2,
            StreamContextType::PrimarySsa16 => 3,
            StreamContextType::PrimarySsa32 => 4,
            StreamContextType::PrimarySsa64 => 5,
            StreamContextType::PrimarySsa128 => 6,
            StreamContextType::PrimarySsa256 => 7,
        }
    }

    pub fn code(self) -> (c: u8)
        ensures
            c == self.spec_code(),
            c < 8,
    {
        match self {
            StreamContextType::SecondaryRing => 0,
            StreamContextType::PrimaryRing => 1,
            StreamContextType::PrimarySsa8 => 2,
            StreamContextType::PrimarySsa16 => 3,
            StreamContextType::PrimarySsa32 => 4,
            StreamContextType::PrimarySsa64 => 5,
            StreamContextType::PrimarySsa128 => 6,
            StreamContextType::PrimarySsa256 => 7,
        }
    }
}

} // verus!
