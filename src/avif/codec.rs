use vstd::prelude::*;

verus! {

/// The AV1 codec library that the AVIF encoder uses.
#[derive(Debug, Clone, Copy, PartialEq, Eq, Structural)]
pub enum Codec {
    Auto,
    Aom,
    Dav1d,
    LibGav1,
    Rav1e,
    Svt,
}

/// The encoder's numbering of the codec choices.
pub open spec fn spec_choice(codec: Codec) -> u32 {
    match codec {
        Codec::Auto => 0,
        Codec::Aom => 1,
        Codec::Dav1d => 2,
        Codec::LibGav1 => 3,
        Codec::Rav1e => 4,
        Codec::Svt => 5,
    }
}

impl Codec {
    /// The encoder's code of this choice.
    pub fn to_choice(self) -> (r: u32)
        ensures
            r == spec_choice(self),
    {
        match self {
            Codec::Auto => 0,
            Codec::Aom => 1,
            Codec::Dav1d => 2,
            Codec::LibGav1 => 3,
            Codec::Rav1e => 4,
            Codec::Svt => 5,
        }
    }

    /// The choice of a code; an unknown code means `Auto`.
    pub fn from_choice(choice: u32) -> (r: Codec)
        ensures
            choice <= 5 ==> spec_choice(r) == choice,
            choice > 5 ==> r == Codec::Auto,
    {
        match choice {
            1 => Codec::Aom,
            2 => Codec::Dav1d,
            3 => Codec::LibGav1,
            4 => Codec::Rav1e,
            5 => Codec::Svt,
            _ => Codec::Auto,
        }
    }
}

} // verus!
