use vstd::prelude::*;

pub mod settings;
pub mod wav;

verus! {

/// Noise color: the shape of the spectrum of the generated noise.
#[derive(Clone, Copy, Debug, PartialEq, Eq, Structural)]
pub enum NoiseColor {
    White,
    Pink,
    Brownian,
    Blue,
    Violet,
    Grey,
}

impl NoiseColor {
    /// The lower-case name of the color, as it is shown to the user.
    pub open spec fn spec_name(self) -> Seq<char> {
        match self {
            NoiseColor::White => "white"@,
            NoiseColor::Pink => "pink"@,
            NoiseColor::Brownian => "brownian"@,
            NoiseColor::Blue => "blue"@,
            NoiseColor::Violet => "violet"@,
            NoiseColor::Grey => "grey"@,
        }
    }

    /// The lower-case name of the color.
    pub fn name(&self) -> (s: &'static str)
        ensures
            s@ == self.spec_name(),
            *self == NoiseColor::White ==> s@ == "white"@,
            *self == NoiseColor::Pink ==> s@ == "pink"@,
            *self == NoiseColor::Brownian ==> s@ == "brownian"@,
            *self == NoiseColor::Blue ==> s@ == "blue"@,
            *self == NoiseColor::Violet ==> s@ == "violet"@,
            *self == NoiseColor::Grey ==> s@ == "grey"@,
    {
        match self {
            NoiseColor::White => "white",
            NoiseColor::Pink => "pink",
            NoiseColor::Brownian => "brownian",
            NoiseColor::Blue => "blue",
            NoiseColor::Violet => "violet",
            NoiseColor::Grey => "grey",
        }
    }

    /// The lower-case name of the color, as an owned string.
    pub fn to_string(&self) -> (s: String)
        ensures
            s@ == self.spec_name(),
    {
        String::from_str(self.name())
    }
}

/// Distinct noise colors have distinct names.
pub proof fn lemma_color_names_distinct(a: NoiseColor, b: NoiseColor)
    ensures
        a.spec_name() == b.spec_name() ==> a == b,
{
    reveal_strlit("white");
    reveal_strlit("pink");
    reveal_strlit("brownian");
    reveal_strlit("blue");
    reveal_strlit("violet");
    reveal_strlit("grey");
    if a.spec_name() == b.spec_name() {
        assert(a.spec_name().len() == b.spec_name().len());
        assert(a.spec_name()[0] == b.spec_name()[0]);
    }
}

} // verus!
