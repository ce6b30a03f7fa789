use vstd::prelude::*;

verus! {

/// How a text selection on a page is extended (`PopplerSelectionStyle`).
#[derive(Clone, Copy, Debug, PartialEq, Eq, Structural)]
pub enum PopplerSelectionStyle {
    Glyph,
    Word,
    Line,
}

impl PopplerSelectionStyle {
    /// The value that Poppler's C interface uses for each style.
    pub open spec fn spec_c_value(self) -> i32 {
        match self {
            PopplerSelectionStyle::Glyph => 0,
            PopplerSelectionStyle::Word => 1,
            PopplerSelectionStyle::Line => 2,
        }
    }

    /// The value that Poppler's C interface uses for this style.
    pub fn c_value(self) -> (v: i32)
        ensures
            v == self.spec_c_value(),
    {
        match self {
            PopplerSelectionStyle::Glyph => 0,
            PopplerSelectionStyle::Word => 1,
            PopplerSelectionStyle::Line => 2,
        }
    }
}

} // verus!
