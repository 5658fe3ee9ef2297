//! Decoded programs in flattened form.
//!
//! The program decoder hands a program over as pretty-printed text. Its
//! indentation and line breaks carry no meaning, so the text is flattened
//! before any marker is looked for.

use crate::text::layout_free;
use crate::text::strip;
use crate::text::strip_layout;
use vstd::prelude::*;

verus! {

/// The flattened text of a decoded program: its pretty-printed form without
/// spaces and line feeds.
pub struct NormalizedProgram {
    text: Vec<char>,
}

impl View for NormalizedProgram {
    type V = Seq<char>;

    closed spec fn view(&self) -> Seq<char> {
        self.text@
    }
}

impl NormalizedProgram {
    #[verifier::type_invariant]
    spec fn flat(self) -> bool {
        layout_free(self.text@)
    }

    /// The characters of the flattened text. None of them is a space or a
    /// line feed.
    pub fn chars(&self) -> (text: &Vec<char>)
        ensures
            text@ == self@,
            layout_free(self@),
    {
        proof {
            use_type_invariant(self);
        }
        &self.text
    }
}

/// The flattened form of a program given by its pretty-printed text: what is
/// left of `pretty` once every space and line feed is dropped. Total, and
/// blind to how the text was indented or broken into lines.
pub fn normalize(pretty: &str) -> (program: NormalizedProgram)
    ensures
        program@ == strip_layout(pretty@),
{
    NormalizedProgram { text: strip(pretty) }
}

} // verus!
