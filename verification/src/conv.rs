//! Conversion of the values that a row shows into text.

use vstd::prelude::*;

verus! {

/// A value that a row can show as text.
pub trait ConvToString: Sized {
    /// The text that stands for the value.
    spec fn text(self) -> Seq<char>;

    /// Converts the value into its text.
    fn conv_to_string(self) -> (s: String)
        ensures
            s@ == self.text(),
    ;
}

impl ConvToString for String {
    open spec fn text(self) -> Seq<char> {
        self@
    }

    fn conv_to_string(self) -> (s: String) {
        self
    }
}

} // verus!
