//! Conversion of the string arguments that the builders and constructors take.
use vstd::prelude::*;

verus! {

/// A value that can be turned into an owned `String`: `&str`, `String` and
/// `&String`.
pub trait IntoText {
    /// The characters of the text.
    spec fn text(&self) -> Seq<char>;

    /// The owned text.
    fn into_text(self) -> (r: String)
        ensures
            r@ == self.text(),
    ;
}

impl IntoText for String {
    open spec fn text(&self) -> Seq<char> {
        self@
    }

    fn into_text(self) -> (r: String) {
        self
    }
}

impl<'a> IntoText for &'a str {
    open spec fn text(&self) -> Seq<char> {
        self@
    }

    fn into_text(self) -> (r: String) {
        self.to_owned()
    }
}

impl<'a> IntoText for &'a String {
    open spec fn text(&self) -> Seq<char> {
        self@
    }

    fn into_text(self) -> (r: String) {
        self.clone()
    }
}

} // verus!
