//! Floating-point types of the language: the width only.

use vstd::prelude::*;
use vstd::string::*;
use crate::text::{decimal_string, decimal_text};

verus! {

/// A floating-point type of `size` bits.
#[derive(Clone, Copy, Debug, PartialEq, Eq, Hash, Structural)]
pub struct Float {
    pub size: u8,
}

impl Float {
    /// The name of the type: `f`, then the width.
    pub open spec fn text(self) -> Seq<char> {
        "f"@ + decimal_text(self.size as nat)
    }

    pub fn new(size: u8) -> (float: Float)
        ensures
            float == (Float { size }),
    {
        Float { size }
    }

    /// The 16-bit type.
    pub fn half() -> (float: Float)
        ensures
            float == (Float { size: 16 }),
    {
        Float::new(16)
    }

    /// The 32-bit type.
    pub fn single() -> (float: Float)
        ensures
            float == (Float { size: 32 }),
    {
        Float::new(32)
    }

    /// The 64-bit type.
    pub fn double() -> (float: Float)
        ensures
            float == (Float { size: 64 }),
    {
        Float::new(64)
    }

    /// The name of the type.
    pub fn to_string(&self) -> (name: String)
        ensures
            name@ == self.text(),
    {
        let mut name = "f".to_owned();
        let width = decimal_string(self.size as u128);
        name.append(width.as_str());
        name
    }
}

} // verus!
