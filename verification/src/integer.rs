//! Integer types of the language: signedness and width.

use vstd::prelude::*;
use vstd::string::*;
use crate::text::{decimal_string, decimal_text};

verus! {

/// An integer type. `size` is the width in bits; `None` stands for the
/// width of a pointer.
#[derive(Clone, Copy, Debug, PartialEq, Eq, Hash, Structural)]
pub struct Int {
    pub signed: bool,
    pub size: Option<u8>,
}

impl Int {
    /// The name of the type: `i` or `u`, then the width or `size`.
    pub open spec fn text(self) -> Seq<char> {
        (if self.signed {
            "i"@
        } else {
            "u"@
        }) + (match self.size {
            Some(size) => decimal_text(size as nat),
            None => "size"@,
        })
    }

    pub fn new(signed: bool, size: Option<u8>) -> (ty: Int)
        ensures
            ty == (Int { signed, size }),
    {
        Int { signed, size }
    }

    pub fn signed(size: Option<u8>) -> (ty: Int)
        ensures
            ty == (Int { signed: true, size }),
    {
        Int::new(true, size)
    }

    pub fn unsigned(size: Option<u8>) -> (ty: Int)
        ensures
            ty == (Int { signed: false, size }),
    {
        Int::new(false, size)
    }

    /// The name of the type.
    pub fn to_string(&self) -> (name: String)
        ensures
            name@ == self.text(),
    {
        let mut name = if self.signed {
            "i".to_owned()
        } else {
            "u".to_owned()
        };
        match self.size {
            Some(size) => {
                let width = decimal_string(size as u128);
                name.append(width.as_str());
            },
            None => {
                name.append("size");
            },
        }
        name
    }

    pub fn i8() -> (ty: Int)
        ensures
            ty == (Int { signed: true, size: Some(8u8) }),
    {
        Int::signed(Some(8))
    }

    pub fn i16() -> (ty: Int)
        ensures
            ty == (Int { signed: true, size: Some(16u8) }),
    {
        Int::signed(Some(16))
    }

    pub fn i32() -> (ty: Int)
        ensures
            ty == (Int { signed: true, size: Some(32u8) }),
    {
        Int::signed(Some(32))
    }

    pub fn i64() -> (ty: Int)
        ensures
            ty == (Int { signed: true, size: Some(64u8) }),
    {
        Int::signed(Some(64))
    }

    pub fn i128() -> (ty: Int)
        ensures
            ty == (Int { signed: true, size: Some(128u8) }),
    {
        Int::signed(Some(128))
    }

    pub fn isize() -> (ty: Int)
        ensures
            ty == (Int { signed: true, size: None }),
    {
        Int::signed(None)
    }

    pub fn u8() -> (ty: Int)
        ensures
            ty == (Int { signed: false, size: Some(8u8) }),
    {
        Int::unsigned(Some(8))
    }

    pub fn u16() -> (ty: Int)
        ensures
            ty == (Int { signed: false, size: Some(16u8) }),
    {
        Int::unsigned(Some(16))
    }

    pub fn u32() -> (ty: Int)
        ensures
            ty == (Int { signed: false, size: Some(32u8) }),
    {
        Int::unsigned(Some(32))
    }

    pub fn u64() -> (ty: Int)
        ensures
            ty == (Int { signed: false, size: Some(64u8) }),
    {
        Int::unsigned(Some(64))
    }

    pub fn u128() -> (ty: Int)
        ensures
            ty == (Int { signed: false, size: Some(128u8) }),
    {
        Int::unsigned(Some(128))
    }

    pub fn usize() -> (ty: Int)
        ensures
            ty == (Int { signed: false, size: None }),
    {
        Int::unsigned(None)
    }
}

} // verus!
