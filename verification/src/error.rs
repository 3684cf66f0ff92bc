//! Errors surfaced by the header codec.

use vstd::prelude::*;

use crate::pair::{CodePair, PairV};

verus! {

/// A failure while reading a pair stream.
#[derive(Debug, PartialEq)]
pub enum DxfError {
    /// A pair appeared where the format does not allow it: a top-level tag
    /// other than 0 or 9, or a tag that no rule of the named variable
    /// accepts at the current version.  The string carries the variable
    /// name when one is known.
    UnexpectedCodePair(CodePair, String),
    /// A pair's value has the wrong type for the field it addresses.
    WrongValueType(CodePair),
}

/// Abstract value of a read failure.
pub ghost enum ErrV {
    Unexpected(PairV, Seq<char>),
    WrongValue(PairV),
}

impl View for DxfError {
    type V = ErrV;

    open spec fn view(&self) -> ErrV {
        match self {
            DxfError::UnexpectedCodePair(p, ctx) => ErrV::Unexpected(p@, ctx@),
            DxfError::WrongValueType(p) => ErrV::WrongValue(p@),
        }
    }
}

} // verus!
