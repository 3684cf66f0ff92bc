//! Code pairs: the atomic tokens of the wire format.

use vstd::prelude::*;

use crate::double::Double;
use crate::error::DxfError;

verus! {

/// The typed value of a code pair.
#[derive(Debug, PartialEq)]
pub enum CodePairValue {
    Str(String),
    Short(i16),
    Integer(i32),
    Double(Double),
    Boolean(bool),
}

/// A code pair: an integer tag followed by a typed value.
#[derive(Debug, PartialEq)]
pub struct CodePair {
    pub code: u16,
    pub value: CodePairValue,
}

/// Abstract value of a code pair's payload.
pub ghost enum ValueV {
    Str(Seq<char>),
    Short(i16),
    Integer(i32),
    Double(u64),
    Boolean(bool),
}

/// Abstract value of a code pair.
pub ghost struct PairV {
    pub code: u16,
    pub value: ValueV,
}

/// A pair holding a string, in the abstract.
pub open spec fn pv_str(code: u16, s: Seq<char>) -> PairV {
    PairV { code, value: ValueV::Str(s) }
}

/// A pair holding a 16-bit integer, in the abstract.
pub open spec fn pv_short(code: u16, v: i16) -> PairV {
    PairV { code, value: ValueV::Short(v) }
}

/// A pair holding a double (by bit pattern), in the abstract.
pub open spec fn pv_double(code: u16, bits: u64) -> PairV {
    PairV { code, value: ValueV::Double(bits) }
}

impl View for CodePairValue {
    type V = ValueV;

    open spec fn view(&self) -> ValueV {
        match self {
            CodePairValue::Str(s) => ValueV::Str(s@),
            CodePairValue::Short(v) => ValueV::Short(*v),
            CodePairValue::Integer(v) => ValueV::Integer(*v),
            CodePairValue::Double(d) => ValueV::Double(d.spec_bits()),
            CodePairValue::Boolean(b) => ValueV::Boolean(*b),
        }
    }
}

impl View for CodePair {
    type V = PairV;

    open spec fn view(&self) -> PairV {
        PairV { code: self.code, value: self.value@ }
    }
}

impl Clone for CodePairValue {
    fn clone(&self) -> (r: Self)
        ensures
            r@ == self@,
    {
        match self {
            CodePairValue::Str(s) => CodePairValue::Str(s.clone()),
            CodePairValue::Short(v) => CodePairValue::Short(*v),
            CodePairValue::Integer(v) => CodePairValue::Integer(*v),
            CodePairValue::Double(d) => CodePairValue::Double(*d),
            CodePairValue::Boolean(b) => CodePairValue::Boolean(*b),
        }
    }
}

impl Clone for CodePair {
    fn clone(&self) -> (r: Self)
        ensures
            r@ == self@,
    {
        CodePair { code: self.code, value: self.value.clone() }
    }
}

impl CodePair {
    /// A pair holding a borrowed string.
    pub fn new_str(code: u16, val: &str) -> (r: CodePair)
        ensures
            r@ == pv_str(code, val@),
    {
        CodePair { code, value: CodePairValue::Str(val.to_owned()) }
    }

    /// A pair holding an owned string.
    pub fn new_string(code: u16, val: String) -> (r: CodePair)
        ensures
            r@ == pv_str(code, val@),
    {
        CodePair { code, value: CodePairValue::Str(val) }
    }

    /// A pair holding a 16-bit integer.
    pub fn new_i16(code: u16, val: i16) -> (r: CodePair)
        ensures
            r@ == pv_short(code, val),
    {
        CodePair { code, value: CodePairValue::Short(val) }
    }

    /// A pair holding a 32-bit integer.
    pub fn new_i32(code: u16, val: i32) -> (r: CodePair)
        ensures
            r@ == (PairV { code, value: ValueV::Integer(val) }),
    {
        CodePair { code, value: CodePairValue::Integer(val) }
    }

    /// A pair holding a double-precision value.
    pub fn new_double(code: u16, val: Double) -> (r: CodePair)
        ensures
            r@ == pv_double(code, val.spec_bits()),
    {
        CodePair { code, value: CodePairValue::Double(val) }
    }

    /// A pair holding a boolean.
    pub fn new_bool(code: u16, val: bool) -> (r: CodePair)
        ensures
            r@ == (PairV { code, value: ValueV::Boolean(val) }),
    {
        CodePair { code, value: CodePairValue::Boolean(val) }
    }

    /// The pair's string payload; any other payload is a malformed pair.
    pub fn assert_string(&self) -> (r: Result<String, DxfError>)
        ensures
            match r {
                Ok(s) => self@.value matches ValueV::Str(t) && s@ == t,
                Err(e) => !(self@.value is Str) && e@ == crate::error::ErrV::WrongValue(self@),
            },
    {
        match &self.value {
            CodePairValue::Str(s) => Ok(s.clone()),
            _ => Err(DxfError::WrongValueType(self.clone())),
        }
    }

    /// The pair's 16-bit integer payload; any other payload is a malformed pair.
    pub fn assert_i16(&self) -> (r: Result<i16, DxfError>)
        ensures
            match r {
                Ok(v) => self@.value == ValueV::Short(v),
                Err(e) => !(self@.value is Short) && e@ == crate::error::ErrV::WrongValue(self@),
            },
    {
        match &self.value {
            CodePairValue::Short(v) => Ok(*v),
            _ => Err(DxfError::WrongValueType(self.clone())),
        }
    }

    /// The pair's double payload; any other payload is a malformed pair.
    pub fn assert_double(&self) -> (r: Result<Double, DxfError>)
        ensures
            match r {
                Ok(d) => self@.value == ValueV::Double(d.spec_bits()),
                Err(e) => !(self@.value is Double) && e@ == crate::error::ErrV::WrongValue(self@),
            },
    {
        match &self.value {
            CodePairValue::Double(d) => Ok(*d),
            _ => Err(DxfError::WrongValueType(self.clone())),
        }
    }
}

} // verus!
