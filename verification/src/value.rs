//! Runtime values and the static type domain.

use vstd::prelude::*;

verus! {

/// A runtime value of the language: a 64-bit integer or a boolean.
/// Its tag doubles as the static type of a well-typed expression.
#[derive(Clone, Copy, Debug, PartialEq, Eq, Structural)]
pub enum SilverValue {
    Number(i64),
    Boolean(bool),
}

/// A static type: the two value types plus the poison type assigned to
/// expressions that already carry a reported error, which suppresses
/// duplicate diagnostics one level up.
#[derive(Clone, Copy, Debug, PartialEq, Eq, Structural)]
pub enum SilverType {
    Number,
    Boolean,
    Error,
}

/// The static type of a runtime value, read off its tag.
pub open spec fn spec_type_of(v: SilverValue) -> SilverType {
    match v {
        SilverValue::Number(_) => SilverType::Number,
        SilverValue::Boolean(_) => SilverType::Boolean,
    }
}

impl SilverValue {
    /// The static type of this value.
    pub fn silver_type(&self) -> (r: SilverType)
        ensures
            r == spec_type_of(*self),
    {
        match self {
            SilverValue::Number(_) => SilverType::Number,
            SilverValue::Boolean(_) => SilverType::Boolean,
        }
    }
}

/// The display name of a static type.
pub open spec fn spec_type_name(t: SilverType) -> Seq<char> {
    match t {
        SilverType::Number => "Number"@,
        SilverType::Boolean => "Boolean"@,
        SilverType::Error => "?"@,
    }
}

impl SilverType {
    /// The display name of this type.
    pub fn name(&self) -> (r: &'static str)
        ensures
            r@ == spec_type_name(*self),
    {
        match self {
            SilverType::Number => "Number",
            SilverType::Boolean => "Boolean",
            SilverType::Error => "?",
        }
    }
}

} // verus!
