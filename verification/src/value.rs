//! The tagged union of scalar types usable in a comparison, and its
//! rendering as statement literal text.
use vstd::prelude::*;
use vstd::string::*;

use crate::lit::{
    bool_str, decimal_str, int_str, push_bool, push_decimal, push_int, push_string_literal,
    string_literal_str,
};

verus! {

/// A fixed-point decimal number `mantissa * 10^(-scale)`, the store's stand-in
/// for fractional comparison values: `90.25` is `Decimal::new(9025, 2)`.
///
/// The scale is capped so that `10^scale` always fits a `u64` when the
/// literal is rendered.
#[derive(Debug, Clone, Copy)]
pub struct Decimal {
    mantissa: i64,
    scale: u32,
}

impl Decimal {
    #[verifier::type_invariant]
    spec fn inv(self) -> bool {
        self.scale <= 18
    }

    /// The signed mantissa.
    pub closed spec fn mantissa_spec(&self) -> int {
        self.mantissa as int
    }

    /// How many of the mantissa's trailing digits lie behind the decimal point.
    pub closed spec fn scale_spec(&self) -> nat {
        self.scale as nat
    }

    /// Builds the decimal `mantissa * 10^(-scale)`.  The scale bound is a
    /// machine limit: rendering computes `10^scale` in a `u64`.
    pub fn new(mantissa: i64, scale: u32) -> (r: Decimal)
        requires
            scale <= 18,
        ensures
            r.mantissa_spec() == mantissa as int,
            r.scale_spec() == scale as nat,
    {
        Decimal { mantissa, scale }
    }

    /// Reads the mantissa back.
    pub fn mantissa(&self) -> (r: i64)
        ensures
            r as int == self.mantissa_spec(),
    {
        self.mantissa
    }

    /// Reads the scale back; it is always within the rendering limit.
    pub fn scale(&self) -> (r: u32)
        ensures
            r as nat == self.scale_spec(),
            r <= 18,
    {
        proof {
            use_type_invariant(self);
        }
        self.scale
    }
}

/// A scalar comparison value.  The variant fixes both how the literal is
/// rendered for the backing engine (strings are quoted and escaped, the rest
/// are bare) and which comparison semantics apply.
#[derive(Debug, Clone)]
pub enum Value {
    Boolean(bool),
    Float(Decimal),
    Integer(i32),
    String(String),
}

/// The exact literal text a value renders to.
pub open spec fn value_literal_str(v: Value) -> Seq<char> {
    match v {
        Value::Boolean(b) => bool_str(b),
        Value::Float(d) => decimal_str(d.mantissa_spec(), d.scale_spec()),
        Value::Integer(i) => int_str(i as int),
        Value::String(s) => string_literal_str(s@),
    }
}

/// Appends the literal rendering of `v` to statement text under
/// construction.
pub fn push_value_literal(out: &mut String, v: &Value)
    ensures
        final(out)@ == old(out)@ + value_literal_str(*v),
{
    match v {
        Value::Boolean(b) => push_bool(out, *b),
        Value::Float(d) => push_decimal(out, d.mantissa(), d.scale()),
        Value::Integer(i) => push_int(out, *i as i64),
        Value::String(s) => push_string_literal(out, s.as_str()),
    }
}

/// The name of a value's runtime type tag.
pub open spec fn type_label(v: Value) -> Seq<char> {
    match v {
        Value::Boolean(_) => "boolean"@,
        Value::Float(_) => "float"@,
        Value::Integer(_) => "integer"@,
        Value::String(_) => "string"@,
    }
}

/// Names the runtime type of a comparison value.
pub fn type_of(value: &Value) -> (r: &'static str)
    ensures
        r@ == type_label(*value),
{
    match value {
        Value::Boolean(_) => "boolean",
        Value::Float(_) => "float",
        Value::Integer(_) => "integer",
        Value::String(_) => "string",
    }
}

} // verus!
