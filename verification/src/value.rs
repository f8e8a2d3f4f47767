use vstd::prelude::*;

use crate::text::{dec_int_of, dec_of, push_i64_dec, push_u64_dec};

verus! {

/// A typed literal value carried by a directive. Float variants hold the raw
/// bit representation, so non-canonical NaN payloads survive unchanged.
#[derive(Clone, Copy, PartialEq, Eq, Structural, Debug)]
pub enum Value {
    Int32(i32),
    Int64(i64),
    Float32(u32),
    Float64(u64),
}

/// Whether 32-bit float bits denote a NaN: exponent all ones, mantissa nonzero.
pub open spec fn f32_bits_nan(b: u32) -> bool {
    (b >> 23u32) & 0xff == 0xff && b & 0x7fffff != 0
}

/// Whether 32-bit float bits denote an infinity: exponent all ones, mantissa zero.
pub open spec fn f32_bits_inf(b: u32) -> bool {
    (b >> 23u32) & 0xff == 0xff && b & 0x7fffff == 0
}

/// Whether 32-bit float bits carry a set sign bit.
pub open spec fn f32_bits_negative(b: u32) -> bool {
    b >> 31u32 == 1
}

/// Whether 64-bit float bits denote a NaN: exponent all ones, mantissa nonzero.
pub open spec fn f64_bits_nan(b: u64) -> bool {
    (b >> 52u64) & 0x7ff == 0x7ff && b & 0xf_ffff_ffff_ffff != 0
}

/// Whether 64-bit float bits denote an infinity: exponent all ones, mantissa zero.
pub open spec fn f64_bits_inf(b: u64) -> bool {
    (b >> 52u64) & 0x7ff == 0x7ff && b & 0xf_ffff_ffff_ffff == 0
}

/// Whether 64-bit float bits carry a set sign bit.
pub open spec fn f64_bits_negative(b: u64) -> bool {
    b >> 63u64 == 1
}

/// Whether a value is a float whose bits denote a NaN.
pub open spec fn is_nan_value(v: Value) -> bool {
    match v {
        Value::Float32(b) => f32_bits_nan(b),
        Value::Float64(b) => f64_bits_nan(b),
        _ => false,
    }
}

/// The type-annotation token of a value.
pub open spec fn type_str(v: Value) -> Seq<char> {
    match v {
        Value::Int32(_) => "i32"@,
        Value::Int64(_) => "i64"@,
        Value::Float32(_) => "f32"@,
        Value::Float64(_) => "f64"@,
    }
}

/// The source-literal rendering of a value. Integers render as a decimal with
/// an explicit width cast; float infinities render as the named constants, and
/// every other float is rebuilt from its exact bit pattern, so the literal
/// carries the bits unchanged.
pub open spec fn literal_str(v: Value) -> Seq<char> {
    match v {
        Value::Int32(n) => dec_int_of(n as int) + " as i32"@,
        Value::Int64(n) => dec_int_of(n as int) + " as i64"@,
        Value::Float32(b) => {
            if f32_bits_inf(b) {
                if f32_bits_negative(b) {
                    "f32::NEG_INFINITY"@
                } else {
                    "f32::INFINITY"@
                }
            } else {
                "f32::from_bits("@ + dec_of(b as nat) + ")"@
            }
        },
        Value::Float64(b) => {
            if f64_bits_inf(b) {
                if f64_bits_negative(b) {
                    "f64::NEG_INFINITY"@
                } else {
                    "f64::INFINITY"@
                }
            } else {
                "f64::from_bits("@ + dec_of(b as nat) + ")"@
            }
        },
    }
}

/// Whether a value is a float whose bits denote a NaN.
pub fn is_nan(v: &Value) -> (r: bool)
    ensures
        r == is_nan_value(*v),
{
    match v {
        Value::Float32(b) => (*b >> 23u32) & 0xff == 0xff && *b & 0x7fffff != 0,
        Value::Float64(b) => (*b >> 52u64) & 0x7ff == 0x7ff && *b & 0xf_ffff_ffff_ffff != 0,
        _ => false,
    }
}

/// The type-annotation token of a value.
pub fn type_of(v: &Value) -> (r: &'static str)
    ensures
        r@ == type_str(*v),
{
    match v {
        Value::Int32(_) => "i32",
        Value::Int64(_) => "i64",
        Value::Float32(_) => "f32",
        Value::Float64(_) => "f64",
    }
}

/// Appends the source-literal rendering of a value.
pub fn push_literal(buf: &mut String, v: &Value)
    ensures
        final(buf)@ == old(buf)@ + literal_str(*v),
{
    match v {
        Value::Int32(n) => {
            push_i64_dec(buf, *n as i64);
            buf.append(" as i32");
        },
        Value::Int64(n) => {
            push_i64_dec(buf, *n);
            buf.append(" as i64");
        },
        Value::Float32(b) => {
            if (*b >> 23u32) & 0xff == 0xff && *b & 0x7fffff == 0 {
                if *b >> 31u32 == 1 {
                    buf.append("f32::NEG_INFINITY");
                } else {
                    buf.append("f32::INFINITY");
                }
            } else {
                buf.append("f32::from_bits(");
                push_u64_dec(buf, *b as u64);
                buf.append(")");
            }
        },
        Value::Float64(b) => {
            if (*b >> 52u64) & 0x7ff == 0x7ff && *b & 0xf_ffff_ffff_ffff == 0 {
                if *b >> 63u64 == 1 {
                    buf.append("f64::NEG_INFINITY");
                } else {
                    buf.append("f64::INFINITY");
                }
            } else {
                buf.append("f64::from_bits(");
                push_u64_dec(buf, *b as u64);
                buf.append(")");
            }
        },
    }
}

} // verus!
