use vstd::prelude::*;

use crate::value::Value;

verus! {

/// An invocation request against the module under test: an exported name plus
/// ordered literal arguments. A `Get` names an export without calling it; no
/// test code is emitted for it.
pub enum Action {
    Invoke { field: String, args: Vec<Value> },
    Get { field: String },
}

/// The payload of one script directive.
///
/// `ModuleDefinition` carries the module's human-readable textual rendering,
/// produced from the binary payload by the external translator before the
/// directive stream is handed to the generator. `AssertInvalid` and
/// `AssertMalformed` carry the raw binary bytes, which are embedded in the
/// emitted test. `AssertUninstantiable`, `AssertExhaustion`,
/// `AssertUnlinkable` and `Register` are accepted but emit nothing.
pub enum DirectiveKind {
    ModuleDefinition { wat: String },
    AssertReturn { action: Action, expected: Vec<Value> },
    AssertReturnCanonicalNan { action: Action },
    AssertReturnArithmeticNan { action: Action },
    AssertTrap { action: Action },
    AssertInvalid { bytes: Vec<u8> },
    AssertMalformed { bytes: Vec<u8> },
    AssertUninstantiable { bytes: Vec<u8> },
    AssertExhaustion { action: Action },
    AssertUnlinkable { bytes: Vec<u8> },
    Register { name: Option<String>, as_name: String },
    PerformAction { action: Action },
}

/// One script directive: the source line it came from, and its payload.
pub struct Directive {
    pub line: u64,
    pub kind: DirectiveKind,
}

/// The two conversion exports whose canonical-NaN assertion annotates the
/// result with the opposite of the first argument's width.
pub open spec fn is_promote_field(field: Seq<char>) -> bool {
    field == "f64.promote_f32"@ || field == "f32.promote_f64"@
}

/// Whether a directive can be consumed: the NaN assertion kinds infer their
/// return annotation from the first argument, so an invocation there must
/// carry at least one argument (except for the two conversion exports whose
/// annotation is fixed by name).
pub open spec fn kind_valid(k: DirectiveKind) -> bool {
    match k {
        DirectiveKind::AssertReturnCanonicalNan { action } => match action {
            Action::Invoke { field, args } => is_promote_field(field@) || args@.len() > 0,
            Action::Get { .. } => true,
        },
        DirectiveKind::AssertReturnArithmeticNan { action } => match action {
            Action::Invoke { field: _, args } => args@.len() > 0,
            Action::Get { .. } => true,
        },
        _ => true,
    }
}

} // verus!
