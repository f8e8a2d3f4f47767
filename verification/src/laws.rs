use vstd::prelude::*;

use crate::directive::{Directive, DirectiveKind};
use crate::generator::{
    GenView, flush_fragment, flushed, lemma_run_command_no, line_marker_str, module_fragment, run,
    step,
};
use crate::text::{dec_of, lemma_dec_of_val, dec_val};
use crate::value::{Value, f64_bits_nan, f32_bits_nan, literal_str};

verus! {

/// The directive counter grows by exactly one per consumed directive, so the
/// counter of any shorter prefix of a stream is strictly below the counter of
/// any longer one: every directive of a file gets a unique counter.
pub proof fn lemma_command_no_unique(s: GenView, ds: Seq<Directive>, i: int, j: int)
    requires
        0 <= i < j <= ds.len(),
    ensures
        run(s, ds.take(j)).command_no == run(s, ds.take(i)).command_no + (j - i),
        run(s, ds.take(i)).command_no < run(s, ds.take(j)).command_no,
{
    lemma_run_command_no(s, ds.take(i));
    lemma_run_command_no(s, ds.take(j));
}

/// Flushing is idempotent: the first flush empties the module's pending
/// entry, so flushing the same module again emits nothing and changes
/// nothing.
pub proof fn lemma_flush_idempotent(s: GenView, m: int)
    requires
        0 <= m < s.calls.len(),
    ensures
        flushed(flushed(s, m), m) == flushed(s, m),
{
    let once = flushed(s, m);
    assert(once.calls[m] == Seq::<Seq<char>>::empty());
    assert(flushed(once, m).buffer =~= once.buffer);
    assert(flushed(once, m).calls =~~= once.calls);
}

/// A module definition advances the module counter by exactly one, and the
/// pre-increment module's pending calls are fully flushed before the
/// increment: its aggregate (over every call pending at that point) stands in
/// the buffer ahead of the new fixture, and no stale entry remains. No other
/// directive kind moves the module counter.
pub proof fn lemma_module_definition_step(s: GenView, d: Directive)
    requires
        0 <= s.last_module,
        s.calls.len() == s.last_module + 1,
    ensures
        (d.kind matches DirectiveKind::ModuleDefinition { .. }) ==> step(s, d).last_module
            == s.last_module + 1,
        (d.kind matches DirectiveKind::ModuleDefinition { .. }) ==> step(s, d).calls[s.last_module]
            == Seq::<Seq<char>>::empty(),
        (d.kind matches DirectiveKind::ModuleDefinition { wat } ==> step(s, d).buffer == s.buffer
            + line_marker_str(d.line as int) + flush_fragment(s.last_module, s.calls[s.last_module])
            + module_fragment(s.last_module + 1, wat@)),
        !(d.kind matches DirectiveKind::ModuleDefinition { .. }) ==> step(s, d).last_module
            == s.last_module,
{
    crate::generator::lemma_dispatch_counters(
        GenView {
            last_line: d.line as int,
            buffer: s.buffer + line_marker_str(d.line as int),
            ..s
        },
        d.kind,
    );
}

/// A formatted 64-bit NaN pins the exact bit pattern: two NaN values render
/// to the same literal only when their bits agree, so the emitted expression
/// reproduces the payload, not merely some NaN.
pub proof fn lemma_f64_nan_literal_pins_bits(a: u64, b: u64)
    requires
        f64_bits_nan(a),
        f64_bits_nan(b),
        literal_str(Value::Float64(a)) == literal_str(Value::Float64(b)),
    ensures
        a == b,
{
    let p = "f64::from_bits("@;
    let la = dec_of(a as nat).len() as int;
    let lb = dec_of(b as nat).len() as int;
    let ta = literal_str(Value::Float64(a));
    let tb = literal_str(Value::Float64(b));
    assert(ta == p + dec_of(a as nat) + ")"@);
    assert(tb == p + dec_of(b as nat) + ")"@);
    assert(la == lb);
    assert(dec_of(a as nat) =~= ta.subrange(p.len() as int, p.len() as int + la));
    assert(dec_of(b as nat) =~= tb.subrange(p.len() as int, p.len() as int + lb));
    lemma_dec_of_val(a as nat);
    lemma_dec_of_val(b as nat);
    assert(dec_val(dec_of(a as nat)) == dec_val(dec_of(b as nat)));
}

/// The 32-bit counterpart: a formatted 32-bit NaN pins the exact bit pattern.
pub proof fn lemma_f32_nan_literal_pins_bits(a: u32, b: u32)
    requires
        f32_bits_nan(a),
        f32_bits_nan(b),
        literal_str(Value::Float32(a)) == literal_str(Value::Float32(b)),
    ensures
        a == b,
{
    let p = "f32::from_bits("@;
    let la = dec_of(a as nat).len() as int;
    let lb = dec_of(b as nat).len() as int;
    let ta = literal_str(Value::Float32(a));
    let tb = literal_str(Value::Float32(b));
    assert(ta == p + dec_of(a as nat) + ")"@);
    assert(tb == p + dec_of(b as nat) + ")"@);
    assert(la == lb);
    assert(dec_of(a as nat) =~= ta.subrange(p.len() as int, p.len() as int + la));
    assert(dec_of(b as nat) =~= tb.subrange(p.len() as int, p.len() as int + lb));
    lemma_dec_of_val(a as nat);
    lemma_dec_of_val(b as nat);
    assert(dec_val(dec_of(a as nat)) == dec_val(dec_of(b as nat)));
}

} // verus!
