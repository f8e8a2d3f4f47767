use vstd::prelude::*;
use vstd::string::StringExecFns;

use crate::directive::{Action, Directive, DirectiveKind, kind_valid, is_promote_field};
use crate::emit::{
    bytes_listed, calls_joined, push_bytes_listed, push_calls_joined, push_quoted, push_types,
    push_values, push_wat_embedded, quoted_of, types_from, values_from, wat_embedded,
};
use crate::text::{dec_of, push_u64_dec};
use crate::value::{Value, is_nan, is_nan_value, literal_str, push_literal, type_of, type_str};

verus! {

/// The mathematical state of one generation run: the counters, the pending
/// calls of every module seen so far (index = module number), and the output
/// text accumulated so far.
pub ghost struct GenView {
    pub last_module: int,
    pub last_line: int,
    pub command_no: int,
    pub filename: Seq<char>,
    pub calls: Seq<Seq<Seq<char>>>,
    pub buffer: Seq<char>,
}

/// The banner that opens every generated file and the manifest.
pub open spec fn banner_str() -> Seq<char> {
    "// Rust test file autogenerated with cargo build (build/spectests.rs).\n// Please do NOT modify it by hand, as it will be reseted on next build.\n"@
}

/// The boilerplate that opens a generated test file.
pub open spec fn header_str(filename: Seq<char>) -> Seq<char> {
    banner_str() + "// Test based on spectests/"@ + filename
        + "\n#![allow(\n    warnings,\n    dead_code\n)]\nuse wabt::wat2wasm;\n\nuse crate::webassembly::{instantiate, compile, ImportObject, ResultObject, Instance, Export};\nuse super::_common::{\n    spectest_importobject,\n    NaNCheck,\n};\n\n"@
}

/// The comment that marks the source line a directive came from.
pub open spec fn line_marker_str(line: int) -> Seq<char> {
    "\n// Line "@ + dec_of(line as nat) + "\n"@
}

/// The per-file-unique identifier stem of the current directive.
pub open spec fn command_name_str(command_no: int, line: int) -> Seq<char> {
    "c"@ + dec_of(command_no as nat) + "_l"@ + dec_of(line as nat)
}

/// The name of a module's start-invocation call.
pub open spec fn start_call_str(m: int) -> Seq<char> {
    "start_module_"@ + dec_of(m as nat)
}

/// The fixture-construction and start-invocation code emitted for module `m`.
pub open spec fn module_fragment(m: int, wat: Seq<char>) -> Seq<char> {
    "fn create_module_"@ + dec_of(m as nat) + "() -> ResultObject {\n    let module_str = \""@
        + wat_embedded(wat)
        + "\";\n    let wasm_binary = wat2wasm(module_str.as_bytes()).expect(\"WAST not valid or malformed\");\n    instantiate(wasm_binary, spectest_importobject(), None).expect(\"WASM can't be instantiated\")\n}\n"@
        + "\nfn "@ + start_call_str(m)
        + "(result_object: &ResultObject) {\n    result_object.instance.start();\n}\n"@
}

/// The aggregated test emitted when module `m`'s pending calls are flushed;
/// empty when nothing is pending.
pub open spec fn flush_fragment(m: int, calls: Seq<Seq<char>>) -> Seq<char> {
    if calls.len() == 0 {
        Seq::empty()
    } else {
        "\n#[test]\nfn test_module_"@ + dec_of(m as nat)
            + "() {\n    let result_object = create_module_"@ + dec_of(m as nat)
            + "();\n    // We group the calls together\n    "@ + calls_joined(calls, 0) + "\n}\n"@
    }
}

/// One emitted test-function body that resolves an export, invokes it over the
/// formatted arguments, and applies `assertion` to the result.
pub open spec fn invoke_fragment(
    fname: Seq<char>,
    field: Seq<char>,
    args: Seq<Value>,
    ret: Seq<char>,
    assertion: Seq<char>,
) -> Seq<char> {
    "fn "@ + fname + "(result_object: &ResultObject) {\n    println!(\"Executing function {}\", \""@
        + fname + "\");\n    let func_index = match result_object.module.info.exports.get("@
        + quoted_of(field)
        + ") {\n        Some(&Export::Function(index)) => index,\n        _ => panic!(\"Function not found\"),\n    };\n    let invoke_fn: fn("@
        + types_from(args, 0) + ")"@ + ret
        + " = get_instance_function!(result_object.instance, func_index);\n    let result = invoke_fn("@
        + values_from(args, 0) + ");\n    "@ + assertion + "\n}\n"@
}

/// The standalone test emitted for a trap assertion: the call runs guarded,
/// against a fresh fixture, and must error.
pub open spec fn trap_fragment(tname: Seq<char>, m: int, aname: Seq<char>) -> Seq<char> {
    "\n#[test]\nfn "@ + tname + "() {\n    let result_object = create_module_"@ + dec_of(m as nat)
        + "();\n    let result = call_protected!("@ + aname
        + "(&result_object));\n    assert!(result.is_err());\n}\n"@
}

/// The standalone test emitted for an invalid module: compiling its raw bytes
/// must fail.
pub open spec fn invalid_fragment(cname: Seq<char>, bytes: Seq<u8>) -> Seq<char> {
    "#[test]\nfn "@ + cname + "_assert_invalid() {\n    let wasm_binary = "@ + bytes_listed(bytes)
        + ";\n    let compilation = compile(wasm_binary.to_vec());\n    assert!(compilation.is_err(), \"WASM should not compile as is invalid\");\n}\n"@
}

/// The standalone test emitted for a malformed module; identical in shape to
/// the invalid case.
pub open spec fn malformed_fragment(cname: Seq<char>, bytes: Seq<u8>) -> Seq<char> {
    "#[test]\nfn "@ + cname + "_assert_malformed() {\n    let wasm_binary = "@ + bytes_listed(bytes)
        + ";\n    let compilation = compile(wasm_binary.to_vec());\n    assert!(compilation.is_err(), \"WASM should not compile as is malformed\");\n}\n"@
}

/// The return-type annotation inferred from the first expected value.
pub open spec fn return_annot(expected: Seq<Value>) -> Seq<char> {
    if expected.len() > 0 {
        " -> "@ + type_str(expected[0])
    } else {
        Seq::empty()
    }
}

/// The assertion applied to an expected result: NaN expectations check for a
/// NaN with a matching sign bit instead of raw equality.
pub open spec fn return_assertion(expected: Seq<Value>) -> Seq<char> {
    if expected.len() > 0 && is_nan_value(expected[0]) {
        "assert!(result.is_nan());\n            assert_eq!(result.is_sign_positive(), ("@
            + literal_str(expected[0]) + ").is_sign_positive());"@
    } else if expected.len() > 0 {
        "assert_eq!(result, "@ + literal_str(expected[0]) + ");"@
    } else {
        "assert_eq!(result, ());"@
    }
}

/// The return-type annotation of a canonical-NaN assertion: the two named
/// conversion exports use the width their name fixes, every other export the
/// width of its first argument.
pub open spec fn canonical_annot(field: Seq<char>, args: Seq<Value>) -> Seq<char> {
    if field == "f64.promote_f32"@ {
        " -> "@ + "f64"@
    } else if field == "f32.promote_f64"@ {
        " -> "@ + "f32"@
    } else {
        " -> "@ + type_str(args[0])
    }
}

/// The assertion of both NaN-category directives.
pub open spec fn quiet_nan_assertion() -> Seq<char> {
    "assert!(result.is_quiet_nan())"@
}

/// The name of the test function emitted for an invocation.
pub open spec fn action_name(s: GenView) -> Seq<char> {
    command_name_str(s.command_no, s.last_line) + "_action_invoke"@
}

/// State after emitting one invocation function: only the buffer grows.
pub open spec fn invoke_applied(
    s: GenView,
    fname: Seq<char>,
    field: Seq<char>,
    args: Seq<Value>,
    ret: Seq<char>,
    assertion: Seq<char>,
) -> GenView {
    GenView { buffer: s.buffer + invoke_fragment(fname, field, args, ret, assertion), ..s }
}

/// State after appending one identifier to the current module's pending calls.
pub open spec fn registered(s: GenView, fname: Seq<char>) -> GenView {
    GenView { calls: s.calls.update(s.last_module, s.calls[s.last_module].push(fname)), ..s }
}

/// State after flushing module `m`: its aggregate (if any) is emitted and its
/// pending entry is cleared.
pub open spec fn flushed(s: GenView, m: int) -> GenView {
    GenView {
        buffer: s.buffer + flush_fragment(m, s.calls[m]),
        calls: s.calls.update(m, Seq::empty()),
        ..s
    }
}

/// State after a module definition: the previous module is flushed first, the
/// module counter advances, the fixture code is emitted, and the new module's
/// start call becomes its first pending call.
pub open spec fn with_module(s: GenView, wat: Seq<char>) -> GenView {
    let f = flushed(s, s.last_module);
    GenView {
        last_module: s.last_module + 1,
        buffer: f.buffer + module_fragment(s.last_module + 1, wat),
        calls: f.calls.push(seq![start_call_str(s.last_module + 1)]),
        ..f
    }
}

/// State after a return assertion: the invocation function is emitted and
/// deferred to the current module's aggregate.
pub open spec fn with_assert_return(s: GenView, a: Action, expected: Seq<Value>) -> GenView {
    match a {
        Action::Invoke { field, args } => registered(
            invoke_applied(
                s,
                action_name(s),
                field@,
                args@,
                return_annot(expected),
                return_assertion(expected),
            ),
            action_name(s),
        ),
        Action::Get { .. } => s,
    }
}

/// State after a canonical-NaN assertion.
pub open spec fn with_canonical_nan(s: GenView, a: Action) -> GenView {
    match a {
        Action::Invoke { field, args } => {
            let fname = command_name_str(s.command_no, s.last_line)
                + "_assert_return_canonical_nan"@;
            registered(
                invoke_applied(
                    s,
                    fname,
                    field@,
                    args@,
                    canonical_annot(field@, args@),
                    quiet_nan_assertion(),
                ),
                fname,
            )
        },
        Action::Get { .. } => s,
    }
}

/// State after an arithmetic-NaN assertion.
pub open spec fn with_arithmetic_nan(s: GenView, a: Action) -> GenView {
    match a {
        Action::Invoke { field, args } => {
            let fname = command_name_str(s.command_no, s.last_line)
                + "_assert_return_arithmetic_nan"@;
            registered(
                invoke_applied(
                    s,
                    fname,
                    field@,
                    args@,
                    " -> "@ + type_str(args@[0]),
                    quiet_nan_assertion(),
                ),
                fname,
            )
        },
        Action::Get { .. } => s,
    }
}

/// State after a performed action with no result check.
pub open spec fn with_perform_action(s: GenView, a: Action) -> GenView {
    match a {
        Action::Invoke { field, args } => registered(
            invoke_applied(s, action_name(s), field@, args@, Seq::empty(), Seq::empty()),
            action_name(s),
        ),
        Action::Get { .. } => s,
    }
}

/// State after a trap assertion: the invocation function is emitted, then a
/// standalone guarded test; nothing joins the module's aggregate.
pub open spec fn with_assert_trap(s: GenView, a: Action) -> GenView {
    match a {
        Action::Invoke { field, args } => {
            let s1 = invoke_applied(s, action_name(s), field@, args@, Seq::empty(), Seq::empty());
            GenView {
                buffer: s1.buffer + trap_fragment(
                    command_name_str(s.command_no, s.last_line) + "_assert_trap"@,
                    s.last_module,
                    action_name(s),
                ),
                ..s1
            }
        },
        Action::Get { .. } => s,
    }
}

/// How one directive payload transforms the state once its line marker is in
/// place. The kinds with no emitter leave the state untouched.
pub open spec fn dispatch(s: GenView, k: DirectiveKind) -> GenView {
    match k {
        DirectiveKind::ModuleDefinition { wat } => with_module(s, wat@),
        DirectiveKind::AssertReturn { action, expected } => with_assert_return(s, action, expected@),
        DirectiveKind::AssertReturnCanonicalNan { action } => with_canonical_nan(s, action),
        DirectiveKind::AssertReturnArithmeticNan { action } => with_arithmetic_nan(s, action),
        DirectiveKind::AssertTrap { action } => with_assert_trap(s, action),
        DirectiveKind::AssertInvalid { bytes } => GenView {
            buffer: s.buffer + invalid_fragment(
                command_name_str(s.command_no, s.last_line),
                bytes@,
            ),
            ..s
        },
        DirectiveKind::AssertMalformed { bytes } => GenView {
            buffer: s.buffer + malformed_fragment(
                command_name_str(s.command_no, s.last_line),
                bytes@,
            ),
            ..s
        },
        DirectiveKind::AssertUninstantiable { .. } => s,
        DirectiveKind::AssertExhaustion { .. } => s,
        DirectiveKind::AssertUnlinkable { .. } => s,
        DirectiveKind::Register { .. } => s,
        DirectiveKind::PerformAction { action } => with_perform_action(s, action),
    }
}

/// The full effect of consuming one directive: the line is recorded, a line
/// marker is emitted, the payload is dispatched, and the command counter
/// advances by one.
pub open spec fn step(s: GenView, d: Directive) -> GenView {
    let s0 = GenView { last_line: d.line as int, buffer: s.buffer + line_marker_str(d.line as int), ..s };
    let s1 = dispatch(s0, d.kind);
    GenView { command_no: s1.command_no + 1, ..s1 }
}

/// The state after consuming a whole directive sequence, in order.
pub open spec fn run(s: GenView, ds: Seq<Directive>) -> GenView
    decreases ds.len(),
{
    if ds.len() == 0 {
        s
    } else {
        run(step(s, ds.first()), ds.drop_first())
    }
}

/// The state after flushing every module from `m` through `last_module`.
pub open spec fn flush_from(s: GenView, m: int) -> GenView
    decreases s.last_module + 1 - m,
{
    if m < 0 || m > s.last_module {
        s
    } else {
        flush_from(flushed(s, m), m + 1)
    }
}

/// The end-of-stream state: every module from 1 through `last_module` not yet
/// flushed is flushed, in order.
pub open spec fn finish(s: GenView) -> GenView {
    flush_from(s, 1)
}

/// The state a generator starts in: zeroed counters, one (never-flushed)
/// pending-call slot for the module index before any definition, and the file
/// header already emitted.
pub open spec fn initial_state(filename: Seq<char>) -> GenView {
    GenView {
        last_module: 0,
        last_line: 0,
        command_no: 0,
        filename: filename,
        calls: seq![Seq::<Seq<char>>::empty()],
        buffer: header_str(filename),
    }
}

/// The complete output text generated for one named directive stream.
pub open spec fn generated_text(filename: Seq<char>, ds: Seq<Directive>) -> Seq<char> {
    finish(run(initial_state(filename), ds)).buffer
}

} // verus!

verus! {

/// One generation run over one directive stream. Owned exclusively by the run;
/// construction emits the file header, consuming the stream emits the tests,
/// and the finished buffer is read off at the end.
pub struct Generator {
    last_module: usize,
    last_line: u64,
    command_no: u64,
    filename: String,
    module_calls: Vec<Vec<String>>,
    buffer: String,
}

impl View for Generator {
    type V = GenView;

    closed spec fn view(&self) -> GenView {
        GenView {
            last_module: self.last_module as int,
            last_line: self.last_line as int,
            command_no: self.command_no as int,
            filename: self.filename@,
            calls: self.module_calls.deep_view(),
            buffer: self.buffer@,
        }
    }
}

impl Generator {
    /// Every module index up to the current one has a pending-call slot.
    pub open spec fn wf(&self) -> bool {
        self@.calls.len() == self@.last_module + 1
    }

    /// Starts a generation run: zeroed counters and the emitted file header.
    pub fn new(filename: String) -> (g: Generator)
        ensures
            g.wf(),
            g@ == initial_state(filename@),
    {
        let mut buffer = String::new();
        buffer.append(
            "// Rust test file autogenerated with cargo build (build/spectests.rs).\n// Please do NOT modify it by hand, as it will be reseted on next build.\n",
        );
        buffer.append("// Test based on spectests/");
        buffer.append(filename.as_str());
        buffer.append(
            "\n#![allow(\n    warnings,\n    dead_code\n)]\nuse wabt::wat2wasm;\n\nuse crate::webassembly::{instantiate, compile, ImportObject, ResultObject, Instance, Export};\nuse super::_common::{\n    spectest_importobject,\n    NaNCheck,\n};\n\n",
        );
        let mut module_calls: Vec<Vec<String>> = Vec::new();
        module_calls.push(Vec::new());
        let g = Generator {
            last_module: 0,
            last_line: 0,
            command_no: 0,
            filename,
            module_calls,
            buffer,
        };
        proof {
            assert(g@.buffer =~= header_str(g@.filename));
            assert(g@.calls =~~= seq![Seq::<Seq<char>>::empty()]);
        }
        g
    }

    /// The identifier stem of the directive being consumed.
    pub fn command_name(&self) -> (r: String)
        ensures
            r@ == command_name_str(self@.command_no, self@.last_line),
    {
        let mut s = String::new();
        s.append("c");
        push_u64_dec(&mut s, self.command_no);
        s.append("_l");
        push_u64_dec(&mut s, self.last_line);
        proof {
            assert(s@ =~= command_name_str(self@.command_no, self@.last_line));
        }
        s
    }

    /// Defers an emitted call to the current module's aggregate.
    fn register_call(&mut self, fname: String)
        requires
            old(self).wf(),
        ensures
            final(self).wf(),
            final(self)@ == registered(old(self)@, fname@),
    {
        let idx: usize = self.last_module;
        let mut entry: Vec<String> = self.module_calls.remove(idx);
        entry.push(fname);
        let ghost e = entry;
        self.module_calls.insert(idx, entry);
        proof {
            let i = idx as int;
            assert(self.module_calls@ =~= old(self).module_calls@.update(i, e));
            assert(e.deep_view() =~= old(self)@.calls[i].push(fname@));
            assert(self.module_calls.deep_view() =~~= old(self)@.calls.update(
                i,
                old(self)@.calls[i].push(fname@),
            ));
        }
    }

    /// Flushes module `module`: emits its aggregated test when calls are
    /// pending, and clears the entry either way, so a later flush of the same
    /// index emits nothing.
    pub fn flush_module_calls(&mut self, module: usize)
        requires
            old(self).wf(),
            0 <= module as int <= old(self)@.last_module,
        ensures
            final(self).wf(),
            final(self)@ == flushed(old(self)@, module as int),
    {
        let idx: usize = module;
        if self.module_calls[idx].len() > 0 {
            self.buffer.append("\n#[test]\nfn test_module_");
            push_u64_dec(&mut self.buffer, module as u64);
            self.buffer.append("() {\n    let result_object = create_module_");
            push_u64_dec(&mut self.buffer, module as u64);
            self.buffer.append("();\n    // We group the calls together\n    ");
            push_calls_joined(&mut self.buffer, &self.module_calls[idx]);
            self.buffer.append("\n}\n");
        }
        self.module_calls.remove(idx);
        self.module_calls.insert(idx, Vec::new());
        proof {
            assert(self.buffer@ =~= old(self)@.buffer + flush_fragment(
                module as int,
                old(self)@.calls[module as int],
            ));
            assert(self.module_calls.deep_view() =~~= old(self)@.calls.update(
                module as int,
                Seq::empty(),
            ));
        }
    }
}

} // verus!

verus! {

/// The expected-value view of an optional expectation list.
pub open spec fn opt_values(e: Option<&Vec<Value>>) -> Option<Seq<Value>> {
    match e {
        Some(v) => Some(v@),
        None => None,
    }
}

/// The return annotation an optional expectation list induces.
pub open spec fn action_ret(e: Option<Seq<Value>>) -> Seq<char> {
    match e {
        Some(x) => return_annot(x),
        None => Seq::empty(),
    }
}

/// The assertion an optional expectation list induces.
pub open spec fn action_assertion(e: Option<Seq<Value>>) -> Seq<char> {
    match e {
        Some(x) => return_assertion(x),
        None => Seq::empty(),
    }
}

/// Builds the return-type annotation inferred from the first expected value.
fn build_return_annot(expected: &Vec<Value>) -> (r: String)
    ensures
        r@ == return_annot(expected@),
{
    let mut r = String::new();
    if expected.len() > 0 {
        r.append(" -> ");
        r.append(type_of(&expected[0]));
    }
    proof {
        assert(r@ =~= return_annot(expected@));
    }
    r
}

/// Builds the assertion applied to an expected result.
fn build_return_assertion(expected: &Vec<Value>) -> (r: String)
    ensures
        r@ == return_assertion(expected@),
{
    let mut r = String::new();
    if expected.len() > 0 && is_nan(&expected[0]) {
        r.append("assert!(result.is_nan());\n            assert_eq!(result.is_sign_positive(), (");
        push_literal(&mut r, &expected[0]);
        r.append(").is_sign_positive());");
    } else if expected.len() > 0 {
        r.append("assert_eq!(result, ");
        push_literal(&mut r, &expected[0]);
        r.append(");");
    } else {
        r.append("assert_eq!(result, ());");
    }
    proof {
        assert(r@ =~= return_assertion(expected@));
    }
    r
}

impl Generator {
    /// Emits one invocation function: resolve the export, invoke it over the
    /// formatted arguments and the live instance, apply the assertion.
    fn emit_invoke(
        &mut self,
        fname: &String,
        field: &String,
        args: &Vec<Value>,
        ret: &String,
        assertion: &String,
    )
        ensures
            final(self)@ == invoke_applied(
                old(self)@,
                fname@,
                field@,
                args@,
                ret@,
                assertion@,
            ),
    {
        self.buffer.append("fn ");
        self.buffer.append(fname.as_str());
        self.buffer.append("(result_object: &ResultObject) {\n    println!(\"Executing function {}\", \"");
        self.buffer.append(fname.as_str());
        self.buffer.append("\");\n    let func_index = match result_object.module.info.exports.get(");
        push_quoted(&mut self.buffer, field.as_str());
        self.buffer.append(") {\n        Some(&Export::Function(index)) => index,\n        _ => panic!(\"Function not found\"),\n    };\n    let invoke_fn: fn(");
        push_types(&mut self.buffer, args);
        self.buffer.append(")");
        self.buffer.append(ret.as_str());
        self.buffer.append(" = get_instance_function!(result_object.instance, func_index);\n    let result = invoke_fn(");
        push_values(&mut self.buffer, args);
        self.buffer.append(");\n    ");
        self.buffer.append(assertion.as_str());
        self.buffer.append("\n}\n");
        proof {
            assert(self.buffer@ =~= old(self)@.buffer + invoke_fragment(
                fname@,
                field@,
                args@,
                ret@,
                assertion@,
            ));
        }
    }

    /// Emits the invocation function of an action, named after the current
    /// directive; a `Get` action emits nothing and yields no name.
    pub fn visit_action(&mut self, action: &Action, expected: Option<&Vec<Value>>) -> (r: Option<
        String,
    >)
        ensures
            (match *action {
                Action::Invoke { .. } => (r matches Some(n) && n@ == action_name(old(self)@)),
                Action::Get { .. } => (r is None),
            }),
            final(self)@ == (match *action {
                Action::Invoke { field, args } => invoke_applied(
                    old(self)@,
                    action_name(old(self)@),
                    field@,
                    args@,
                    action_ret(opt_values(expected)),
                    action_assertion(opt_values(expected)),
                ),
                Action::Get { .. } => old(self)@,
            }),
    {
        match action {
            Action::Invoke { field, args } => {
                let mut fname = self.command_name();
                fname.append("_action_invoke");
                let ret: String = match expected {
                    Some(e) => build_return_annot(e),
                    None => String::new(),
                };
                let assertion: String = match expected {
                    Some(e) => build_return_assertion(e),
                    None => String::new(),
                };
                self.emit_invoke(&fname, field, args, &ret, &assertion);
                Some(fname)
            },
            Action::Get { .. } => None,
        }
    }

    /// A return assertion: the invocation is emitted and deferred to the
    /// current module's aggregate.
    pub fn visit_assert_return(&mut self, action: &Action, expected: &Vec<Value>)
        requires
            old(self).wf(),
        ensures
            final(self).wf(),
            final(self)@ == with_assert_return(old(self)@, *action, expected@),
    {
        let r = self.visit_action(action, Some(expected));
        match r {
            Some(name) => self.register_call(name),
            None => {},
        }
    }

    /// A performed action with no result check, deferred like a return
    /// assertion.
    pub fn visit_perform_action(&mut self, action: &Action)
        requires
            old(self).wf(),
        ensures
            final(self).wf(),
            final(self)@ == with_perform_action(old(self)@, *action),
    {
        let r = self.visit_action(action, None);
        match r {
            Some(name) => self.register_call(name),
            None => {},
        }
    }

    /// A trap assertion: the invocation is emitted, then a standalone guarded
    /// test. The call never joins the aggregate, since a trap may leave the
    /// instance in an undefined state.
    pub fn visit_assert_trap(&mut self, action: &Action)
        requires
            old(self).wf(),
        ensures
            final(self).wf(),
            final(self)@ == with_assert_trap(old(self)@, *action),
    {
        let r = self.visit_action(action, None);
        match r {
            Some(aname) => {
                let mut tname = self.command_name();
                tname.append("_assert_trap");
                self.buffer.append("\n#[test]\nfn ");
                self.buffer.append(tname.as_str());
                self.buffer.append("() {\n    let result_object = create_module_");
                push_u64_dec(&mut self.buffer, self.last_module as u64);
                self.buffer.append("();\n    let result = call_protected!(");
                self.buffer.append(aname.as_str());
                self.buffer.append("(&result_object));\n    assert!(result.is_err());\n}\n");
                proof {
                    assert(self.buffer@ =~= with_assert_trap(old(self)@, *action).buffer);
                }
            },
            None => {},
        }
    }

    /// An invalid-module assertion: a standalone test that compiles the raw
    /// bytes and expects failure.
    pub fn visit_assert_invalid(&mut self, bytes: &Vec<u8>)
        ensures
            final(self)@ == (GenView {
                buffer: old(self)@.buffer + invalid_fragment(
                    command_name_str(old(self)@.command_no, old(self)@.last_line),
                    bytes@,
                ),
                ..old(self)@
            }),
    {
        let cname = self.command_name();
        self.buffer.append("#[test]\nfn ");
        self.buffer.append(cname.as_str());
        self.buffer.append("_assert_invalid() {\n    let wasm_binary = ");
        push_bytes_listed(&mut self.buffer, bytes);
        self.buffer.append(";\n    let compilation = compile(wasm_binary.to_vec());\n    assert!(compilation.is_err(), \"WASM should not compile as is invalid\");\n}\n");
        proof {
            assert(self.buffer@ =~= old(self)@.buffer + invalid_fragment(
                command_name_str(old(self)@.command_no, old(self)@.last_line),
                bytes@,
            ));
        }
    }

    /// A malformed-module assertion, emitted exactly like the invalid case.
    pub fn visit_assert_malformed(&mut self, bytes: &Vec<u8>)
        ensures
            final(self)@ == (GenView {
                buffer: old(self)@.buffer + malformed_fragment(
                    command_name_str(old(self)@.command_no, old(self)@.last_line),
                    bytes@,
                ),
                ..old(self)@
            }),
    {
        let cname = self.command_name();
        self.buffer.append("#[test]\nfn ");
        self.buffer.append(cname.as_str());
        self.buffer.append("_assert_malformed() {\n    let wasm_binary = ");
        push_bytes_listed(&mut self.buffer, bytes);
        self.buffer.append(";\n    let compilation = compile(wasm_binary.to_vec());\n    assert!(compilation.is_err(), \"WASM should not compile as is malformed\");\n}\n");
        proof {
            assert(self.buffer@ =~= old(self)@.buffer + malformed_fragment(
                command_name_str(old(self)@.command_no, old(self)@.last_line),
                bytes@,
            ));
        }
    }

    /// A canonical-NaN assertion: annotated with the width its export name or
    /// first argument fixes, asserting a quiet NaN result.
    pub fn visit_assert_return_canonical_nan(&mut self, action: &Action)
        requires
            old(self).wf(),
            match *action {
                Action::Invoke { field, args } => is_promote_field(field@) || args@.len() > 0,
                Action::Get { .. } => true,
            },
        ensures
            final(self).wf(),
            final(self)@ == with_canonical_nan(old(self)@, *action),
    {
        match action {
            Action::Invoke { field, args } => {
                let mut fname = self.command_name();
                fname.append("_assert_return_canonical_nan");
                let mut ret = String::new();
                ret.append(" -> ");
                let p64 = String::from_str("f64.promote_f32");
                let p32 = String::from_str("f32.promote_f64");
                if field.eq(&p64) {
                    ret.append("f64");
                } else if field.eq(&p32) {
                    ret.append("f32");
                } else {
                    ret.append(type_of(&args[0]));
                }
                let mut assertion = String::new();
                assertion.append("assert!(result.is_quiet_nan())");
                proof {
                    assert(ret@ =~= canonical_annot(field@, args@));
                }
                self.emit_invoke(&fname, field, args, &ret, &assertion);
                self.register_call(fname);
            },
            Action::Get { .. } => {},
        }
    }

    /// An arithmetic-NaN assertion: annotated with the first argument's width,
    /// asserting a quiet NaN result.
    pub fn visit_assert_return_arithmetic_nan(&mut self, action: &Action)
        requires
            old(self).wf(),
            match *action {
                Action::Invoke { field: _, args } => args@.len() > 0,
                Action::Get { .. } => true,
            },
        ensures
            final(self).wf(),
            final(self)@ == with_arithmetic_nan(old(self)@, *action),
    {
        match action {
            Action::Invoke { field, args } => {
                let mut fname = self.command_name();
                fname.append("_assert_return_arithmetic_nan");
                let mut ret = String::new();
                ret.append(" -> ");
                ret.append(type_of(&args[0]));
                let mut assertion = String::new();
                assertion.append("assert!(result.is_quiet_nan())");
                self.emit_invoke(&fname, field, args, &ret, &assertion);
                self.register_call(fname);
            },
            Action::Get { .. } => {},
        }
    }

    /// A module definition: flush the previous module, advance the counter,
    /// emit the fixture and start code, and register the start call as the new
    /// module's first pending call.
    pub fn visit_module(&mut self, wat: &String)
        requires
            old(self).wf(),
            old(self)@.last_module + 1 <= usize::MAX,
        ensures
            final(self).wf(),
            final(self)@ == with_module(old(self)@, wat@),
    {
        let m: usize = self.last_module;
        self.flush_module_calls(m);
        self.last_module = m + 1;
        self.buffer.append("fn create_module_");
        push_u64_dec(&mut self.buffer, (m + 1) as u64);
        self.buffer.append("() -> ResultObject {\n    let module_str = \"");
        push_wat_embedded(&mut self.buffer, wat.as_str());
        self.buffer.append("\";\n    let wasm_binary = wat2wasm(module_str.as_bytes()).expect(\"WAST not valid or malformed\");\n    instantiate(wasm_binary, spectest_importobject(), None).expect(\"WASM can't be instantiated\")\n}\n");
        self.buffer.append("\nfn ");
        let mut start_call = String::new();
        start_call.append("start_module_");
        push_u64_dec(&mut start_call, (m + 1) as u64);
        self.buffer.append(start_call.as_str());
        self.buffer.append("(result_object: &ResultObject) {\n    result_object.instance.start();\n}\n");
        let mut entry: Vec<String> = Vec::new();
        entry.push(start_call);
        let ghost e = entry;
        self.module_calls.push(entry);
        proof {
            let s = old(self)@;
            assert(self.buffer@ =~= flushed(s, s.last_module).buffer + module_fragment(
                s.last_module + 1,
                wat@,
            ));
            assert(e.deep_view() =~= seq![start_call_str(s.last_module + 1)]);
            assert(self.module_calls.deep_view() =~~= flushed(s, s.last_module).calls.push(
                seq![start_call_str(s.last_module + 1)],
            ));
        }
    }
}

} // verus!

verus! {

/// Consuming one directive advances the directive counter by exactly one;
/// over a whole stream it advances by the stream's length, so the counter of
/// every directive in a file is unique.
pub proof fn lemma_run_command_no(s: GenView, ds: Seq<Directive>)
    ensures
        run(s, ds).command_no == s.command_no + ds.len(),
    decreases ds.len(),
{
    if ds.len() > 0 {
        lemma_run_command_no(step(s, ds.first()), ds.drop_first());
    }
}

/// Dispatching a directive payload never touches the directive counter or the
/// recorded line, and advances the module counter by one exactly for a module
/// definition, never elsewhere.
pub proof fn lemma_dispatch_counters(s: GenView, k: DirectiveKind)
    ensures
        dispatch(s, k).command_no == s.command_no,
        dispatch(s, k).last_line == s.last_line,
        dispatch(s, k).filename == s.filename,
        (k matches DirectiveKind::ModuleDefinition { .. }) ==> dispatch(s, k).last_module
            == s.last_module + 1,
        !(k matches DirectiveKind::ModuleDefinition { .. }) ==> dispatch(s, k).last_module
            == s.last_module,
{
}

/// The end-of-stream flush only empties pending entries and grows the buffer:
/// every counter survives it unchanged.
pub proof fn lemma_flush_from_counters(s: GenView, m: int)
    ensures
        flush_from(s, m).command_no == s.command_no,
        flush_from(s, m).last_module == s.last_module,
        flush_from(s, m).last_line == s.last_line,
        flush_from(s, m).filename == s.filename,
    decreases s.last_module + 1 - m,
{
    if !(m < 0 || m > s.last_module) {
        lemma_flush_from_counters(flushed(s, m), m + 1);
    }
}

impl Generator {
    /// Dispatches one directive payload to its emitter.
    pub fn visit_command(&mut self, kind: &DirectiveKind)
        requires
            old(self).wf(),
            kind_valid(*kind),
            old(self)@.last_module + 1 <= usize::MAX,
        ensures
            final(self).wf(),
            final(self)@ == dispatch(old(self)@, *kind),
    {
        match kind {
            DirectiveKind::ModuleDefinition { wat } => {
                self.visit_module(wat);
            },
            DirectiveKind::AssertReturn { action, expected } => {
                self.visit_assert_return(action, expected);
            },
            DirectiveKind::AssertReturnCanonicalNan { action } => {
                self.visit_assert_return_canonical_nan(action);
            },
            DirectiveKind::AssertReturnArithmeticNan { action } => {
                self.visit_assert_return_arithmetic_nan(action);
            },
            DirectiveKind::AssertTrap { action } => {
                self.visit_assert_trap(action);
            },
            DirectiveKind::AssertInvalid { bytes } => {
                self.visit_assert_invalid(bytes);
            },
            DirectiveKind::AssertMalformed { bytes } => {
                self.visit_assert_malformed(bytes);
            },
            DirectiveKind::AssertUninstantiable { .. } => {},
            DirectiveKind::AssertExhaustion { .. } => {},
            DirectiveKind::AssertUnlinkable { .. } => {},
            DirectiveKind::Register { .. } => {},
            DirectiveKind::PerformAction { action } => {
                self.visit_perform_action(action);
            },
        }
    }

    /// Consumes the whole directive stream in order: per directive a line
    /// marker, the dispatched emission, and the counter increment; at end of
    /// stream every module from 1 through the last is flushed.
    pub fn consume(&mut self, directives: &Vec<Directive>)
        requires
            old(self).wf(),
            old(self)@.command_no + directives@.len() <= u64::MAX,
            old(self)@.last_module + directives@.len() < usize::MAX,
            forall|i: int|
                #![trigger directives@[i]]
                0 <= i < directives@.len() ==> kind_valid(directives@[i].kind),
        ensures
            final(self).wf(),
            final(self)@ == finish(run(old(self)@, directives@)),
    {
        let n: usize = directives.len();
        proof {
            assert(directives@.skip(0) =~= directives@);
        }
        let mut i: usize = 0;
        while i < n
            invariant
                n == directives@.len(),
                i <= n,
                self.wf(),
                run(self@, directives@.skip(i as int)) == run(old(self)@, directives@),
                self@.command_no == old(self)@.command_no + i,
                self@.last_module <= old(self)@.last_module + i,
                old(self)@.command_no + n <= u64::MAX,
                old(self)@.last_module + n < usize::MAX,
                forall|k: int|
                    #![trigger directives@[k]]
                    0 <= k < directives@.len() ==> kind_valid(directives@[k].kind),
            decreases n - i,
        {
            let ghost prev = self@;
            let d = &directives[i];
            self.last_line = d.line;
            self.buffer.append("\n// Line ");
            push_u64_dec(&mut self.buffer, d.line);
            self.buffer.append("\n");
            proof {
                assert(self@.buffer =~= prev.buffer + line_marker_str(d.line as int));
                assert(self@ == (GenView {
                    last_line: d.line as int,
                    buffer: prev.buffer + line_marker_str(d.line as int),
                    ..prev
                }));
            }
            self.visit_command(&d.kind);
            proof {
                lemma_dispatch_counters(
                    GenView {
                        last_line: d.line as int,
                        buffer: prev.buffer + line_marker_str(d.line as int),
                        ..prev
                    },
                    d.kind,
                );
            }
            self.command_no = self.command_no + 1;
            proof {
                assert(self@ == step(prev, *d));
                assert(directives@.skip(i as int).first() == *d);
                assert(directives@.skip(i as int).drop_first() =~= directives@.skip(i as int + 1));
                assert(run(self@, directives@.skip(i as int + 1)) == run(
                    prev,
                    directives@.skip(i as int),
                ));
            }
            i = i + 1;
        }
        proof {
            assert(directives@.skip(n as int) =~= Seq::<Directive>::empty());
            assert(self@ == run(old(self)@, directives@));
        }
        let ghost mid = self@;
        let mut m: usize = 1;
        while m <= self.last_module
            invariant
                self.wf(),
                1 <= m as int <= self@.last_module + 1,
                self@.last_module == mid.last_module,
                mid.last_module < usize::MAX,
                flush_from(self@, m as int) == flush_from(mid, 1),
            decreases self@.last_module + 1 - m,
        {
            let ghost prev = self@;
            self.flush_module_calls(m);
            proof {
                assert(flush_from(prev, m as int) == flush_from(flushed(prev, m as int), m as int
                    + 1));
            }
            m = m + 1;
        }
        proof {
            assert(m as int > self@.last_module);
            assert(flush_from(self@, m as int) == self@);
        }
    }

    /// The number of directives consumed so far.
    pub fn command_no(&self) -> (r: u64)
        ensures
            r as int == self@.command_no,
    {
        self.command_no
    }

    /// The index of the most recently defined module.
    pub fn last_module(&self) -> (r: usize)
        ensures
            r as int == self@.last_module,
    {
        self.last_module
    }

    /// The output text accumulated so far.
    pub fn finalize(&self) -> (r: &String)
        ensures
            r@ == self@.buffer,
    {
        &self.buffer
    }

    /// Hands the finished buffer out.
    pub fn into_text(self) -> (r: String)
        ensures
            r@ == self@.buffer,
    {
        self.buffer
    }
}

/// Generates the complete test source for one named directive stream, and
/// yields the directive count alongside it. The text is a function of the
/// name and the stream alone, so an unchanged input regenerates byte-identical
/// output.
pub fn generate(filename: &str, directives: &Vec<Directive>) -> (r: (String, u64))
    requires
        directives@.len() < usize::MAX,
        forall|i: int|
            #![trigger directives@[i]]
            0 <= i < directives@.len() ==> kind_valid(directives@[i].kind),
    ensures
        r.0@ == generated_text(filename@, directives@),
        r.1 as int == directives@.len(),
{
    let mut g = Generator::new(String::from_str(filename));
    g.consume(directives);
    proof {
        lemma_run_command_no(initial_state(filename@), directives@);
        lemma_flush_from_counters(run(initial_state(filename@), directives@), 1);
    }
    let count = g.command_no();
    (g.into_text(), count)
}

} // verus!
