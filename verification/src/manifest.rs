use vstd::prelude::*;
use vstd::string::StringExecFns;

use crate::generator::banner_str;

verus! {

/// A generated file whose directive count exceeds this threshold is excluded
/// from the fast/default build mode.
pub const FAST_TEST_LIMIT: u64 = 200;

/// The manifest line that brings one generated module in: gated behind the
/// full build mode when its directive count exceeds the threshold, included
/// unconditionally otherwise.
pub open spec fn manifest_entry_str(name: Seq<char>, count: int) -> Seq<char> {
    if count > FAST_TEST_LIMIT {
        "#[cfg(not(feature = \"fast-tests\"))]\nmod "@ + name + ";"@
    } else {
        "mod "@ + name + ";"@
    }
}

/// The fixed manifest line that brings the handwritten support module in.
pub open spec fn common_line_str() -> Seq<char> {
    "// The _common module is not autogenerated, as it provides common functions for the spectests\nmod _common;"@
}

/// The manifest entries from index `i` on, each on a line of its own, with a
/// trailing newline closing the file.
pub open spec fn entries_joined(es: Seq<Seq<char>>, i: int) -> Seq<char>
    decreases es.len() - i,
{
    if i < 0 || i >= es.len() {
        "\n"@
    } else {
        "\n"@ + es[i] + entries_joined(es, i + 1)
    }
}

/// The complete manifest text: the banner, the support-module line, and one
/// line per generated module.
pub open spec fn manifest_text(es: Seq<Seq<char>>) -> Seq<char> {
    banner_str() + "\n"@ + common_line_str() + entries_joined(es, 0)
}

/// Builds the manifest line for one generated module.
pub fn manifest_entry(name: &str, count: u64) -> (r: String)
    ensures
        r@ == manifest_entry_str(name@, count as int),
{
    let mut r = String::new();
    if count > FAST_TEST_LIMIT {
        r.append("#[cfg(not(feature = \"fast-tests\"))]\nmod ");
    } else {
        r.append("mod ");
    }
    r.append(name);
    r.append(";");
    r
}

/// Assembles the manifest from the per-module lines, in order.
pub fn assemble_manifest(entries: &Vec<String>) -> (r: String)
    ensures
        r@ == manifest_text(entries.deep_view()),
{
    let mut r = String::new();
    r.append(
        "// Rust test file autogenerated with cargo build (build/spectests.rs).\n// Please do NOT modify it by hand, as it will be reseted on next build.\n",
    );
    r.append("\n");
    r.append(
        "// The _common module is not autogenerated, as it provides common functions for the spectests\nmod _common;",
    );
    let n: usize = entries.len();
    let mut i: usize = 0;
    while i < n
        invariant
            n == entries@.len(),
            entries.deep_view().len() == n,
            forall|k: int| 0 <= k < n ==> entries.deep_view()[k] == entries@[k]@,
            i <= n,
            r@ + entries_joined(entries.deep_view(), i as int) == banner_str() + "\n"@
                + common_line_str() + entries_joined(entries.deep_view(), 0),
        decreases n - i,
    {
        r.append("\n");
        r.append(entries[i].as_str());
        i = i + 1;
        proof {
            assert(r@ + entries_joined(entries.deep_view(), i as int) =~= banner_str() + "\n"@
                + common_line_str() + entries_joined(entries.deep_view(), 0));
        }
    }
    r.append("\n");
    proof {
        assert(r@ =~= manifest_text(entries.deep_view()));
    }
    r
}

} // verus!
