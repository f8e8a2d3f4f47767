use spectest_gen::directive::{Directive, DirectiveKind};
use spectest_gen::generator::generate;
use spectest_gen::manifest::{assemble_manifest, manifest_entry};

const BANNER2: &str = "// Rust test file autogenerated with cargo build (build/spectests.rs).\n// Please do NOT modify it by hand, as it will be reseted on next build.\n";

fn registers(n: u64) -> Vec<Directive> {
    let mut ds = Vec::new();
    for i in 0..n {
        ds.push(Directive {
            line: i + 1,
            kind: DirectiveKind::Register {
                name: None,
                as_name: "m".to_string(),
            },
        });
    }
    ds
}

#[test]
fn large_files_are_gated_small_ones_are_not() {
    let (_, big) = generate("big.wast", &registers(250));
    assert_eq!(big, 250);
    assert_eq!(
        manifest_entry("big", big),
        "#[cfg(not(feature = \"fast-tests\"))]\nmod big;"
    );
    let (_, small) = generate("small.wast", &registers(50));
    assert_eq!(small, 50);
    assert_eq!(manifest_entry("small", small), "mod small;");
}

#[test]
fn gating_threshold_is_exclusive_at_two_hundred() {
    assert_eq!(manifest_entry("edge", 200), "mod edge;");
    assert_eq!(
        manifest_entry("edge", 201),
        "#[cfg(not(feature = \"fast-tests\"))]\nmod edge;"
    );
}

#[test]
fn manifest_lists_banner_common_and_every_module() {
    let entries = vec![
        "mod address;".to_string(),
        "#[cfg(not(feature = \"fast-tests\"))]\nmod align;".to_string(),
    ];
    let text = assemble_manifest(&entries);
    let expected = format!(
        "{}\n// The _common module is not autogenerated, as it provides common functions for the spectests\nmod _common;\nmod address;\n#[cfg(not(feature = \"fast-tests\"))]\nmod align;\n",
        BANNER2
    );
    assert_eq!(text, expected);
}

#[test]
fn empty_manifest_still_carries_banner_and_common() {
    let text = assemble_manifest(&Vec::new());
    let expected = format!(
        "{}\n// The _common module is not autogenerated, as it provides common functions for the spectests\nmod _common;\n",
        BANNER2
    );
    assert_eq!(text, expected);
}
