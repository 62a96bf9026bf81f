use std::collections::HashSet;
use wasm_opt::{Pass, PassInfo, PassRegistry};

fn info(name: &str, description: &str, hidden: bool, removes_debug_info: bool) -> PassInfo {
    PassInfo {
        name: name.to_string(),
        description: description.to_string(),
        hidden,
        removes_debug_info,
    }
}

/// The names under which the engine registers its passes, in the order in
/// which it registers them, as far as the catalog goes.
const ENGINE_NAMES: [&str; 33] = [
    "alignment-lowering",
    "asyncify",
    "avoid-reinterprets",
    "dae",
    "dae-optimizing",
    "coalesce-locals",
    "coalesce-locals-learning",
    "code-pushing",
    "code-folding",
    "const-hoisting",
    "cfp",
    "dce",
    "dealign",
    "denan",
    "directize",
    "dfo",
    "dwarfdump",
    "duplicate-import-elimination",
    "duplicate-function-elimination",
    "emit-target-features",
    "extract-function",
    "extract-function-index",
    "flatten",
    "fpcast-emu",
    "func-metrics",
    "generate-dyncalls",
    "generate-i64-dyncalls",
    "generate-stack-ir",
    "global-refining",
    "gto",
    "gsi",
    "type-refining",
    "heap2local",
];

/// A registry that shows these passes of the engine, under its names.
fn catalog_registry() -> PassRegistry {
    PassRegistry {
        passes: ENGINE_NAMES
            .iter()
            .map(|name| info(name, "a pass", false, false))
            .collect(),
    }
}

#[test]
fn all_passes_correct() {
    let registry = catalog_registry();

    let mut passes_via_registry = HashSet::<String>::new();
    registry.get_registered_names().iter().for_each(|name| {
        if !registry.is_pass_hidden(name) {
            passes_via_registry.insert(name.to_string());
        }
    });

    let mut passes_via_enum = HashSet::<String>::new();

    Pass::all().iter().for_each(|item| {
        passes_via_enum.insert(item.name().to_string());
    });

    let diff: Vec<_> = passes_via_registry.difference(&passes_via_enum).collect();

    println!("diff: {:?}", diff);

    assert_eq!(passes_via_registry, passes_via_enum);
    assert!(registry.matches_catalog());
}

#[test]
fn the_catalog_follows_the_order_of_the_engine() {
    let all = Pass::all();
    assert_eq!(all.len(), ENGINE_NAMES.len());
    for (pass, name) in all.iter().zip(ENGINE_NAMES.iter()) {
        assert_eq!(pass.name(), *name);
        assert_eq!(Pass::from_name(name), Some(*pass));
    }
}

#[test]
fn misspelt_names_are_no_passes() {
    for name in ["dao-optimizing", "heap-2-local", "code-hoisting", "heap2-local"] {
        assert_eq!(Pass::from_name(name), None);
    }
    let mut registry = catalog_registry();
    registry.passes[4].name = "dao-optimizing".to_string();
    assert!(!registry.matches_catalog());
}

#[test]
fn names_of_the_catalog() {
    let expected = [
        (Pass::AlignmentLowering, "alignment-lowering"),
        (Pass::Asyncify, "asyncify"),
        (Pass::AvoidReinterprets, "avoid-reinterprets"),
        (Pass::Dae, "dae"),
        (Pass::DaeOptimizing, "dae-optimizing"),
        (Pass::CoalesceLocals, "coalesce-locals"),
        (Pass::CoalesceLocalsLearning, "coalesce-locals-learning"),
        (Pass::CodePushing, "code-pushing"),
        (Pass::CodeFolding, "code-folding"),
        (Pass::CodeHoisting, "const-hoisting"),
        (Pass::Cfp, "cfp"),
        (Pass::Dce, "dce"),
        (Pass::Dealign, "dealign"),
        (Pass::DeNan, "denan"),
        (Pass::Directize, "directize"),
        (Pass::Dfo, "dfo"),
        (Pass::DwarfDump, "dwarfdump"),
        (Pass::DuplicateImportElimination, "duplicate-import-elimination"),
        (Pass::DuplicateFunctionElimination, "duplicate-function-elimination"),
        (Pass::EmitTargetFeatures, "emit-target-features"),
        (Pass::ExtractFunction, "extract-function"),
        (Pass::ExtractFunctionIndex, "extract-function-index"),
        (Pass::Flatten, "flatten"),
        (Pass::FpCastEmu, "fpcast-emu"),
        (Pass::FuncMetrics, "func-metrics"),
        (Pass::GenerateDyncalls, "generate-dyncalls"),
        (Pass::GenerateI64Dyncalls, "generate-i64-dyncalls"),
        (Pass::GenerateStackIr, "generate-stack-ir"),
        (Pass::GlobalRefining, "global-refining"),
        (Pass::Gto, "gto"),
        (Pass::Gsi, "gsi"),
        (Pass::TypeRefining, "type-refining"),
        (Pass::Heap2Local, "heap2local"),
    ];
    assert_eq!(Pass::all().len(), expected.len());
    for (i, (pass, name)) in expected.iter().enumerate() {
        assert_eq!(pass.name(), *name);
        assert_eq!(Pass::all()[i], *pass);
    }
}

#[test]
fn names_are_distinct_and_found_again() {
    let all = Pass::all();
    for (i, a) in all.iter().enumerate() {
        for (j, b) in all.iter().enumerate() {
            assert_eq!(a.name() == b.name(), i == j);
        }
        assert_eq!(Pass::from_name(a.name()), Some(*a));
    }
    assert_eq!(Pass::from_name("whatever"), None);
    assert_eq!(Pass::from_name(""), None);
    assert_eq!(Pass::from_name("Dce"), None);
}

#[test]
fn registry_lookups() {
    let registry = PassRegistry {
        passes: vec![
            info("dce", "Removes unreachable code.", false, false),
            info("strip-debug", "strip debug info", false, true),
            info("internal", "for the engine only", true, false),
            info("dce", "a second entry", true, true),
        ],
    };
    assert_eq!(registry.find("dce"), Some(0));
    assert_eq!(registry.find("internal"), Some(2));
    assert_eq!(registry.find("nothing"), None);
    assert!(registry.has("strip-debug"));
    assert!(!registry.has("strip"));
    assert_eq!(
        registry.get_registered_names(),
        vec!["dce", "strip-debug", "internal", "dce"]
    );
    assert_eq!(registry.get_pass_description("dce"), "Removes unreachable code.");
    assert_eq!(Pass::Dce.description(&registry), "Removes unreachable code.");
    assert!(!registry.is_pass_hidden("dce"));
    assert!(registry.is_pass_hidden("internal"));
    assert!(registry.pass_removes_debug_info("strip-debug"));
    assert!(!registry.pass_removes_debug_info("dce"));
    assert!(!registry.pass_removes_debug_info("nothing"));
    assert!(!Pass::Dce.removes_debug_info(&registry));
    assert!(!Pass::Flatten.removes_debug_info(&registry));
    assert!(registry.shows("dce"));
    assert!(!registry.shows("internal"));
    assert!(!registry.shows("nothing"));
}

#[test]
fn catalog_agrees_with_a_registry_of_its_names() {
    assert!(catalog_registry().matches_catalog());
}

#[test]
fn hidden_passes_do_not_count() {
    let mut registry = catalog_registry();
    registry.passes.push(info("internal", "", true, false));
    assert!(registry.matches_catalog());
}

#[test]
fn a_pass_that_the_catalog_lacks_breaks_the_agreement() {
    let mut registry = catalog_registry();
    registry.passes.push(info("inlining", "", false, false));
    assert!(!registry.matches_catalog());
}

#[test]
fn a_pass_that_the_registry_lacks_breaks_the_agreement() {
    let mut registry = catalog_registry();
    registry.passes.remove(3);
    assert!(!registry.matches_catalog());
    let mut hidden = catalog_registry();
    hidden.passes[3].hidden = true;
    assert!(!hidden.matches_catalog());
    assert!(!PassRegistry { passes: vec![] }.matches_catalog());
}
