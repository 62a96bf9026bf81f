use wasm_opt::{
    Feature, Features, FileType, InliningOptions, OptimizationOptions, OptimizeLevel, Pass,
    PassArguments, PassOptions, Passes, ReaderOptions, ShrinkLevel, WriterOptions,
};

#[test]
fn inlining_defaults() {
    let inlining = InliningOptions::default();
    assert_eq!(inlining.always_inline_max_size, 2);
    assert_eq!(inlining.one_caller_inline_max_size, u32::MAX);
    assert_eq!(inlining.flexible_inline_max_size, 20);
    assert!(!inlining.allow_functions_with_loops);
    assert_eq!(inlining.partial_inlining_ifs, 0);
}

#[test]
fn pass_options_defaults() {
    let passopts = PassOptions::default();
    assert!(!passopts.debug);
    assert!(passopts.validate);
    assert!(!passopts.validate_globally);
    assert_eq!(passopts.optimize_level, OptimizeLevel::Level2);
    assert_eq!(passopts.shrink_level, ShrinkLevel::Level1);
    assert!(!passopts.traps_never_happen);
    assert!(!passopts.low_memory_unused);
    assert!(!passopts.fast_math);
    assert!(!passopts.zero_filled_memory);
    assert!(!passopts.debug_info);
    assert_eq!(passopts.arguments.len(), 0);
}

#[test]
fn other_defaults() {
    assert_eq!(FileType::default(), FileType::Any);
    assert_eq!(ReaderOptions::default().file_type, FileType::Any);
    let writer = WriterOptions::default();
    assert_eq!(writer.file_type, FileType::Any);
    assert_eq!(writer.source_map_url, None);
    assert_eq!(OptimizeLevel::default(), OptimizeLevel::Level2);
    assert_eq!(ShrinkLevel::default(), ShrinkLevel::Level1);
    let passes = Passes::default();
    assert!(passes.add_default_passes);
    assert!(passes.more_passes.is_empty());
    assert!(matches!(Features::default(), Features::Default));
    let opts = OptimizationOptions::default();
    assert!(!opts.converge);
    assert!(matches!(opts.features, Features::Default));
    assert_eq!(opts.reader.file_type, FileType::Any);
    assert_eq!(opts.writer.file_type, FileType::Any);
}

#[test]
fn levels_as_numbers() {
    assert_eq!(OptimizeLevel::Level0.as_int(), 0);
    assert_eq!(OptimizeLevel::Level1.as_int(), 1);
    assert_eq!(OptimizeLevel::Level2.as_int(), 2);
    assert_eq!(OptimizeLevel::Level3.as_int(), 3);
    assert_eq!(OptimizeLevel::Level4.as_int(), 4);
    assert_eq!(ShrinkLevel::Level0.as_int(), 0);
    assert_eq!(ShrinkLevel::Level1.as_int(), 1);
    assert_eq!(ShrinkLevel::Level2.as_int(), 2);
}

#[test]
fn builder_sets_each_field() {
    let mut opts = OptimizationOptions::default();
    opts.reader_file_type(FileType::Wat)
        .writer_file_type(FileType::Wasm)
        .set_converge()
        .always_inline_max_size(3)
        .one_caller_inline_max_size(5)
        .flexible_inline_max_size(30)
        .allow_functions_with_loops(true)
        .partial_inlining_ifs(4)
        .validate(false)
        .validate_globally(true)
        .optimize_level(OptimizeLevel::Level4)
        .shrink_level(ShrinkLevel::Level2)
        .traps_never_happen(true)
        .low_memory_unused(true)
        .fast_math(true)
        .zero_filled_memory(true)
        .debug_info(true)
        .add_default_passes(false);
    assert_eq!(opts.reader.file_type, FileType::Wat);
    assert_eq!(opts.writer.file_type, FileType::Wasm);
    assert!(opts.converge);
    assert_eq!(opts.inlining.always_inline_max_size, 3);
    assert_eq!(opts.inlining.one_caller_inline_max_size, 5);
    assert_eq!(opts.inlining.flexible_inline_max_size, 30);
    assert!(opts.inlining.allow_functions_with_loops);
    assert_eq!(opts.inlining.partial_inlining_ifs, 4);
    assert!(!opts.passopts.validate);
    assert!(opts.passopts.validate_globally);
    assert_eq!(opts.passopts.optimize_level, OptimizeLevel::Level4);
    assert_eq!(opts.passopts.shrink_level, ShrinkLevel::Level2);
    assert!(opts.passopts.traps_never_happen);
    assert!(opts.passopts.low_memory_unused);
    assert!(opts.passopts.fast_math);
    assert!(opts.passopts.zero_filled_memory);
    assert!(opts.passopts.debug_info);
    assert!(!opts.passes.add_default_passes);
    assert!(!opts.passopts.debug);
}

#[test]
fn builder_changes_only_what_it_names() {
    let mut opts = OptimizationOptions::default();
    opts.validate(false);
    assert!(!opts.passopts.validate);
    assert_eq!(opts.passopts.optimize_level, OptimizeLevel::Level2);
    assert_eq!(opts.passopts.shrink_level, ShrinkLevel::Level1);
    assert!(opts.passes.add_default_passes);
    assert_eq!(opts.inlining, InliningOptions::default());
}

#[test]
fn passes_are_kept_in_call_order() {
    let mut opts = OptimizationOptions::new_opt_level_0();
    opts.add_pass(Pass::Dce)
        .add_pass(Pass::Flatten)
        .add_pass(Pass::Dce);
    assert_eq!(
        opts.passes.more_passes,
        vec![Pass::Dce, Pass::Flatten, Pass::Dce]
    );
}

#[test]
fn pass_arguments_are_a_map() {
    let mut opts = OptimizationOptions::default();
    opts.set_pass_arg("extract-function", "rust_begin_unwind")
        .set_pass_arg("other", "1")
        .set_pass_arg("extract-function", "main");
    assert_eq!(opts.passopts.arguments.len(), 2);
    assert_eq!(
        opts.passopts.arguments.get("extract-function"),
        Some("main".to_string())
    );
    assert_eq!(opts.passopts.arguments.get("other"), Some("1".to_string()));
    assert_eq!(opts.passopts.arguments.get("missing"), None);
    assert_eq!(
        opts.passopts.arguments.to_vec(),
        vec![
            ("other".to_string(), "1".to_string()),
            ("extract-function".to_string(), "main".to_string()),
        ]
    );
}

#[test]
fn pass_arguments_copy() {
    let mut args = PassArguments::new();
    args.insert("a", "1");
    let copy = args.clone();
    args.insert("a", "2");
    assert_eq!(copy.get("a"), Some("1".to_string()));
    assert_eq!(args.get("a"), Some("2".to_string()));
    assert_eq!(PassArguments::default().len(), 0);
}

#[test]
fn feature_modes_by_builder() {
    let mut opts = OptimizationOptions::default();
    opts.mvp_features_only();
    assert!(matches!(opts.features, Features::MvpOnly));
    opts.all_features();
    assert!(matches!(opts.features, Features::All));
    // Outside a custom selection the two calls change nothing.
    opts.enable_feature(Feature::Simd).disable_feature(Feature::Gc);
    assert!(matches!(opts.features, Features::All));
}

#[test]
fn last_call_on_a_feature_wins() {
    let mut opts = OptimizationOptions::default();
    opts.features = Features::custom();
    opts.enable_feature(Feature::Simd)
        .enable_feature(Feature::Gc)
        .enable_feature(Feature::Simd)
        .disable_feature(Feature::Atomics)
        .disable_feature(Feature::Gc)
        .enable_feature(Feature::Atomics);
    match &opts.features {
        Features::Custom(selection) => {
            assert_eq!(selection.enabled(), &vec![Feature::Simd, Feature::Atomics]);
            assert_eq!(selection.disabled(), &vec![Feature::Gc]);
        }
        _ => panic!("custom selection expected"),
    }
}
