use wasm_opt::run::{
    names_of, sniff_format, stdin_path, unsupported_passes, will_remove_debug_info,
};
use wasm_opt::{
    Action, EnginePassOptions, Event, Feature, Features, FileType, Format, InliningOptions,
    OptimizationError, OptimizationOptions, Pass, PassInfo, PassRegistry, RunFiles, Stage,
};

const WASM_HEADER: [u8; 8] = [0x00, 0x61, 0x73, 0x6d, 0x01, 0x00, 0x00, 0x00];

fn info(name: &str, removes_debug_info: bool) -> PassInfo {
    PassInfo {
        name: name.to_string(),
        description: String::new(),
        hidden: false,
        removes_debug_info,
    }
}

/// The names under which the engine registers its passes, as far as the
/// catalog goes.
const ENGINE_NAMES: [&str; 33] = [
    "alignment-lowering",
    "asyncify",
    "avoid-reinterprets",
    "dae",
    "dae-optimizing",
    "coalesce-locals",
    "coalesce-locals-learning",
    "code-pushing",
    "code-folding",
    "const-hoisting",
    "cfp",
    "dce",
    "dealign",
    "denan",
    "directize",
    "dfo",
    "dwarfdump",
    "duplicate-import-elimination",
    "duplicate-function-elimination",
    "emit-target-features",
    "extract-function",
    "extract-function-index",
    "flatten",
    "fpcast-emu",
    "func-metrics",
    "generate-dyncalls",
    "generate-i64-dyncalls",
    "generate-stack-ir",
    "global-refining",
    "gto",
    "gsi",
    "type-refining",
    "heap2local",
];

/// A registry with these passes of the engine, and three that strip.
fn registry() -> PassRegistry {
    let mut passes: Vec<PassInfo> = ENGINE_NAMES.iter().map(|name| info(name, false)).collect();
    passes.push(info("strip", true));
    passes.push(info("strip-debug", true));
    passes.push(info("strip-dwarf", true));
    PassRegistry { passes }
}

fn files(infile: &str, outfile: &str) -> RunFiles {
    RunFiles {
        infile: infile.to_string(),
        infile_sourcemap: None,
        outfile: outfile.to_string(),
        outfile_sourcemap: None,
    }
}

/// Drives a run: answers each action from `answer`, and returns the actions
/// that the run asked for and its result.
fn drive(
    opts: &OptimizationOptions,
    files: &RunFiles,
    answer: impl Fn(&Action) -> Event,
) -> (Vec<String>, Result<(), OptimizationError>) {
    let mut stage = Stage::Start;
    let mut asked = Vec::new();
    for _ in 0..32 {
        let action = opts.action(files, &stage);
        if let Action::Finish(result) = action {
            return (asked, result);
        }
        asked.push(format!("{:?}", action));
        stage = opts.step(files, stage, answer(&action));
    }
    panic!("the run did not end");
}

/// The answers of an engine for which everything works, on a binary file.
fn all_goes_well(action: &Action) -> Event {
    match action {
        Action::QueryRegistry => Event::Registry(registry()),
        Action::ReadHeader { .. } => Event::Header(WASM_HEADER[..4].to_vec()),
        Action::ReadBinary { .. } | Action::ReadText { .. } => Event::Read(Ok(())),
        Action::ApplyFeatures { .. } => Event::FeaturesApplied,
        Action::Validate => Event::Validated(true),
        Action::RunPasses { .. } => Event::Transformed,
        Action::WriteBinary { .. } | Action::WriteText { .. } => Event::Written(Ok(())),
        Action::Finish(_) => unreachable!(),
    }
}

fn kinds(asked: &[String]) -> Vec<&str> {
    asked
        .iter()
        .map(|a| a.split(|c: char| !c.is_alphanumeric()).next().unwrap())
        .collect()
}

#[test]
fn stdin_paths_are_refused_before_anything_is_read() {
    for path in ["", "-"] {
        let opts = OptimizationOptions::default();
        let (asked, result) = drive(&opts, &files(path, "out.wasm"), all_goes_well);
        assert_eq!(kinds(&asked), vec!["QueryRegistry"]);
        assert!(matches!(result, Err(OptimizationError::InvalideStdinPath)));
    }
    assert!(stdin_path(""));
    assert!(stdin_path("-"));
    assert!(!stdin_path("--"));
    assert!(!stdin_path("a"));
    assert!(!stdin_path(" "));
    assert!(!stdin_path("-.wasm"));
}

#[test]
fn binary_magic_is_sniffed() {
    assert_eq!(sniff_format(&WASM_HEADER.to_vec()), Format::Binary);
    assert_eq!(sniff_format(&vec![0x00, 0x61, 0x73, 0x6d]), Format::Binary);
    assert_eq!(sniff_format(&vec![0x00, 0x61, 0x73]), Format::Text);
    assert_eq!(sniff_format(&vec![]), Format::Text);
    assert_eq!(sniff_format(&b"(module)".to_vec()), Format::Text);
    assert_eq!(sniff_format(&vec![0x01, 0x61, 0x73, 0x6d]), Format::Text);
    assert_eq!(sniff_format(&vec![0x00, 0x61, 0x73, 0x6e]), Format::Text);
}

#[test]
fn default_run_goes_through_every_stage() {
    let opts = OptimizationOptions::default();
    let (asked, result) = drive(&opts, &files("in.wasm", "out.wasm"), all_goes_well);
    assert!(result.is_ok());
    assert_eq!(
        kinds(&asked),
        vec![
            "QueryRegistry",
            "ReadHeader",
            "ReadBinary",
            "ApplyFeatures",
            "Validate",
            "RunPasses",
            "Validate",
            "WriteBinary",
        ]
    );
}

#[test]
fn without_validation_both_validations_are_left_out() {
    let mut opts = OptimizationOptions::default();
    opts.validate(false).reader_file_type(FileType::Wasm);
    let (asked, result) = drive(&opts, &files("in.wasm", "out.wasm"), all_goes_well);
    assert!(result.is_ok());
    assert_eq!(
        kinds(&asked),
        vec!["QueryRegistry", "ReadBinary", "ApplyFeatures", "RunPasses", "WriteBinary"]
    );
}

#[test]
fn reader_and_writer_follow_the_file_types() {
    let cases = [
        (FileType::Wasm, FileType::Wasm, "ReadBinary", "WriteBinary"),
        (FileType::Wasm, FileType::Wat, "ReadBinary", "WriteText"),
        (FileType::Wasm, FileType::Any, "ReadBinary", "WriteBinary"),
        (FileType::Wat, FileType::Wasm, "ReadText", "WriteBinary"),
        (FileType::Wat, FileType::Wat, "ReadText", "WriteText"),
        (FileType::Wat, FileType::Any, "ReadText", "WriteText"),
    ];
    for (reader, writer, read, write) in cases {
        let mut opts = OptimizationOptions::default();
        opts.reader_file_type(reader).writer_file_type(writer);
        let (asked, result) = drive(&opts, &files("in", "out"), all_goes_well);
        assert!(result.is_ok());
        let kinds = kinds(&asked);
        assert_eq!(kinds[1], read);
        assert_eq!(*kinds.last().unwrap(), write);
        assert!(!kinds.contains(&"ReadHeader"));
    }
}

#[test]
fn sniffed_text_is_read_and_written_as_text() {
    let opts = OptimizationOptions::default();
    let (asked, result) = drive(&opts, &files("in.wat", "out.wat"), |action| match action {
        Action::ReadHeader { .. } => Event::Header(b"(mod".to_vec()),
        other => all_goes_well(other),
    });
    assert!(result.is_ok());
    let kinds = kinds(&asked);
    assert_eq!(&kinds[..3], &["QueryRegistry", "ReadHeader", "ReadText"]);
    assert_eq!(*kinds.last().unwrap(), "WriteText");
}

#[test]
fn actions_name_the_files_of_the_run() {
    let mut opts = OptimizationOptions::default();
    opts.writer.source_map_url = Some("https://example.com".to_string());
    opts.debug_info(true);
    let files = RunFiles {
        infile: "in.wasm".to_string(),
        infile_sourcemap: Some("in.map".to_string()),
        outfile: "out.wasm".to_string(),
        outfile_sourcemap: Some("out.map".to_string()),
    };
    match opts.action(&files, &Stage::Read { format: None, dwarf: true }) {
        Action::ReadHeader { path } => assert_eq!(path, "in.wasm"),
        other => panic!("{:?}", other),
    }
    match opts.action(&files, &Stage::Read { format: Some(Format::Binary), dwarf: true }) {
        Action::ReadBinary { path, source_map, dwarf } => {
            assert_eq!(path, "in.wasm");
            assert_eq!(source_map, Some("in.map".to_string()));
            assert!(dwarf);
        }
        other => panic!("{:?}", other),
    }
    match opts.action(&files, &Stage::Read { format: Some(Format::Text), dwarf: false }) {
        Action::ReadText { path, dwarf } => {
            assert_eq!(path, "in.wasm");
            assert!(!dwarf);
        }
        other => panic!("{:?}", other),
    }
    match opts.action(&files, &Stage::Write { input: Format::Binary }) {
        Action::WriteBinary { path, debug_info, source_map, source_map_url } => {
            assert_eq!(path, "out.wasm");
            assert!(debug_info);
            assert_eq!(source_map, Some("out.map".to_string()));
            assert_eq!(source_map_url, Some("https://example.com".to_string()));
        }
        other => panic!("{:?}", other),
    }
}

#[test]
fn source_map_url_is_named_without_a_source_map_file() {
    let mut opts = OptimizationOptions::default();
    opts.writer.source_map_url = Some("https://example.com".to_string());
    match opts.action(&files("in.wasm", "out.wasm"), &Stage::Write { input: Format::Binary }) {
        Action::WriteBinary { source_map, source_map_url, debug_info, .. } => {
            assert_eq!(source_map, None);
            assert_eq!(source_map_url, Some("https://example.com".to_string()));
            assert!(!debug_info);
        }
        other => panic!("{:?}", other),
    }
}

#[test]
fn text_output_with_a_source_map_succeeds_without_it() {
    let mut opts = OptimizationOptions::default();
    opts.writer_file_type(FileType::Wat);
    let files = RunFiles {
        infile: "in.wasm".to_string(),
        infile_sourcemap: None,
        outfile: "out.wat".to_string(),
        outfile_sourcemap: Some("out.map".to_string()),
    };
    let (asked, result) = drive(&opts, &files, all_goes_well);
    assert!(result.is_ok());
    assert_eq!(
        asked.last().unwrap(),
        "WriteText { path: \"out.wat\", debug_info: false }"
    );
    assert!(asked.iter().all(|a| !a.contains("out.map")));
}

#[test]
fn unreadable_module_is_a_read_failure() {
    let opts = OptimizationOptions::default();
    let (asked, result) = drive(&opts, &files("in.wasm", "out.wasm"), |action| match action {
        Action::ReadBinary { .. } => Event::Read(Err("unexpected end of input".to_string())),
        other => all_goes_well(other),
    });
    assert_eq!(kinds(&asked), vec!["QueryRegistry", "ReadHeader", "ReadBinary"]);
    let error = result.unwrap_err();
    assert!(matches!(&error, OptimizationError::Read { source } if source == "unexpected end of input"));
    assert_eq!(error.message(), "Failed to read module");
    assert_eq!(error.source(), Some("unexpected end of input".to_string()));
}

#[test]
fn missing_file_is_a_read_failure() {
    let opts = OptimizationOptions::default();
    let (asked, result) = drive(&opts, &files("bogus.wasm", "bogus-out.wasm"), |action| {
        match action {
            Action::ReadHeader { .. } => Event::Read(Err("no such file".to_string())),
            other => all_goes_well(other),
        }
    });
    assert_eq!(kinds(&asked), vec!["QueryRegistry", "ReadHeader"]);
    assert!(matches!(result, Err(OptimizationError::Read { source }) if source == "no such file"));
}

#[test]
fn invalid_input_is_not_a_read_failure_and_nothing_is_written() {
    let mut opts = OptimizationOptions::default();
    opts.validate(true);
    let (asked, result) = drive(&opts, &files("in.wasm", "out.wasm"), |action| match action {
        Action::Validate => Event::Validated(false),
        other => all_goes_well(other),
    });
    assert_eq!(
        kinds(&asked),
        vec!["QueryRegistry", "ReadHeader", "ReadBinary", "ApplyFeatures", "Validate"]
    );
    assert!(asked.iter().all(|a| !a.contains("out.wasm")));
    let error = result.unwrap_err();
    assert!(matches!(error, OptimizationError::ValidateWasmInput));
    assert_eq!(
        error.message(),
        "Failed to validate wasm: error validating input"
    );
    assert_eq!(error.source(), None);
}

#[test]
fn invalid_output_is_its_own_failure_and_nothing_is_written() {
    let opts = OptimizationOptions::default();
    let validations = std::cell::Cell::new(0);
    let (asked, result) = drive(&opts, &files("in.wasm", "out.wasm"), |action| match action {
        Action::Validate => {
            validations.set(validations.get() + 1);
            Event::Validated(validations.get() == 1)
        }
        other => all_goes_well(other),
    });
    assert_eq!(*kinds(&asked).last().unwrap(), "Validate");
    assert_eq!(kinds(&asked).len(), 7);
    let error = result.unwrap_err();
    assert!(matches!(error, OptimizationError::ValidateWasmOutput));
    assert_eq!(error.message(), "Failed to validate wasm: error after opts");
}

#[test]
fn failed_write_is_a_write_failure() {
    let opts = OptimizationOptions::default();
    let (_, result) = drive(&opts, &files("in.wasm", "out.wasm"), |action| match action {
        Action::WriteBinary { .. } => Event::Written(Err("disk full".to_string())),
        other => all_goes_well(other),
    });
    let error = result.unwrap_err();
    assert!(matches!(&error, OptimizationError::Write { source } if source == "disk full"));
    assert_eq!(error.message(), "Failed to write module");
    assert_eq!(error.source(), Some("disk full".to_string()));
}

#[test]
fn unregistered_pass_is_unsupported() {
    let mut opts = OptimizationOptions::new_opt_level_0();
    opts.add_pass(Pass::Dce).add_pass(Pass::DaeOptimizing);
    // An engine that does not have the second pass.
    let (asked, result) = drive(&opts, &files("in.wasm", "out.wasm"), |action| match action {
        Action::QueryRegistry => Event::Registry(PassRegistry {
            passes: vec![info("dce", false), info("dae", false)],
        }),
        other => all_goes_well(other),
    });
    assert_eq!(kinds(&asked), vec!["QueryRegistry"]);
    let error = result.unwrap_err();
    match &error {
        OptimizationError::Unsupported { args } => assert_eq!(args, &vec!["dae-optimizing"]),
        other => panic!("{:?}", other),
    }
    assert_eq!(error.message(), "Unsupported arguments: dae-optimizing");
}

#[test]
fn every_pass_of_the_catalog_runs_on_the_engine() {
    let mut opts = OptimizationOptions::new_opt_level_0();
    for pass in Pass::all() {
        opts.add_pass(pass);
    }
    let (asked, result) = drive(&opts, &files("in.wasm", "out.wasm"), all_goes_well);
    assert!(result.is_ok());
    assert!(kinds(&asked).contains(&"RunPasses"));
    assert!(unsupported_passes(&Pass::all(), &registry()).is_empty());
}

#[test]
fn every_unregistered_pass_is_listed() {
    let passes = vec![Pass::Gto, Pass::Dce, Pass::Gsi, Pass::Flatten, Pass::Gto];
    let registry = PassRegistry { passes: vec![info("dce", false), info("flatten", false)] };
    assert_eq!(unsupported_passes(&passes, &registry), vec!["gto", "gsi", "gto"]);
    assert!(unsupported_passes(&[], &registry).is_empty());
    assert!(unsupported_passes(&[Pass::Dce], &registry).is_empty());
    let error = OptimizationError::Unsupported {
        args: unsupported_passes(&passes, &registry),
    };
    assert_eq!(error.message(), "Unsupported arguments: gto, gsi, gto");
    let none = OptimizationError::Unsupported { args: vec![] };
    assert_eq!(none.message(), "Unsupported arguments: ");
}

#[test]
fn stdin_path_is_refused_before_unsupported_passes() {
    let mut opts = OptimizationOptions::default();
    opts.add_pass(Pass::Dce);
    let stage = opts.start(&files("-", "out.wasm"), &PassRegistry { passes: vec![] });
    assert!(matches!(stage, Stage::Failed(OptimizationError::InvalideStdinPath)));
}

#[test]
fn opt_level_0_runs_no_pass() {
    let opts = OptimizationOptions::new_opt_level_0();
    match opts.action(&files("in.wasm", "out.wasm"), &Stage::Transform { input: Format::Binary }) {
        Action::RunPasses { options, add_default_passes, passes } => {
            assert!(!add_default_passes);
            assert!(passes.is_empty());
            assert_eq!(options.optimize_level, 0);
            assert_eq!(options.shrink_level, 0);
        }
        other => panic!("{:?}", other),
    }
    let (asked, result) = drive(&opts, &files("in.wasm", "out.wasm"), all_goes_well);
    assert!(result.is_ok());
    assert_eq!(*kinds(&asked).last().unwrap(), "WriteBinary");
}

#[test]
fn passes_are_handed_on_by_name_in_order() {
    let mut opts = OptimizationOptions::default();
    opts.add_pass(Pass::Flatten).add_pass(Pass::Dce).add_pass(Pass::Flatten);
    match opts.action(&files("in.wasm", "out.wasm"), &Stage::Transform { input: Format::Text }) {
        Action::RunPasses { add_default_passes, passes, .. } => {
            assert!(add_default_passes);
            assert_eq!(passes, vec!["flatten", "dce", "flatten"]);
        }
        other => panic!("{:?}", other),
    }
    assert_eq!(names_of(&[Pass::Heap2Local, Pass::Gto]), vec!["heap2local", "gto"]);
}

#[test]
fn pass_options_are_translated() {
    let mut opts = OptimizationOptions::new_opt_level_3();
    opts.validate(false)
        .validate_globally(true)
        .traps_never_happen(true)
        .fast_math(true)
        .debug_info(true)
        .partial_inlining_ifs(2)
        .set_pass_arg("extract-function", "rust_begin_unwind");
    let translated: EnginePassOptions = opts.translate_pass_options();
    assert!(!translated.validate);
    assert!(translated.validate_globally);
    assert_eq!(translated.optimize_level, 3);
    assert_eq!(translated.shrink_level, 0);
    assert!(translated.traps_never_happen);
    assert!(!translated.low_memory_unused);
    assert!(translated.fast_math);
    assert!(!translated.zero_filled_memory);
    assert!(translated.debug_info);
    assert_eq!(
        translated.arguments,
        vec![("extract-function".to_string(), "rust_begin_unwind".to_string())]
    );
    assert_eq!(
        translated.inlining,
        InliningOptions { partial_inlining_ifs: 2, ..InliningOptions::default() }
    );
    let defaults = OptimizationOptions::default().translate_pass_options();
    assert!(defaults.validate);
    assert_eq!((defaults.optimize_level, defaults.shrink_level), (2, 1));
    assert!(defaults.arguments.is_empty());
    assert_eq!(defaults.inlining, InliningOptions::default());
}

#[test]
fn features_are_forced_before_validation() {
    let mut opts = OptimizationOptions::default();
    opts.features = Features::custom();
    opts.enable_feature(Feature::Simd).disable_feature(Feature::Atomics);
    let (asked, result) = drive(&opts, &files("in.wasm", "out.wasm"), all_goes_well);
    assert!(result.is_ok());
    let apply = asked.iter().position(|a| a.starts_with("ApplyFeatures")).unwrap();
    let validate = asked.iter().position(|a| a.starts_with("Validate")).unwrap();
    let read = asked.iter().position(|a| a.starts_with("ReadBinary")).unwrap();
    assert!(read < apply && apply < validate);
    match opts.action(&files("in.wasm", "out.wasm"), &Stage::FeatureApply { input: Format::Binary }) {
        Action::ApplyFeatures { enabled, disabled } => {
            assert_eq!((enabled.bits, disabled.bits), (0x8, 0x1));
        }
        other => panic!("{:?}", other),
    }
}

#[test]
fn dwarf_is_read_only_if_kept_and_not_stripped() {
    let dwarf_of = |opts: &OptimizationOptions| match opts.start(&files("in.wasm", "out.wasm"), &registry()) {
        Stage::Read { dwarf, .. } => dwarf,
        other => panic!("{:?}", other),
    };
    let mut opts = OptimizationOptions::default();
    assert!(!dwarf_of(&opts));
    opts.debug_info(true);
    assert!(dwarf_of(&opts));
    opts.add_pass(Pass::Dce);
    assert!(dwarf_of(&opts));
    // A registry that says of a pass of the run that it removes debug info.
    let stripping = PassRegistry { passes: vec![info("dce", true)] };
    match opts.start(&files("in.wasm", "out.wasm"), &stripping) {
        Stage::Read { dwarf, format } => {
            assert!(!dwarf);
            assert_eq!(format, None);
        }
        other => panic!("{:?}", other),
    }
    assert!(will_remove_debug_info(&[Pass::Flatten, Pass::Dce], &stripping));
    assert!(!will_remove_debug_info(&[Pass::Flatten], &stripping));
    assert!(!will_remove_debug_info(&[], &stripping));
    assert!(!will_remove_debug_info(&[Pass::Dce], &registry()));
}

#[test]
fn an_event_that_is_not_waited_for_changes_nothing() {
    let opts = OptimizationOptions::default();
    let f = files("in.wasm", "out.wasm");
    let stage = opts.step(&f, Stage::Start, Event::Validated(true));
    assert!(matches!(stage, Stage::Start));
    let stage = opts.step(&f, Stage::Transform { input: Format::Text }, Event::Written(Ok(())));
    assert!(matches!(stage, Stage::Transform { input: Format::Text }));
    let stage = opts.step(&f, Stage::Read { format: None, dwarf: false }, Event::Read(Ok(())));
    assert!(matches!(stage, Stage::Read { format: None, dwarf: false }));
    let stage = opts.step(
        &f,
        Stage::Read { format: Some(Format::Text), dwarf: false },
        Event::Header(WASM_HEADER.to_vec()),
    );
    assert!(matches!(stage, Stage::Read { format: Some(Format::Text), dwarf: false }));
}

#[test]
fn an_ended_run_stays_ended() {
    let opts = OptimizationOptions::default();
    let f = files("in.wasm", "out.wasm");
    let stage = opts.step(&f, Stage::Done, Event::Written(Err("late".to_string())));
    assert!(matches!(stage, Stage::Done));
    assert!(matches!(opts.action(&f, &stage), Action::Finish(Ok(()))));
    let failed = Stage::Failed(OptimizationError::ValidateWasmInput);
    let stage = opts.step(&f, failed, Event::Validated(true));
    assert!(matches!(stage, Stage::Failed(OptimizationError::ValidateWasmInput)));
    assert!(matches!(
        opts.action(&f, &stage),
        Action::Finish(Err(OptimizationError::ValidateWasmInput))
    ));
}

#[test]
fn same_configuration_and_answers_give_the_same_run() {
    let mut opts = OptimizationOptions::new_optimize_for_size_aggressively();
    opts.add_pass(Pass::Dce).set_pass_arg("k", "v");
    let f = files("in.wasm", "out.wasm");
    let (first, _) = drive(&opts, &f, all_goes_well);
    let (second, _) = drive(&opts, &f, all_goes_well);
    assert_eq!(first, second);
}

#[test]
fn error_messages() {
    assert_eq!(
        OptimizationError::InvalideStdinPath.message(),
        "Refusing to read from stdin"
    );
    let copy = OptimizationError::Read { source: "x".to_string() }.duplicate();
    assert!(matches!(copy, OptimizationError::Read { source } if source == "x"));
    let copy = OptimizationError::Unsupported { args: vec!["a".to_string(), "b".to_string()] }
        .duplicate();
    assert!(matches!(copy, OptimizationError::Unsupported { args } if args == vec!["a", "b"]));
}
