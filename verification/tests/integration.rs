use wasm_opt::integration::{classify, Flag, Parser, ValueFlag};
use wasm_opt::{
    parse_command_args, CommandError, Feature, Features, FileType, InliningOptions,
    OptimizationOptions, OptimizeLevel, ParsedCommand, Pass, ShrinkLevel,
};

fn args(list: &[&str]) -> Vec<String> {
    list.iter().map(|a| a.to_string()).collect()
}

/// Reads a command that names `in.wasm` and `out.wasm` and holds `rest`.
fn parse(rest: &[&str]) -> Result<ParsedCommand, CommandError> {
    let mut all = vec!["in.wasm", "--output", "out.wasm"];
    all.extend_from_slice(rest);
    parse_command_args(&args(&all))
}

fn opts(rest: &[&str]) -> OptimizationOptions {
    parse(rest).expect("the command is accepted").opts
}

fn triple(opts: &OptimizationOptions) -> (OptimizeLevel, ShrinkLevel, bool) {
    (
        opts.passopts.optimize_level,
        opts.passopts.shrink_level,
        opts.passes.add_default_passes,
    )
}

#[test]
fn pass_arg_unsupported_works() {
    let res = parse_command_args(&args(&[
        "infile.wasm",
        "--output",
        "outfile.wasm",
        "-p",
        "--whatever",
        "--no-validation",
    ]));

    assert!(res.is_err());

    if let Some(err) = res.err() {
        match err {
            CommandError::Unsupported { args } => {
                if args.contains(&String::from("--no-validation")) {
                    panic!();
                }

                if !(args.contains(&String::from("-p"))
                    && args.contains(&String::from("--whatever")))
                {
                    panic!();
                }
            }
            _ => panic!(),
        }
    }
}

#[test]
fn unknown_pass_name_is_listed_alone() {
    match parse(&["--dce", "--no-such-pass", "-O2"]) {
        Err(CommandError::Unsupported { args }) => assert_eq!(args, vec!["--no-such-pass"]),
        other => panic!("{:?}", other),
    }
}

#[test]
fn every_unknown_argument_is_listed_in_order() {
    let error = parse(&["-p", "-O", "--whatever", "second.wasm", "--print", "-p"]).unwrap_err();
    match &error {
        CommandError::Unsupported { args } => {
            assert_eq!(args, &vec!["-p", "--whatever", "second.wasm", "--print", "-p"]);
        }
        other => panic!("{:?}", other),
    }
    assert_eq!(
        error.message(),
        "Unsupported arguments: -p, --whatever, second.wasm, --print, -p"
    );
}

#[test]
fn no_arguments_means_no_optimization() {
    let command = parse(&[]).unwrap();
    assert_eq!(command.files.infile, "in.wasm");
    assert_eq!(command.files.outfile, "out.wasm");
    assert_eq!(command.files.infile_sourcemap, None);
    assert_eq!(command.files.outfile_sourcemap, None);
    assert_eq!(
        triple(&command.opts),
        (OptimizeLevel::Level0, ShrinkLevel::Level0, false)
    );
    assert!(command.opts.passes.more_passes.is_empty());
    assert!(command.opts.passopts.validate);
    assert_eq!(command.opts.reader.file_type, FileType::Any);
    assert_eq!(command.opts.writer.file_type, FileType::Any);
    assert!(matches!(command.opts.features, Features::Default));
}

#[test]
fn optimization_flags_select_profiles() {
    let cases = [
        ("-O", OptimizeLevel::Level2, ShrinkLevel::Level1, true),
        ("-O0", OptimizeLevel::Level0, ShrinkLevel::Level0, false),
        ("-O1", OptimizeLevel::Level1, ShrinkLevel::Level0, true),
        ("-O2", OptimizeLevel::Level2, ShrinkLevel::Level0, true),
        ("-O3", OptimizeLevel::Level3, ShrinkLevel::Level0, true),
        ("-O4", OptimizeLevel::Level4, ShrinkLevel::Level0, true),
        ("-Os", OptimizeLevel::Level2, ShrinkLevel::Level1, true),
        ("-Oz", OptimizeLevel::Level2, ShrinkLevel::Level2, true),
    ];
    for (flag, optimize, shrink, defaults) in cases {
        assert_eq!(triple(&opts(&[flag])), (optimize, shrink, defaults));
    }
    // The last one wins.
    assert_eq!(
        triple(&opts(&["-O3", "-Oz"])),
        (OptimizeLevel::Level2, ShrinkLevel::Level2, true)
    );
}

#[test]
fn format_and_files() {
    let command = parse_command_args(&args(&[
        "-o",
        "b.wat",
        "--emit-text",
        "--input-source-map",
        "a.map",
        "a.wasm",
        "--output-source-map",
        "b.map",
        "--output-source-map-url",
        "https://example.com",
    ]))
    .unwrap();
    assert_eq!(command.files.infile, "a.wasm");
    assert_eq!(command.files.infile_sourcemap, Some("a.map".to_string()));
    assert_eq!(command.files.outfile, "b.wat");
    assert_eq!(command.files.outfile_sourcemap, Some("b.map".to_string()));
    assert_eq!(command.opts.writer.file_type, FileType::Wat);
    assert_eq!(
        command.opts.writer.source_map_url,
        Some("https://example.com".to_string())
    );
    assert_eq!(opts(&["-S"]).writer.file_type, FileType::Wat);
}

#[test]
fn inlining_flags() {
    let opts = opts(&[
        "-O0",
        "--always-inline-max-function-size",
        "2",
        "--flexible-inline-max-function-size",
        "20",
        "--one-caller-inline-max-function-size",
        "5",
        "--inline-functions-with-loops",
        "--partial-inlining-ifs",
        "0",
    ]);
    assert_eq!(
        opts.inlining,
        InliningOptions {
            always_inline_max_size: 2,
            one_caller_inline_max_size: 5,
            flexible_inline_max_size: 20,
            allow_functions_with_loops: true,
            partial_inlining_ifs: 0,
        }
    );
    assert_eq!(triple(&opts), (OptimizeLevel::Level0, ShrinkLevel::Level0, false));
}

#[test]
fn boolean_flags() {
    let opts = opts(&[
        "-g",
        "--zero-filled-memory",
        "--traps-never-happen",
        "--low-memory-unused",
        "--fast-math",
        "--no-validation",
        "--converge",
        "--quiet",
    ]);
    assert!(opts.passopts.debug_info);
    assert!(opts.passopts.zero_filled_memory);
    assert!(opts.passopts.traps_never_happen);
    assert!(opts.passopts.low_memory_unused);
    assert!(opts.passopts.fast_math);
    assert!(!opts.passopts.validate);
    assert!(opts.converge);
    let plain = super_plain();
    assert!(!plain.passopts.debug_info);
    assert!(plain.passopts.validate);
    assert!(!plain.converge);
    assert!(self::opts(&["--debuginfo"]).passopts.debug_info);
}

fn super_plain() -> OptimizationOptions {
    opts(&[])
}

#[test]
fn a_number_is_needed_where_a_number_is_asked() {
    for bad in ["", "x", "-1", "+1", "1.5", " 1", "4294967296", "99999999999999999999999"] {
        match parse(&["--partial-inlining-ifs", bad]) {
            Err(CommandError::NeedNumber { arg }) => assert_eq!(arg, bad),
            other => panic!("{:?}", other),
        }
    }
    assert_eq!(
        opts(&["--partial-inlining-ifs", "4294967295"]).inlining.partial_inlining_ifs,
        u32::MAX
    );
    assert_eq!(
        opts(&["--always-inline-max-function-size", "007"]).inlining.always_inline_max_size,
        7
    );
    let error = parse(&["--whatever", "--flexible-inline-max-function-size", "many"]).unwrap_err();
    assert_eq!(error.message(), "Argument must be a number: many");
}

#[test]
fn a_flag_without_its_value_ends_the_command_too_early() {
    for flag in ["--output", "-o", "--pass-arg", "--input-source-map", "--partial-inlining-ifs"] {
        let result = parse_command_args(&args(&["in.wasm", "-o", "out.wasm", flag]));
        assert!(matches!(result, Err(CommandError::UnexpectedEndOfArgs)));
    }
    assert_eq!(
        CommandError::UnexpectedEndOfArgs.message(),
        "The argument list ended while expecting another argument"
    );
}

#[test]
fn both_files_are_required() {
    let none = parse_command_args(&args(&[]));
    assert!(matches!(none, Err(CommandError::InputFileRequired)));
    let no_input = parse_command_args(&args(&["-o", "out.wasm", "-O"]));
    assert!(matches!(no_input, Err(CommandError::InputFileRequired)));
    let no_output = parse_command_args(&args(&["in.wasm", "-O"]));
    assert!(matches!(no_output, Err(CommandError::OutputFileRequired)));
    // A missing file is reported before unknown arguments.
    let both = parse_command_args(&args(&["in.wasm", "--whatever"]));
    assert!(matches!(both, Err(CommandError::OutputFileRequired)));
    assert_eq!(
        CommandError::InputFileRequired.message(),
        "An input file is required"
    );
    assert_eq!(
        CommandError::OutputFileRequired.message(),
        "An output file is required"
    );
}

#[test]
fn a_value_is_taken_as_it_stands() {
    // What follows a flag that takes a value is its value, whatever it looks like.
    let command = parse_command_args(&args(&["in.wasm", "-o", "--dce"])).unwrap();
    assert_eq!(command.files.outfile, "--dce");
    assert!(command.opts.passes.more_passes.is_empty());
    // A single hyphen is no flag: it names a file.
    let command = parse_command_args(&args(&["-", "-o", "out.wasm"])).unwrap();
    assert_eq!(command.files.infile, "-");
}

#[test]
fn pass_arguments() {
    let opts = opts(&[
        "--extract-function",
        "--pass-arg",
        "extract-function@rust_begin_unwind",
        "--pass-arg",
        "k@a@b",
        "--pass-arg",
        "@",
    ]);
    assert_eq!(opts.passes.more_passes, vec![Pass::ExtractFunction]);
    assert_eq!(
        opts.passopts.arguments.get("extract-function"),
        Some("rust_begin_unwind".to_string())
    );
    assert_eq!(opts.passopts.arguments.get("k"), Some("a@b".to_string()));
    assert_eq!(opts.passopts.arguments.get(""), Some("".to_string()));
    assert_eq!(opts.passopts.arguments.len(), 3);
    match parse(&["--pass-arg", "no-value"]) {
        Err(CommandError::Unsupported { args }) => assert_eq!(args, vec!["no-value"]),
        other => panic!("{:?}", other),
    }
}

#[test]
fn passes_by_flag_in_order() {
    let opts = opts(&["--flatten", "-O1", "--dce", "--heap2local", "--flatten"]);
    assert_eq!(
        opts.passes.more_passes,
        vec![Pass::Flatten, Pass::Dce, Pass::Heap2Local, Pass::Flatten]
    );
    assert!(opts.passes.add_default_passes);
    for pass in Pass::all() {
        let flag = format!("--{}", pass.name());
        assert_eq!(classify(&flag), Flag::AddPass(pass));
        assert_eq!(self::opts(&[&flag]).passes.more_passes, vec![pass]);
    }
}

#[test]
fn feature_flags() {
    assert!(matches!(opts(&["-Os", "--mvp-features"]).features, Features::MvpOnly));
    assert!(matches!(opts(&["-Os", "--all-features"]).features, Features::All));
    let names = [
        ("threads", Feature::Atomics),
        ("mutable-globals", Feature::MutableGlobals),
        ("nontrapping-float-to-int", Feature::TruncSat),
        ("simd", Feature::Simd),
        ("bulk-memory", Feature::BulkMemory),
        ("sign-ext", Feature::SignExt),
        ("exception-handling", Feature::ExceptionHandling),
        ("tail-call", Feature::TailCall),
        ("reference-types", Feature::ReferenceTypes),
        ("multivalue", Feature::Multivalue),
        ("gc", Feature::Gc),
        ("memory64", Feature::Memory64),
        ("typed-function-references", Feature::TypedFunctionReferences),
        ("gc-nn-locals", Feature::GcNnLocals),
        ("relaxed-simd", Feature::RelaxedSimd),
        ("extended-const", Feature::ExtendedConst),
        ("strings", Feature::Strings),
        ("multi-memories", Feature::MultiMemories),
    ];
    let enable: Vec<String> = names.iter().map(|(n, _)| format!("--enable-{}", n)).collect();
    let disable: Vec<String> = names.iter().map(|(n, _)| format!("--disable-{}", n)).collect();
    let all: Vec<Feature> = names.iter().map(|(_, f)| *f).collect();
    let refs: Vec<&str> = enable.iter().map(|s| s.as_str()).collect();
    match opts(&refs).features {
        Features::Custom(selection) => {
            assert_eq!(selection.enabled(), &all);
            assert!(selection.disabled().is_empty());
        }
        other => panic!("{:?}", other),
    }
    let refs: Vec<&str> = disable.iter().map(|s| s.as_str()).collect();
    let parsed = opts(&refs);
    match &parsed.features {
        Features::Custom(selection) => {
            assert!(selection.enabled().is_empty());
            assert_eq!(selection.disabled(), &all);
        }
        other => panic!("{:?}", other),
    }
    let (enabled, disabled) = parsed.apply_features();
    assert_eq!((enabled.bits, disabled.bits), (0, 0x3ffff));
}

#[test]
fn last_feature_flag_wins() {
    match opts(&["--enable-simd", "--disable-gc", "--disable-simd", "--enable-gc", "--enable-gc"])
        .features
    {
        Features::Custom(selection) => {
            assert_eq!(selection.enabled(), &vec![Feature::Gc]);
            assert_eq!(selection.disabled(), &vec![Feature::Simd]);
        }
        other => panic!("{:?}", other),
    }
    // After a flag for all features, a flag for one changes nothing.
    assert!(matches!(opts(&["--all-features", "--disable-simd"]).features, Features::All));
    match parse(&["--enable-mvp", "--enable-", "--disable-all", "--enable-SIMD"]) {
        Err(CommandError::Unsupported { args }) => {
            assert_eq!(args, vec!["--enable-mvp", "--enable-", "--disable-all", "--enable-SIMD"]);
        }
        other => panic!("{:?}", other),
    }
}

#[test]
fn arguments_are_classified() {
    assert_eq!(classify("--output"), Flag::Value(ValueFlag::Output));
    assert_eq!(classify("-o"), Flag::Value(ValueFlag::Output));
    assert_eq!(classify("--pass-arg"), Flag::Value(ValueFlag::PassArg));
    assert_eq!(classify("--emit-text"), Flag::EmitText);
    assert_eq!(
        classify("-Oz"),
        Flag::Optimize(OptimizeLevel::Level2, ShrinkLevel::Level2, true)
    );
    assert_eq!(classify("--enable-simd"), Flag::Enable(Feature::Simd));
    assert_eq!(classify("--disable-threads"), Flag::Disable(Feature::Atomics));
    assert_eq!(classify("--dce"), Flag::AddPass(Pass::Dce));
    assert_eq!(classify("--dae-optimizing"), Flag::AddPass(Pass::DaeOptimizing));
    assert_eq!(classify("--const-hoisting"), Flag::AddPass(Pass::CodeHoisting));
    assert_eq!(classify("--heap2local"), Flag::AddPass(Pass::Heap2Local));
    assert_eq!(classify("--dao-optimizing"), Flag::Unknown);
    assert_eq!(classify("--heap-2-local"), Flag::Unknown);
    assert_eq!(classify("--code-hoisting"), Flag::Unknown);
    assert_eq!(classify("-dce"), Flag::Unknown);
    assert_eq!(classify("--"), Flag::Unknown);
    assert_eq!(classify("--version"), Flag::Unknown);
    assert_eq!(classify("-O5"), Flag::Unknown);
    assert_eq!(classify("--Output"), Flag::Unknown);
    assert_eq!(classify("-"), Flag::File);
    assert_eq!(classify(""), Flag::File);
    assert_eq!(classify("dce"), Flag::File);
    assert_eq!(classify("a-b"), Flag::File);
    assert_eq!(classify("é.wasm"), Flag::File);
}

#[test]
fn the_parser_can_be_fed_by_hand() {
    let parser = Parser::new();
    let parser = parser.feed("--output").unwrap();
    assert_eq!(parser.pending, Some(ValueFlag::Output));
    let parser = parser.feed("out.wasm").unwrap();
    assert_eq!(parser.pending, None);
    let parser = parser.feed("in.wasm").unwrap().feed("-O3").unwrap();
    let command = parser.finish().unwrap();
    assert_eq!(command.files.infile, "in.wasm");
    assert_eq!(command.files.outfile, "out.wasm");
    assert_eq!(
        triple(&command.opts),
        (OptimizeLevel::Level3, ShrinkLevel::Level0, true)
    );
}
