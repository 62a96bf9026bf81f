//! A run, from the arguments of a command line.
//!
//! The arguments are those that the engine's own command takes, as far as a
//! configuration can hold what they say. An argument that is not known is
//! not passed over: the command is refused, with every such argument.

use vstd::prelude::*;

use crate::api::{
    opt_chars, FileType, OptimizationOptions, OptimizationOptionsView, OptimizeLevel,
    ShrinkLevel, WriterOptionsView,
};
use crate::error::{join, joined};
use crate::features::{Feature, Features, FeaturesView};
use crate::passes::Pass;
use crate::run::{RunFiles, RunFilesView};
use crate::text::{
    followed_by, decimal_u32, is_flag_like, looks_like_flag, parse_u32, split_at_first, split_once,
    str_eq,
};

verus! {

/// A flag that is followed by its value.
#[derive(Clone, Copy, Debug, Eq, PartialEq, Structural)]
pub enum ValueFlag {
    /// The output file.
    Output,
    /// The source map of the input.
    InputSourceMap,
    /// The file for the source map of the output.
    OutputSourceMap,
    /// The address of the source map that the output names.
    OutputSourceMapUrl,
    /// The size up to which a function is always inlined.
    AlwaysInlineMaxSize,
    /// The size up to which a function is inlined where that seems to pay.
    FlexibleInlineMaxSize,
    /// The size up to which a function with one caller is inlined.
    OneCallerInlineMaxSize,
    /// How many `if`s a function may start with to be inlined in part.
    PartialInliningIfs,
    /// An argument of a pass, as `key@value`.
    PassArg,
}

/// What an argument says.
#[derive(Clone, Copy, Debug, Eq, PartialEq, Structural)]
pub enum Flag {
    /// An optimization level: the optimize level, the shrink level and
    /// whether the default passes run.
    Optimize(OptimizeLevel, ShrinkLevel, bool),
    /// The next argument is the value of this flag.
    Value(ValueFlag),
    /// Write text.
    EmitText,
    /// Keep debug information.
    DebugInfo,
    /// Inline functions with loops.
    InlineFunctionsWithLoops,
    /// Assume that no trap is ever hit.
    TrapsNeverHappen,
    /// Assume that low memory is not used.
    LowMemoryUnused,
    /// Allow floating-point optimizations that change corner cases.
    FastMath,
    /// Assume that imported memory is zero-filled.
    ZeroFilledMemory,
    /// Force every feature beyond the MVP off.
    MvpFeatures,
    /// Force every feature but the experimental ones on.
    AllFeatures,
    /// Do not validate.
    NoValidation,
    /// Ask for the passes to run until the module stops changing: sets
    /// `converge`, which a run takes no notice of.
    Converge,
    /// Say nothing: taken, and without effect here.
    Quiet,
    /// Force a feature on.
    Enable(Feature),
    /// Force a feature off.
    Disable(Feature),
    /// Run a pass.
    AddPass(Pass),
    /// The argument looks like a flag and is none that is known.
    Unknown,
    /// The argument is no flag: it names a file.
    File,
}

/// Why a command is refused.
#[derive(Clone, Debug)]
pub enum CommandError {
    /// The command names no input file.
    InputFileRequired,
    /// The command names no output file.
    OutputFileRequired,
    /// The command ends with a flag that needs a value.
    UnexpectedEndOfArgs,
    /// The value of a flag that takes a number is no number.
    NeedNumber { arg: String },
    /// The command holds arguments that are not known; `args` holds every
    /// one of them, in the order of the command.
    Unsupported { args: Vec<String> },
}

/// The mathematical value of a [`CommandError`].
pub enum CommandErrorView {
    InputFileRequired,
    OutputFileRequired,
    UnexpectedEndOfArgs,
    NeedNumber { arg: Seq<char> },
    Unsupported { args: Seq<Seq<char>> },
}

impl View for CommandError {
    type V = CommandErrorView;

    open spec fn view(&self) -> CommandErrorView {
        match self {
            CommandError::InputFileRequired => CommandErrorView::InputFileRequired,
            CommandError::OutputFileRequired => CommandErrorView::OutputFileRequired,
            CommandError::UnexpectedEndOfArgs => CommandErrorView::UnexpectedEndOfArgs,
            CommandError::NeedNumber { arg } => CommandErrorView::NeedNumber { arg: arg@ },
            CommandError::Unsupported { args } => CommandErrorView::Unsupported {
                args: args.deep_view(),
            },
        }
    }
}

impl CommandErrorView {
    /// What the error says of itself.
    pub open spec fn message(self) -> Seq<char> {
        match self {
            CommandErrorView::InputFileRequired => "An input file is required"@,
            CommandErrorView::OutputFileRequired => "An output file is required"@,
            CommandErrorView::UnexpectedEndOfArgs => {
                "The argument list ended while expecting another argument"@
            },
            CommandErrorView::NeedNumber { arg } => "Argument must be a number: "@ + arg,
            CommandErrorView::Unsupported { args } => "Unsupported arguments: "@ + joined(args),
        }
    }
}

impl CommandError {
    /// What the error says of itself.
    pub fn message(&self) -> (r: String)
        ensures
            r@ == self@.message(),
    {
        match self {
            CommandError::InputFileRequired => "An input file is required".to_owned(),
            CommandError::OutputFileRequired => "An output file is required".to_owned(),
            CommandError::UnexpectedEndOfArgs => {
                "The argument list ended while expecting another argument".to_owned()
            },
            CommandError::NeedNumber { arg } => followed_by("Argument must be a number: ", arg.as_str()),
            CommandError::Unsupported { args } => {
                let list = join(args);
                followed_by("Unsupported arguments: ", list.as_str())
            },
        }
    }
}

/// The flags that are known by their whole name, each with what it says.
pub open spec fn plain_flags() -> Seq<(Seq<char>, Flag)> {
    seq![
        ("--output"@, Flag::Value(ValueFlag::Output)),
        ("-o"@, Flag::Value(ValueFlag::Output)),
        ("--emit-text"@, Flag::EmitText),
        ("-S"@, Flag::EmitText),
        ("--input-source-map"@, Flag::Value(ValueFlag::InputSourceMap)),
        ("--output-source-map"@, Flag::Value(ValueFlag::OutputSourceMap)),
        ("--output-source-map-url"@, Flag::Value(ValueFlag::OutputSourceMapUrl)),
        ("-O"@, Flag::Optimize(OptimizeLevel::Level2, ShrinkLevel::Level1, true)),
        ("-O0"@, Flag::Optimize(OptimizeLevel::Level0, ShrinkLevel::Level0, false)),
        ("-O1"@, Flag::Optimize(OptimizeLevel::Level1, ShrinkLevel::Level0, true)),
        ("-O2"@, Flag::Optimize(OptimizeLevel::Level2, ShrinkLevel::Level0, true)),
        ("-O3"@, Flag::Optimize(OptimizeLevel::Level3, ShrinkLevel::Level0, true)),
        ("-O4"@, Flag::Optimize(OptimizeLevel::Level4, ShrinkLevel::Level0, true)),
        ("-Os"@, Flag::Optimize(OptimizeLevel::Level2, ShrinkLevel::Level1, true)),
        ("-Oz"@, Flag::Optimize(OptimizeLevel::Level2, ShrinkLevel::Level2, true)),
        ("--debuginfo"@, Flag::DebugInfo),
        ("-g"@, Flag::DebugInfo),
        ("--always-inline-max-function-size"@, Flag::Value(ValueFlag::AlwaysInlineMaxSize)),
        ("--flexible-inline-max-function-size"@, Flag::Value(ValueFlag::FlexibleInlineMaxSize)),
        ("--one-caller-inline-max-function-size"@, Flag::Value(ValueFlag::OneCallerInlineMaxSize)),
        ("--inline-functions-with-loops"@, Flag::InlineFunctionsWithLoops),
        ("--partial-inlining-ifs"@, Flag::Value(ValueFlag::PartialInliningIfs)),
        ("--traps-never-happen"@, Flag::TrapsNeverHappen),
        ("--low-memory-unused"@, Flag::LowMemoryUnused),
        ("--fast-math"@, Flag::FastMath),
        ("--zero-filled-memory"@, Flag::ZeroFilledMemory),
        ("--mvp-features"@, Flag::MvpFeatures),
        ("--all-features"@, Flag::AllFeatures),
        ("--quiet"@, Flag::Quiet),
        ("--no-validation"@, Flag::NoValidation),
        ("--pass-arg"@, Flag::Value(ValueFlag::PassArg)),
        ("--converge"@, Flag::Converge),
    ]
}

/// The names by which the flags name the features. The MVP and the groups
/// have none: they are chosen by flags of their own.
pub open spec fn feature_names() -> Seq<(Seq<char>, Feature)> {
    seq![
        ("threads"@, Feature::Atomics),
        ("mutable-globals"@, Feature::MutableGlobals),
        ("nontrapping-float-to-int"@, Feature::TruncSat),
        ("simd"@, Feature::Simd),
        ("bulk-memory"@, Feature::BulkMemory),
        ("sign-ext"@, Feature::SignExt),
        ("exception-handling"@, Feature::ExceptionHandling),
        ("tail-call"@, Feature::TailCall),
        ("reference-types"@, Feature::ReferenceTypes),
        ("multivalue"@, Feature::Multivalue),
        ("gc"@, Feature::Gc),
        ("memory64"@, Feature::Memory64),
        ("typed-function-references"@, Feature::TypedFunctionReferences),
        ("gc-nn-locals"@, Feature::GcNnLocals),
        ("relaxed-simd"@, Feature::RelaxedSimd),
        ("extended-const"@, Feature::ExtendedConst),
        ("strings"@, Feature::Strings),
        ("multi-memories"@, Feature::MultiMemories),
    ]
}

/// What the first entry of a table says whose name, behind the prefix, is
/// the argument.
pub open spec fn table_lookup<T>(table: Seq<(Seq<char>, T)>, prefix: Seq<char>, token: Seq<char>)
    -> Option<T>
    decreases table.len(),
{
    if table.len() == 0 {
        None
    } else if prefix + table[0].0 == token {
        Some(table[0].1)
    } else {
        table_lookup(table.skip(1), prefix, token)
    }
}

/// The first pass of a list whose name, behind two hyphens, is the
/// argument.
pub open spec fn pass_lookup(passes: Seq<Pass>, token: Seq<char>) -> Option<Pass>
    decreases passes.len(),
{
    if passes.len() == 0 {
        None
    } else if "--"@ + passes[0].spec_name() == token {
        Some(passes[0])
    } else {
        pass_lookup(passes.skip(1), token)
    }
}

/// What an argument says: a flag that is known by its whole name; else
/// `--enable-` or `--disable-` and the name of a feature; else two hyphens
/// and the name of a pass; else, if it looks like a flag, something that is
/// not known; else a file.
pub open spec fn spec_classify(token: Seq<char>) -> Flag {
    if let Some(flag) = table_lookup(plain_flags(), Seq::empty(), token) {
        flag
    } else if let Some(feature) = table_lookup(feature_names(), "--enable-"@, token) {
        Flag::Enable(feature)
    } else if let Some(feature) = table_lookup(feature_names(), "--disable-"@, token) {
        Flag::Disable(feature)
    } else if let Some(pass) = pass_lookup(Pass::catalog(), token) {
        Flag::AddPass(pass)
    } else if is_flag_like(token) {
        Flag::Unknown
    } else {
        Flag::File
    }
}

/// The names of a table of flags, each with what it says.
pub open spec fn table_view<T>(table: Seq<(&'static str, T)>) -> Seq<(Seq<char>, T)> {
    Seq::new(table.len(), |i: int| (table[i].0@, table[i].1))
}

/// What the first entry of a table says whose name, behind the prefix, is
/// the argument.
pub fn lookup_flag<T: Copy>(table: &Vec<(&'static str, T)>, prefix: &str, token: &str) -> (r:
    Option<T>)
    ensures
        r == table_lookup(table_view(table@), prefix@, token@),
{
    let ghost all = table_view(table@);
    let mut i: usize = 0;
    assert(all.skip(0) =~= all);
    while i < table.len()
        invariant
            i <= table.len(),
            all == table_view(table@),
            table_lookup(all, prefix@, token@) == table_lookup(
                all.skip(i as int),
                prefix@,
                token@,
            ),
        decreases table.len() - i,
    {
        proof {
            assert(all.skip(i as int)[0] == all[i as int]);
            assert(all.skip(i as int).skip(1) =~= all.skip(i + 1));
        }
        let name = followed_by(prefix, table[i].0);
        if str_eq(name.as_str(), token) {
            return Some(table[i].1);
        }
        i = i + 1;
    }
    None
}

/// The first pass of the catalog whose name, behind two hyphens, is the
/// argument.
pub fn lookup_pass(token: &str) -> (r: Option<Pass>)
    ensures
        r == pass_lookup(Pass::catalog(), token@),
{
    let all = Pass::all();
    let mut i: usize = 0;
    assert(all@.skip(0) =~= all@);
    while i < all.len()
        invariant
            i <= all.len(),
            all@ == Pass::catalog(),
            pass_lookup(all@, token@) == pass_lookup(all@.skip(i as int), token@),
        decreases all.len() - i,
    {
        proof {
            assert(all@.skip(i as int)[0] == all@[i as int]);
            assert(all@.skip(i as int).skip(1) =~= all@.skip(i + 1));
        }
        let name = followed_by("--", all[i].name());
        if str_eq(name.as_str(), token) {
            return Some(all[i]);
        }
        i = i + 1;
    }
    None
}

/// The flags that are known by their whole name, each with what it says.
pub fn known_flags() -> (r: Vec<(&'static str, Flag)>)
    ensures
        table_view(r@) == plain_flags(),
{
    let r = vec![
        ("--output", Flag::Value(ValueFlag::Output)),
        ("-o", Flag::Value(ValueFlag::Output)),
        ("--emit-text", Flag::EmitText),
        ("-S", Flag::EmitText),
        ("--input-source-map", Flag::Value(ValueFlag::InputSourceMap)),
        ("--output-source-map", Flag::Value(ValueFlag::OutputSourceMap)),
        ("--output-source-map-url", Flag::Value(ValueFlag::OutputSourceMapUrl)),
        ("-O", Flag::Optimize(OptimizeLevel::Level2, ShrinkLevel::Level1, true)),
        ("-O0", Flag::Optimize(OptimizeLevel::Level0, ShrinkLevel::Level0, false)),
        ("-O1", Flag::Optimize(OptimizeLevel::Level1, ShrinkLevel::Level0, true)),
        ("-O2", Flag::Optimize(OptimizeLevel::Level2, ShrinkLevel::Level0, true)),
        ("-O3", Flag::Optimize(OptimizeLevel::Level3, ShrinkLevel::Level0, true)),
        ("-O4", Flag::Optimize(OptimizeLevel::Level4, ShrinkLevel::Level0, true)),
        ("-Os", Flag::Optimize(OptimizeLevel::Level2, ShrinkLevel::Level1, true)),
        ("-Oz", Flag::Optimize(OptimizeLevel::Level2, ShrinkLevel::Level2, true)),
        ("--debuginfo", Flag::DebugInfo),
        ("-g", Flag::DebugInfo),
        ("--always-inline-max-function-size", Flag::Value(ValueFlag::AlwaysInlineMaxSize)),
        ("--flexible-inline-max-function-size", Flag::Value(ValueFlag::FlexibleInlineMaxSize)),
        ("--one-caller-inline-max-function-size", Flag::Value(ValueFlag::OneCallerInlineMaxSize)),
        ("--inline-functions-with-loops", Flag::InlineFunctionsWithLoops),
        ("--partial-inlining-ifs", Flag::Value(ValueFlag::PartialInliningIfs)),
        ("--traps-never-happen", Flag::TrapsNeverHappen),
        ("--low-memory-unused", Flag::LowMemoryUnused),
        ("--fast-math", Flag::FastMath),
        ("--zero-filled-memory", Flag::ZeroFilledMemory),
        ("--mvp-features", Flag::MvpFeatures),
        ("--all-features", Flag::AllFeatures),
        ("--quiet", Flag::Quiet),
        ("--no-validation", Flag::NoValidation),
        ("--pass-arg", Flag::Value(ValueFlag::PassArg)),
        ("--converge", Flag::Converge),
    ];
    assert(table_view(r@) =~= plain_flags());
    r
}

/// The names by which the flags name the features.
pub fn known_features() -> (r: Vec<(&'static str, Feature)>)
    ensures
        table_view(r@) == feature_names(),
{
    let r = vec![
        ("threads", Feature::Atomics),
        ("mutable-globals", Feature::MutableGlobals),
        ("nontrapping-float-to-int", Feature::TruncSat),
        ("simd", Feature::Simd),
        ("bulk-memory", Feature::BulkMemory),
        ("sign-ext", Feature::SignExt),
        ("exception-handling", Feature::ExceptionHandling),
        ("tail-call", Feature::TailCall),
        ("reference-types", Feature::ReferenceTypes),
        ("multivalue", Feature::Multivalue),
        ("gc", Feature::Gc),
        ("memory64", Feature::Memory64),
        ("typed-function-references", Feature::TypedFunctionReferences),
        ("gc-nn-locals", Feature::GcNnLocals),
        ("relaxed-simd", Feature::RelaxedSimd),
        ("extended-const", Feature::ExtendedConst),
        ("strings", Feature::Strings),
        ("multi-memories", Feature::MultiMemories),
    ];
    assert(table_view(r@) =~= feature_names());
    r
}

/// What an argument says.
pub fn classify(token: &str) -> (r: Flag)
    ensures
        r == spec_classify(token@),
{
    let flags = known_flags();
    proof {
        assert(""@ =~= Seq::<char>::empty()) by {
            reveal_strlit("");
        }
    }
    if let Some(flag) = lookup_flag(&flags, "", token) {
        return flag;
    }
    let features = known_features();
    if let Some(feature) = lookup_flag(&features, "--enable-", token) {
        return Flag::Enable(feature);
    }
    if let Some(feature) = lookup_flag(&features, "--disable-", token) {
        return Flag::Disable(feature);
    }
    if let Some(pass) = lookup_pass(token) {
        return Flag::AddPass(pass);
    }
    if looks_like_flag(token) {
        Flag::Unknown
    } else {
        Flag::File
    }
}

/// A command as far as it has been read.
#[derive(Clone, Debug)]
pub struct Parser {
    /// The configuration that the arguments have made so far.
    pub opts: OptimizationOptions,
    /// The input file, once it is named.
    pub input_file: Option<String>,
    /// The source map of the input, once it is named.
    pub input_sourcemap: Option<String>,
    /// The output file, once it is named.
    pub output_file: Option<String>,
    /// The file for the source map of the output, once it is named.
    pub output_sourcemap: Option<String>,
    /// The arguments that are not known, in their order.
    pub unsupported: Vec<String>,
    /// The flag whose value the next argument is, if there is one.
    pub pending: Option<ValueFlag>,
}

/// The mathematical value of a [`Parser`].
pub struct ParserView {
    pub opts: OptimizationOptionsView,
    pub input_file: Option<Seq<char>>,
    pub input_sourcemap: Option<Seq<char>>,
    pub output_file: Option<Seq<char>>,
    pub output_sourcemap: Option<Seq<char>>,
    pub unsupported: Seq<Seq<char>>,
    pub pending: Option<ValueFlag>,
}

impl View for Parser {
    type V = ParserView;

    open spec fn view(&self) -> ParserView {
        ParserView {
            opts: self.opts@,
            input_file: opt_chars(self.input_file),
            input_sourcemap: opt_chars(self.input_sourcemap),
            output_file: opt_chars(self.output_file),
            output_sourcemap: opt_chars(self.output_sourcemap),
            unsupported: self.unsupported.deep_view(),
            pending: self.pending,
        }
    }
}

/// A command that has been read to its end: a configuration and the files
/// to run it on.
#[derive(Clone, Debug)]
pub struct ParsedCommand {
    pub opts: OptimizationOptions,
    pub files: RunFiles,
}

/// The mathematical value of a [`ParsedCommand`].
pub struct ParsedCommandView {
    pub opts: OptimizationOptionsView,
    pub files: RunFilesView,
}

impl View for ParsedCommand {
    type V = ParsedCommandView;

    open spec fn view(&self) -> ParsedCommandView {
        ParsedCommandView { opts: self.opts@, files: self.files@ }
    }
}

/// The result of reading a command, by its value.
pub open spec fn parsed_view(result: Result<ParsedCommand, CommandError>) -> Result<
    ParsedCommandView,
    CommandErrorView,
> {
    match result {
        Ok(command) => Ok(command@),
        Err(error) => Err(error@),
    }
}

/// The result of reading an argument, by its value.
pub open spec fn fed_view(result: Result<Parser, CommandError>) -> Result<
    ParserView,
    CommandErrorView,
> {
    match result {
        Ok(parser) => Ok(parser@),
        Err(error) => Err(error@),
    }
}

impl FeaturesView {
    /// The selection that a flag for one feature works on: a selection that
    /// forces nothing becomes a custom one.
    pub open spec fn customized(self) -> FeaturesView {
        match self {
            FeaturesView::Default => FeaturesView::Custom {
                enabled: Seq::empty(),
                disabled: Seq::empty(),
            },
            _ => self,
        }
    }
}

impl ParserView {
    /// A command of which nothing has been read: no optimization, no files.
    pub open spec fn initial() -> ParserView {
        ParserView {
            opts: OptimizationOptionsView::spec_default().optimize_level(
                OptimizeLevel::Level0,
            ).shrink_level(ShrinkLevel::Level0).add_default_passes(false),
            input_file: None,
            input_sourcemap: None,
            output_file: None,
            output_sourcemap: None,
            unsupported: Seq::empty(),
            pending: None,
        }
    }

    /// The command with another configuration.
    pub open spec fn with_opts(self, opts: OptimizationOptionsView) -> ParserView {
        ParserView { opts, ..self }
    }

    /// The command with one more argument that is not known.
    pub open spec fn refuse(self, token: Seq<char>) -> ParserView {
        ParserView { unsupported: self.unsupported.push(token), ..self }
    }

    /// The command after the value of a flag.
    pub open spec fn take_value(self, flag: ValueFlag, token: Seq<char>) -> Result<
        ParserView,
        CommandErrorView,
    > {
        match flag {
            ValueFlag::Output => Ok(ParserView { output_file: Some(token), ..self }),
            ValueFlag::InputSourceMap => Ok(ParserView { input_sourcemap: Some(token), ..self }),
            ValueFlag::OutputSourceMap => Ok(ParserView { output_sourcemap: Some(token), ..self }),
            ValueFlag::OutputSourceMapUrl => Ok(
                self.with_opts(
                    OptimizationOptionsView {
                        writer: WriterOptionsView {
                            source_map_url: Some(token),
                            ..self.opts.writer
                        },
                        ..self.opts
                    },
                ),
            ),
            ValueFlag::AlwaysInlineMaxSize => match decimal_u32(token) {
                Some(size) => Ok(self.with_opts(self.opts.always_inline_max_size(size))),
                None => Err(CommandErrorView::NeedNumber { arg: token }),
            },
            ValueFlag::FlexibleInlineMaxSize => match decimal_u32(token) {
                Some(size) => Ok(self.with_opts(self.opts.flexible_inline_max_size(size))),
                None => Err(CommandErrorView::NeedNumber { arg: token }),
            },
            ValueFlag::OneCallerInlineMaxSize => match decimal_u32(token) {
                Some(size) => Ok(self.with_opts(self.opts.one_caller_inline_max_size(size))),
                None => Err(CommandErrorView::NeedNumber { arg: token }),
            },
            ValueFlag::PartialInliningIfs => match decimal_u32(token) {
                Some(number) => Ok(self.with_opts(self.opts.partial_inlining_ifs(number))),
                None => Err(CommandErrorView::NeedNumber { arg: token }),
            },
            ValueFlag::PassArg => match split_at_first(token, '@') {
                Some((key, value)) => Ok(self.with_opts(self.opts.set_pass_arg(key, value))),
                None => Ok(self.refuse(token)),
            },
        }
    }

    /// The command after an argument that is no value of a flag.
    pub open spec fn take_flag(self, flag: Flag, token: Seq<char>) -> ParserView {
        match flag {
            Flag::Optimize(optimize, shrink, defaults) => self.with_opts(
                self.opts.optimize_level(optimize).shrink_level(shrink).add_default_passes(
                    defaults,
                ),
            ),
            Flag::Value(flag) => ParserView { pending: Some(flag), ..self },
            Flag::EmitText => self.with_opts(self.opts.writer_file_type(FileType::Wat)),
            Flag::DebugInfo => self.with_opts(self.opts.debug_info(true)),
            Flag::InlineFunctionsWithLoops => self.with_opts(
                self.opts.allow_functions_with_loops(true),
            ),
            Flag::TrapsNeverHappen => self.with_opts(self.opts.traps_never_happen(true)),
            Flag::LowMemoryUnused => self.with_opts(self.opts.low_memory_unused(true)),
            Flag::FastMath => self.with_opts(self.opts.fast_math(true)),
            Flag::ZeroFilledMemory => self.with_opts(self.opts.zero_filled_memory(true)),
            Flag::MvpFeatures => self.with_opts(self.opts.mvp_features_only()),
            Flag::AllFeatures => self.with_opts(self.opts.all_features()),
            Flag::NoValidation => self.with_opts(self.opts.validate(false)),
            Flag::Converge => self.with_opts(self.opts.set_converge()),
            Flag::Quiet => self,
            Flag::Enable(feature) => self.with_opts(
                OptimizationOptionsView {
                    features: self.opts.features.customized().enable(feature),
                    ..self.opts
                },
            ),
            Flag::Disable(feature) => self.with_opts(
                OptimizationOptionsView {
                    features: self.opts.features.customized().disable(feature),
                    ..self.opts
                },
            ),
            Flag::AddPass(pass) => self.with_opts(self.opts.add_pass(pass)),
            Flag::Unknown => self.refuse(token),
            Flag::File => if self.input_file is None {
                ParserView { input_file: Some(token), ..self }
            } else {
                self.refuse(token)
            },
        }
    }

    /// The command after one more argument: the value of the flag before
    /// it, if that flag takes one, and else what the argument says.
    pub open spec fn feed(self, token: Seq<char>) -> Result<ParserView, CommandErrorView> {
        match self.pending {
            Some(flag) => ParserView { pending: None, ..self }.take_value(flag, token),
            None => Ok(self.take_flag(spec_classify(token), token)),
        }
    }

    /// The command after a list of arguments. The first argument that is
    /// refused at once ends the reading.
    pub open spec fn feed_all(self, tokens: Seq<Seq<char>>) -> Result<ParserView, CommandErrorView>
        decreases tokens.len(),
    {
        if tokens.len() == 0 {
            Ok(self)
        } else {
            match self.feed_all(tokens.drop_last()) {
                Ok(parser) => parser.feed(tokens.last()),
                Err(error) => Err(error),
            }
        }
    }

    /// The command at its end: refused where a flag still waits for its
    /// value, where no input file or no output file is named, and where an
    /// argument was not known.
    pub open spec fn finish(self) -> Result<ParsedCommandView, CommandErrorView> {
        if self.pending is Some {
            Err(CommandErrorView::UnexpectedEndOfArgs)
        } else if self.input_file is None {
            Err(CommandErrorView::InputFileRequired)
        } else if self.output_file is None {
            Err(CommandErrorView::OutputFileRequired)
        } else if self.unsupported.len() > 0 {
            Err(CommandErrorView::Unsupported { args: self.unsupported })
        } else {
            Ok(
                ParsedCommandView {
                    opts: self.opts,
                    files: RunFilesView {
                        infile: self.input_file->0,
                        infile_sourcemap: self.input_sourcemap,
                        outfile: self.output_file->0,
                        outfile_sourcemap: self.output_sourcemap,
                    },
                },
            )
        }
    }
}

/// What a list of arguments says: a configuration and its files, or why the
/// command is refused.
pub open spec fn spec_parse(tokens: Seq<Seq<char>>) -> Result<ParsedCommandView, CommandErrorView> {
    match ParserView::initial().feed_all(tokens) {
        Ok(parser) => parser.finish(),
        Err(error) => Err(error),
    }
}

impl Parser {
    /// A command of which nothing has been read.
    pub fn new() -> (r: Parser)
        ensures
            r@ == ParserView::initial(),
    {
        let r = Parser {
            opts: OptimizationOptions::new_opt_level_0(),
            input_file: None,
            input_sourcemap: None,
            output_file: None,
            output_sourcemap: None,
            unsupported: Vec::new(),
            pending: None,
        };
        assert(r.unsupported.deep_view() =~= Seq::empty());
        r
    }

    fn refuse(&mut self, token: &str)
        ensures
            final(self)@ == old(self)@.refuse(token@),
    {
        let ghost before = self.unsupported.deep_view();
        self.unsupported.push(token.to_owned());
        assert(self.unsupported.deep_view() =~= before.push(token@));
    }

    fn take_value(self, flag: ValueFlag, token: &str) -> (r: Result<Parser, CommandError>)
        ensures
            fed_view(r) == self@.take_value(flag, token@),
    {
        let mut this = self;
        match flag {
            ValueFlag::Output => {
                this.output_file = Some(token.to_owned());
            },
            ValueFlag::InputSourceMap => {
                this.input_sourcemap = Some(token.to_owned());
            },
            ValueFlag::OutputSourceMap => {
                this.output_sourcemap = Some(token.to_owned());
            },
            ValueFlag::OutputSourceMapUrl => {
                this.opts.writer.source_map_url = Some(token.to_owned());
            },
            ValueFlag::AlwaysInlineMaxSize => match parse_u32(token) {
                Some(size) => {
                    this.opts.always_inline_max_size(size);
                },
                None => {
                    return Err(CommandError::NeedNumber { arg: token.to_owned() });
                },
            },
            ValueFlag::FlexibleInlineMaxSize => match parse_u32(token) {
                Some(size) => {
                    this.opts.flexible_inline_max_size(size);
                },
                None => {
                    return Err(CommandError::NeedNumber { arg: token.to_owned() });
                },
            },
            ValueFlag::OneCallerInlineMaxSize => match parse_u32(token) {
                Some(size) => {
                    this.opts.one_caller_inline_max_size(size);
                },
                None => {
                    return Err(CommandError::NeedNumber { arg: token.to_owned() });
                },
            },
            ValueFlag::PartialInliningIfs => match parse_u32(token) {
                Some(number) => {
                    this.opts.partial_inlining_ifs(number);
                },
                None => {
                    return Err(CommandError::NeedNumber { arg: token.to_owned() });
                },
            },
            ValueFlag::PassArg => match split_once(token, '@') {
                Some(parts) => {
                    this.opts.set_pass_arg(parts.0.as_str(), parts.1.as_str());
                },
                None => {
                    this.refuse(token);
                },
            },
        }
        Ok(this)
    }

    fn take_flag(self, flag: Flag, token: &str) -> (r: Parser)
        ensures
            r@ == self@.take_flag(flag, token@),
    {
        let mut this = self;
        match flag {
            Flag::Optimize(optimize, shrink, defaults) => {
                this.opts.optimize_level(optimize).shrink_level(shrink).add_default_passes(
                    defaults,
                );
            },
            Flag::Value(flag) => {
                this.pending = Some(flag);
            },
            Flag::EmitText => {
                this.opts.writer_file_type(FileType::Wat);
            },
            Flag::DebugInfo => {
                this.opts.debug_info(true);
            },
            Flag::InlineFunctionsWithLoops => {
                this.opts.allow_functions_with_loops(true);
            },
            Flag::TrapsNeverHappen => {
                this.opts.traps_never_happen(true);
            },
            Flag::LowMemoryUnused => {
                this.opts.low_memory_unused(true);
            },
            Flag::FastMath => {
                this.opts.fast_math(true);
            },
            Flag::ZeroFilledMemory => {
                this.opts.zero_filled_memory(true);
            },
            Flag::MvpFeatures => {
                this.opts.mvp_features_only();
            },
            Flag::AllFeatures => {
                this.opts.all_features();
            },
            Flag::NoValidation => {
                this.opts.validate(false);
            },
            Flag::Converge => {
                this.opts.set_converge();
            },
            Flag::Quiet => {},
            Flag::Enable(feature) => {
                if let Features::Default = this.opts.features {
                    this.opts.features = Features::custom();
                }
                this.opts.enable_feature(feature);
            },
            Flag::Disable(feature) => {
                if let Features::Default = this.opts.features {
                    this.opts.features = Features::custom();
                }
                this.opts.disable_feature(feature);
            },
            Flag::AddPass(pass) => {
                this.opts.add_pass(pass);
            },
            Flag::Unknown => {
                this.refuse(token);
            },
            Flag::File => {
                if this.input_file.is_none() {
                    this.input_file = Some(token.to_owned());
                } else {
                    this.refuse(token);
                }
            },
        }
        this
    }

    /// The command after one more argument.
    pub fn feed(self, token: &str) -> (r: Result<Parser, CommandError>)
        ensures
            fed_view(r) == self@.feed(token@),
    {
        let mut this = self;
        match this.pending {
            Some(flag) => {
                this.pending = None;
                this.take_value(flag, token)
            },
            None => {
                let flag = classify(token);
                Ok(this.take_flag(flag, token))
            },
        }
    }

    /// The command at its end.
    pub fn finish(self) -> (r: Result<ParsedCommand, CommandError>)
        ensures
            parsed_view(r) == self@.finish(),
    {
        if self.pending.is_some() {
            return Err(CommandError::UnexpectedEndOfArgs);
        }
        let infile = match self.input_file {
            Some(path) => path,
            None => {
                return Err(CommandError::InputFileRequired);
            },
        };
        let outfile = match self.output_file {
            Some(path) => path,
            None => {
                return Err(CommandError::OutputFileRequired);
            },
        };
        if self.unsupported.len() > 0 {
            return Err(CommandError::Unsupported { args: self.unsupported });
        }
        Ok(
            ParsedCommand {
                opts: self.opts,
                files: RunFiles {
                    infile,
                    infile_sourcemap: self.input_sourcemap,
                    outfile,
                    outfile_sourcemap: self.output_sourcemap,
                },
            },
        )
    }
}

/// Reads the arguments of a command: a configuration and the files to run
/// it on, or why the command is refused.
pub fn parse_command_args(args: &Vec<String>) -> (r: Result<ParsedCommand, CommandError>)
    ensures
        parsed_view(r) == spec_parse(args.deep_view()),
{
    let mut parser = Parser::new();
    let mut i: usize = 0;
    assert(args.deep_view().take(0) =~= Seq::empty());
    while i < args.len()
        invariant
            i <= args.len(),
            ParserView::initial().feed_all(args.deep_view().take(i as int)) == Ok::<
                ParserView,
                CommandErrorView,
            >(parser@),
        decreases args.len() - i,
    {
        proof {
            let next = args.deep_view().take(i + 1);
            assert(next.drop_last() =~= args.deep_view().take(i as int));
            assert(next.last() == args[i as int]@);
        }
        match parser.feed(args[i].as_str()) {
            Ok(next) => {
                parser = next;
            },
            Err(error) => {
                proof {
                    lemma_refused_at_once(args.deep_view(), i + 1);
                }
                return Err(error);
            },
        }
        i = i + 1;
    }
    proof {
        assert(args.deep_view().take(args.len() as int) =~= args.deep_view());
    }
    parser.finish()
}

/// A command that is refused at once at one of its arguments is refused in
/// the same way whatever follows.
pub proof fn lemma_refused_at_once(tokens: Seq<Seq<char>>, n: int)
    requires
        0 <= n <= tokens.len(),
        ParserView::initial().feed_all(tokens.take(n)) is Err,
    ensures
        ParserView::initial().feed_all(tokens) == ParserView::initial().feed_all(tokens.take(n)),
        spec_parse(tokens) == spec_parse(tokens.take(n)),
    decreases tokens.len() - n,
{
    if n == tokens.len() {
        assert(tokens.take(n) =~= tokens);
    } else {
        assert(tokens.take(n + 1).drop_last() =~= tokens.take(n));
        lemma_refused_at_once(tokens, n + 1);
    }
}

/// Whether every item of one list is an item of another.
pub open spec fn all_among(items: Seq<Seq<char>>, tokens: Seq<Seq<char>>) -> bool {
    forall|i: int| 0 <= i < items.len() ==> tokens.contains(#[trigger] items[i])
}

/// One more argument adds at most itself to the arguments that are not
/// known, and takes none away.
pub proof fn lemma_feed_refuses_its_argument(parser: ParserView, token: Seq<char>)
    ensures
        parser.feed(token) matches Ok(next) ==> next.unsupported == parser.unsupported
            || next.unsupported == parser.unsupported.push(token),
{
}

/// The arguments that a command is refused for are arguments of the
/// command: where the command is refused for arguments that are not known,
/// the error lists one or more of them, and lists nothing else.
pub proof fn lemma_unsupported_are_arguments(tokens: Seq<Seq<char>>)
    ensures
        ParserView::initial().feed_all(tokens) matches Ok(parser) ==> all_among(
            parser.unsupported,
            tokens,
        ),
        spec_parse(tokens) matches Err(CommandErrorView::Unsupported { args }) ==> args.len() > 0
            && all_among(args, tokens),
    decreases tokens.len(),
{
    if tokens.len() > 0 {
        let init = tokens.drop_last();
        let last = tokens.last();
        lemma_unsupported_are_arguments(init);
        if let Ok(before) = ParserView::initial().feed_all(init) {
            lemma_feed_refuses_its_argument(before, last);
            if let Ok(parser) = before.feed(last) {
                assert forall|i: int| 0 <= i < parser.unsupported.len() implies tokens.contains(
                    #[trigger] parser.unsupported[i],
                ) by {
                    if i < before.unsupported.len() {
                        assert(init.contains(before.unsupported[i]));
                        let k = choose|k: int|
                            0 <= k < init.len() && init[k] == before.unsupported[i];
                        assert(tokens[k] == before.unsupported[i]);
                    } else {
                        assert(tokens[tokens.len() - 1] == last);
                    }
                }
            }
        }
    }
}

/// A command is accepted exactly if each argument is taken, no flag is left
/// waiting for its value, both files are named and no argument was unknown;
/// it then runs the configuration that the arguments made on the files that
/// they named.
pub proof fn lemma_accepted_command(tokens: Seq<Seq<char>>)
    ensures
        spec_parse(tokens) matches Ok(command) ==> {
            &&& ParserView::initial().feed_all(tokens) matches Ok(parser)
            &&& parser.pending is None
            &&& parser.unsupported.len() == 0
            &&& parser.input_file == Some(command.files.infile)
            &&& parser.output_file == Some(command.files.outfile)
            &&& parser.input_sourcemap == command.files.infile_sourcemap
            &&& parser.output_sourcemap == command.files.outfile_sourcemap
            &&& parser.opts == command.opts
        },
{
}

/// A command without arguments is refused for want of an input file, and
/// would run without optimizing: optimize level 0, shrink level 0 and no
/// default passes.
pub proof fn lemma_empty_command()
    ensures
        spec_parse(Seq::empty()) == Err::<ParsedCommandView, CommandErrorView>(
            CommandErrorView::InputFileRequired,
        ),
        ParserView::initial().opts.passopts.optimize_level == OptimizeLevel::Level0,
        ParserView::initial().opts.passopts.shrink_level == ShrinkLevel::Level0,
        !ParserView::initial().opts.passes.add_default_passes,
{
}

} // verus!
