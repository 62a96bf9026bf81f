//! One run, step by step.
//!
//! A run reads a module, forces the features, validates, transforms,
//! validates again and writes. The engine does each of these; what is decided
//! here is which of them comes next and with what. A run is a [`Stage`]: the
//! driver performs the [`Action`] of the stage
//! ([`OptimizationOptions::action`]), reports what came of it as an
//! [`Event`], and gets the next stage ([`OptimizationOptions::step`]), until
//! the action is [`Action::Finish`].

use vstd::prelude::*;

use crate::api::{
    opt_chars, FileType, InliningOptions, OptimizationOptions, OptimizationOptionsView,
};
use crate::arguments::{entries_map, keys_distinct};
use crate::error::{OptimizationError, OptimizationErrorView};
use crate::features::FeatureSet;
use crate::passes::Pass;
use crate::registry::{is_registered, removes_debug_info, PassInfoView, PassRegistry};
use crate::text::str_eq;

verus! {

/// The encoding that a module is read or written in.
#[derive(Copy, Clone, Debug, Eq, PartialEq, Structural)]
pub enum Format {
    Binary,
    Text,
}

/// The files of a run.
#[derive(Clone, Debug)]
pub struct RunFiles {
    /// The file that the module is read from.
    pub infile: String,
    /// The source map of the input, if it has one.
    pub infile_sourcemap: Option<String>,
    /// The file that the module is written to.
    pub outfile: String,
    /// The file that the source map of the output is written to, if one is
    /// asked for.
    pub outfile_sourcemap: Option<String>,
}

/// The mathematical value of a [`RunFiles`].
pub struct RunFilesView {
    pub infile: Seq<char>,
    pub infile_sourcemap: Option<Seq<char>>,
    pub outfile: Seq<char>,
    pub outfile_sourcemap: Option<Seq<char>>,
}

impl View for RunFiles {
    type V = RunFilesView;

    open spec fn view(&self) -> RunFilesView {
        RunFilesView {
            infile: self.infile@,
            infile_sourcemap: opt_chars(self.infile_sourcemap),
            outfile: self.outfile@,
            outfile_sourcemap: opt_chars(self.outfile_sourcemap),
        }
    }
}

/// The options of the passes as the engine takes them.
#[derive(Clone, Debug)]
pub struct EnginePassOptions {
    pub validate: bool,
    pub validate_globally: bool,
    pub optimize_level: i32,
    pub shrink_level: i32,
    pub traps_never_happen: bool,
    pub low_memory_unused: bool,
    pub fast_math: bool,
    pub zero_filled_memory: bool,
    pub debug_info: bool,
    /// The named arguments, each name once.
    pub arguments: Vec<(String, String)>,
    pub inlining: InliningOptions,
}

/// The mathematical value of an [`EnginePassOptions`].
pub struct EnginePassOptionsView {
    pub validate: bool,
    pub validate_globally: bool,
    pub optimize_level: i32,
    pub shrink_level: i32,
    pub traps_never_happen: bool,
    pub low_memory_unused: bool,
    pub fast_math: bool,
    pub zero_filled_memory: bool,
    pub debug_info: bool,
    pub arguments: Map<Seq<char>, Seq<char>>,
    pub inlining: InliningOptions,
}

impl View for EnginePassOptions {
    type V = EnginePassOptionsView;

    open spec fn view(&self) -> EnginePassOptionsView {
        EnginePassOptionsView {
            validate: self.validate,
            validate_globally: self.validate_globally,
            optimize_level: self.optimize_level,
            shrink_level: self.shrink_level,
            traps_never_happen: self.traps_never_happen,
            low_memory_unused: self.low_memory_unused,
            fast_math: self.fast_math,
            zero_filled_memory: self.zero_filled_memory,
            debug_info: self.debug_info,
            arguments: entries_map(self.arguments.deep_view()),
            inlining: self.inlining,
        }
    }
}

/// Where a run stands.
#[derive(Clone, Debug)]
pub enum Stage {
    /// Nothing has been done.
    Start,
    /// The module is to be read. `format` is its encoding, as far as it is
    /// known; `dwarf` says whether the reader is to keep DWARF sections.
    Read { format: Option<Format>, dwarf: bool },
    /// The module has been read in the encoding `input`; the features are
    /// to be forced.
    FeatureApply { input: Format },
    /// The module is to be validated as it was read.
    ValidateInput { input: Format },
    /// The passes are to be run.
    Transform { input: Format },
    /// The module is to be validated as the passes left it.
    ValidateOutput { input: Format },
    /// The module is to be written.
    Write { input: Format },
    /// The run has succeeded.
    Done,
    /// The run has failed.
    Failed(OptimizationError),
}

/// The mathematical value of a [`Stage`].
pub enum StageView {
    Start,
    Read { format: Option<Format>, dwarf: bool },
    FeatureApply { input: Format },
    ValidateInput { input: Format },
    Transform { input: Format },
    ValidateOutput { input: Format },
    Write { input: Format },
    Done,
    Failed(OptimizationErrorView),
}

impl View for Stage {
    type V = StageView;

    open spec fn view(&self) -> StageView {
        match self {
            Stage::Start => StageView::Start,
            Stage::Read { format, dwarf } => StageView::Read { format: *format, dwarf: *dwarf },
            Stage::FeatureApply { input } => StageView::FeatureApply { input: *input },
            Stage::ValidateInput { input } => StageView::ValidateInput { input: *input },
            Stage::Transform { input } => StageView::Transform { input: *input },
            Stage::ValidateOutput { input } => StageView::ValidateOutput { input: *input },
            Stage::Write { input } => StageView::Write { input: *input },
            Stage::Done => StageView::Done,
            Stage::Failed(error) => StageView::Failed(error@),
        }
    }
}

/// What the driver reports of the action that it performed.
#[derive(Debug)]
pub enum Event {
    /// What the engine reports of its passes.
    Registry(PassRegistry),
    /// The first bytes of the input file: four, or all if it has fewer.
    Header(Vec<u8>),
    /// The module was read, or could not be, with the report of the engine
    /// or of the file system.
    Read(Result<(), String>),
    /// The features were forced.
    FeaturesApplied,
    /// The module was validated, and is valid or not.
    Validated(bool),
    /// The passes were run.
    Transformed,
    /// The module was written, or could not be, with the report of the
    /// engine or of the file system.
    Written(Result<(), String>),
}

/// The mathematical value of an [`Event`].
pub enum EventView {
    Registry(Seq<PassInfoView>),
    Header(Seq<u8>),
    Read(Result<(), Seq<char>>),
    FeaturesApplied,
    Validated(bool),
    Transformed,
    Written(Result<(), Seq<char>>),
}

/// The outcome of an action of the engine, the report by its characters.
pub open spec fn outcome_chars(outcome: Result<(), String>) -> Result<(), Seq<char>> {
    match outcome {
        Ok(_) => Ok(()),
        Err(report) => Err(report@),
    }
}

impl View for Event {
    type V = EventView;

    open spec fn view(&self) -> EventView {
        match self {
            Event::Registry(registry) => EventView::Registry(registry@),
            Event::Header(bytes) => EventView::Header(bytes@),
            Event::Read(outcome) => EventView::Read(outcome_chars(*outcome)),
            Event::FeaturesApplied => EventView::FeaturesApplied,
            Event::Validated(valid) => EventView::Validated(*valid),
            Event::Transformed => EventView::Transformed,
            Event::Written(outcome) => EventView::Written(outcome_chars(*outcome)),
        }
    }
}

/// What the driver is to do.
#[derive(Debug)]
pub enum Action {
    /// Ask the engine for its passes and report them.
    QueryRegistry,
    /// Read the first four bytes of the file, or all of it if it has fewer,
    /// and report them as [`Event::Header`]. If the file cannot be read,
    /// report that as a failed [`Event::Read`].
    ReadHeader { path: String },
    /// Have the engine read the file as a binary module, with its source map
    /// if one is named.
    ReadBinary { path: String, source_map: Option<String>, dwarf: bool },
    /// Have the engine read the file as a text module.
    ReadText { path: String, dwarf: bool },
    /// Have the engine force these features on and off in the module.
    ApplyFeatures { enabled: FeatureSet, disabled: FeatureSet },
    /// Have the engine validate the module.
    Validate,
    /// Have the engine run its default passes, if asked for, and then the
    /// passes of these names in this order, under these options.
    RunPasses { options: EnginePassOptions, add_default_passes: bool, passes: Vec<String> },
    /// Have the engine write the module as a binary file, with a source map
    /// if one is named, and naming the address of the source map if there is
    /// one.
    WriteBinary {
        path: String,
        debug_info: bool,
        source_map: Option<String>,
        source_map_url: Option<String>,
    },
    /// Have the engine write the module as a text file.
    WriteText { path: String, debug_info: bool },
    /// Nothing more: the run has ended with this result.
    Finish(Result<(), OptimizationError>),
}

/// The mathematical value of an [`Action`].
pub enum ActionView {
    QueryRegistry,
    ReadHeader { path: Seq<char> },
    ReadBinary { path: Seq<char>, source_map: Option<Seq<char>>, dwarf: bool },
    ReadText { path: Seq<char>, dwarf: bool },
    ApplyFeatures { enabled: u32, disabled: u32 },
    Validate,
    RunPasses { options: EnginePassOptionsView, add_default_passes: bool, passes: Seq<Seq<char>> },
    WriteBinary {
        path: Seq<char>,
        debug_info: bool,
        source_map: Option<Seq<char>>,
        source_map_url: Option<Seq<char>>,
    },
    WriteText { path: Seq<char>, debug_info: bool },
    Finish(Result<(), OptimizationErrorView>),
}

/// The result of a run, the error by its value.
pub open spec fn result_view(result: Result<(), OptimizationError>) -> Result<
    (),
    OptimizationErrorView,
> {
    match result {
        Ok(_) => Ok(()),
        Err(error) => Err(error@),
    }
}

impl View for Action {
    type V = ActionView;

    open spec fn view(&self) -> ActionView {
        match self {
            Action::QueryRegistry => ActionView::QueryRegistry,
            Action::ReadHeader { path } => ActionView::ReadHeader { path: path@ },
            Action::ReadBinary { path, source_map, dwarf } => ActionView::ReadBinary {
                path: path@,
                source_map: opt_chars(*source_map),
                dwarf: *dwarf,
            },
            Action::ReadText { path, dwarf } => ActionView::ReadText { path: path@, dwarf: *dwarf },
            Action::ApplyFeatures { enabled, disabled } => ActionView::ApplyFeatures {
                enabled: enabled.bits,
                disabled: disabled.bits,
            },
            Action::Validate => ActionView::Validate,
            Action::RunPasses { options, add_default_passes, passes } => ActionView::RunPasses {
                options: options@,
                add_default_passes: *add_default_passes,
                passes: passes.deep_view(),
            },
            Action::WriteBinary { path, debug_info, source_map, source_map_url } => {
                ActionView::WriteBinary {
                    path: path@,
                    debug_info: *debug_info,
                    source_map: opt_chars(*source_map),
                    source_map_url: opt_chars(*source_map_url),
                }
            },
            Action::WriteText { path, debug_info } => ActionView::WriteText {
                path: path@,
                debug_info: *debug_info,
            },
            Action::Finish(result) => ActionView::Finish(result_view(*result)),
        }
    }
}

/// Whether a path stands for standard input: it is empty, or `-`.
pub open spec fn is_stdin_path(path: Seq<char>) -> bool {
    path.len() == 0 || path == seq!['-']
}

/// Whether the bytes begin with the four bytes that begin a binary module:
/// a zero byte and the letters `asm`.
pub open spec fn has_binary_magic(bytes: Seq<u8>) -> bool {
    bytes.len() >= 4 && bytes[0] == 0x00 && bytes[1] == 0x61 && bytes[2] == 0x73 && bytes[3]
        == 0x6d
}

/// The encoding that the first bytes of a file show: binary where they begin
/// a binary module, text otherwise.
pub open spec fn sniffed_format(bytes: Seq<u8>) -> Format {
    if has_binary_magic(bytes) {
        Format::Binary
    } else {
        Format::Text
    }
}

/// The encoding that the reader is told, if it is told one.
pub open spec fn reader_format(file_type: FileType) -> Option<Format> {
    match file_type {
        FileType::Wasm => Some(Format::Binary),
        FileType::Wat => Some(Format::Text),
        FileType::Any => None,
    }
}

/// The encoding that the writer uses: the one it is told, or else the one
/// that the module was read in.
pub open spec fn writer_format(file_type: FileType, input: Format) -> Format {
    match file_type {
        FileType::Wasm => Format::Binary,
        FileType::Wat => Format::Text,
        FileType::Any => input,
    }
}

/// The names of a list of passes, in its order.
pub open spec fn pass_names(passes: Seq<Pass>) -> Seq<Seq<char>> {
    Seq::new(passes.len(), |i: int| passes[i].spec_name())
}

/// Whether one of the passes removes debug information, as the registry has
/// it.
pub open spec fn spec_will_remove_debug_info(
    passes: Seq<Pass>,
    registry: Seq<PassInfoView>,
) -> bool {
    exists|i: int|
        0 <= i < passes.len() && removes_debug_info(registry, (#[trigger] passes[i]).spec_name())
}

/// The names of the passes that the registry does not have, in the order of
/// the passes and as often as they occur there.
pub open spec fn unsupported_names(passes: Seq<Pass>, registry: Seq<PassInfoView>) -> Seq<
    Seq<char>,
>
    decreases passes.len(),
{
    if passes.len() == 0 {
        Seq::empty()
    } else if is_registered(registry, passes.last().spec_name()) {
        unsupported_names(passes.drop_last(), registry)
    } else {
        unsupported_names(passes.drop_last(), registry).push(passes.last().spec_name())
    }
}

/// The options of the passes as the engine takes them: the levels as
/// numbers, the rest as it stands in the configuration.
pub open spec fn spec_translate_pass_options(
    options: OptimizationOptionsView,
) -> EnginePassOptionsView {
    EnginePassOptionsView {
        validate: options.passopts.validate,
        validate_globally: options.passopts.validate_globally,
        optimize_level: options.passopts.optimize_level.spec_as_int(),
        shrink_level: options.passopts.shrink_level.spec_as_int(),
        traps_never_happen: options.passopts.traps_never_happen,
        low_memory_unused: options.passopts.low_memory_unused,
        fast_math: options.passopts.fast_math,
        zero_filled_memory: options.passopts.zero_filled_memory,
        debug_info: options.passopts.debug_info,
        arguments: options.passopts.arguments,
        inlining: options.inlining,
    }
}

/// The stage that follows `Start` once the registry is known: the run is
/// refused where the input path stands for standard input, then where a
/// pass is not registered; otherwise the module is to be read, in the
/// encoding that the reader is told, and with DWARF sections only where
/// debug information is kept and no pass removes it.
pub open spec fn spec_start(
    options: OptimizationOptionsView,
    files: RunFilesView,
    registry: Seq<PassInfoView>,
) -> StageView {
    if is_stdin_path(files.infile) {
        StageView::Failed(OptimizationErrorView::InvalideStdinPath)
    } else if unsupported_names(options.passes.more_passes, registry).len() > 0 {
        StageView::Failed(
            OptimizationErrorView::Unsupported {
                args: unsupported_names(options.passes.more_passes, registry),
            },
        )
    } else {
        StageView::Read {
            format: reader_format(options.reader.file_type),
            dwarf: options.passopts.debug_info && !spec_will_remove_debug_info(
                options.passes.more_passes,
                registry,
            ),
        }
    }
}

/// The stage that follows a stage on an event. An event that the stage does
/// not wait for leaves it as it is.
pub open spec fn spec_step(
    options: OptimizationOptionsView,
    files: RunFilesView,
    stage: StageView,
    event: EventView,
) -> StageView {
    match stage {
        StageView::Start => match event {
            EventView::Registry(registry) => spec_start(options, files, registry),
            _ => stage,
        },
        StageView::Read { format, dwarf } => match event {
            EventView::Header(bytes) => match format {
                None => StageView::Read { format: Some(sniffed_format(bytes)), dwarf },
                Some(_) => stage,
            },
            EventView::Read(Err(report)) => StageView::Failed(
                OptimizationErrorView::Read { source: report },
            ),
            EventView::Read(Ok(_)) => match format {
                Some(input) => StageView::FeatureApply { input },
                None => stage,
            },
            _ => stage,
        },
        StageView::FeatureApply { input } => match event {
            EventView::FeaturesApplied => if options.passopts.validate {
                StageView::ValidateInput { input }
            } else {
                StageView::Transform { input }
            },
            _ => stage,
        },
        StageView::ValidateInput { input } => match event {
            EventView::Validated(valid) => if valid {
                StageView::Transform { input }
            } else {
                StageView::Failed(OptimizationErrorView::ValidateWasmInput)
            },
            _ => stage,
        },
        StageView::Transform { input } => match event {
            EventView::Transformed => if options.passopts.validate {
                StageView::ValidateOutput { input }
            } else {
                StageView::Write { input }
            },
            _ => stage,
        },
        StageView::ValidateOutput { input } => match event {
            EventView::Validated(valid) => if valid {
                StageView::Write { input }
            } else {
                StageView::Failed(OptimizationErrorView::ValidateWasmOutput)
            },
            _ => stage,
        },
        StageView::Write { input } => match event {
            EventView::Written(Ok(_)) => StageView::Done,
            EventView::Written(Err(report)) => StageView::Failed(
                OptimizationErrorView::Write { source: report },
            ),
            _ => stage,
        },
        StageView::Done => stage,
        StageView::Failed(_) => stage,
    }
}

/// What the driver is to do in a stage.
pub open spec fn spec_action(
    options: OptimizationOptionsView,
    files: RunFilesView,
    stage: StageView,
) -> ActionView {
    match stage {
        StageView::Start => ActionView::QueryRegistry,
        StageView::Read { format, dwarf } => match format {
            None => ActionView::ReadHeader { path: files.infile },
            Some(Format::Binary) => ActionView::ReadBinary {
                path: files.infile,
                source_map: files.infile_sourcemap,
                dwarf,
            },
            Some(Format::Text) => ActionView::ReadText { path: files.infile, dwarf },
        },
        StageView::FeatureApply { input } => ActionView::ApplyFeatures {
            enabled: options.features.force_enabled(),
            disabled: options.features.force_disabled(),
        },
        StageView::ValidateInput { input } => ActionView::Validate,
        StageView::Transform { input } => ActionView::RunPasses {
            options: spec_translate_pass_options(options),
            add_default_passes: options.passes.add_default_passes,
            passes: pass_names(options.passes.more_passes),
        },
        StageView::ValidateOutput { input } => ActionView::Validate,
        StageView::Write { input } => match writer_format(options.writer.file_type, input) {
            Format::Binary => ActionView::WriteBinary {
                path: files.outfile,
                debug_info: options.passopts.debug_info,
                source_map: files.outfile_sourcemap,
                source_map_url: options.writer.source_map_url,
            },
            Format::Text => ActionView::WriteText {
                path: files.outfile,
                debug_info: options.passopts.debug_info,
            },
        },
        StageView::Done => ActionView::Finish(Ok(())),
        StageView::Failed(error) => ActionView::Finish(Err(error)),
    }
}

/// The stage of a run after a sequence of events, from `Start`.
pub open spec fn spec_run(
    options: OptimizationOptionsView,
    files: RunFilesView,
    events: Seq<EventView>,
) -> StageView
    decreases events.len(),
{
    if events.len() == 0 {
        StageView::Start
    } else {
        spec_step(options, files, spec_run(options, files, events.drop_last()), events.last())
    }
}

/// Whether a path stands for standard input: it is empty, or `-`.
pub fn stdin_path(path: &str) -> (r: bool)
    ensures
        r == is_stdin_path(path@),
{
    proof {
        reveal_strlit("-");
        assert("-"@ =~= seq!['-']);
    }
    path.is_empty() || str_eq(path, "-")
}

/// The encoding that the first bytes of a file show.
pub fn sniff_format(bytes: &Vec<u8>) -> (r: Format)
    ensures
        r == sniffed_format(bytes@),
{
    if bytes.len() >= 4 && bytes[0] == 0x00 && bytes[1] == 0x61 && bytes[2] == 0x73 && bytes[3]
        == 0x6d {
        Format::Binary
    } else {
        Format::Text
    }
}

/// A copy of an optional string.
pub fn copy_optional(value: &Option<String>) -> (r: Option<String>)
    ensures
        opt_chars(r) == opt_chars(*value),
{
    match value {
        Some(s) => Some(s.clone()),
        None => None,
    }
}

/// Whether one of the passes removes debug information, as the registry has
/// it.
pub fn will_remove_debug_info(passes: &[Pass], registry: &PassRegistry) -> (r: bool)
    ensures
        r == spec_will_remove_debug_info(passes@, registry@),
{
    let mut i: usize = 0;
    while i < passes.len()
        invariant
            i <= passes.len(),
            forall|j: int|
                0 <= j < i ==> !removes_debug_info(registry@, (#[trigger] passes@[j]).spec_name()),
        decreases passes.len() - i,
    {
        if registry.pass_removes_debug_info(passes[i].name()) {
            return true;
        }
        i = i + 1;
    }
    false
}

/// The names of the passes that the registry does not have, in the order of
/// the passes and as often as they occur there.
pub fn unsupported_passes(passes: &[Pass], registry: &PassRegistry) -> (r: Vec<String>)
    ensures
        r.deep_view() == unsupported_names(passes@, registry@),
{
    let mut names: Vec<String> = Vec::new();
    let mut i: usize = 0;
    while i < passes.len()
        invariant
            i <= passes.len(),
            names.deep_view() == unsupported_names(passes@.take(i as int), registry@),
        decreases passes.len() - i,
    {
        proof {
            let next = passes@.take(i + 1);
            assert(next.drop_last() =~= passes@.take(i as int));
            assert(next.last() == passes@[i as int]);
        }
        if !registry.has(passes[i].name()) {
            let ghost before = names.deep_view();
            names.push(passes[i].name().to_owned());
            assert(names.deep_view() =~= before.push(passes@[i as int].spec_name()));
        }
        i = i + 1;
    }
    proof {
        assert(passes@.take(passes.len() as int) =~= passes@);
    }
    names
}

/// The names of a list of passes, in its order.
pub fn names_of(passes: &[Pass]) -> (r: Vec<String>)
    ensures
        r.deep_view() == pass_names(passes@),
{
    let mut names: Vec<String> = Vec::new();
    let mut i: usize = 0;
    while i < passes.len()
        invariant
            i <= passes.len(),
            names.deep_view() == pass_names(passes@).take(i as int),
        decreases passes.len() - i,
    {
        let ghost before = names.deep_view();
        names.push(passes[i].name().to_owned());
        proof {
            assert(names.deep_view() =~= before.push(passes@[i as int].spec_name()));
            assert(pass_names(passes@).take(i + 1) =~= before.push(passes@[i as int].spec_name()));
        }
        i = i + 1;
    }
    proof {
        assert(pass_names(passes@).take(passes.len() as int) =~= pass_names(passes@));
    }
    names
}

impl OptimizationOptions {
    /// The two bit-sets that are forced on the module before it is
    /// validated: the features that the run forces on, and those that it
    /// forces off.
    pub fn apply_features(&self) -> (r: (FeatureSet, FeatureSet))
        ensures
            r.0.bits == self@.features.force_enabled(),
            r.1.bits == self@.features.force_disabled(),
    {
        self.features.resolve()
    }

    /// The options of the passes as the engine takes them.
    pub fn translate_pass_options(&self) -> (r: EnginePassOptions)
        ensures
            r@ == spec_translate_pass_options(self@),
            keys_distinct(r.arguments.deep_view()),
    {
        EnginePassOptions {
            validate: self.passopts.validate,
            validate_globally: self.passopts.validate_globally,
            optimize_level: self.passopts.optimize_level.as_int(),
            shrink_level: self.passopts.shrink_level.as_int(),
            traps_never_happen: self.passopts.traps_never_happen,
            low_memory_unused: self.passopts.low_memory_unused,
            fast_math: self.passopts.fast_math,
            zero_filled_memory: self.passopts.zero_filled_memory,
            debug_info: self.passopts.debug_info,
            arguments: self.passopts.arguments.to_vec(),
            inlining: self.inlining,
        }
    }

    /// The stage that follows `Start` once the registry is known.
    pub fn start(&self, files: &RunFiles, registry: &PassRegistry) -> (r: Stage)
        ensures
            r@ == spec_start(self@, files@, registry@),
    {
        if stdin_path(files.infile.as_str()) {
            return Stage::Failed(OptimizationError::InvalideStdinPath);
        }
        let unsupported = unsupported_passes(self.passes.more_passes.as_slice(), registry);
        if unsupported.len() > 0 {
            return Stage::Failed(OptimizationError::Unsupported { args: unsupported });
        }
        let format = match self.reader.file_type {
            FileType::Wasm => Some(Format::Binary),
            FileType::Wat => Some(Format::Text),
            FileType::Any => None,
        };
        let dwarf = self.passopts.debug_info && !will_remove_debug_info(
            self.passes.more_passes.as_slice(),
            registry,
        );
        Stage::Read { format, dwarf }
    }

    /// The stage that follows a stage on an event. An event that the stage
    /// does not wait for leaves it as it is.
    pub fn step(&self, files: &RunFiles, stage: Stage, event: Event) -> (r: Stage)
        ensures
            r@ == spec_step(self@, files@, stage@, event@),
    {
        match stage {
            Stage::Start => match event {
                Event::Registry(registry) => self.start(files, &registry),
                _ => Stage::Start,
            },
            Stage::Read { format, dwarf } => match event {
                Event::Header(bytes) => match format {
                    None => Stage::Read { format: Some(sniff_format(&bytes)), dwarf },
                    Some(_) => Stage::Read { format, dwarf },
                },
                Event::Read(Err(report)) => Stage::Failed(
                    OptimizationError::Read { source: report },
                ),
                Event::Read(Ok(_)) => match format {
                    Some(input) => Stage::FeatureApply { input },
                    None => Stage::Read { format, dwarf },
                },
                _ => Stage::Read { format, dwarf },
            },
            Stage::FeatureApply { input } => match event {
                Event::FeaturesApplied => if self.passopts.validate {
                    Stage::ValidateInput { input }
                } else {
                    Stage::Transform { input }
                },
                _ => Stage::FeatureApply { input },
            },
            Stage::ValidateInput { input } => match event {
                Event::Validated(valid) => if valid {
                    Stage::Transform { input }
                } else {
                    Stage::Failed(OptimizationError::ValidateWasmInput)
                },
                _ => Stage::ValidateInput { input },
            },
            Stage::Transform { input } => match event {
                Event::Transformed => if self.passopts.validate {
                    Stage::ValidateOutput { input }
                } else {
                    Stage::Write { input }
                },
                _ => Stage::Transform { input },
            },
            Stage::ValidateOutput { input } => match event {
                Event::Validated(valid) => if valid {
                    Stage::Write { input }
                } else {
                    Stage::Failed(OptimizationError::ValidateWasmOutput)
                },
                _ => Stage::ValidateOutput { input },
            },
            Stage::Write { input } => match event {
                Event::Written(Ok(_)) => Stage::Done,
                Event::Written(Err(report)) => Stage::Failed(
                    OptimizationError::Write { source: report },
                ),
                _ => Stage::Write { input },
            },
            Stage::Done => Stage::Done,
            Stage::Failed(error) => Stage::Failed(error),
        }
    }

    /// What the driver is to do in a stage.
    pub fn action(&self, files: &RunFiles, stage: &Stage) -> (r: Action)
        ensures
            r@ == spec_action(self@, files@, stage@),
    {
        match stage {
            Stage::Start => Action::QueryRegistry,
            Stage::Read { format, dwarf } => match format {
                None => Action::ReadHeader { path: files.infile.clone() },
                Some(Format::Binary) => Action::ReadBinary {
                    path: files.infile.clone(),
                    source_map: copy_optional(&files.infile_sourcemap),
                    dwarf: *dwarf,
                },
                Some(Format::Text) => Action::ReadText { path: files.infile.clone(), dwarf: *dwarf },
            },
            Stage::FeatureApply { input } => {
                let sets = self.apply_features();
                Action::ApplyFeatures { enabled: sets.0, disabled: sets.1 }
            },
            Stage::ValidateInput { input } => Action::Validate,
            Stage::Transform { input } => Action::RunPasses {
                options: self.translate_pass_options(),
                add_default_passes: self.passes.add_default_passes,
                passes: names_of(self.passes.more_passes.as_slice()),
            },
            Stage::ValidateOutput { input } => Action::Validate,
            Stage::Write { input } => {
                let format = match self.writer.file_type {
                    FileType::Wasm => Format::Binary,
                    FileType::Wat => Format::Text,
                    FileType::Any => *input,
                };
                match format {
                    Format::Binary => Action::WriteBinary {
                        path: files.outfile.clone(),
                        debug_info: self.passopts.debug_info,
                        source_map: copy_optional(&files.outfile_sourcemap),
                        source_map_url: copy_optional(&self.writer.source_map_url),
                    },
                    Format::Text => Action::WriteText {
                        path: files.outfile.clone(),
                        debug_info: self.passopts.debug_info,
                    },
                }
            },
            Stage::Done => Action::Finish(Ok(())),
            Stage::Failed(error) => Action::Finish(Err(error.duplicate())),
        }
    }
}

} // verus!
