//! The configuration of a run and its defaults.

use vstd::prelude::*;

use crate::arguments::PassArguments;
use crate::features::{Features, FeaturesView};
use crate::passes::Pass;

verus! {

/// The encoding of a module in a file.
#[derive(Copy, Clone, Debug, Eq, PartialEq, Structural)]
pub enum FileType {
    /// The binary encoding.
    Wasm,
    /// The text encoding.
    Wat,
    /// Read: the encoding that the first bytes of the file show. Write: the
    /// encoding that the module was read in.
    Any,
}

/// How the module is read.
#[derive(Copy, Clone, Debug, Eq, PartialEq, Structural)]
pub struct ReaderOptions {
    /// The encoding of the input file.
    pub file_type: FileType,
}

/// How the module is written.
#[derive(Clone, Debug)]
pub struct WriterOptions {
    /// The encoding of the output file.
    pub file_type: FileType,
    /// The address of the source map that a binary output names.
    pub source_map_url: Option<String>,
}

/// The mathematical value of a [`WriterOptions`].
pub struct WriterOptionsView {
    pub file_type: FileType,
    pub source_map_url: Option<Seq<char>>,
}

/// The limits within which functions are inlined.
#[derive(Copy, Clone, Debug, Eq, PartialEq, Structural)]
pub struct InliningOptions {
    /// A function of at most this size is always inlined.
    pub always_inline_max_size: u32,
    /// A function with one caller is inlined if it has at most this size.
    pub one_caller_inline_max_size: u32,
    /// A function of at most this size is inlined where that seems to pay.
    pub flexible_inline_max_size: u32,
    /// Whether functions with loops may be inlined.
    pub allow_functions_with_loops: bool,
    /// How many `if`s a function may start with to be inlined in part.
    pub partial_inlining_ifs: u32,
}

/// What the passes may assume and how hard they work.
#[derive(Clone, Debug)]
pub struct PassOptions {
    /// Whether the passes were asked to run in debug mode. This is kept
    /// and nothing more: it is not among the options that are handed to
    /// the engine.
    pub debug: bool,
    /// Validate the module before and after the passes.
    pub validate: bool,
    /// When validating, check global properties too.
    pub validate_globally: bool,
    /// How much to optimize for speed.
    pub optimize_level: OptimizeLevel,
    /// How much to optimize for size.
    pub shrink_level: ShrinkLevel,
    /// Assume that no trap is ever hit.
    pub traps_never_happen: bool,
    /// Assume that the low 1K of memory is not used.
    pub low_memory_unused: bool,
    /// Allow floating-point optimizations that change results on corner
    /// cases.
    pub fast_math: bool,
    /// Assume that imported memory is zero-filled.
    pub zero_filled_memory: bool,
    /// Keep debug information.
    pub debug_info: bool,
    /// Named arguments, handed to the passes as they are.
    pub arguments: PassArguments,
}

/// The mathematical value of a [`PassOptions`].
pub struct PassOptionsView {
    pub debug: bool,
    pub validate: bool,
    pub validate_globally: bool,
    pub optimize_level: OptimizeLevel,
    pub shrink_level: ShrinkLevel,
    pub traps_never_happen: bool,
    pub low_memory_unused: bool,
    pub fast_math: bool,
    pub zero_filled_memory: bool,
    pub debug_info: bool,
    pub arguments: Map<Seq<char>, Seq<char>>,
}

/// How much to optimize for speed.
#[derive(Copy, Clone, Debug, Eq, PartialEq, Structural)]
pub enum OptimizeLevel {
    Level0,
    Level1,
    Level2,
    Level3,
    Level4,
}

/// How much to optimize for size.
#[derive(Copy, Clone, Debug, Eq, PartialEq, Structural)]
pub enum ShrinkLevel {
    Level0,
    Level1,
    Level2,
}

/// The passes of a run: the engine's default set, if asked for, and then
/// `more_passes` in their order.
#[derive(Clone, Debug)]
pub struct Passes {
    /// Whether the engine's default passes run first.
    pub add_default_passes: bool,
    /// The passes that run after them, in this order.
    pub more_passes: Vec<Pass>,
}

/// The mathematical value of a [`Passes`].
pub struct PassesView {
    pub add_default_passes: bool,
    pub more_passes: Seq<Pass>,
}

/// All that decides what a run does to the files it is given.
#[derive(Clone, Debug)]
pub struct OptimizationOptions {
    /// How the module is read.
    pub reader: ReaderOptions,
    /// How the module is written.
    pub writer: WriterOptions,
    /// The limits within which functions are inlined.
    pub inlining: InliningOptions,
    /// What the passes may assume and how hard they work.
    pub passopts: PassOptions,
    /// The passes to run.
    pub passes: Passes,
    /// The features that are forced on or off.
    pub features: Features,
    /// Whether the passes were asked to run again until the module stops
    /// changing. This is kept and nothing more: a run makes one round of
    /// passes whether it is set or not.
    pub converge: bool,
}

/// The mathematical value of an [`OptimizationOptions`].
pub struct OptimizationOptionsView {
    pub reader: ReaderOptions,
    pub writer: WriterOptionsView,
    pub inlining: InliningOptions,
    pub passopts: PassOptionsView,
    pub passes: PassesView,
    pub features: FeaturesView,
    pub converge: bool,
}

/// The characters of an optional string.
pub open spec fn opt_chars(value: Option<String>) -> Option<Seq<char>> {
    match value {
        Some(s) => Some(s@),
        None => None,
    }
}

impl View for WriterOptions {
    type V = WriterOptionsView;

    open spec fn view(&self) -> WriterOptionsView {
        WriterOptionsView {
            file_type: self.file_type,
            source_map_url: opt_chars(self.source_map_url),
        }
    }
}

impl View for PassOptions {
    type V = PassOptionsView;

    open spec fn view(&self) -> PassOptionsView {
        PassOptionsView {
            debug: self.debug,
            validate: self.validate,
            validate_globally: self.validate_globally,
            optimize_level: self.optimize_level,
            shrink_level: self.shrink_level,
            traps_never_happen: self.traps_never_happen,
            low_memory_unused: self.low_memory_unused,
            fast_math: self.fast_math,
            zero_filled_memory: self.zero_filled_memory,
            debug_info: self.debug_info,
            arguments: self.arguments@,
        }
    }
}

impl View for Passes {
    type V = PassesView;

    open spec fn view(&self) -> PassesView {
        PassesView { add_default_passes: self.add_default_passes, more_passes: self.more_passes@ }
    }
}

impl View for OptimizationOptions {
    type V = OptimizationOptionsView;

    open spec fn view(&self) -> OptimizationOptionsView {
        OptimizationOptionsView {
            reader: self.reader,
            writer: self.writer@,
            inlining: self.inlining,
            passopts: self.passopts@,
            passes: self.passes@,
            features: self.features@,
            converge: self.converge,
        }
    }
}

impl OptimizeLevel {
    /// The level as the number that the engine takes: 0 to 4.
    pub open spec fn spec_as_int(self) -> i32 {
        match self {
            OptimizeLevel::Level0 => 0,
            OptimizeLevel::Level1 => 1,
            OptimizeLevel::Level2 => 2,
            OptimizeLevel::Level3 => 3,
            OptimizeLevel::Level4 => 4,
        }
    }

    /// The level as the number that the engine takes: 0 to 4.
    pub fn as_int(self) -> (r: i32)
        ensures
            r == self.spec_as_int(),
            0 <= r <= 4,
    {
        match self {
            OptimizeLevel::Level0 => 0,
            OptimizeLevel::Level1 => 1,
            OptimizeLevel::Level2 => 2,
            OptimizeLevel::Level3 => 3,
            OptimizeLevel::Level4 => 4,
        }
    }
}

impl ShrinkLevel {
    /// The level as the number that the engine takes: 0 to 2.
    pub open spec fn spec_as_int(self) -> i32 {
        match self {
            ShrinkLevel::Level0 => 0,
            ShrinkLevel::Level1 => 1,
            ShrinkLevel::Level2 => 2,
        }
    }

    /// The level as the number that the engine takes: 0 to 2.
    pub fn as_int(self) -> (r: i32)
        ensures
            r == self.spec_as_int(),
            0 <= r <= 2,
    {
        match self {
            ShrinkLevel::Level0 => 0,
            ShrinkLevel::Level1 => 1,
            ShrinkLevel::Level2 => 2,
        }
    }
}

impl InliningOptions {
    /// The limits that a configuration starts with: functions of size 2
    /// always, functions with one caller whatever their size, others up to
    /// size 20, none with loops and none in part.
    pub open spec fn spec_default() -> InliningOptions {
        InliningOptions {
            always_inline_max_size: 2,
            one_caller_inline_max_size: u32::MAX,
            flexible_inline_max_size: 20,
            allow_functions_with_loops: false,
            partial_inlining_ifs: 0,
        }
    }
}

impl PassOptionsView {
    /// The options that a configuration starts with: validation on,
    /// everything else off, optimize level 2 and shrink level 1, and no
    /// arguments.
    pub open spec fn spec_default() -> PassOptionsView {
        PassOptionsView {
            debug: false,
            validate: true,
            validate_globally: false,
            optimize_level: OptimizeLevel::Level2,
            shrink_level: ShrinkLevel::Level1,
            traps_never_happen: false,
            low_memory_unused: false,
            fast_math: false,
            zero_filled_memory: false,
            debug_info: false,
            arguments: Map::empty(),
        }
    }
}

impl OptimizationOptionsView {
    /// The configuration that every other one starts from: both encodings
    /// left open, no address of a source map, the default limits and
    /// options, the engine's default passes and no others, no feature forced,
    /// `converge` off.
    pub open spec fn spec_default() -> OptimizationOptionsView {
        OptimizationOptionsView {
            reader: ReaderOptions { file_type: FileType::Any },
            writer: WriterOptionsView { file_type: FileType::Any, source_map_url: None },
            inlining: InliningOptions::spec_default(),
            passopts: PassOptionsView::spec_default(),
            passes: PassesView { add_default_passes: true, more_passes: Seq::empty() },
            features: FeaturesView::Default,
            converge: false,
        }
    }
}

impl Default for FileType {
    fn default() -> (r: FileType)
        ensures
            r == FileType::Any,
    {
        FileType::Any
    }
}

impl Default for ReaderOptions {
    fn default() -> (r: ReaderOptions)
        ensures
            r.file_type == FileType::Any,
    {
        ReaderOptions { file_type: FileType::Any }
    }
}

impl Default for WriterOptions {
    fn default() -> (r: WriterOptions)
        ensures
            r@ == (WriterOptionsView { file_type: FileType::Any, source_map_url: None }),
    {
        WriterOptions { file_type: FileType::Any, source_map_url: None }
    }
}

impl Default for InliningOptions {
    fn default() -> (r: InliningOptions)
        ensures
            r == InliningOptions::spec_default(),
    {
        InliningOptions {
            always_inline_max_size: 2,
            one_caller_inline_max_size: u32::MAX,
            flexible_inline_max_size: 20,
            allow_functions_with_loops: false,
            partial_inlining_ifs: 0,
        }
    }
}

impl Default for OptimizeLevel {
    fn default() -> (r: OptimizeLevel)
        ensures
            r == OptimizeLevel::Level2,
    {
        OptimizeLevel::Level2
    }
}

impl Default for ShrinkLevel {
    fn default() -> (r: ShrinkLevel)
        ensures
            r == ShrinkLevel::Level1,
    {
        ShrinkLevel::Level1
    }
}

impl Default for PassOptions {
    fn default() -> (r: PassOptions)
        ensures
            r@ == PassOptionsView::spec_default(),
    {
        PassOptions {
            debug: false,
            validate: true,
            validate_globally: false,
            optimize_level: OptimizeLevel::Level2,
            shrink_level: ShrinkLevel::Level1,
            traps_never_happen: false,
            low_memory_unused: false,
            fast_math: false,
            zero_filled_memory: false,
            debug_info: false,
            arguments: PassArguments::new(),
        }
    }
}

impl Default for Passes {
    fn default() -> (r: Passes)
        ensures
            r@ == (PassesView { add_default_passes: true, more_passes: Seq::empty() }),
    {
        Passes { add_default_passes: true, more_passes: Vec::new() }
    }
}

impl Default for OptimizationOptions {
    fn default() -> (r: OptimizationOptions)
        ensures
            r@ == OptimizationOptionsView::spec_default(),
    {
        OptimizationOptions {
            reader: ReaderOptions { file_type: FileType::Any },
            writer: WriterOptions { file_type: FileType::Any, source_map_url: None },
            inlining: InliningOptions {
                always_inline_max_size: 2,
                one_caller_inline_max_size: u32::MAX,
                flexible_inline_max_size: 20,
                allow_functions_with_loops: false,
                partial_inlining_ifs: 0,
            },
            passopts: PassOptions {
                debug: false,
                validate: true,
                validate_globally: false,
                optimize_level: OptimizeLevel::Level2,
                shrink_level: ShrinkLevel::Level1,
                traps_never_happen: false,
                low_memory_unused: false,
                fast_math: false,
                zero_filled_memory: false,
                debug_info: false,
                arguments: PassArguments::new(),
            },
            passes: Passes { add_default_passes: true, more_passes: Vec::new() },
            features: Features::Default,
            converge: false,
        }
    }
}

} // verus!
