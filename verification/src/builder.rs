//! A builder interface for [`OptimizationOptions`].
//!
//! Each method changes one thing and hands the configuration back, so that
//! calls can be chained. None of them refuses a value: what a configuration
//! means is settled when it is run.

use vstd::prelude::*;

use crate::api::{
    FileType, InliningOptions, OptimizationOptions, OptimizationOptionsView, OptimizeLevel,
    PassOptionsView, PassesView, ReaderOptions, ShrinkLevel, WriterOptionsView,
};
use crate::features::{Feature, Features, FeaturesView};
use crate::passes::Pass;

verus! {

impl OptimizationOptionsView {
    /// The configuration with this one value changed: see
    /// [`OptimizationOptions::reader_file_type`].
    pub open spec fn reader_file_type(self, value: FileType) -> OptimizationOptionsView {
        OptimizationOptionsView { reader: ReaderOptions { file_type: value }, ..self }
    }

    /// The configuration with this one value changed: see
    /// [`OptimizationOptions::writer_file_type`].
    pub open spec fn writer_file_type(self, value: FileType) -> OptimizationOptionsView {
        OptimizationOptionsView {
            writer: WriterOptionsView { file_type: value, ..self.writer },
            ..self
        }
    }

    /// The configuration with this one value changed: see
    /// [`OptimizationOptions::always_inline_max_size`].
    pub open spec fn always_inline_max_size(self, value: u32) -> OptimizationOptionsView {
        OptimizationOptionsView {
            inlining: InliningOptions { always_inline_max_size: value, ..self.inlining },
            ..self
        }
    }

    /// The configuration with this one value changed: see
    /// [`OptimizationOptions::one_caller_inline_max_size`].
    pub open spec fn one_caller_inline_max_size(self, value: u32) -> OptimizationOptionsView {
        OptimizationOptionsView {
            inlining: InliningOptions { one_caller_inline_max_size: value, ..self.inlining },
            ..self
        }
    }

    /// The configuration with this one value changed: see
    /// [`OptimizationOptions::flexible_inline_max_size`].
    pub open spec fn flexible_inline_max_size(self, value: u32) -> OptimizationOptionsView {
        OptimizationOptionsView {
            inlining: InliningOptions { flexible_inline_max_size: value, ..self.inlining },
            ..self
        }
    }

    /// The configuration with this one value changed: see
    /// [`OptimizationOptions::allow_functions_with_loops`].
    pub open spec fn allow_functions_with_loops(self, value: bool) -> OptimizationOptionsView {
        OptimizationOptionsView {
            inlining: InliningOptions { allow_functions_with_loops: value, ..self.inlining },
            ..self
        }
    }

    /// The configuration with this one value changed: see
    /// [`OptimizationOptions::partial_inlining_ifs`].
    pub open spec fn partial_inlining_ifs(self, value: u32) -> OptimizationOptionsView {
        OptimizationOptionsView {
            inlining: InliningOptions { partial_inlining_ifs: value, ..self.inlining },
            ..self
        }
    }

    /// The configuration with this one value changed: see
    /// [`OptimizationOptions::validate`].
    pub open spec fn validate(self, value: bool) -> OptimizationOptionsView {
        OptimizationOptionsView {
            passopts: PassOptionsView { validate: value, ..self.passopts },
            ..self
        }
    }

    /// The configuration with this one value changed: see
    /// [`OptimizationOptions::validate_globally`].
    pub open spec fn validate_globally(self, value: bool) -> OptimizationOptionsView {
        OptimizationOptionsView {
            passopts: PassOptionsView { validate_globally: value, ..self.passopts },
            ..self
        }
    }

    /// The configuration with this one value changed: see
    /// [`OptimizationOptions::optimize_level`].
    pub open spec fn optimize_level(self, value: OptimizeLevel) -> OptimizationOptionsView {
        OptimizationOptionsView {
            passopts: PassOptionsView { optimize_level: value, ..self.passopts },
            ..self
        }
    }

    /// The configuration with this one value changed: see
    /// [`OptimizationOptions::shrink_level`].
    pub open spec fn shrink_level(self, value: ShrinkLevel) -> OptimizationOptionsView {
        OptimizationOptionsView {
            passopts: PassOptionsView { shrink_level: value, ..self.passopts },
            ..self
        }
    }

    /// The configuration with this one value changed: see
    /// [`OptimizationOptions::traps_never_happen`].
    pub open spec fn traps_never_happen(self, value: bool) -> OptimizationOptionsView {
        OptimizationOptionsView {
            passopts: PassOptionsView { traps_never_happen: value, ..self.passopts },
            ..self
        }
    }

    /// The configuration with this one value changed: see
    /// [`OptimizationOptions::low_memory_unused`].
    pub open spec fn low_memory_unused(self, value: bool) -> OptimizationOptionsView {
        OptimizationOptionsView {
            passopts: PassOptionsView { low_memory_unused: value, ..self.passopts },
            ..self
        }
    }

    /// The configuration with this one value changed: see
    /// [`OptimizationOptions::fast_math`].
    pub open spec fn fast_math(self, value: bool) -> OptimizationOptionsView {
        OptimizationOptionsView {
            passopts: PassOptionsView { fast_math: value, ..self.passopts },
            ..self
        }
    }

    /// The configuration with this one value changed: see
    /// [`OptimizationOptions::zero_filled_memory`].
    pub open spec fn zero_filled_memory(self, value: bool) -> OptimizationOptionsView {
        OptimizationOptionsView {
            passopts: PassOptionsView { zero_filled_memory: value, ..self.passopts },
            ..self
        }
    }

    /// The configuration with this one value changed: see
    /// [`OptimizationOptions::debug_info`].
    pub open spec fn debug_info(self, value: bool) -> OptimizationOptionsView {
        OptimizationOptionsView {
            passopts: PassOptionsView { debug_info: value, ..self.passopts },
            ..self
        }
    }

    /// The configuration with this one value changed: see
    /// [`OptimizationOptions::add_default_passes`].
    pub open spec fn add_default_passes(self, value: bool) -> OptimizationOptionsView {
        OptimizationOptionsView {
            passes: PassesView { add_default_passes: value, ..self.passes },
            ..self
        }
    }

    /// The configuration with `converge` set.
    pub open spec fn set_converge(self) -> OptimizationOptionsView {
        OptimizationOptionsView { converge: true, ..self }
    }

    /// The configuration with one pass argument set, in place of the value
    /// that its name had if it had one.
    pub open spec fn set_pass_arg(self, key: Seq<char>, value: Seq<char>) -> OptimizationOptionsView {
        OptimizationOptionsView {
            passopts: PassOptionsView {
                arguments: self.passopts.arguments.insert(key, value),
                ..self.passopts
            },
            ..self
        }
    }

    /// The configuration with one more pass, after those it has.
    pub open spec fn add_pass(self, value: Pass) -> OptimizationOptionsView {
        OptimizationOptionsView {
            passes: PassesView { more_passes: self.passes.more_passes.push(value), ..self.passes },
            ..self
        }
    }

    /// The configuration with every feature beyond the MVP forced off.
    pub open spec fn mvp_features_only(self) -> OptimizationOptionsView {
        OptimizationOptionsView { features: FeaturesView::MvpOnly, ..self }
    }

    /// The configuration with every feature but the experimental ones
    /// forced on.
    pub open spec fn all_features(self) -> OptimizationOptionsView {
        OptimizationOptionsView { features: FeaturesView::All, ..self }
    }

    /// The configuration after a call that enables a feature.
    pub open spec fn enable_feature(self, feature: Feature) -> OptimizationOptionsView {
        OptimizationOptionsView { features: self.features.enable(feature), ..self }
    }

    /// The configuration after a call that disables a feature.
    pub open spec fn disable_feature(self, feature: Feature) -> OptimizationOptionsView {
        OptimizationOptionsView { features: self.features.disable(feature), ..self }
    }
}

/// Builder methods.
impl OptimizationOptions {
    /// Sets the encoding of the input file.
    pub fn reader_file_type(&mut self, value: FileType) -> (ret: &mut Self)
        ensures
            ret@ == old(self)@.reader_file_type(value),
            *final(self) == *final(ret),
    {
        self.reader.file_type = value;
        self
    }

    /// Sets the encoding of the output file.
    pub fn writer_file_type(&mut self, value: FileType) -> (ret: &mut Self)
        ensures
            ret@ == old(self)@.writer_file_type(value),
            *final(self) == *final(ret),
    {
        self.writer.file_type = value;
        self
    }

    /// Sets the size up to which a function is always inlined.
    pub fn always_inline_max_size(&mut self, value: u32) -> (ret: &mut Self)
        ensures
            ret@ == old(self)@.always_inline_max_size(value),
            *final(self) == *final(ret),
    {
        self.inlining.always_inline_max_size = value;
        self
    }

    /// Sets the size up to which a function with one caller is inlined.
    pub fn one_caller_inline_max_size(&mut self, value: u32) -> (ret: &mut Self)
        ensures
            ret@ == old(self)@.one_caller_inline_max_size(value),
            *final(self) == *final(ret),
    {
        self.inlining.one_caller_inline_max_size = value;
        self
    }

    /// Sets the size up to which a function is inlined where that seems to pay.
    pub fn flexible_inline_max_size(&mut self, value: u32) -> (ret: &mut Self)
        ensures
            ret@ == old(self)@.flexible_inline_max_size(value),
            *final(self) == *final(ret),
    {
        self.inlining.flexible_inline_max_size = value;
        self
    }

    /// Sets whether functions with loops may be inlined.
    pub fn allow_functions_with_loops(&mut self, value: bool) -> (ret: &mut Self)
        ensures
            ret@ == old(self)@.allow_functions_with_loops(value),
            *final(self) == *final(ret),
    {
        self.inlining.allow_functions_with_loops = value;
        self
    }

    /// Sets how many `if`s a function may start with to be inlined in part.
    pub fn partial_inlining_ifs(&mut self, value: u32) -> (ret: &mut Self)
        ensures
            ret@ == old(self)@.partial_inlining_ifs(value),
            *final(self) == *final(ret),
    {
        self.inlining.partial_inlining_ifs = value;
        self
    }

    /// Sets whether the module is validated before and after the passes.
    pub fn validate(&mut self, value: bool) -> (ret: &mut Self)
        ensures
            ret@ == old(self)@.validate(value),
            *final(self) == *final(ret),
    {
        self.passopts.validate = value;
        self
    }

    /// Sets whether validation checks global properties too.
    pub fn validate_globally(&mut self, value: bool) -> (ret: &mut Self)
        ensures
            ret@ == old(self)@.validate_globally(value),
            *final(self) == *final(ret),
    {
        self.passopts.validate_globally = value;
        self
    }

    /// Sets how much to optimize for speed.
    pub fn optimize_level(&mut self, value: OptimizeLevel) -> (ret: &mut Self)
        ensures
            ret@ == old(self)@.optimize_level(value),
            *final(self) == *final(ret),
    {
        self.passopts.optimize_level = value;
        self
    }

    /// Sets how much to optimize for size.
    pub fn shrink_level(&mut self, value: ShrinkLevel) -> (ret: &mut Self)
        ensures
            ret@ == old(self)@.shrink_level(value),
            *final(self) == *final(ret),
    {
        self.passopts.shrink_level = value;
        self
    }

    /// Sets whether the passes assume that no trap is ever hit.
    pub fn traps_never_happen(&mut self, value: bool) -> (ret: &mut Self)
        ensures
            ret@ == old(self)@.traps_never_happen(value),
            *final(self) == *final(ret),
    {
        self.passopts.traps_never_happen = value;
        self
    }

    /// Sets whether the passes assume that the low 1K of memory is not used.
    pub fn low_memory_unused(&mut self, value: bool) -> (ret: &mut Self)
        ensures
            ret@ == old(self)@.low_memory_unused(value),
            *final(self) == *final(ret),
    {
        self.passopts.low_memory_unused = value;
        self
    }

    /// Sets whether floating-point optimizations may change results on corner cases.
    pub fn fast_math(&mut self, value: bool) -> (ret: &mut Self)
        ensures
            ret@ == old(self)@.fast_math(value),
            *final(self) == *final(ret),
    {
        self.passopts.fast_math = value;
        self
    }

    /// Sets whether the passes assume that imported memory is zero-filled.
    pub fn zero_filled_memory(&mut self, value: bool) -> (ret: &mut Self)
        ensures
            ret@ == old(self)@.zero_filled_memory(value),
            *final(self) == *final(ret),
    {
        self.passopts.zero_filled_memory = value;
        self
    }

    /// Sets whether debug information is kept.
    pub fn debug_info(&mut self, value: bool) -> (ret: &mut Self)
        ensures
            ret@ == old(self)@.debug_info(value),
            *final(self) == *final(ret),
    {
        self.passopts.debug_info = value;
        self
    }

    /// Sets whether the engine's default passes run first.
    pub fn add_default_passes(&mut self, value: bool) -> (ret: &mut Self)
        ensures
            ret@ == old(self)@.add_default_passes(value),
            *final(self) == *final(ret),
    {
        self.passes.add_default_passes = value;
        self
    }

    /// Sets `converge`, which asks for the passes to run again until the
    /// module stops changing. The request is kept in the configuration; a
    /// run takes no notice of it and makes one round of passes.
    pub fn set_converge(&mut self) -> (ret: &mut Self)
        ensures
            ret@ == old(self)@.set_converge(),
            *final(self) == *final(ret),
    {
        self.converge = true;
        self
    }

    /// Sets an argument of a pass, in place of the value that its name had
    /// if it had one.
    pub fn set_pass_arg(&mut self, key: &str, value: &str) -> (ret: &mut Self)
        ensures
            ret@ == old(self)@.set_pass_arg(key@, value@),
            *final(self) == *final(ret),
    {
        self.passopts.arguments.insert(key, value);
        self
    }

    /// Adds a pass, to run after the default passes and after the passes
    /// that were added before.
    pub fn add_pass(&mut self, value: Pass) -> (ret: &mut Self)
        ensures
            ret@ == old(self)@.add_pass(value),
            *final(self) == *final(ret),
    {
        self.passes.more_passes.push(value);
        self
    }

    /// Forces every feature beyond the MVP off.
    pub fn mvp_features_only(&mut self) -> (ret: &mut Self)
        ensures
            ret@ == old(self)@.mvp_features_only(),
            *final(self) == *final(ret),
    {
        self.features = Features::MvpOnly;
        self
    }

    /// Forces every feature but the experimental ones on.
    pub fn all_features(&mut self) -> (ret: &mut Self)
        ensures
            ret@ == old(self)@.all_features(),
            *final(self) == *final(ret),
    {
        self.features = Features::All;
        self
    }

    /// Forces a feature on. This has an effect on a custom selection only:
    /// there the feature is enabled from now on, and no longer disabled if
    /// it was.
    pub fn enable_feature(&mut self, feature: Feature) -> (ret: &mut Self)
        ensures
            ret@ == old(self)@.enable_feature(feature),
            *final(self) == *final(ret),
    {
        match &mut self.features {
            Features::Default | Features::MvpOnly | Features::All => {},
            Features::Custom(selection) => {
                selection.enable(feature);
            },
        }
        self
    }

    /// Forces a feature off. This has an effect on a custom selection only:
    /// there the feature is disabled from now on, and no longer enabled if
    /// it was.
    pub fn disable_feature(&mut self, feature: Feature) -> (ret: &mut Self)
        ensures
            ret@ == old(self)@.disable_feature(feature),
            *final(self) == *final(ret),
    {
        match &mut self.features {
            Features::Default | Features::MvpOnly | Features::All => {},
            Features::Custom(selection) => {
                selection.disable(feature);
            },
        }
        self
    }
}

} // verus!
