//! The usual optimization levels, each as a profile.

use vstd::prelude::*;

use crate::api::{
    OptimizationOptions, OptimizationOptionsView, OptimizeLevel, PassOptionsView, PassesView,
    ShrinkLevel,
};

verus! {

/// One of the usual optimization levels: how much to optimize for speed and
/// for size, and whether the engine's default passes are run.
#[derive(Eq, PartialEq, Debug, Structural)]
pub struct Profile {
    optimize_level: OptimizeLevel,
    shrink_level: ShrinkLevel,
    add_default_passes: bool,
}

impl Profile {
    /// How much the profile optimizes for speed.
    pub closed spec fn spec_optimize_level(self) -> OptimizeLevel {
        self.optimize_level
    }

    /// How much the profile optimizes for size.
    pub closed spec fn spec_shrink_level(self) -> ShrinkLevel {
        self.shrink_level
    }

    /// Whether the profile runs the engine's default passes.
    pub closed spec fn spec_add_default_passes(self) -> bool {
        self.add_default_passes
    }

    /// Whether the profile has these three values.
    pub open spec fn has_values(
        self,
        optimize_level: OptimizeLevel,
        shrink_level: ShrinkLevel,
        add_default_passes: bool,
    ) -> bool {
        &&& self.spec_optimize_level() == optimize_level
        &&& self.spec_shrink_level() == shrink_level
        &&& self.spec_add_default_passes() == add_default_passes
    }

    /// A configuration with the three values of the profile in place of its
    /// own.
    pub open spec fn spec_apply_to_opts(
        self,
        opts: OptimizationOptionsView,
    ) -> OptimizationOptionsView {
        OptimizationOptionsView {
            passopts: PassOptionsView {
                optimize_level: self.spec_optimize_level(),
                shrink_level: self.spec_shrink_level(),
                ..opts.passopts
            },
            passes: PassesView {
                add_default_passes: self.spec_add_default_passes(),
                ..opts.passes
            },
            ..opts
        }
    }

    /// The default configuration with the three values of the profile.
    pub open spec fn spec_into_opts(self) -> OptimizationOptionsView {
        self.spec_apply_to_opts(OptimizationOptionsView::spec_default())
    }

    /// The profile that is used where none is named: optimize for size.
    pub fn default() -> (r: Profile)
        ensures
            r.has_values(OptimizeLevel::Level2, ShrinkLevel::Level1, true),
    {
        Profile::optimize_for_size()
    }

    /// Optimize for size: `-Os`, or `-O`.
    pub fn optimize_for_size() -> (r: Profile)
        ensures
            r.has_values(OptimizeLevel::Level2, ShrinkLevel::Level1, true),
    {
        Profile {
            optimize_level: OptimizeLevel::Level2,
            shrink_level: ShrinkLevel::Level1,
            add_default_passes: true,
        }
    }

    /// Optimize for size, at the cost of speed: `-Oz`.
    pub fn optimize_for_size_aggressively() -> (r: Profile)
        ensures
            r.has_values(OptimizeLevel::Level2, ShrinkLevel::Level2, true),
    {
        Profile {
            optimize_level: OptimizeLevel::Level2,
            shrink_level: ShrinkLevel::Level2,
            add_default_passes: true,
        }
    }

    /// Do not optimize: `-O0`. The engine's default passes are not run.
    pub fn opt_level_0() -> (r: Profile)
        ensures
            r.has_values(OptimizeLevel::Level0, ShrinkLevel::Level0, false),
    {
        Profile {
            optimize_level: OptimizeLevel::Level0,
            shrink_level: ShrinkLevel::Level0,
            add_default_passes: false,
        }
    }

    /// Optimize for speed, level 1: `-O1`.
    pub fn opt_level_1() -> (r: Profile)
        ensures
            r.has_values(OptimizeLevel::Level1, ShrinkLevel::Level0, true),
    {
        Profile {
            optimize_level: OptimizeLevel::Level1,
            shrink_level: ShrinkLevel::Level0,
            add_default_passes: true,
        }
    }

    /// Optimize for speed, level 2: `-O2`.
    pub fn opt_level_2() -> (r: Profile)
        ensures
            r.has_values(OptimizeLevel::Level2, ShrinkLevel::Level0, true),
    {
        Profile {
            optimize_level: OptimizeLevel::Level2,
            shrink_level: ShrinkLevel::Level0,
            add_default_passes: true,
        }
    }

    /// Optimize for speed, level 3: `-O3`.
    pub fn opt_level_3() -> (r: Profile)
        ensures
            r.has_values(OptimizeLevel::Level3, ShrinkLevel::Level0, true),
    {
        Profile {
            optimize_level: OptimizeLevel::Level3,
            shrink_level: ShrinkLevel::Level0,
            add_default_passes: true,
        }
    }

    /// Optimize for speed, level 4: `-O4`.
    pub fn opt_level_4() -> (r: Profile)
        ensures
            r.has_values(OptimizeLevel::Level4, ShrinkLevel::Level0, true),
    {
        Profile {
            optimize_level: OptimizeLevel::Level4,
            shrink_level: ShrinkLevel::Level0,
            add_default_passes: true,
        }
    }

    /// The default configuration with the three values of the profile.
    pub fn into_opts(self) -> (opts: OptimizationOptions)
        ensures
            opts@ == self.spec_into_opts(),
    {
        let mut opts = OptimizationOptions::default();
        self.apply_to_opts(&mut opts);
        opts
    }

    /// Puts the three values of the profile into a configuration, and leaves
    /// the rest of it as it is.
    pub fn apply_to_opts(self, opts: &mut OptimizationOptions)
        ensures
            final(opts)@ == self.spec_apply_to_opts(old(opts)@),
    {
        opts.passopts.optimize_level = self.optimize_level;
        opts.passopts.shrink_level = self.shrink_level;
        opts.passes.add_default_passes = self.add_default_passes;
    }

    /// Two profiles with the same three values are the same profile.
    pub proof fn lemma_profile_by_values(self, other: Profile)
        requires
            other.has_values(
                self.spec_optimize_level(),
                self.spec_shrink_level(),
                self.spec_add_default_passes(),
            ),
        ensures
            self == other,
    {
    }

    /// The configuration of a profile is the default configuration after the
    /// three builder calls that set its optimize level, its shrink level and
    /// whether the default passes run; so it has these three values.
    pub proof fn lemma_profile_is_builder_calls(self)
        ensures
            self.spec_into_opts() == OptimizationOptionsView::spec_default().optimize_level(
                self.spec_optimize_level(),
            ).shrink_level(self.spec_shrink_level()).add_default_passes(
                self.spec_add_default_passes(),
            ),
            self.spec_into_opts().passopts.optimize_level == self.spec_optimize_level(),
            self.spec_into_opts().passopts.shrink_level == self.spec_shrink_level(),
            self.spec_into_opts().passes.add_default_passes == self.spec_add_default_passes(),
    {
    }

    /// Putting a profile into a configuration is the three builder calls on
    /// that configuration, in any order of the three.
    pub proof fn lemma_apply_is_builder_calls(self, opts: OptimizationOptionsView)
        ensures
            self.spec_apply_to_opts(opts) == opts.optimize_level(
                self.spec_optimize_level(),
            ).shrink_level(self.spec_shrink_level()).add_default_passes(
                self.spec_add_default_passes(),
            ),
            self.spec_apply_to_opts(opts) == opts.add_default_passes(
                self.spec_add_default_passes(),
            ).shrink_level(self.spec_shrink_level()).optimize_level(self.spec_optimize_level()),
    {
    }

    /// The default configuration is the configuration of the profile that
    /// optimizes for size: optimize level 2, shrink level 1, default passes
    /// on.
    pub proof fn lemma_default_is_for_size(profile: Profile)
        requires
            profile.has_values(OptimizeLevel::Level2, ShrinkLevel::Level1, true),
        ensures
            OptimizationOptionsView::spec_default() == profile.spec_into_opts(),
            OptimizationOptionsView::spec_default().passopts.optimize_level
                == OptimizeLevel::Level2,
            OptimizationOptionsView::spec_default().passopts.shrink_level == ShrinkLevel::Level1,
            OptimizationOptionsView::spec_default().passes.add_default_passes,
    {
    }
}

/// The constructors of a configuration, one for each profile.
impl OptimizationOptions {
    /// The default configuration, which optimizes for size: `-Os`, or `-O`.
    pub fn new_optimize_for_size() -> (r: OptimizationOptions)
        ensures
            r@ == OptimizationOptionsView::spec_default(),
    {
        proof {
            Profile::lemma_default_is_for_size(
                Profile {
                    optimize_level: OptimizeLevel::Level2,
                    shrink_level: ShrinkLevel::Level1,
                    add_default_passes: true,
                },
            );
        }
        Profile::optimize_for_size().into_opts()
    }

    /// The default configuration but for shrink level 2: `-Oz`.
    pub fn new_optimize_for_size_aggressively() -> (r: OptimizationOptions)
        ensures
            r@ == OptimizationOptionsView::spec_default().shrink_level(ShrinkLevel::Level2),
    {
        Profile::optimize_for_size_aggressively().into_opts()
    }

    /// The default configuration but for optimize level 0, shrink level 0
    /// and no default passes: `-O0`.
    pub fn new_opt_level_0() -> (r: OptimizationOptions)
        ensures
            r@ == OptimizationOptionsView::spec_default().optimize_level(
                OptimizeLevel::Level0,
            ).shrink_level(ShrinkLevel::Level0).add_default_passes(false),
    {
        Profile::opt_level_0().into_opts()
    }

    /// The default configuration but for optimize level 1 and shrink level
    /// 0: `-O1`.
    pub fn new_opt_level_1() -> (r: OptimizationOptions)
        ensures
            r@ == OptimizationOptionsView::spec_default().optimize_level(
                OptimizeLevel::Level1,
            ).shrink_level(ShrinkLevel::Level0),
    {
        Profile::opt_level_1().into_opts()
    }

    /// The default configuration but for shrink level 0: `-O2`.
    pub fn new_opt_level_2() -> (r: OptimizationOptions)
        ensures
            r@ == OptimizationOptionsView::spec_default().shrink_level(ShrinkLevel::Level0),
    {
        Profile::opt_level_2().into_opts()
    }

    /// The default configuration but for optimize level 3 and shrink level
    /// 0: `-O3`.
    pub fn new_opt_level_3() -> (r: OptimizationOptions)
        ensures
            r@ == OptimizationOptionsView::spec_default().optimize_level(
                OptimizeLevel::Level3,
            ).shrink_level(ShrinkLevel::Level0),
    {
        Profile::opt_level_3().into_opts()
    }

    /// The default configuration but for optimize level 4 and shrink level
    /// 0: `-O4`.
    pub fn new_opt_level_4() -> (r: OptimizationOptions)
        ensures
            r@ == OptimizationOptionsView::spec_default().optimize_level(
                OptimizeLevel::Level4,
            ).shrink_level(ShrinkLevel::Level0),
    {
        Profile::opt_level_4().into_opts()
    }
}

} // verus!
