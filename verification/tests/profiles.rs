use wasm_opt::{OptimizationOptions, OptimizeLevel, Profile, ShrinkLevel};

fn triple(opts: &OptimizationOptions) -> (OptimizeLevel, ShrinkLevel, bool) {
    (
        opts.passopts.optimize_level,
        opts.passopts.shrink_level,
        opts.passes.add_default_passes,
    )
}

#[test]
fn default_optimization_options_are_for_size() {
    let opts1 = OptimizationOptions::default();
    let opts2 = Profile::optimize_for_size().into_opts();
    assert_eq!(opts1.passopts.optimize_level, opts2.passopts.optimize_level);
    assert_eq!(opts1.passopts.shrink_level, opts2.passopts.shrink_level);
    assert_eq!(
        opts1.passes.add_default_passes,
        opts2.passes.add_default_passes
    );
}

#[test]
fn default_is_os() {
    let opts1 = Profile::default();
    let opts2 = Profile::optimize_for_size();
    assert_eq!(opts1, opts2);
}

#[test]
fn default_configuration_is_level_2_shrink_1_with_default_passes() {
    let opts = OptimizationOptions::default();
    assert_eq!(
        triple(&opts),
        (OptimizeLevel::Level2, ShrinkLevel::Level1, true)
    );
}

#[test]
fn each_profile_has_its_triple() {
    assert_eq!(
        triple(&Profile::optimize_for_size().into_opts()),
        (OptimizeLevel::Level2, ShrinkLevel::Level1, true)
    );
    assert_eq!(
        triple(&Profile::optimize_for_size_aggressively().into_opts()),
        (OptimizeLevel::Level2, ShrinkLevel::Level2, true)
    );
    assert_eq!(
        triple(&Profile::opt_level_0().into_opts()),
        (OptimizeLevel::Level0, ShrinkLevel::Level0, false)
    );
    assert_eq!(
        triple(&Profile::opt_level_1().into_opts()),
        (OptimizeLevel::Level1, ShrinkLevel::Level0, true)
    );
    assert_eq!(
        triple(&Profile::opt_level_2().into_opts()),
        (OptimizeLevel::Level2, ShrinkLevel::Level0, true)
    );
    assert_eq!(
        triple(&Profile::opt_level_3().into_opts()),
        (OptimizeLevel::Level3, ShrinkLevel::Level0, true)
    );
    assert_eq!(
        triple(&Profile::opt_level_4().into_opts()),
        (OptimizeLevel::Level4, ShrinkLevel::Level0, true)
    );
}

#[test]
fn profile_equals_default_plus_builder_calls() {
    let profiles = [
        (Profile::optimize_for_size(), OptimizeLevel::Level2, ShrinkLevel::Level1, true),
        (Profile::optimize_for_size_aggressively(), OptimizeLevel::Level2, ShrinkLevel::Level2, true),
        (Profile::opt_level_0(), OptimizeLevel::Level0, ShrinkLevel::Level0, false),
        (Profile::opt_level_1(), OptimizeLevel::Level1, ShrinkLevel::Level0, true),
        (Profile::opt_level_2(), OptimizeLevel::Level2, ShrinkLevel::Level0, true),
        (Profile::opt_level_3(), OptimizeLevel::Level3, ShrinkLevel::Level0, true),
        (Profile::opt_level_4(), OptimizeLevel::Level4, ShrinkLevel::Level0, true),
    ];
    for (profile, optimize, shrink, defaults) in profiles {
        let from_profile = profile.into_opts();
        let mut by_hand = OptimizationOptions::default();
        by_hand
            .optimize_level(optimize)
            .shrink_level(shrink)
            .add_default_passes(defaults);
        assert_eq!(triple(&from_profile), triple(&by_hand));
    }
}

#[test]
fn constructors_follow_their_profiles() {
    assert_eq!(
        triple(&OptimizationOptions::new_optimize_for_size()),
        (OptimizeLevel::Level2, ShrinkLevel::Level1, true)
    );
    assert_eq!(
        triple(&OptimizationOptions::new_optimize_for_size_aggressively()),
        (OptimizeLevel::Level2, ShrinkLevel::Level2, true)
    );
    assert_eq!(
        triple(&OptimizationOptions::new_opt_level_0()),
        (OptimizeLevel::Level0, ShrinkLevel::Level0, false)
    );
    assert_eq!(
        triple(&OptimizationOptions::new_opt_level_1()),
        (OptimizeLevel::Level1, ShrinkLevel::Level0, true)
    );
    assert_eq!(
        triple(&OptimizationOptions::new_opt_level_2()),
        (OptimizeLevel::Level2, ShrinkLevel::Level0, true)
    );
    assert_eq!(
        triple(&OptimizationOptions::new_opt_level_3()),
        (OptimizeLevel::Level3, ShrinkLevel::Level0, true)
    );
    assert_eq!(
        triple(&OptimizationOptions::new_opt_level_4()),
        (OptimizeLevel::Level4, ShrinkLevel::Level0, true)
    );
}

#[test]
fn apply_to_opts_leaves_the_rest() {
    let mut opts = OptimizationOptions::default();
    opts.validate(false).debug_info(true).always_inline_max_size(7);
    Profile::opt_level_3().apply_to_opts(&mut opts);
    assert_eq!(
        triple(&opts),
        (OptimizeLevel::Level3, ShrinkLevel::Level0, true)
    );
    assert!(!opts.passopts.validate);
    assert!(opts.passopts.debug_info);
    assert_eq!(opts.inlining.always_inline_max_size, 7);
}
