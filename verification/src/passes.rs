//! The catalog of optimization passes.

use vstd::prelude::*;

verus! {

/// An optimization pass of the engine.
///
/// The variants stand in the order in which the engine registers its passes,
/// and [`Pass::name`] gives the name by which the engine knows each.
#[derive(Clone, Copy, Debug, Eq, Hash, PartialEq, Structural)]
pub enum Pass {
    /// Lower unaligned loads and stores to smaller aligned ones.
    AlignmentLowering,
    /// Async/await style transform, allowing pausing and resuming.
    Asyncify,
    /// Tries to avoid reinterpret operations via more loads.
    AvoidReinterprets,
    /// Removes arguments to calls in an lto-like manner.
    Dae,
    /// Removes arguments to calls in an lto-like manner, and optimizes where removed.
    DaeOptimizing,
    /// Reduce # of locals by coalescing.
    CoalesceLocals,
    /// Reduce # of locals by coalescing and learning.
    CoalesceLocalsLearning,
    /// Push code forward, potentially making it not always execute.
    CodePushing,
    /// Fold code, merging duplicates.
    CodeFolding,
    /// Hoist repeated constants to a local.
    CodeHoisting,
    /// Propagate constant struct field values.
    Cfp,
    /// Removes unreachable code.
    Dce,
    /// Forces all loads and stores to have alignment 1.
    Dealign,
    /// Instrument the wasm to convert NaNs into 0 at runtime.
    DeNan,
    /// Turns indirect calls into direct ones.
    Directize,
    /// Optimizes using the DataFlow SSA IR.
    Dfo,
    /// Dump DWARF debug info sections from the read binary.
    DwarfDump,
    /// Removes duplicate imports.
    DuplicateImportElimination,
    /// Removes duplicate functions.
    DuplicateFunctionElimination,
    /// Emit the target features section in the output.
    EmitTargetFeatures,
    /// Leaves just one function (useful for debugging).
    ExtractFunction,
    /// Leaves just one function selected by index.
    ExtractFunctionIndex,
    /// Flattens out code, removing nesting.
    Flatten,
    /// Emulates function pointer casts, allowing incorrect indirect calls to (sometimes) work.
    FpCastEmu,
    /// Reports function metrics.
    FuncMetrics,
    /// Generate dynCall fuctions used by emscripten ABI.
    GenerateDyncalls,
    /// Generate dynCall functions used by emscripten ABI, but only for functions with i64 in their signature (which cannot be invoked via the wasm table without JavaScript BigInt support).
    GenerateI64Dyncalls,
    /// Generate Stack IR.
    GenerateStackIr,
    /// Refine the types of globals.
    GlobalRefining,
    /// Globally optimize GC types.
    Gto,
    /// Globally optimize struct values.
    Gsi,
    /// Apply more specific subtypes to type fields where possible.
    TypeRefining,
    /// Replace GC allocations with locals.
    Heap2Local,
}

impl Pass {
    /// The name of the pass, as a sequence of characters.
    pub open spec fn spec_name(self) -> Seq<char> {
        match self {
            Pass::AlignmentLowering => "alignment-lowering"@,
            Pass::Asyncify => "asyncify"@,
            Pass::AvoidReinterprets => "avoid-reinterprets"@,
            Pass::Dae => "dae"@,
            Pass::DaeOptimizing => "dae-optimizing"@,
            Pass::CoalesceLocals => "coalesce-locals"@,
            Pass::CoalesceLocalsLearning => "coalesce-locals-learning"@,
            Pass::CodePushing => "code-pushing"@,
            Pass::CodeFolding => "code-folding"@,
            Pass::CodeHoisting => "const-hoisting"@,
            Pass::Cfp => "cfp"@,
            Pass::Dce => "dce"@,
            Pass::Dealign => "dealign"@,
            Pass::DeNan => "denan"@,
            Pass::Directize => "directize"@,
            Pass::Dfo => "dfo"@,
            Pass::DwarfDump => "dwarfdump"@,
            Pass::DuplicateImportElimination => "duplicate-import-elimination"@,
            Pass::DuplicateFunctionElimination => "duplicate-function-elimination"@,
            Pass::EmitTargetFeatures => "emit-target-features"@,
            Pass::ExtractFunction => "extract-function"@,
            Pass::ExtractFunctionIndex => "extract-function-index"@,
            Pass::Flatten => "flatten"@,
            Pass::FpCastEmu => "fpcast-emu"@,
            Pass::FuncMetrics => "func-metrics"@,
            Pass::GenerateDyncalls => "generate-dyncalls"@,
            Pass::GenerateI64Dyncalls => "generate-i64-dyncalls"@,
            Pass::GenerateStackIr => "generate-stack-ir"@,
            Pass::GlobalRefining => "global-refining"@,
            Pass::Gto => "gto"@,
            Pass::Gsi => "gsi"@,
            Pass::TypeRefining => "type-refining"@,
            Pass::Heap2Local => "heap2local"@,
        }
    }

    /// Every pass of the catalog, in the order of declaration.
    pub open spec fn catalog() -> Seq<Pass> {
        seq![
            Pass::AlignmentLowering,
            Pass::Asyncify,
            Pass::AvoidReinterprets,
            Pass::Dae,
            Pass::DaeOptimizing,
            Pass::CoalesceLocals,
            Pass::CoalesceLocalsLearning,
            Pass::CodePushing,
            Pass::CodeFolding,
            Pass::CodeHoisting,
            Pass::Cfp,
            Pass::Dce,
            Pass::Dealign,
            Pass::DeNan,
            Pass::Directize,
            Pass::Dfo,
            Pass::DwarfDump,
            Pass::DuplicateImportElimination,
            Pass::DuplicateFunctionElimination,
            Pass::EmitTargetFeatures,
            Pass::ExtractFunction,
            Pass::ExtractFunctionIndex,
            Pass::Flatten,
            Pass::FpCastEmu,
            Pass::FuncMetrics,
            Pass::GenerateDyncalls,
            Pass::GenerateI64Dyncalls,
            Pass::GenerateStackIr,
            Pass::GlobalRefining,
            Pass::Gto,
            Pass::Gsi,
            Pass::TypeRefining,
            Pass::Heap2Local,
        ]
    }

    /// Returns the name of the pass.
    ///
    /// This is the name by which the engine identifies the pass, and the one
    /// that its command line takes.
    pub fn name(&self) -> (r: &'static str)
        ensures
            r@ == self.spec_name(),
    {
        match self {
            Pass::AlignmentLowering => "alignment-lowering",
            Pass::Asyncify => "asyncify",
            Pass::AvoidReinterprets => "avoid-reinterprets",
            Pass::Dae => "dae",
            Pass::DaeOptimizing => "dae-optimizing",
            Pass::CoalesceLocals => "coalesce-locals",
            Pass::CoalesceLocalsLearning => "coalesce-locals-learning",
            Pass::CodePushing => "code-pushing",
            Pass::CodeFolding => "code-folding",
            Pass::CodeHoisting => "const-hoisting",
            Pass::Cfp => "cfp",
            Pass::Dce => "dce",
            Pass::Dealign => "dealign",
            Pass::DeNan => "denan",
            Pass::Directize => "directize",
            Pass::Dfo => "dfo",
            Pass::DwarfDump => "dwarfdump",
            Pass::DuplicateImportElimination => "duplicate-import-elimination",
            Pass::DuplicateFunctionElimination => "duplicate-function-elimination",
            Pass::EmitTargetFeatures => "emit-target-features",
            Pass::ExtractFunction => "extract-function",
            Pass::ExtractFunctionIndex => "extract-function-index",
            Pass::Flatten => "flatten",
            Pass::FpCastEmu => "fpcast-emu",
            Pass::FuncMetrics => "func-metrics",
            Pass::GenerateDyncalls => "generate-dyncalls",
            Pass::GenerateI64Dyncalls => "generate-i64-dyncalls",
            Pass::GenerateStackIr => "generate-stack-ir",
            Pass::GlobalRefining => "global-refining",
            Pass::Gto => "gto",
            Pass::Gsi => "gsi",
            Pass::TypeRefining => "type-refining",
            Pass::Heap2Local => "heap2local",
        }
    }

    /// Every pass of the catalog, in the order of declaration.
    pub fn all() -> (r: Vec<Pass>)
        ensures
            r@ == Pass::catalog(),
    {
        let r = vec![
            Pass::AlignmentLowering,
            Pass::Asyncify,
            Pass::AvoidReinterprets,
            Pass::Dae,
            Pass::DaeOptimizing,
            Pass::CoalesceLocals,
            Pass::CoalesceLocalsLearning,
            Pass::CodePushing,
            Pass::CodeFolding,
            Pass::CodeHoisting,
            Pass::Cfp,
            Pass::Dce,
            Pass::Dealign,
            Pass::DeNan,
            Pass::Directize,
            Pass::Dfo,
            Pass::DwarfDump,
            Pass::DuplicateImportElimination,
            Pass::DuplicateFunctionElimination,
            Pass::EmitTargetFeatures,
            Pass::ExtractFunction,
            Pass::ExtractFunctionIndex,
            Pass::Flatten,
            Pass::FpCastEmu,
            Pass::FuncMetrics,
            Pass::GenerateDyncalls,
            Pass::GenerateI64Dyncalls,
            Pass::GenerateStackIr,
            Pass::GlobalRefining,
            Pass::Gto,
            Pass::Gsi,
            Pass::TypeRefining,
            Pass::Heap2Local,
        ];
        assert(r@ =~= Pass::catalog());
        r
    }

    /// The pass of a name, if the catalog has one of that name.
    pub fn from_name(name: &str) -> (r: Option<Pass>)
        ensures
            r matches Some(pass) ==> pass.spec_name() == name@,
            forall|pass: Pass| pass.spec_name() == name@ ==> r == Some(pass),
    {
        let all = Pass::all();
        let mut i: usize = 0;
        while i < all.len()
            invariant
                i <= all.len(),
                all@ == Pass::catalog(),
                forall|j: int| 0 <= j < i ==> (#[trigger] all@[j]).spec_name() != name@,
            decreases all.len() - i,
        {
            if crate::text::str_eq(all[i].name(), name) {
                proof {
                    let found = all@[i as int];
                    assert forall|pass: Pass| pass.spec_name() == name@ implies pass == found by {
                        if pass != found {
                            Pass::lemma_names_distinct(pass, found);
                        }
                    }
                }
                return Some(all[i]);
            }
            i = i + 1;
        }
        proof {
            assert forall|pass: Pass| pass.spec_name() != name@ by {
                Pass::lemma_catalog_complete(pass);
                let j = choose|j: int| 0 <= j < all@.len() && all@[j] == pass;
                assert(all@[j].spec_name() != name@);
            }
        }
        None
    }

    /// What tells the names apart: no two of them agree in their length,
    /// their second and last characters and, where they have one, their
    /// sixth.
    pub open spec fn name_key(name: Seq<char>) -> (int, char, char, char) {
        (
            name.len() as int,
            name[1],
            if name.len() > 5 {
                name[5]
            } else {
                ' '
            },
            name[name.len() - 1],
        )
    }

    /// The key of the name of each pass.
    pub open spec fn key_of(pass: Pass) -> (int, char, char, char) {
        match pass {
            Pass::AlignmentLowering => (18, 'l', 'm', 'g'),
            Pass::Asyncify => (8, 's', 'i', 'y'),
            Pass::AvoidReinterprets => (18, 'v', '-', 's'),
            Pass::Dae => (3, 'a', ' ', 'e'),
            Pass::DaeOptimizing => (14, 'a', 'p', 'g'),
            Pass::CoalesceLocals => (15, 'o', 's', 's'),
            Pass::CoalesceLocalsLearning => (24, 'o', 's', 'g'),
            Pass::CodePushing => (12, 'o', 'p', 'g'),
            Pass::CodeFolding => (12, 'o', 'f', 'g'),
            Pass::CodeHoisting => (14, 'o', '-', 'g'),
            Pass::Cfp => (3, 'f', ' ', 'p'),
            Pass::Dce => (3, 'c', ' ', 'e'),
            Pass::Dealign => (7, 'e', 'g', 'n'),
            Pass::DeNan => (5, 'e', ' ', 'n'),
            Pass::Directize => (9, 'i', 't', 'e'),
            Pass::Dfo => (3, 'f', ' ', 'o'),
            Pass::DwarfDump => (9, 'w', 'd', 'p'),
            Pass::DuplicateImportElimination => (28, 'u', 'c', 'n'),
            Pass::DuplicateFunctionElimination => (30, 'u', 'c', 'n'),
            Pass::EmitTargetFeatures => (20, 'm', 't', 's'),
            Pass::ExtractFunction => (16, 'x', 'c', 'n'),
            Pass::ExtractFunctionIndex => (22, 'x', 'c', 'x'),
            Pass::Flatten => (7, 'l', 'e', 'n'),
            Pass::FpCastEmu => (10, 'p', 't', 'u'),
            Pass::FuncMetrics => (12, 'u', 'm', 's'),
            Pass::GenerateDyncalls => (17, 'e', 'a', 's'),
            Pass::GenerateI64Dyncalls => (21, 'e', 'a', 's'),
            Pass::GenerateStackIr => (17, 'e', 'a', 'r'),
            Pass::GlobalRefining => (15, 'l', 'l', 'g'),
            Pass::Gto => (3, 't', ' ', 'o'),
            Pass::Gsi => (3, 's', ' ', 'i'),
            Pass::TypeRefining => (13, 'y', 'r', 'g'),
            Pass::Heap2Local => (10, 'e', 'l', 'l'),
        }
    }

    /// The name of each pass has the key that is listed for it.
    pub proof fn lemma_name_key(pass: Pass)
        ensures
            Pass::name_key(pass.spec_name()) == Pass::key_of(pass),
    {
        reveal_strlit("alignment-lowering");
        reveal_strlit("asyncify");
        reveal_strlit("avoid-reinterprets");
        reveal_strlit("dae");
        reveal_strlit("dae-optimizing");
        reveal_strlit("coalesce-locals");
        reveal_strlit("coalesce-locals-learning");
        reveal_strlit("code-pushing");
        reveal_strlit("code-folding");
        reveal_strlit("const-hoisting");
        reveal_strlit("cfp");
        reveal_strlit("dce");
        reveal_strlit("dealign");
        reveal_strlit("denan");
        reveal_strlit("directize");
        reveal_strlit("dfo");
        reveal_strlit("dwarfdump");
        reveal_strlit("duplicate-import-elimination");
        reveal_strlit("duplicate-function-elimination");
        reveal_strlit("emit-target-features");
        reveal_strlit("extract-function");
        reveal_strlit("extract-function-index");
        reveal_strlit("flatten");
        reveal_strlit("fpcast-emu");
        reveal_strlit("func-metrics");
        reveal_strlit("generate-dyncalls");
        reveal_strlit("generate-i64-dyncalls");
        reveal_strlit("generate-stack-ir");
        reveal_strlit("global-refining");
        reveal_strlit("gto");
        reveal_strlit("gsi");
        reveal_strlit("type-refining");
        reveal_strlit("heap2local");
    }

    /// No two passes have the same name.
    pub proof fn lemma_names_distinct(a: Pass, b: Pass)
        requires
            a != b,
        ensures
            a.spec_name() != b.spec_name(),
    {
        Pass::lemma_name_key(a);
        Pass::lemma_name_key(b);
    }

    /// The place of the pass in the catalog.
    pub open spec fn position(self) -> int {
        match self {
            Pass::AlignmentLowering => 0,
            Pass::Asyncify => 1,
            Pass::AvoidReinterprets => 2,
            Pass::Dae => 3,
            Pass::DaeOptimizing => 4,
            Pass::CoalesceLocals => 5,
            Pass::CoalesceLocalsLearning => 6,
            Pass::CodePushing => 7,
            Pass::CodeFolding => 8,
            Pass::CodeHoisting => 9,
            Pass::Cfp => 10,
            Pass::Dce => 11,
            Pass::Dealign => 12,
            Pass::DeNan => 13,
            Pass::Directize => 14,
            Pass::Dfo => 15,
            Pass::DwarfDump => 16,
            Pass::DuplicateImportElimination => 17,
            Pass::DuplicateFunctionElimination => 18,
            Pass::EmitTargetFeatures => 19,
            Pass::ExtractFunction => 20,
            Pass::ExtractFunctionIndex => 21,
            Pass::Flatten => 22,
            Pass::FpCastEmu => 23,
            Pass::FuncMetrics => 24,
            Pass::GenerateDyncalls => 25,
            Pass::GenerateI64Dyncalls => 26,
            Pass::GenerateStackIr => 27,
            Pass::GlobalRefining => 28,
            Pass::Gto => 29,
            Pass::Gsi => 30,
            Pass::TypeRefining => 31,
            Pass::Heap2Local => 32,
        }
    }

    /// Each pass stands in the catalog at its place, and nowhere else.
    pub proof fn lemma_catalog_positions()
        ensures
            Pass::catalog().len() == 33,
            forall|pass: Pass|
                0 <= #[trigger] pass.position() < Pass::catalog().len()
                    && Pass::catalog()[pass.position()] == pass,
            forall|i: int|
                0 <= i < Pass::catalog().len() ==> (#[trigger] Pass::catalog()[i]).position() == i,
            Pass::catalog().no_duplicates(),
    {
        let c = Pass::catalog();
        assert forall|pass: Pass|
            0 <= #[trigger] pass.position() < c.len() && c[pass.position()] == pass by {
            Pass::lemma_catalog_complete(pass);
        }
        assert forall|i: int| 0 <= i < c.len() implies (#[trigger] c[i]).position() == i by {
            if i == 0 {
            }             else if i == 1 {
            }             else if i == 2 {
            }             else if i == 3 {
            }             else if i == 4 {
            }             else if i == 5 {
            }             else if i == 6 {
            }             else if i == 7 {
            }             else if i == 8 {
            }             else if i == 9 {
            }             else if i == 10 {
            }             else if i == 11 {
            }             else if i == 12 {
            }             else if i == 13 {
            }             else if i == 14 {
            }             else if i == 15 {
            }             else if i == 16 {
            }             else if i == 17 {
            }             else if i == 18 {
            }             else if i == 19 {
            }             else if i == 20 {
            }             else if i == 21 {
            }             else if i == 22 {
            }             else if i == 23 {
            }             else if i == 24 {
            }             else if i == 25 {
            }             else if i == 26 {
            }             else if i == 27 {
            }             else if i == 28 {
            }             else if i == 29 {
            }             else if i == 30 {
            }             else if i == 31 {
            }             else if i == 32 {
            } else {
            }
        }
        assert forall|a: int, b: int| 0 <= a < c.len() && 0 <= b < c.len() && a != b implies c[a]
            != c[b] by {
            assert(c[a].position() == a);
            assert(c[b].position() == b);
        }
    }

    /// Every pass stands in the catalog.
    pub proof fn lemma_catalog_complete(pass: Pass)
        ensures
            Pass::catalog().contains(pass),
            0 <= pass.position() < Pass::catalog().len(),
            Pass::catalog()[pass.position()] == pass,
    {
        let c = Pass::catalog();
        match pass {
            Pass::AlignmentLowering => { assert(c[0] == pass); },
            Pass::Asyncify => { assert(c[1] == pass); },
            Pass::AvoidReinterprets => { assert(c[2] == pass); },
            Pass::Dae => { assert(c[3] == pass); },
            Pass::DaeOptimizing => { assert(c[4] == pass); },
            Pass::CoalesceLocals => { assert(c[5] == pass); },
            Pass::CoalesceLocalsLearning => { assert(c[6] == pass); },
            Pass::CodePushing => { assert(c[7] == pass); },
            Pass::CodeFolding => { assert(c[8] == pass); },
            Pass::CodeHoisting => { assert(c[9] == pass); },
            Pass::Cfp => { assert(c[10] == pass); },
            Pass::Dce => { assert(c[11] == pass); },
            Pass::Dealign => { assert(c[12] == pass); },
            Pass::DeNan => { assert(c[13] == pass); },
            Pass::Directize => { assert(c[14] == pass); },
            Pass::Dfo => { assert(c[15] == pass); },
            Pass::DwarfDump => { assert(c[16] == pass); },
            Pass::DuplicateImportElimination => { assert(c[17] == pass); },
            Pass::DuplicateFunctionElimination => { assert(c[18] == pass); },
            Pass::EmitTargetFeatures => { assert(c[19] == pass); },
            Pass::ExtractFunction => { assert(c[20] == pass); },
            Pass::ExtractFunctionIndex => { assert(c[21] == pass); },
            Pass::Flatten => { assert(c[22] == pass); },
            Pass::FpCastEmu => { assert(c[23] == pass); },
            Pass::FuncMetrics => { assert(c[24] == pass); },
            Pass::GenerateDyncalls => { assert(c[25] == pass); },
            Pass::GenerateI64Dyncalls => { assert(c[26] == pass); },
            Pass::GenerateStackIr => { assert(c[27] == pass); },
            Pass::GlobalRefining => { assert(c[28] == pass); },
            Pass::Gto => { assert(c[29] == pass); },
            Pass::Gsi => { assert(c[30] == pass); },
            Pass::TypeRefining => { assert(c[31] == pass); },
            Pass::Heap2Local => { assert(c[32] == pass); },
        }
    }
}

} // verus!
