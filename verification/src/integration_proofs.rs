//! What holds of the arguments that are known.

use vstd::prelude::*;

use crate::integration::{
    feature_names, pass_lookup, plain_flags, spec_classify, spec_parse, table_lookup,
    CommandErrorView, Flag, ParsedCommandView, ParserView,
};
use crate::passes::Pass;
use crate::profiles::Profile;

verus! {

/// What tells the known arguments apart: no two of them agree in their
/// length, their last character, their fourth and, where they have one,
/// their eleventh.
pub open spec fn token_key(token: Seq<char>) -> (int, char, char, char) {
    (
        token.len() as int,
        if token.len() > 3 {
            token[3]
        } else {
            ' '
        },
        if token.len() > 10 {
            token[10]
        } else {
            ' '
        },
        token[token.len() - 1],
    )
}

/// The key of each flag that is known by its whole name, by its place in
/// the table.
pub open spec fn plain_key(i: int) -> (int, char, char, char) {
    if i == 0 {
        (8, 'u', ' ', 't')
    }     else if i == 1 {
        (2, ' ', ' ', 'o')
    }     else if i == 2 {
        (11, 'm', 't', 't')
    }     else if i == 3 {
        (2, ' ', ' ', 'S')
    }     else if i == 4 {
        (18, 'n', 'u', 'p')
    }     else if i == 5 {
        (19, 'u', 'o', 'p')
    }     else if i == 6 {
        (23, 'u', 'o', 'l')
    }     else if i == 7 {
        (2, ' ', ' ', 'O')
    }     else if i == 8 {
        (3, ' ', ' ', '0')
    }     else if i == 9 {
        (3, ' ', ' ', '1')
    }     else if i == 10 {
        (3, ' ', ' ', '2')
    }     else if i == 11 {
        (3, ' ', ' ', '3')
    }     else if i == 12 {
        (3, ' ', ' ', '4')
    }     else if i == 13 {
        (3, ' ', ' ', 's')
    }     else if i == 14 {
        (3, ' ', ' ', 'z')
    }     else if i == 15 {
        (11, 'e', 'o', 'o')
    }     else if i == 16 {
        (2, ' ', ' ', 'g')
    }     else if i == 17 {
        (33, 'l', 'n', 'e')
    }     else if i == 18 {
        (35, 'l', '-', 'e')
    }     else if i == 19 {
        (37, 'n', 'e', 'e')
    }     else if i == 20 {
        (29, 'n', 'u', 's')
    }     else if i == 21 {
        (22, 'a', 'i', 's')
    }     else if i == 22 {
        (20, 'r', 'v', 'n')
    }     else if i == 23 {
        (19, 'o', 'r', 'd')
    }     else if i == 24 {
        (11, 'a', 'h', 'h')
    }     else if i == 25 {
        (20, 'e', 'l', 'y')
    }     else if i == 26 {
        (14, 'v', 'u', 's')
    }     else if i == 27 {
        (14, 'l', 'u', 's')
    }     else if i == 28 {
        (7, 'u', ' ', 't')
    }     else if i == 29 {
        (15, 'o', 'a', 'n')
    }     else if i == 30 {
        (10, 'a', ' ', 'g')
    }     else if i == 31 {
        (10, 'o', ' ', 'e')
    } else {
        (0, ' ', ' ', ' ')
    }
}

/// The key of the flag that enables each feature, by the place of the
/// feature in the table.
pub open spec fn enable_key(i: int) -> (int, char, char, char) {
    if i == 0 {
        (16, 'n', 'h', 's')
    }     else if i == 1 {
        (24, 'n', 'u', 's')
    }     else if i == 2 {
        (33, 'n', 'o', 't')
    }     else if i == 3 {
        (13, 'n', 'i', 'd')
    }     else if i == 4 {
        (20, 'n', 'u', 'y')
    }     else if i == 5 {
        (17, 'n', 'i', 't')
    }     else if i == 6 {
        (27, 'n', 'x', 'g')
    }     else if i == 7 {
        (18, 'n', 'a', 'l')
    }     else if i == 8 {
        (24, 'n', 'e', 's')
    }     else if i == 9 {
        (19, 'n', 'u', 'e')
    }     else if i == 10 {
        (11, 'n', 'c', 'c')
    }     else if i == 11 {
        (17, 'n', 'e', '4')
    }     else if i == 12 {
        (34, 'n', 'y', 's')
    }     else if i == 13 {
        (21, 'n', 'c', 's')
    }     else if i == 14 {
        (21, 'n', 'e', 'd')
    }     else if i == 15 {
        (23, 'n', 'x', 't')
    }     else if i == 16 {
        (16, 'n', 't', 's')
    }     else if i == 17 {
        (23, 'n', 'u', 's')
    } else {
        (0, ' ', ' ', ' ')
    }
}

/// The key of the flag that disables each feature, by the place of the
/// feature in the table.
pub open spec fn disable_key(i: int) -> (int, char, char, char) {
    if i == 0 {
        (17, 'i', 't', 's')
    }     else if i == 1 {
        (25, 'i', 'm', 's')
    }     else if i == 2 {
        (34, 'i', 'n', 't')
    }     else if i == 3 {
        (14, 'i', 's', 'd')
    }     else if i == 4 {
        (21, 'i', 'b', 'y')
    }     else if i == 5 {
        (18, 'i', 's', 't')
    }     else if i == 6 {
        (28, 'i', 'e', 'g')
    }     else if i == 7 {
        (19, 'i', 't', 'l')
    }     else if i == 8 {
        (25, 'i', 'r', 's')
    }     else if i == 9 {
        (20, 'i', 'm', 'e')
    }     else if i == 10 {
        (12, 'i', 'g', 'c')
    }     else if i == 11 {
        (18, 'i', 'm', '4')
    }     else if i == 12 {
        (35, 'i', 't', 's')
    }     else if i == 13 {
        (22, 'i', 'g', 's')
    }     else if i == 14 {
        (22, 'i', 'r', 'd')
    }     else if i == 15 {
        (24, 'i', 'e', 't')
    }     else if i == 16 {
        (17, 'i', 's', 's')
    }     else if i == 17 {
        (24, 'i', 'm', 's')
    } else {
        (0, ' ', ' ', ' ')
    }
}

/// The key of the flag that adds each pass.
pub open spec fn pass_key(pass: Pass) -> (int, char, char, char) {
    match pass {
        Pass::AlignmentLowering => (20, 'l', 't', 'g'),
        Pass::Asyncify => (10, 's', ' ', 'y'),
        Pass::AvoidReinterprets => (20, 'v', 'i', 's'),
        Pass::Dae => (5, 'a', ' ', 'e'),
        Pass::DaeOptimizing => (16, 'a', 'm', 'g'),
        Pass::CoalesceLocals => (17, 'o', '-', 's'),
        Pass::CoalesceLocalsLearning => (26, 'o', '-', 'g'),
        Pass::CodePushing => (14, 'o', 'h', 'g'),
        Pass::CodeFolding => (14, 'o', 'd', 'g'),
        Pass::CodeHoisting => (16, 'o', 'i', 'g'),
        Pass::Cfp => (5, 'f', ' ', 'p'),
        Pass::Dce => (5, 'c', ' ', 'e'),
        Pass::Dealign => (9, 'e', ' ', 'n'),
        Pass::DeNan => (7, 'e', ' ', 'n'),
        Pass::Directize => (11, 'i', 'e', 'e'),
        Pass::Dfo => (5, 'f', ' ', 'o'),
        Pass::DwarfDump => (11, 'w', 'p', 'p'),
        Pass::DuplicateImportElimination => (30, 'u', 'e', 'n'),
        Pass::DuplicateFunctionElimination => (32, 'u', 'e', 'n'),
        Pass::EmitTargetFeatures => (22, 'm', 'g', 's'),
        Pass::ExtractFunction => (18, 'x', 'f', 'n'),
        Pass::ExtractFunctionIndex => (24, 'x', 'f', 'x'),
        Pass::Flatten => (9, 'l', ' ', 'n'),
        Pass::FpCastEmu => (12, 'p', 'm', 'u'),
        Pass::FuncMetrics => (14, 'u', 'r', 's'),
        Pass::GenerateDyncalls => (19, 'e', '-', 's'),
        Pass::GenerateI64Dyncalls => (23, 'e', '-', 's'),
        Pass::GenerateStackIr => (19, 'e', '-', 'r'),
        Pass::GlobalRefining => (17, 'l', 'e', 'g'),
        Pass::Gto => (5, 't', ' ', 'o'),
        Pass::Gsi => (5, 's', ' ', 'i'),
        Pass::TypeRefining => (15, 'y', 'i', 'g'),
        Pass::Heap2Local => (12, 'e', 'a', 'l'),
    }
}

/// Each flag that is known by its whole name has the key that is listed
/// for it.
pub proof fn lemma_plain_key(i: int)
    requires
        0 <= i < plain_flags().len(),
    ensures
        token_key(plain_flags()[i].0) == plain_key(i),
        plain_flags().len() == 32,
{
    if i == 0 {
        reveal_strlit("--output");
    }     else if i == 1 {
        reveal_strlit("-o");
    }     else if i == 2 {
        reveal_strlit("--emit-text");
    }     else if i == 3 {
        reveal_strlit("-S");
    }     else if i == 4 {
        reveal_strlit("--input-source-map");
    }     else if i == 5 {
        reveal_strlit("--output-source-map");
    }     else if i == 6 {
        reveal_strlit("--output-source-map-url");
    }     else if i == 7 {
        reveal_strlit("-O");
    }     else if i == 8 {
        reveal_strlit("-O0");
    }     else if i == 9 {
        reveal_strlit("-O1");
    }     else if i == 10 {
        reveal_strlit("-O2");
    }     else if i == 11 {
        reveal_strlit("-O3");
    }     else if i == 12 {
        reveal_strlit("-O4");
    }     else if i == 13 {
        reveal_strlit("-Os");
    }     else if i == 14 {
        reveal_strlit("-Oz");
    }     else if i == 15 {
        reveal_strlit("--debuginfo");
    }     else if i == 16 {
        reveal_strlit("-g");
    }     else if i == 17 {
        reveal_strlit("--always-inline-max-function-size");
    }     else if i == 18 {
        reveal_strlit("--flexible-inline-max-function-size");
    }     else if i == 19 {
        reveal_strlit("--one-caller-inline-max-function-size");
    }     else if i == 20 {
        reveal_strlit("--inline-functions-with-loops");
    }     else if i == 21 {
        reveal_strlit("--partial-inlining-ifs");
    }     else if i == 22 {
        reveal_strlit("--traps-never-happen");
    }     else if i == 23 {
        reveal_strlit("--low-memory-unused");
    }     else if i == 24 {
        reveal_strlit("--fast-math");
    }     else if i == 25 {
        reveal_strlit("--zero-filled-memory");
    }     else if i == 26 {
        reveal_strlit("--mvp-features");
    }     else if i == 27 {
        reveal_strlit("--all-features");
    }     else if i == 28 {
        reveal_strlit("--quiet");
    }     else if i == 29 {
        reveal_strlit("--no-validation");
    }     else if i == 30 {
        reveal_strlit("--pass-arg");
    }     else if i == 31 {
        reveal_strlit("--converge");
    } else {
    }
}

/// The flag that enables a feature has the key that is listed for it, and
/// so has the flag that disables it.
pub proof fn lemma_feature_key(i: int)
    requires
        0 <= i < feature_names().len(),
    ensures
        token_key("--enable-"@ + feature_names()[i].0) == enable_key(i),
        token_key("--disable-"@ + feature_names()[i].0) == disable_key(i),
        feature_names().len() == 18,
{
    reveal_strlit("--enable-");
    reveal_strlit("--disable-");
    if i == 0 {
        reveal_strlit("threads");
    }     else if i == 1 {
        reveal_strlit("mutable-globals");
    }     else if i == 2 {
        reveal_strlit("nontrapping-float-to-int");
    }     else if i == 3 {
        reveal_strlit("simd");
    }     else if i == 4 {
        reveal_strlit("bulk-memory");
    }     else if i == 5 {
        reveal_strlit("sign-ext");
    }     else if i == 6 {
        reveal_strlit("exception-handling");
    }     else if i == 7 {
        reveal_strlit("tail-call");
    }     else if i == 8 {
        reveal_strlit("reference-types");
    }     else if i == 9 {
        reveal_strlit("multivalue");
    }     else if i == 10 {
        reveal_strlit("gc");
    }     else if i == 11 {
        reveal_strlit("memory64");
    }     else if i == 12 {
        reveal_strlit("typed-function-references");
    }     else if i == 13 {
        reveal_strlit("gc-nn-locals");
    }     else if i == 14 {
        reveal_strlit("relaxed-simd");
    }     else if i == 15 {
        reveal_strlit("extended-const");
    }     else if i == 16 {
        reveal_strlit("strings");
    }     else if i == 17 {
        reveal_strlit("multi-memories");
    } else {
    }
}

/// The flag that adds a pass has the key that is listed for it.
pub proof fn lemma_pass_key(pass: Pass)
    ensures
        token_key("--"@ + pass.spec_name()) == pass_key(pass),
{
    reveal_strlit("--");
    match pass {
        Pass::AlignmentLowering => {
            reveal_strlit("alignment-lowering");
        },
        Pass::Asyncify => {
            reveal_strlit("asyncify");
        },
        Pass::AvoidReinterprets => {
            reveal_strlit("avoid-reinterprets");
        },
        Pass::Dae => {
            reveal_strlit("dae");
        },
        Pass::DaeOptimizing => {
            reveal_strlit("dae-optimizing");
        },
        Pass::CoalesceLocals => {
            reveal_strlit("coalesce-locals");
        },
        Pass::CoalesceLocalsLearning => {
            reveal_strlit("coalesce-locals-learning");
        },
        Pass::CodePushing => {
            reveal_strlit("code-pushing");
        },
        Pass::CodeFolding => {
            reveal_strlit("code-folding");
        },
        Pass::CodeHoisting => {
            reveal_strlit("const-hoisting");
        },
        Pass::Cfp => {
            reveal_strlit("cfp");
        },
        Pass::Dce => {
            reveal_strlit("dce");
        },
        Pass::Dealign => {
            reveal_strlit("dealign");
        },
        Pass::DeNan => {
            reveal_strlit("denan");
        },
        Pass::Directize => {
            reveal_strlit("directize");
        },
        Pass::Dfo => {
            reveal_strlit("dfo");
        },
        Pass::DwarfDump => {
            reveal_strlit("dwarfdump");
        },
        Pass::DuplicateImportElimination => {
            reveal_strlit("duplicate-import-elimination");
        },
        Pass::DuplicateFunctionElimination => {
            reveal_strlit("duplicate-function-elimination");
        },
        Pass::EmitTargetFeatures => {
            reveal_strlit("emit-target-features");
        },
        Pass::ExtractFunction => {
            reveal_strlit("extract-function");
        },
        Pass::ExtractFunctionIndex => {
            reveal_strlit("extract-function-index");
        },
        Pass::Flatten => {
            reveal_strlit("flatten");
        },
        Pass::FpCastEmu => {
            reveal_strlit("fpcast-emu");
        },
        Pass::FuncMetrics => {
            reveal_strlit("func-metrics");
        },
        Pass::GenerateDyncalls => {
            reveal_strlit("generate-dyncalls");
        },
        Pass::GenerateI64Dyncalls => {
            reveal_strlit("generate-i64-dyncalls");
        },
        Pass::GenerateStackIr => {
            reveal_strlit("generate-stack-ir");
        },
        Pass::GlobalRefining => {
            reveal_strlit("global-refining");
        },
        Pass::Gto => {
            reveal_strlit("gto");
        },
        Pass::Gsi => {
            reveal_strlit("gsi");
        },
        Pass::TypeRefining => {
            reveal_strlit("type-refining");
        },
        Pass::Heap2Local => {
            reveal_strlit("heap2local");
        },
    }
}

/// A table has no entry for an argument that differs from each of its
/// names.
pub proof fn lemma_lookup_none<T>(table: Seq<(Seq<char>, T)>, prefix: Seq<char>, token: Seq<char>)
    requires
        forall|j: int| 0 <= j < table.len() ==> prefix + (#[trigger] table[j]).0 != token,
    ensures
        table_lookup(table, prefix, token) is None,
    decreases table.len(),
{
    if table.len() > 0 {
        assert(prefix + table[0].0 != token);
        assert forall|j: int| 0 <= j < table.skip(1).len() implies prefix + (
        #[trigger] table.skip(1)[j]).0 != token by {
            assert(table.skip(1)[j] == table[j + 1]);
        }
        lemma_lookup_none(table.skip(1), prefix, token);
    }
}

/// A table has for an argument what its first entry of that name says.
pub proof fn lemma_lookup_at<T>(
    table: Seq<(Seq<char>, T)>,
    prefix: Seq<char>,
    token: Seq<char>,
    i: int,
)
    requires
        0 <= i < table.len(),
        prefix + table[i].0 == token,
        forall|j: int| 0 <= j < i ==> prefix + (#[trigger] table[j]).0 != token,
    ensures
        table_lookup(table, prefix, token) == Some(table[i].1),
    decreases i,
{
    if i > 0 {
        assert(prefix + table[0].0 != token);
        assert forall|j: int| 0 <= j < i - 1 implies prefix + (#[trigger] table.skip(1)[j]).0
            != token by {
            assert(table.skip(1)[j] == table[j + 1]);
        }
        assert(table.skip(1)[i - 1] == table[i]);
        lemma_lookup_at(table.skip(1), prefix, token, i - 1);
    }
}

/// The catalog has for the flag of a pass that pass.
pub proof fn lemma_pass_lookup(passes: Seq<Pass>, i: int)
    requires
        0 <= i < passes.len(),
        passes.no_duplicates(),
    ensures
        pass_lookup(passes, "--"@ + passes[i].spec_name()) == Some(passes[i]),
    decreases i,
{
    let token = "--"@ + passes[i].spec_name();
    if i > 0 {
        lemma_pass_key(passes[0]);
        lemma_pass_key(passes[i]);
        assert("--"@ + passes[0].spec_name() != token);
        assert(passes.skip(1)[i - 1] == passes[i]);
        assert(passes.skip(1).no_duplicates()) by {
            assert forall|a: int, b: int|
                0 <= a < passes.skip(1).len() && 0 <= b < passes.skip(1).len() && a
                    != b implies passes.skip(1)[a] != passes.skip(1)[b] by {
                assert(passes[a + 1] != passes[b + 1]);
            }
        }
        lemma_pass_lookup(passes.skip(1), i - 1);
    }
}

/// Each flag that is known by its whole name says what the table has for
/// it.
pub proof fn lemma_known_flag(i: int)
    requires
        0 <= i < plain_flags().len(),
    ensures
        spec_classify(plain_flags()[i].0) == plain_flags()[i].1,
{
    let table = plain_flags();
    let token = table[i].0;
    lemma_plain_key(i);
    assert forall|j: int| 0 <= j < i implies Seq::<char>::empty() + (#[trigger] table[j]).0
        != token by {
        lemma_plain_key(j);
        assert(Seq::<char>::empty() + table[j].0 =~= table[j].0);
    }
    assert(Seq::<char>::empty() + token =~= token);
    lemma_lookup_at(table, Seq::empty(), token, i);
}

/// `--enable-` and the name of a feature force the feature on, and
/// `--disable-` and its name force it off.
pub proof fn lemma_feature_flag(i: int)
    requires
        0 <= i < feature_names().len(),
    ensures
        spec_classify("--enable-"@ + feature_names()[i].0) == Flag::Enable(feature_names()[i].1),
        spec_classify("--disable-"@ + feature_names()[i].0) == Flag::Disable(
            feature_names()[i].1,
        ),
{
    let names = feature_names();
    let on = "--enable-"@ + names[i].0;
    let off = "--disable-"@ + names[i].0;
    lemma_feature_key(i);
    assert forall|j: int| 0 <= j < plain_flags().len() implies Seq::<char>::empty() + (
    #[trigger] plain_flags()[j]).0 != on && Seq::<char>::empty() + plain_flags()[j].0 != off by {
        lemma_plain_key(j);
        assert(Seq::<char>::empty() + plain_flags()[j].0 =~= plain_flags()[j].0);
    }
    lemma_lookup_none(plain_flags(), Seq::empty(), on);
    lemma_lookup_none(plain_flags(), Seq::empty(), off);
    assert forall|j: int| 0 <= j < names.len() implies "--enable-"@ + (#[trigger] names[j]).0
        != off && (j != i ==> "--enable-"@ + names[j].0 != on && "--disable-"@ + names[j].0
        != off) by {
        lemma_feature_key(j);
    }
    lemma_lookup_at(names, "--enable-"@, on, i);
    lemma_lookup_none(names, "--enable-"@, off);
    lemma_lookup_at(names, "--disable-"@, off, i);
}

/// Two hyphens and the name of a pass add the pass.
pub proof fn lemma_pass_flag(pass: Pass)
    ensures
        spec_classify("--"@ + pass.spec_name()) == Flag::AddPass(pass),
{
    let token = "--"@ + pass.spec_name();
    lemma_pass_key(pass);
    assert forall|j: int| 0 <= j < plain_flags().len() implies Seq::<char>::empty() + (
    #[trigger] plain_flags()[j]).0 != token by {
        lemma_plain_key(j);
        assert(Seq::<char>::empty() + plain_flags()[j].0 =~= plain_flags()[j].0);
    }
    lemma_lookup_none(plain_flags(), Seq::empty(), token);
    assert forall|j: int| 0 <= j < feature_names().len() implies "--enable-"@ + (
    #[trigger] feature_names()[j]).0 != token && "--disable-"@ + feature_names()[j].0
        != token by {
        lemma_feature_key(j);
    }
    lemma_lookup_none(feature_names(), "--enable-"@, token);
    lemma_lookup_none(feature_names(), "--disable-"@, token);
    Pass::lemma_catalog_positions();
    lemma_pass_lookup(Pass::catalog(), pass.position());
}

/// A flag for an optimization level puts the profile of that level into the
/// configuration and leaves the rest of it as it is.
pub proof fn lemma_optimize_flag_is_profile(parser: ParserView, profile: Profile, token: Seq<char>)
    ensures
        parser.take_flag(
            Flag::Optimize(
                profile.spec_optimize_level(),
                profile.spec_shrink_level(),
                profile.spec_add_default_passes(),
            ),
            token,
        ) == parser.with_opts(profile.spec_apply_to_opts(parser.opts)),
{
    profile.lemma_apply_is_builder_calls(parser.opts);
}

/// A command that is accepted is refused once an argument follows that
/// looks like a flag and is not known, and then for that argument alone.
pub proof fn lemma_unknown_flag_is_refused(tokens: Seq<Seq<char>>, unknown: Seq<char>)
    requires
        spec_parse(tokens) is Ok,
        spec_classify(unknown) == Flag::Unknown,
    ensures
        spec_parse(tokens.push(unknown)) == Err::<ParsedCommandView, CommandErrorView>(
            CommandErrorView::Unsupported { args: seq![unknown] },
        ),
{
    assert(tokens.push(unknown).drop_last() =~= tokens);
    let parser = ParserView::initial().feed_all(tokens)->Ok_0;
    assert(parser.unsupported =~= Seq::empty());
    assert(parser.unsupported.push(unknown) =~= seq![unknown]);
}

} // verus!
