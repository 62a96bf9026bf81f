//! What holds of every run.

use vstd::prelude::*;

use crate::api::{FileType, OptimizationOptionsView, PassOptionsView};
use crate::error::OptimizationErrorView;
use crate::passes::Pass;
use crate::registry::{catalog_parity, is_registered, lemma_parity, PassInfoView};
use crate::run::{
    reader_format, sniffed_format, spec_action, spec_run, spec_start, spec_step,
    spec_will_remove_debug_info, unsupported_names, writer_format, ActionView, EventView, Format,
    RunFilesView, StageView,
};

verus! {

/// The place of a stage in the order of a run. The two ends of a run stand
/// last.
pub open spec fn stage_rank(stage: StageView) -> int {
    match stage {
        StageView::Start => 0,
        StageView::Read { format, dwarf } => if format is None {
            1
        } else {
            2
        },
        StageView::FeatureApply { input } => 3,
        StageView::ValidateInput { input } => 4,
        StageView::Transform { input } => 5,
        StageView::ValidateOutput { input } => 6,
        StageView::Write { input } => 7,
        StageView::Done => 8,
        StageView::Failed(_) => 8,
    }
}

/// Whether a stage is an end of a run.
pub open spec fn is_final(stage: StageView) -> bool {
    stage is Done || stage is Failed
}

/// Whether an action has the engine write a file.
pub open spec fn is_write(action: ActionView) -> bool {
    action is WriteBinary || action is WriteText
}

/// A run that has ended stays as it ended, whatever is reported to it, and
/// asks for nothing but to finish with its result.
pub proof fn lemma_end_stays(
    options: OptimizationOptionsView,
    files: RunFilesView,
    stage: StageView,
    event: EventView,
)
    requires
        is_final(stage),
    ensures
        spec_step(options, files, stage, event) == stage,
        spec_action(options, files, stage) is Finish,
        stage is Done ==> spec_action(options, files, stage) == ActionView::Finish(Ok(())),
        stage matches StageView::Failed(error) ==> spec_action(options, files, stage)
            == ActionView::Finish(Err(error)),
{
}

/// A run never goes back: each step leaves the stage where it is or moves
/// it forward.
pub proof fn lemma_step_goes_forward(
    options: OptimizationOptionsView,
    files: RunFilesView,
    stage: StageView,
    event: EventView,
)
    ensures
        spec_step(options, files, stage, event) == stage || stage_rank(stage) < stage_rank(
            spec_step(options, files, stage, event),
        ),
{
}

/// The stage after one more event is the step from the stage before it.
pub proof fn lemma_run_push(
    options: OptimizationOptionsView,
    files: RunFilesView,
    events: Seq<EventView>,
    event: EventView,
)
    ensures
        spec_run(options, files, events.push(event)) == spec_step(
            options,
            files,
            spec_run(options, files, events),
            event,
        ),
{
    assert(events.push(event).drop_last() =~= events);
}

/// Once a run has ended, no further event changes how it ended.
pub proof fn lemma_end_is_kept(
    options: OptimizationOptionsView,
    files: RunFilesView,
    events: Seq<EventView>,
    n: int,
)
    requires
        0 <= n <= events.len(),
        is_final(spec_run(options, files, events.take(n))),
    ensures
        spec_run(options, files, events) == spec_run(options, files, events.take(n)),
    decreases events.len() - n,
{
    if n < events.len() {
        lemma_run_push(options, files, events.take(n), events[n]);
        assert(events.take(n).push(events[n]) =~= events.take(n + 1));
        lemma_end_stays(options, files, spec_run(options, files, events.take(n)), events[n]);
        lemma_end_is_kept(options, files, events, n + 1);
    } else {
        assert(events.take(n) =~= events);
    }
}

/// The engine is asked to write exactly in the stage `Write`: no other
/// stage gives an action that names the output file.
pub proof fn lemma_write_only_in_write_stage(
    options: OptimizationOptionsView,
    files: RunFilesView,
    stage: StageView,
)
    ensures
        is_write(spec_action(options, files, stage)) <==> stage is Write,
{
}

/// The stage `Write` is entered only from a validation of the output that
/// found the module valid or, where validation is off, from the passes.
pub proof fn lemma_write_is_entered_after_validation(
    options: OptimizationOptionsView,
    files: RunFilesView,
    stage: StageView,
    event: EventView,
)
    requires
        spec_step(options, files, stage, event) is Write,
        !(stage is Write),
    ensures
        (stage is ValidateOutput && event == EventView::Validated(true)) || (stage is Transform
            && event is Transformed && !options.passopts.validate),
{
}

/// Whether a run, on its way through these events, found the module valid
/// as it was read.
pub open spec fn saw_valid_input(
    options: OptimizationOptionsView,
    files: RunFilesView,
    events: Seq<EventView>,
) -> bool {
    exists|i: int|
        0 <= i < events.len() && #[trigger] spec_run(options, files, events.take(i))
            is ValidateInput && events[i] == EventView::Validated(true)
}

/// Whether a run, on its way through these events, found the module valid
/// as the passes left it.
pub open spec fn saw_valid_output(
    options: OptimizationOptionsView,
    files: RunFilesView,
    events: Seq<EventView>,
) -> bool {
    exists|i: int|
        0 <= i < events.len() && #[trigger] spec_run(options, files, events.take(i))
            is ValidateOutput && events[i] == EventView::Validated(true)
}

/// Where validation is on, a run is past the validation of the input only if
/// it found the module valid as it was read, and it writes or has written
/// only if it also found the module valid as the passes left it.
pub proof fn lemma_validated_before_write(
    options: OptimizationOptionsView,
    files: RunFilesView,
    events: Seq<EventView>,
)
    requires
        options.passopts.validate,
    ensures
        ({
            let stage = spec_run(options, files, events);
            &&& (stage is Transform || stage is ValidateOutput || stage is Write || stage is Done)
                ==> saw_valid_input(options, files, events)
            &&& (stage is Write || stage is Done) ==> saw_valid_output(options, files, events)
        }),
    decreases events.len(),
{
    if events.len() > 0 {
        let init = events.drop_last();
        let last = events.last();
        let before = spec_run(options, files, init);
        let stage = spec_run(options, files, events);
        lemma_validated_before_write(options, files, init);
        assert(events.take(events.len() - 1) =~= init);
        assert forall|i: int| 0 <= i < init.len() implies init.take(i) =~= events.take(i) by {}
        if saw_valid_input(options, files, init) {
            let i = choose|i: int|
                0 <= i < init.len() && #[trigger] spec_run(options, files, init.take(i))
                    is ValidateInput && init[i] == EventView::Validated(true);
            assert(init.take(i) =~= events.take(i));
            assert(spec_run(options, files, events.take(i)) is ValidateInput);
        }
        if saw_valid_output(options, files, init) {
            let i = choose|i: int|
                0 <= i < init.len() && #[trigger] spec_run(options, files, init.take(i))
                    is ValidateOutput && init[i] == EventView::Validated(true);
            assert(init.take(i) =~= events.take(i));
            assert(spec_run(options, files, events.take(i)) is ValidateOutput);
        }
        if stage is Transform && !(before is Transform) {
            assert(spec_run(options, files, events.take(events.len() - 1)) is ValidateInput);
        }
        if stage is Write && !(before is Write) {
            assert(spec_run(options, files, events.take(events.len() - 1)) is ValidateOutput);
        }
    }
}

/// A module that is read and then found invalid ends the run with the error
/// of an invalid input, not with that of a failed read, and the run never
/// asks for the output to be written, whatever is reported to it later.
pub proof fn lemma_invalid_input_ends_run(
    options: OptimizationOptionsView,
    files: RunFilesView,
    events: Seq<EventView>,
    later: Seq<EventView>,
)
    requires
        spec_run(options, files, events) is ValidateInput,
    ensures
        spec_run(options, files, events.push(EventView::Validated(false)) + later)
            == StageView::Failed(OptimizationErrorView::ValidateWasmInput),
        spec_action(
            options,
            files,
            spec_run(options, files, events.push(EventView::Validated(false)) + later),
        ) == ActionView::Finish(Err(OptimizationErrorView::ValidateWasmInput)),
        forall|n: int|
            0 <= n <= (events.push(EventView::Validated(false)) + later).len() ==> !is_write(
                #[trigger] spec_action(
                    options,
                    files,
                    spec_run(
                        options,
                        files,
                        (events.push(EventView::Validated(false)) + later).take(n),
                    ),
                ),
            ),
{
    let failed = events.push(EventView::Validated(false));
    let all = failed + later;
    lemma_run_push(options, files, events, EventView::Validated(false));
    assert(all.take(failed.len() as int) =~= failed);
    lemma_end_is_kept(options, files, all, failed.len() as int);
    assert forall|n: int| 0 <= n <= all.len() implies !is_write(
        #[trigger] spec_action(options, files, spec_run(options, files, all.take(n))),
    ) by {
        if n >= failed.len() {
            assert(all.take(n).take(failed.len() as int) =~= failed);
            lemma_end_is_kept(options, files, all.take(n), failed.len() as int);
        } else {
            assert(all.take(n) =~= events.take(n));
            lemma_not_yet_written(options, files, events, n);
        }
    }
}

/// A run was never further on than it is: the stage after the first events
/// of a run stands no later than the stage after all of them.
pub proof fn lemma_rank_grows(
    options: OptimizationOptionsView,
    files: RunFilesView,
    events: Seq<EventView>,
    n: int,
)
    requires
        0 <= n <= events.len(),
    ensures
        stage_rank(spec_run(options, files, events.take(n))) <= stage_rank(
            spec_run(options, files, events),
        ),
    decreases events.len() - n,
{
    if n < events.len() {
        lemma_rank_grows(options, files, events, n + 1);
        lemma_run_push(options, files, events.take(n), events[n]);
        assert(events.take(n).push(events[n]) =~= events.take(n + 1));
        lemma_step_goes_forward(
            options,
            files,
            spec_run(options, files, events.take(n)),
            events[n],
        );
    } else {
        assert(events.take(n) =~= events);
    }
}

/// Before a run has come to the stage `Write` it has not asked for the
/// output to be written.
pub proof fn lemma_not_yet_written(
    options: OptimizationOptionsView,
    files: RunFilesView,
    events: Seq<EventView>,
    n: int,
)
    requires
        0 <= n <= events.len(),
        stage_rank(spec_run(options, files, events)) < 7,
    ensures
        !is_write(spec_action(options, files, spec_run(options, files, events.take(n)))),
{
    lemma_rank_grows(options, files, events, n);
}

/// A run that has failed for any reason but a failed write has never asked
/// for the output to be written: a failure to read or to validate, and a
/// refusal at the start, leave the output file untouched.
pub proof fn lemma_failure_before_write_wrote_nothing(
    options: OptimizationOptionsView,
    files: RunFilesView,
    events: Seq<EventView>,
    n: int,
)
    requires
        0 <= n <= events.len(),
        spec_run(options, files, events) matches StageView::Failed(error) && !(error is Write),
    ensures
        !is_write(spec_action(options, files, spec_run(options, files, events.take(n)))),
    decreases events.len(),
{
    if n == events.len() {
        assert(events.take(n) =~= events);
    } else {
        let init = events.drop_last();
        let before = spec_run(options, files, init);
        assert(init.take(n) =~= events.take(n));
        if before is Failed {
            lemma_end_stays(options, files, before, events.last());
            lemma_failure_before_write_wrote_nothing(options, files, init, n);
        } else {
            assert(stage_rank(before) < 7);
            lemma_not_yet_written(options, files, init, n);
        }
    }
}

/// A module that the passes left invalid ends the run with the error of an
/// invalid output, and the run never asks for the output to be written.
pub proof fn lemma_invalid_output_ends_run(
    options: OptimizationOptionsView,
    files: RunFilesView,
    events: Seq<EventView>,
    later: Seq<EventView>,
)
    requires
        spec_run(options, files, events) is ValidateOutput,
    ensures
        spec_run(options, files, events.push(EventView::Validated(false)) + later)
            == StageView::Failed(OptimizationErrorView::ValidateWasmOutput),
{
    let failed = events.push(EventView::Validated(false));
    let all = failed + later;
    lemma_run_push(options, files, events, EventView::Validated(false));
    assert(all.take(failed.len() as int) =~= failed);
    lemma_end_is_kept(options, files, all, failed.len() as int);
}

/// A text output takes no source map: the action that writes it names the
/// output file and nothing else, whether or not the run was given a file for
/// the source map of the output, and the run succeeds once it is written.
pub proof fn lemma_text_output_ignores_source_map(
    options: OptimizationOptionsView,
    files: RunFilesView,
    input: Format,
)
    requires
        writer_format(options.writer.file_type, input) == Format::Text,
    ensures
        spec_action(options, files, StageView::Write { input }) == (ActionView::WriteText {
            path: files.outfile,
            debug_info: options.passopts.debug_info,
        }),
        spec_step(options, files, StageView::Write { input }, EventView::Written(Ok(())))
            == StageView::Done,
{
}

/// A binary output takes the source map file that the run was given, if it
/// was given one, and names the address of the source map whenever the
/// configuration has one, with or without such a file.
pub proof fn lemma_binary_output_source_map(
    options: OptimizationOptionsView,
    files: RunFilesView,
    input: Format,
)
    requires
        writer_format(options.writer.file_type, input) == Format::Binary,
    ensures
        spec_action(options, files, StageView::Write { input }) == (ActionView::WriteBinary {
            path: files.outfile,
            debug_info: options.passopts.debug_info,
            source_map: files.outfile_sourcemap,
            source_map_url: options.writer.source_map_url,
        }),
{
}

/// Where the writer is told no encoding, the module is written in the
/// encoding in which it was read, which is the one that the reader was
/// told or else the one that the first bytes of the file showed.
pub proof fn lemma_output_mirrors_input(
    options: OptimizationOptionsView,
    files: RunFilesView,
    registry: Seq<PassInfoView>,
    header: Seq<u8>,
)
    requires
        options.writer.file_type == FileType::Any,
        spec_start(options, files, registry) is Read,
    ensures
        ({
            let read = spec_start(options, files, registry);
            let known = match reader_format(options.reader.file_type) {
                Some(_) => read,
                None => spec_step(options, files, read, EventView::Header(header)),
            };
            let input = match reader_format(options.reader.file_type) {
                Some(format) => format,
                None => sniffed_format(header),
            };
            &&& known matches StageView::Read { format, dwarf }
            &&& format == Some(input)
            &&& spec_action(options, files, known) is ReadBinary <==> input == Format::Binary
            &&& spec_action(options, files, known) is ReadText <==> input == Format::Text
            &&& spec_action(options, files, StageView::Write { input }) is WriteBinary <==> input
                == Format::Binary
            &&& spec_action(options, files, StageView::Write { input }) is WriteText <==> input
                == Format::Text
        }),
{
}

/// The names that a run refuses are exactly the names of its passes that
/// the registry does not have.
pub proof fn lemma_unsupported_names(
    passes: Seq<Pass>,
    registry: Seq<PassInfoView>,
    name: Seq<char>,
)
    ensures
        unsupported_names(passes, registry).contains(name) <==> exists|i: int|
            0 <= i < passes.len() && (#[trigger] passes[i]).spec_name() == name && !is_registered(
                registry,
                name,
            ),
        unsupported_names(passes, registry).len() <= passes.len(),
    decreases passes.len(),
{
    if passes.len() > 0 {
        let init = passes.drop_last();
        let last = passes.last();
        let rest = unsupported_names(init, registry);
        let all = unsupported_names(passes, registry);
        lemma_unsupported_names(init, registry, name);
        if rest.contains(name) {
            let i = choose|i: int|
                0 <= i < init.len() && (#[trigger] init[i]).spec_name() == name && !is_registered(
                    registry,
                    name,
                );
            assert(passes[i].spec_name() == name);
            let k = choose|k: int| 0 <= k < rest.len() && rest[k] == name;
            assert(all[k] == name);
        }
        if last.spec_name() == name && !is_registered(registry, name) {
            assert(all == rest.push(name));
            assert(all[rest.len() as int] == name);
            assert(passes[passes.len() - 1].spec_name() == name);
        }
        if all.contains(name) && !rest.contains(name) {
            let k = choose|k: int| 0 <= k < all.len() && all[k] == name;
            if k < rest.len() {
                assert(rest[k] == name);
            }
            assert(passes[passes.len() - 1].spec_name() == name);
        }
        if exists|i: int|
            0 <= i < passes.len() && (#[trigger] passes[i]).spec_name() == name && !is_registered(
                registry,
                name,
            ) {
            let i = choose|i: int|
                0 <= i < passes.len() && (#[trigger] passes[i]).spec_name() == name
                    && !is_registered(registry, name);
            if i < init.len() {
                assert(init[i].spec_name() == name);
            }
        }
    }
}

/// A run is refused for its passes exactly if the registry lacks one of
/// them, and then before anything is read; the error lists each such name.
/// A run whose input path stands for standard input is refused first.
pub proof fn lemma_start(
    options: OptimizationOptionsView,
    files: RunFilesView,
    registry: Seq<PassInfoView>,
)
    ensures
        ({
            let stage = spec_start(options, files, registry);
            let stdin = files.infile.len() == 0 || files.infile == seq!['-'];
            let all_known = forall|i: int|
                0 <= i < options.passes.more_passes.len() ==> is_registered(
                    registry,
                    (#[trigger] options.passes.more_passes[i]).spec_name(),
                );
            &&& stage is Read || stage is Failed
            &&& stage == StageView::Failed(OptimizationErrorView::InvalideStdinPath) <==> stdin
            &&& stage is Read <==> !stdin && all_known
            &&& stage matches StageView::Failed(OptimizationErrorView::Unsupported { args })
                ==> !stdin && !all_known && args == unsupported_names(
                options.passes.more_passes,
                registry,
            )
            &&& stage matches StageView::Read { format, dwarf } ==> format == reader_format(
                options.reader.file_type,
            ) && dwarf == (options.passopts.debug_info && !spec_will_remove_debug_info(
                options.passes.more_passes,
                registry,
            ))
        }),
{
    let passes = options.passes.more_passes;
    let names = unsupported_names(passes, registry);
    if names.len() > 0 {
        lemma_unsupported_names(passes, registry, names[0]);
        assert(names.contains(names[0]));
    } else {
        assert forall|i: int| 0 <= i < passes.len() implies is_registered(
            registry,
            (#[trigger] passes[i]).spec_name(),
        ) by {
            let name = passes[i].spec_name();
            lemma_unsupported_names(passes, registry, name);
            if !is_registered(registry, name) {
                assert(names.contains(name));
            }
        }
    }
}

/// The events of a run in which nothing fails: the registry, the first
/// bytes of the file where the reader is told no encoding, and then each
/// action done, with both validations where validation is on.
pub open spec fn smooth_events(
    options: OptimizationOptionsView,
    registry: Seq<PassInfoView>,
    header: Seq<u8>,
) -> Seq<EventView> {
    let begin = if options.reader.file_type == FileType::Any {
        seq![EventView::Registry(registry), EventView::Header(header)]
    } else {
        seq![EventView::Registry(registry)]
    };
    let middle = if options.passopts.validate {
        seq![
            EventView::Read(Ok(())),
            EventView::FeaturesApplied,
            EventView::Validated(true),
            EventView::Transformed,
            EventView::Validated(true),
        ]
    } else {
        seq![EventView::Read(Ok(())), EventView::FeaturesApplied, EventView::Transformed]
    };
    begin + middle + seq![EventView::Written(Ok(()))]
}

/// A run in which nothing fails succeeds: where the run is not refused at
/// its start, the events of a run in which nothing fails lead to `Done`,
/// and only the last of them is the answer to a write.
pub proof fn lemma_smooth_run_succeeds(
    options: OptimizationOptionsView,
    files: RunFilesView,
    registry: Seq<PassInfoView>,
    header: Seq<u8>,
)
    requires
        spec_start(options, files, registry) is Read,
    ensures
        spec_run(options, files, smooth_events(options, registry, header)) == StageView::Done,
        spec_run(options, files, smooth_events(options, registry, header).drop_last()) is Write,
{
    let events = smooth_events(options, registry, header);
    let n = events.len() as int;
    assert(events.take(n) =~= events);
    assert(events.take(n - 1) =~= events.drop_last());
    assert(spec_run(options, files, events.take(0)) == StageView::Start);
    lemma_take_step(options, files, events, 0);
    lemma_take_step(options, files, events, 1);
    lemma_take_step(options, files, events, 2);
    lemma_take_step(options, files, events, 3);
    if n > 4 {
        lemma_take_step(options, files, events, 4);
    }
    if n > 5 {
        lemma_take_step(options, files, events, 5);
    }
    if n > 6 {
        lemma_take_step(options, files, events, 6);
    }
    if n > 7 {
        lemma_take_step(options, files, events, 7);
    }
}

/// The stage after the first `n + 1` events is the step from the stage
/// after the first `n`.
pub proof fn lemma_take_step(
    options: OptimizationOptionsView,
    files: RunFilesView,
    events: Seq<EventView>,
    n: int,
)
    requires
        0 <= n < events.len(),
    ensures
        spec_run(options, files, events.take(n + 1)) == spec_step(
            options,
            files,
            spec_run(options, files, events.take(n)),
            events[n],
        ),
{
    assert(events.take(n + 1).drop_last() =~= events.take(n));
    assert(events.take(n + 1).last() == events[n]);
}

/// Where the registry has every pass of a list, no name is refused.
pub proof fn lemma_all_registered(passes: Seq<Pass>, registry: Seq<PassInfoView>)
    requires
        forall|i: int|
            0 <= i < passes.len() ==> is_registered(registry, (#[trigger] passes[i]).spec_name()),
    ensures
        unsupported_names(passes, registry) == Seq::<Seq<char>>::empty(),
    decreases passes.len(),
{
    if passes.len() > 0 {
        assert(is_registered(registry, passes[passes.len() - 1].spec_name()));
        assert forall|i: int| 0 <= i < passes.drop_last().len() implies is_registered(
            registry,
            (#[trigger] passes.drop_last()[i]).spec_name(),
        ) by {
            assert(passes.drop_last()[i] == passes[i]);
        }
        lemma_all_registered(passes.drop_last(), registry);
    }
}

/// Where the registry lacks one pass of a list and has the others, the name
/// of that pass is refused, and it alone.
pub proof fn lemma_one_unregistered(passes: Seq<Pass>, registry: Seq<PassInfoView>, k: int)
    requires
        0 <= k < passes.len(),
        !is_registered(registry, passes[k].spec_name()),
        forall|i: int|
            0 <= i < passes.len() && i != k ==> is_registered(
                registry,
                (#[trigger] passes[i]).spec_name(),
            ),
    ensures
        unsupported_names(passes, registry) == seq![passes[k].spec_name()],
    decreases passes.len(),
{
    let init = passes.drop_last();
    if k == passes.len() - 1 {
        assert forall|i: int| 0 <= i < init.len() implies is_registered(
            registry,
            (#[trigger] init[i]).spec_name(),
        ) by {
            assert(init[i] == passes[i]);
        }
        lemma_all_registered(init, registry);
        assert(Seq::<Seq<char>>::empty().push(passes[k].spec_name()) =~= seq![
            passes[k].spec_name(),
        ]);
    } else {
        assert(is_registered(registry, passes[passes.len() - 1].spec_name()));
        assert(init[k] == passes[k]);
        assert forall|i: int| 0 <= i < init.len() && i != k implies is_registered(
            registry,
            (#[trigger] init[i]).spec_name(),
        ) by {
            assert(init[i] == passes[i]);
        }
        lemma_one_unregistered(init, registry, k);
    }
}

/// A run that names one pass that the registry does not have, and whose
/// input is no standard input, is refused with the name of that pass and no
/// other, before anything is read.
pub proof fn lemma_unknown_pass_is_refused(
    options: OptimizationOptionsView,
    files: RunFilesView,
    registry: Seq<PassInfoView>,
    k: int,
)
    requires
        !(files.infile.len() == 0 || files.infile == seq!['-']),
        0 <= k < options.passes.more_passes.len(),
        !is_registered(registry, options.passes.more_passes[k].spec_name()),
        forall|i: int|
            0 <= i < options.passes.more_passes.len() && i != k ==> is_registered(
                registry,
                (#[trigger] options.passes.more_passes[i]).spec_name(),
            ),
    ensures
        spec_step(options, files, StageView::Start, EventView::Registry(registry))
            == StageView::Failed(
            OptimizationErrorView::Unsupported {
                args: seq![options.passes.more_passes[k].spec_name()],
            },
        ),
{
    lemma_one_unregistered(options.passes.more_passes, registry, k);
}

/// Where the catalog and the registry agree, no run is refused for its
/// passes: whatever passes a configuration names, the registry has them, and
/// a run whose input is no standard input goes on to read.
pub proof fn lemma_parity_never_refuses(
    options: OptimizationOptionsView,
    files: RunFilesView,
    registry: Seq<PassInfoView>,
)
    requires
        catalog_parity(registry),
        !(files.infile.len() == 0 || files.infile == seq!['-']),
    ensures
        unsupported_names(options.passes.more_passes, registry) == Seq::<Seq<char>>::empty(),
        spec_start(options, files, registry) is Read,
{
    let passes = options.passes.more_passes;
    assert forall|i: int| 0 <= i < passes.len() implies is_registered(
        registry,
        (#[trigger] passes[i]).spec_name(),
    ) by {
        lemma_parity(registry, passes[i]);
    }
    lemma_all_registered(passes, registry);
}

/// A run takes no notice of `converge` nor of `debug`: two configurations
/// that differ in nothing else go through the same stages and ask for the
/// same actions.
pub proof fn lemma_run_ignores_converge_and_debug(
    options: OptimizationOptionsView,
    files: RunFilesView,
    stage: StageView,
    event: EventView,
    converge: bool,
    debug: bool,
)
    ensures
        ({
            let other = OptimizationOptionsView {
                converge,
                passopts: PassOptionsView { debug, ..options.passopts },
                ..options
            };
            &&& spec_step(other, files, stage, event) == spec_step(options, files, stage, event)
            &&& spec_action(other, files, stage) == spec_action(options, files, stage)
        }),
{
}

} // verus!
