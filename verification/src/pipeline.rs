//! The conversion of one job as a state machine. The machine decides; the
//! caller performs each action it asks for and reports the outcome.

use crate::invoker::{
    build_args, conversion_args, read_exit, tool_name, tool_program, utf8_lossy, ConversionError,
    ConversionErrorView,
};
use crate::job::{ConversionJob, ConversionJobView};
use crate::options::{ConversionOptions, ConversionOptionsView};
use crate::response::{
    conversion_failed, converted, directory_failed, out_of_order, write_failed, Response,
    ResponseView,
};
use crate::workspace::{temp_dir, temp_directory, TempPaths, TempPathsView};
use vstd::prelude::*;
use vstd::string::*;

verus! {

/// Where the conversion of a job stands.
#[derive(Debug)]
pub enum Phase {
    /// The input is being written.
    Staging { paths: TempPaths, options: ConversionOptions },
    /// The tool is running.
    Converting { paths: TempPaths },
    /// The tool reported success and its output is being read.
    Reading { paths: TempPaths },
    /// The files are being removed; the answer is settled.
    Cleaning { response: Response },
    /// The answer has been handed out.
    Done,
}

/// What the caller has to do next.
#[derive(Debug)]
pub enum Action {
    /// Create the directory if it is absent, then write the image to the
    /// path.
    Stage { directory: String, path: String, image: Vec<u8> },
    /// Run the program with the arguments and wait for it to exit.
    Run { program: String, args: Vec<String> },
    /// Read the file at the path as text.
    ReadOutput { path: String },
    /// Remove both files, whether or not they exist.
    Remove { input: String, output: String },
    /// Send the response; the request is over.
    Respond { response: Response },
}

/// What came of the action that the machine asked for.
#[derive(Debug)]
pub enum Outcome {
    /// The input was written.
    Staged,
    /// The directory could not be created.
    DirectoryFailed,
    /// The input could not be written.
    WriteFailed,
    /// The tool exited, with or without success.
    Exited { success: bool, stderr: Vec<u8> },
    /// The tool could not be started.
    LaunchFailed { detail: String },
    /// The output was read.
    OutputRead { svg: String },
    /// The output is missing or could not be read as text.
    OutputUnreadable { detail: String },
    /// The removal was attempted, with or without success.
    Removed,
}

/// The mathematical content of a [`Phase`].
pub enum PhaseView {
    Staging { paths: TempPathsView, options: ConversionOptionsView },
    Converting { paths: TempPathsView },
    Reading { paths: TempPathsView },
    Cleaning { response: ResponseView },
    Done,
}

/// The mathematical content of an [`Action`].
pub enum ActionView {
    Stage { directory: Seq<char>, path: Seq<char>, image: Seq<u8> },
    Run { program: Seq<char>, args: Seq<Seq<char>> },
    ReadOutput { path: Seq<char> },
    Remove { input: Seq<char>, output: Seq<char> },
    Respond { response: ResponseView },
}

/// The mathematical content of an [`Outcome`].
pub enum OutcomeView {
    Staged,
    DirectoryFailed,
    WriteFailed,
    Exited { success: bool, stderr: Seq<u8> },
    LaunchFailed { detail: Seq<char> },
    OutputRead { svg: Seq<char> },
    OutputUnreadable { detail: Seq<char> },
    Removed,
}

impl View for Phase {
    type V = PhaseView;

    open spec fn view(&self) -> PhaseView {
        match self {
            Phase::Staging { paths, options } => PhaseView::Staging {
                paths: paths@,
                options: options@,
            },
            Phase::Converting { paths } => PhaseView::Converting { paths: paths@ },
            Phase::Reading { paths } => PhaseView::Reading { paths: paths@ },
            Phase::Cleaning { response } => PhaseView::Cleaning { response: response@ },
            Phase::Done => PhaseView::Done,
        }
    }
}

impl View for Action {
    type V = ActionView;

    open spec fn view(&self) -> ActionView {
        match self {
            Action::Stage { directory, path, image } => ActionView::Stage {
                directory: directory@,
                path: path@,
                image: image@,
            },
            Action::Run { program, args } => ActionView::Run {
                program: program@,
                args: args.deep_view(),
            },
            Action::ReadOutput { path } => ActionView::ReadOutput { path: path@ },
            Action::Remove { input, output } => ActionView::Remove {
                input: input@,
                output: output@,
            },
            Action::Respond { response } => ActionView::Respond { response: response@ },
        }
    }
}

impl View for Outcome {
    type V = OutcomeView;

    open spec fn view(&self) -> OutcomeView {
        match self {
            Outcome::Staged => OutcomeView::Staged,
            Outcome::DirectoryFailed => OutcomeView::DirectoryFailed,
            Outcome::WriteFailed => OutcomeView::WriteFailed,
            Outcome::Exited { success, stderr } => OutcomeView::Exited {
                success: *success,
                stderr: stderr@,
            },
            Outcome::LaunchFailed { detail } => OutcomeView::LaunchFailed { detail: detail@ },
            Outcome::OutputRead { svg } => OutcomeView::OutputRead { svg: svg@ },
            Outcome::OutputUnreadable { detail } => OutcomeView::OutputUnreadable {
                detail: detail@,
            },
            Outcome::Removed => OutcomeView::Removed,
        }
    }
}

/// The removal of both files of a conversion.
pub open spec fn remove(paths: TempPathsView) -> ActionView {
    ActionView::Remove { input: paths.input, output: paths.output }
}

/// The step that settles the answer: the files are removed next, the
/// response is handed out after that.
pub open spec fn settle(paths: TempPathsView, response: ResponseView) -> (PhaseView, ActionView) {
    (PhaseView::Cleaning { response }, remove(paths))
}

/// The phase in which a job starts.
pub open spec fn first_phase(job: ConversionJobView) -> PhaseView {
    PhaseView::Staging { paths: job.paths(), options: job.options }
}

/// The action with which a job starts: staging its image.
pub open spec fn first_action(job: ConversionJobView) -> ActionView {
    ActionView::Stage { directory: temp_dir(), path: job.paths().input, image: job.image }
}

/// The invocation of the tool on the staged input.
pub open spec fn invocation(paths: TempPathsView, options: ConversionOptionsView) -> ActionView {
    ActionView::Run {
        program: tool_name(),
        args: conversion_args(paths.input, paths.output, options),
    }
}

/// The answer to a conversion: the payload with the text of the output, or
/// a server error that carries the message of the failure.
pub open spec fn answer_to(result: Result<Seq<char>, ConversionErrorView>) -> ResponseView {
    match result {
        Ok(svg) => converted(svg),
        Err(error) => conversion_failed(error.message()),
    }
}

/// The answer to a tool that exited with failure and left `stderr` on its
/// standard error.
pub open spec fn tool_failure(stderr: Seq<u8>) -> ResponseView {
    answer_to(Err(ConversionErrorView::ToolFailed { diagnostic: utf8_lossy(stderr) }))
}

/// One step of the machine: the phase and the action that follow, given
/// the phase it is in and the outcome of the action it asked for last.
///
/// While files may exist, every failure and every outcome that does not
/// belong to the phase leads to the removal of the files; the response
/// follows the removal.
pub open spec fn next(phase: PhaseView, outcome: OutcomeView) -> (PhaseView, ActionView) {
    match phase {
        PhaseView::Staging { paths, options } => match outcome {
            OutcomeView::Staged => (PhaseView::Converting { paths }, invocation(paths, options)),
            OutcomeView::DirectoryFailed => settle(paths, directory_failed()),
            OutcomeView::WriteFailed => settle(paths, write_failed()),
            _ => settle(paths, out_of_order()),
        },
        PhaseView::Converting { paths } => match outcome {
            OutcomeView::Exited { success, stderr } => if success {
                (PhaseView::Reading { paths }, ActionView::ReadOutput { path: paths.output })
            } else {
                settle(paths, tool_failure(stderr))
            },
            OutcomeView::LaunchFailed { detail } => settle(
                paths,
                answer_to(Err(ConversionErrorView::LaunchFailed { detail })),
            ),
            _ => settle(paths, out_of_order()),
        },
        PhaseView::Reading { paths } => match outcome {
            OutcomeView::OutputRead { svg } => settle(paths, answer_to(Ok(svg))),
            OutcomeView::OutputUnreadable { detail } => settle(
                paths,
                answer_to(Err(ConversionErrorView::OutputUnreadable { detail })),
            ),
            _ => settle(paths, out_of_order()),
        },
        PhaseView::Cleaning { response } => (PhaseView::Done, ActionView::Respond { response }),
        PhaseView::Done => (PhaseView::Done, ActionView::Respond { response: out_of_order() }),
    }
}

/// Shapes the answer to a conversion.
pub fn answer(result: Result<String, ConversionError>) -> (response: Response)
    ensures
        response@ == answer_to(
            match result {
                Ok(svg) => Ok(svg@),
                Err(error) => Err(error@),
            },
        ),
{
    match result {
        Ok(svg) => Response::converted(svg),
        Err(error) => {
            let message = error.message();
            Response::conversion_failed(message.as_str())
        },
    }
}

fn settle_with(paths: TempPaths, response: Response) -> (step: (Phase, Action))
    ensures
        (step.0@, step.1@) == settle(paths@, response@),
{
    (Phase::Cleaning { response }, Action::Remove { input: paths.input, output: paths.output })
}

/// Starts the conversion of a job: the first phase, and the action that
/// stages the image.
pub fn start(job: ConversionJob) -> (step: (Phase, Action))
    ensures
        step.0@ == first_phase(job@),
        step.1@ == first_action(job@),
{
    let paths = job.paths();
    let action = Action::Stage {
        directory: temp_directory(),
        path: paths.input.clone(),
        image: job.image,
    };
    (Phase::Staging { paths, options: job.options }, action)
}

/// Advances the conversion by one step.
pub fn step(phase: Phase, outcome: Outcome) -> (step: (Phase, Action))
    ensures
        (step.0@, step.1@) == next(phase@, outcome@),
{
    match phase {
        Phase::Staging { paths, options } => match outcome {
            Outcome::Staged => {
                let args = build_args(paths.input.as_str(), paths.output.as_str(), &options);
                (Phase::Converting { paths }, Action::Run { program: tool_program(), args })
            },
            Outcome::DirectoryFailed => settle_with(paths, Response::directory_failed()),
            Outcome::WriteFailed => settle_with(paths, Response::write_failed()),
            _ => settle_with(paths, Response::out_of_order()),
        },
        Phase::Converting { paths } => match outcome {
            Outcome::Exited { success, stderr } => match read_exit(success, stderr.as_slice()) {
                Ok(_) => {
                    let path = paths.output.clone();
                    (Phase::Reading { paths }, Action::ReadOutput { path })
                },
                Err(error) => settle_with(paths, answer(Err(error))),
            },
            Outcome::LaunchFailed { detail } => settle_with(
                paths,
                answer(Err(ConversionError::LaunchFailed { detail })),
            ),
            _ => settle_with(paths, Response::out_of_order()),
        },
        Phase::Reading { paths } => match outcome {
            Outcome::OutputRead { svg } => settle_with(paths, answer(Ok(svg))),
            Outcome::OutputUnreadable { detail } => settle_with(
                paths,
                answer(Err(ConversionError::OutputUnreadable { detail })),
            ),
            _ => settle_with(paths, Response::out_of_order()),
        },
        Phase::Cleaning { response } => (Phase::Done, Action::Respond { response }),
        Phase::Done => (Phase::Done, Action::Respond { response: Response::out_of_order() }),
    }
}

/// The actions that the machine asks for in reply to a sequence of
/// outcomes, one for each outcome, when it starts in `phase`.
pub open spec fn replies(phase: PhaseView, outcomes: Seq<OutcomeView>) -> Seq<ActionView>
    decreases outcomes.len(),
{
    if outcomes.len() == 0 {
        Seq::empty()
    } else {
        seq![next(phase, outcomes[0]).1] + replies(
            next(phase, outcomes[0]).0,
            outcomes.drop_first(),
        )
    }
}

/// Every action that the machine asks for in the course of a job: the
/// first action, then the reply to each outcome.
pub open spec fn actions_of(job: ConversionJobView, outcomes: Seq<OutcomeView>) -> Seq<ActionView> {
    seq![first_action(job)] + replies(first_phase(job), outcomes)
}

/// Whether the machine is in a phase in which the files at `paths` may
/// exist and are still to be removed.
pub open spec fn holds_files(phase: PhaseView, paths: TempPathsView) -> bool {
    match phase {
        PhaseView::Staging { paths: p, .. } => p == paths,
        PhaseView::Converting { paths: p } => p == paths,
        PhaseView::Reading { paths: p } => p == paths,
        _ => false,
    }
}

/// Whether an action reads, writes or removes the file at `path`.
pub open spec fn touches(action: ActionView, path: Seq<char>) -> bool {
    match action {
        ActionView::Stage { path: p, .. } => p == path,
        ActionView::Run { args, .. } => args.len() >= 4 && (args[1] == path || args[3] == path),
        ActionView::ReadOutput { path: p } => p == path,
        ActionView::Remove { input, output } => input == path || output == path,
        ActionView::Respond { .. } => false,
    }
}

/// The machine replies to each outcome with one action.
pub proof fn lemma_one_reply_each(phase: PhaseView, outcomes: Seq<OutcomeView>)
    ensures
        replies(phase, outcomes).len() == outcomes.len(),
    decreases outcomes.len(),
{
    if outcomes.len() > 0 {
        lemma_one_reply_each(next(phase, outcomes[0]).0, outcomes.drop_first());
    }
}

/// The replies to a first outcome followed by others: the reply to the
/// first, then the replies to the others from the phase that follows.
pub proof fn lemma_replies_unfold(phase: PhaseView, first: OutcomeView, rest: Seq<OutcomeView>)
    ensures
        replies(phase, seq![first] + rest) == seq![next(phase, first).1] + replies(
            next(phase, first).0,
            rest,
        ),
{
    let outcomes = seq![first] + rest;
    assert(outcomes[0] == first);
    assert(outcomes.drop_first() =~= rest);
}

/// While the files of a conversion may exist, the machine hands out no
/// response before it has asked for their removal.
pub proof fn lemma_removal_before_reply(
    phase: PhaseView,
    paths: TempPathsView,
    outcomes: Seq<OutcomeView>,
    k: int,
)
    requires
        holds_files(phase, paths),
        0 <= k < outcomes.len(),
        replies(phase, outcomes)[k] is Respond,
    ensures
        exists|j: int| 0 <= j < k && replies(phase, outcomes)[j] == remove(paths),
    decreases outcomes.len(),
{
    let step = next(phase, outcomes[0]);
    let rest = outcomes.drop_first();
    lemma_one_reply_each(step.0, rest);
    assert(replies(phase, outcomes)[0] == step.1);
    if holds_files(step.0, paths) {
        assert(!(step.1 is Respond));
        assert(replies(phase, outcomes)[k] == replies(step.0, rest)[k - 1]);
        lemma_removal_before_reply(step.0, paths, rest, k - 1);
        let j = choose|j: int| 0 <= j < k - 1 && replies(step.0, rest)[j] == remove(paths);
        assert(replies(phase, outcomes)[j + 1] == replies(step.0, rest)[j]);
    } else {
        assert(step.1 == remove(paths));
        assert(k > 0);
    }
}

/// Cleanup cannot be skipped: whatever outcomes are reported, in whatever
/// order, every response of a job comes after the action that removes both
/// of its files.
pub proof fn lemma_cleanup_precedes_response(
    job: ConversionJobView,
    outcomes: Seq<OutcomeView>,
    k: int,
)
    requires
        0 <= k < actions_of(job, outcomes).len(),
        actions_of(job, outcomes)[k] is Respond,
    ensures
        exists|j: int| 0 <= j < k && actions_of(job, outcomes)[j] == remove(job.paths()),
{
    lemma_one_reply_each(first_phase(job), outcomes);
    assert(k > 0);
    assert(actions_of(job, outcomes)[k] == replies(first_phase(job), outcomes)[k - 1]);
    lemma_removal_before_reply(first_phase(job), job.paths(), outcomes, k - 1);
    let j = choose|j: int|
        0 <= j < k - 1 && replies(first_phase(job), outcomes)[j] == remove(job.paths());
    assert(actions_of(job, outcomes)[j + 1] == replies(first_phase(job), outcomes)[j]);
}

/// From a phase that holds the files at `paths`, or one that holds none,
/// the machine touches no file but those two.
pub proof fn lemma_replies_touch_own_files(
    phase: PhaseView,
    paths: TempPathsView,
    outcomes: Seq<OutcomeView>,
    k: int,
    path: Seq<char>,
)
    requires
        holds_files(phase, paths) || phase is Cleaning || phase is Done,
        0 <= k < outcomes.len(),
        touches(replies(phase, outcomes)[k], path),
    ensures
        path == paths.input || path == paths.output,
    decreases outcomes.len(),
{
    let step = next(phase, outcomes[0]);
    let rest = outcomes.drop_first();
    lemma_one_reply_each(step.0, rest);
    assert(replies(phase, outcomes)[0] == step.1);
    if k == 0 {
    } else {
        assert(replies(phase, outcomes)[k] == replies(step.0, rest)[k - 1]);
        lemma_replies_touch_own_files(step.0, paths, rest, k - 1, path);
    }
}

/// A job touches no file but its own two, whatever outcomes are reported.
pub proof fn lemma_job_touches_own_files(
    job: ConversionJobView,
    outcomes: Seq<OutcomeView>,
    k: int,
    path: Seq<char>,
)
    requires
        0 <= k < actions_of(job, outcomes).len(),
        touches(actions_of(job, outcomes)[k], path),
    ensures
        path == job.paths().input || path == job.paths().output,
{
    lemma_one_reply_each(first_phase(job), outcomes);
    if k > 0 {
        assert(actions_of(job, outcomes)[k] == replies(first_phase(job), outcomes)[k - 1]);
        lemma_replies_touch_own_files(first_phase(job), job.paths(), outcomes, k - 1, path);
    }
}

/// Jobs with distinct identifiers never touch the same file, whatever
/// their extensions and whatever happens to either of them.
pub proof fn lemma_jobs_share_no_file(
    job1: ConversionJobView,
    outcomes1: Seq<OutcomeView>,
    k1: int,
    job2: ConversionJobView,
    outcomes2: Seq<OutcomeView>,
    k2: int,
    path: Seq<char>,
)
    requires
        job1.wf(),
        job2.wf(),
        job1.identifier != job2.identifier,
        0 <= k1 < actions_of(job1, outcomes1).len(),
        0 <= k2 < actions_of(job2, outcomes2).len(),
    ensures
        !(touches(actions_of(job1, outcomes1)[k1], path) && touches(
            actions_of(job2, outcomes2)[k2],
            path,
        )),
{
    if touches(actions_of(job1, outcomes1)[k1], path) && touches(
        actions_of(job2, outcomes2)[k2],
        path,
    ) {
        lemma_job_touches_own_files(job1, outcomes1, k1, path);
        lemma_job_touches_own_files(job2, outcomes2, k2, path);
        crate::workspace::lemma_distinct_identifiers_distinct_paths(
            job1.identifier,
            job1.extension,
            job2.identifier,
            job2.extension,
        );
    }
}

/// Once the input is staged, the machine never asks for the tool again.
pub proof fn lemma_no_run_after_staging(phase: PhaseView, outcomes: Seq<OutcomeView>, k: int)
    requires
        !(phase is Staging),
        0 <= k < outcomes.len(),
    ensures
        !(replies(phase, outcomes)[k] is Run),
        !(replies(phase, outcomes)[k] is Stage),
    decreases outcomes.len(),
{
    let step = next(phase, outcomes[0]);
    let rest = outcomes.drop_first();
    lemma_one_reply_each(step.0, rest);
    assert(replies(phase, outcomes)[0] == step.1);
    if k > 0 {
        assert(replies(phase, outcomes)[k] == replies(step.0, rest)[k - 1]);
        lemma_no_run_after_staging(step.0, rest, k - 1);
    }
}

/// No retry: in the course of a job the tool is run at most once, and the
/// image is staged once, as the first action.
pub proof fn lemma_tool_runs_at_most_once(
    job: ConversionJobView,
    outcomes: Seq<OutcomeView>,
    i: int,
    j: int,
)
    requires
        0 <= i < j < actions_of(job, outcomes).len(),
    ensures
        !(actions_of(job, outcomes)[i] is Run && actions_of(job, outcomes)[j] is Run),
        !(actions_of(job, outcomes)[j] is Stage),
        actions_of(job, outcomes)[0] is Stage,
{
    let p0 = first_phase(job);
    lemma_one_reply_each(p0, outcomes);
    let all = actions_of(job, outcomes);
    assert(all[j] == replies(p0, outcomes)[j - 1]);
    let step = next(p0, outcomes[0]);
    let rest = outcomes.drop_first();
    lemma_one_reply_each(step.0, rest);
    assert(replies(p0, outcomes)[0] == step.1);
    if j - 1 > 0 {
        assert(replies(p0, outcomes)[j - 1] == replies(step.0, rest)[j - 2]);
        lemma_no_run_after_staging(step.0, rest, j - 2);
    } else {
        assert(i == 0);
    }
}

/// The course of a conversion in which every step succeeds.
pub open spec fn success_outcomes(stderr: Seq<u8>, svg: Seq<char>) -> Seq<OutcomeView> {
    seq![
        OutcomeView::Staged,
        OutcomeView::Exited { success: true, stderr },
        OutcomeView::OutputRead { svg },
        OutcomeView::Removed,
    ]
}

/// The course of a conversion in which the tool exits with failure.
pub open spec fn tool_failure_outcomes(stderr: Seq<u8>) -> Seq<OutcomeView> {
    seq![OutcomeView::Staged, OutcomeView::Exited { success: false, stderr }, OutcomeView::Removed]
}

/// When the image is staged, the tool succeeds and its output is read, the
/// job is answered with status 200 and the text that was read, after its
/// files were removed. The text is passed on unchanged, so it is empty only
/// if the output was.
pub proof fn lemma_success_is_answered(job: ConversionJobView, stderr: Seq<u8>, svg: Seq<char>)
    ensures
        actions_of(job, success_outcomes(stderr, svg)) == seq![
            first_action(job),
            invocation(job.paths(), job.options),
            ActionView::ReadOutput { path: job.paths().output },
            remove(job.paths()),
            ActionView::Respond { response: converted(svg) },
        ],
        converted(svg).status == 200,
        converted(svg).body == (crate::response::BodyView::Converted {
            success: true,
            svg_content: svg,
        }),
{
    let p0 = first_phase(job);
    let o1 = OutcomeView::Staged;
    let o2 = OutcomeView::Exited { success: true, stderr };
    let o3 = OutcomeView::OutputRead { svg };
    let o4 = OutcomeView::Removed;
    let p1 = next(p0, o1).0;
    let p2 = next(p1, o2).0;
    let p3 = next(p2, o3).0;
    let p4 = next(p3, o4).0;
    assert(success_outcomes(stderr, svg) =~= seq![o1] + (seq![o2] + (seq![o3] + (seq![o4]
        + Seq::empty()))));
    lemma_replies_unfold(p0, o1, seq![o2] + (seq![o3] + (seq![o4] + Seq::empty())));
    lemma_replies_unfold(p1, o2, seq![o3] + (seq![o4] + Seq::empty()));
    lemma_replies_unfold(p2, o3, seq![o4] + Seq::empty());
    lemma_replies_unfold(p3, o4, Seq::empty());
    assert(replies(p4, Seq::empty()) =~= Seq::empty());
    assert(actions_of(job, success_outcomes(stderr, svg)) =~= seq![
        first_action(job),
        invocation(job.paths(), job.options),
        ActionView::ReadOutput { path: job.paths().output },
        remove(job.paths()),
        ActionView::Respond { response: converted(svg) },
    ]);
}

/// When the tool exits with failure, the job is answered with status 500
/// and a text that ends with what the tool wrote to standard error, after
/// its files were removed. The output is not read.
pub proof fn lemma_tool_failure_is_answered(job: ConversionJobView, stderr: Seq<u8>)
    ensures
        actions_of(job, tool_failure_outcomes(stderr)) == seq![
            first_action(job),
            invocation(job.paths(), job.options),
            remove(job.paths()),
            ActionView::Respond { response: tool_failure(stderr) },
        ],
        tool_failure(stderr).status == 500,
        tool_failure(stderr).body == crate::response::BodyView::Text(
            "Dönüştürme hatası: "@ + ("vtracer failed: "@ + utf8_lossy(stderr)),
        ),
{
    let p0 = first_phase(job);
    let o1 = OutcomeView::Staged;
    let o2 = OutcomeView::Exited { success: false, stderr };
    let o3 = OutcomeView::Removed;
    let p1 = next(p0, o1).0;
    let p2 = next(p1, o2).0;
    let p3 = next(p2, o3).0;
    assert(tool_failure_outcomes(stderr) =~= seq![o1] + (seq![o2] + (seq![o3] + Seq::empty())));
    lemma_replies_unfold(p0, o1, seq![o2] + (seq![o3] + Seq::empty()));
    lemma_replies_unfold(p1, o2, seq![o3] + Seq::empty());
    lemma_replies_unfold(p2, o3, Seq::empty());
    assert(replies(p3, Seq::empty()) =~= Seq::empty());
    assert(actions_of(job, tool_failure_outcomes(stderr)) =~= seq![
        first_action(job),
        invocation(job.paths(), job.options),
        remove(job.paths()),
        ActionView::Respond { response: tool_failure(stderr) },
    ]);
}

/// A request with a readable image within the ceiling is answered with
/// status 200 and the text of the output whenever staging, the tool and the
/// reading of the output succeed; the text is empty only if the output was.
pub proof fn lemma_valid_request_succeeds(
    fields: Seq<crate::upload::FieldView>,
    i: int,
    identifier: Seq<char>,
    stderr: Seq<u8>,
    svg: Seq<char>,
)
    requires
        crate::job::last_image_at(fields, i),
        crate::upload::all_images_readable(fields),
        (fields[i]->payload).len() <= crate::upload::MAX_IMAGE_BYTES,
    ensures
        crate::job::request_outcome(fields, identifier) matches Ok(job) && actions_of(
            job,
            success_outcomes(stderr, svg),
        ).last() == (ActionView::Respond { response: converted(svg) }),
        converted(svg).status == 200,
        converted(svg).body matches crate::response::BodyView::Converted { success, svg_content }
            && success && svg_content == svg,
{
    crate::job::lemma_request_with_image(fields, i, identifier);
    let job = crate::job::request_outcome(fields, identifier)->Ok_0;
    lemma_success_is_answered(job, stderr, svg);
}

} // verus!
