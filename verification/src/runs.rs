//! What holds of a transfer over a whole run of events, whatever the file
//! system answers.

use crate::commands::{
    canonicalize_spec, is_file_spec, Direction, Event, Stage, StepView, TransferView,
};
use crate::error::{ErrorKind, ErrorView};
use crate::path::{has_parent_segment, joined, lemma_joined_adds_no_parent_segment};
use crate::plan::PlanView;
use crate::report::{longest_source, report_line, report_lines};
use vstd::prelude::*;

verus! {

impl TransferView {
    /// `later` is a state of the same transfer as `self`, no further back:
    /// the same plan, direction and directories, and no fewer files copied.
    pub open spec fn leads_to(self, later: TransferView) -> bool {
        &&& later.direction == self.direction
        &&& later.name == self.name
        &&& later.external == self.external
        &&& later.files == self.files
        &&& self.stage != Stage::Locate ==> later.stage != Stage::Locate && later.staging
            == self.staging
        &&& self.done <= later.done <= later.files.len()
    }
}

/// The state in which a step leaves the transfer, whether it goes on or not.
pub open spec fn state_after(outcome: StepView) -> TransferView {
    match outcome {
        StepView::Continue(state) => state,
        StepView::Finished { last, .. } => last,
    }
}

/// The stage in which a failure of `kind` can arise.
pub open spec fn arises_in(kind: ErrorKind, stage: Stage) -> bool {
    match kind {
        ErrorKind::LocationUnreadable => stage == Stage::Locate || stage == Stage::Distinct,
        ErrorKind::SameLocation => stage == Stage::Distinct,
        ErrorKind::DirectoryCreate => stage == Stage::Staging || stage == Stage::Parent,
        ErrorKind::SourceNotFound => stage == Stage::Resolve,
        ErrorKind::NotAFile => stage == Stage::Inspect,
        ErrorKind::CopyIO => stage == Stage::Copying,
        _ => false,
    }
}

/// How a step or a run may end, seen from the state `from` that it began in:
/// a transfer that goes on is in a good state; one that ended well has copied
/// every file of the plan; one that failed has copied nothing beyond the file
/// in turn, which it never got past, and its failure is one of the stage
/// that it was in.
pub open spec fn ends_as_it_should(from: TransferView, outcome: StepView) -> bool {
    &&& from.leads_to(state_after(outcome))
    &&& match outcome {
        StepView::Continue(state) => state.wf(),
        StepView::Finished { result: Ok(()), last } => last.done == last.files.len(),
        StepView::Finished { result: Err(e), last } => last.wf() && arises_in(e.kind, last.stage),
    }
}

/// One step keeps the plan and the directories, copies at most one file, and
/// ends as it should.
pub proof fn lemma_step(state: TransferView, event: Event)
    requires
        state.wf(),
    ensures
        ends_as_it_should(state, state.step(event)),
        state_after(state.step(event)).done <= state.done + 1,
{
}

/// A file is only copied once the directories above its destination were
/// created: the copy becomes due in no other way than by the creation having
/// succeeded, for the same file.
pub proof fn lemma_copy_follows_parent_dirs(state: TransferView, event: Event)
    requires
        state.wf(),
        state.step(event) matches StepView::Continue(next) && next.stage == Stage::Copying
            && state.stage != Stage::Copying,
    ensures
        state.stage == Stage::Parent,
        event matches Event::DirsCreated(Ok(_)),
        state_after(state.step(event)).done == state.done,
{
}

/// A run can be cut in two: what the whole run leads to is what the second
/// part leads to from where the first part left the transfer, and where the
/// first part ended the transfer, the second part changes nothing.
pub proof fn lemma_run_split(state: TransferView, events: Seq<Event>, k: int)
    requires
        0 <= k <= events.len(),
    ensures
        state.run(events) == match state.run(events.take(k)) {
            StepView::Continue(mid) => mid.run(events.skip(k)),
            over => over,
        },
    decreases k,
{
    if k == 0 {
        assert(events.skip(0) == events);
    } else {
        let first = events.take(k);
        assert(first.drop_first() == events.drop_first().take(k - 1));
        assert(events.drop_first().skip(k - 1) == events.skip(k));
        match state.step(events[0]) {
            StepView::Continue(next) => {
                lemma_run_split(next, events.drop_first(), k - 1);
            },
            _ => {},
        }
    }
}

/// Whatever the events, a run keeps the plan and the directories and ends as
/// it should: well only with every file copied, and in failure only at the
/// file in turn.
pub proof fn lemma_run(state: TransferView, events: Seq<Event>)
    requires
        state.wf(),
    ensures
        ends_as_it_should(state, state.run(events)),
    decreases events.len(),
{
    if events.len() > 0 {
        lemma_step(state, events[0]);
        match state.step(events[0]) {
            StepView::Continue(next) => {
                lemma_run(next, events.drop_first());
            },
            _ => {},
        }
    }
}

/// The first failure ends the run: no state that the run passes through has
/// more files copied than the state that it ends in. As an action names no
/// file but the one in turn, no file behind the one that failed is ever
/// named, let alone copied.
pub proof fn lemma_nothing_beyond_the_end(state: TransferView, events: Seq<Event>, k: int)
    requires
        state.wf(),
        0 <= k <= events.len(),
    ensures
        state.run(events.take(k)) matches StepView::Continue(mid) ==> mid.leads_to(
            state_after(state.run(events)),
        ),
        state.run(events.take(k)) is Finished ==> state.run(events) == state.run(events.take(k)),
{
    lemma_run_split(state, events, k);
    lemma_run(state, events.take(k));
    match state.run(events.take(k)) {
        StepView::Continue(mid) => {
            lemma_run(mid, events.skip(k));
        },
        _ => {},
    }
}

/// A file that is missing at the source ends the batch: the run fails with
/// the failure for that file, the files before it stay copied and are the
/// ones reported, and whatever events follow, the file in turn and those
/// behind it are never taken up.
pub proof fn lemma_missing_file_ends_the_batch(
    state: TransferView,
    cause: String,
    later: Seq<Event>,
)
    requires
        state.wf(),
        state.stage == Stage::Resolve,
    ensures
        state.run(seq![Event::Canonical(Err(cause))] + later) == (StepView::Finished {
            result: Err(
                ErrorView {
                    kind: ErrorKind::SourceNotFound,
                    message: "Error reading file "@ + state.source_of(state.done as int) + " - "@
                        + cause@,
                },
            ),
            last: state,
        }),
        state.done < state.files.len(),
{
    let events = seq![Event::Canonical(Err(cause))] + later;
    assert(events[0] == Event::Canonical(Err::<String, String>(cause)));
    assert(canonicalize_spec(state.source_of(state.done as int), Err(cause)) is Err);
}

/// Something other than a regular file in the place of a declared file ends
/// the batch in the same way: the run fails with the failure for that place,
/// and the file in turn and those behind it are never taken up.
pub proof fn lemma_not_a_file_ends_the_batch(state: TransferView, later: Seq<Event>)
    requires
        state.wf(),
        state.stage == Stage::Inspect,
    ensures
        state.run(seq![Event::IsFile(false)] + later) == (StepView::Finished {
            result: Err(
                ErrorView {
                    kind: ErrorKind::NotAFile,
                    message: state.canonical + " is not a file"@,
                },
            ),
            last: state,
        }),
        state.done < state.files.len(),
{
    let events = seq![Event::IsFile(false)] + later;
    assert(events[0] == Event::IsFile(false));
    assert(is_file_spec(state.canonical, false) is Err);
}

/// A run that finds source and destination to be the same place, or cannot
/// open one of them, ends before any file was copied.
pub proof fn lemma_same_location_copies_nothing(state: TransferView, events: Seq<Event>)
    requires
        state.wf(),
        state.run(events) matches StepView::Finished { result: Err(e), .. } && (e.kind
            == ErrorKind::SameLocation || e.kind == ErrorKind::LocationUnreadable),
    ensures
        state_after(state.run(events)).done == 0,
        state_after(state.run(events)).records() == Seq::<(Seq<char>, Seq<char>)>::empty(),
{
    lemma_run(state, events);
}

/// The report follows the plan: it has one line for each file copied, line
/// `i` is the line of file `i` of the plan, and the files copied are the
/// first of the plan, with none left out. After a run that ended well they
/// are all of them.
pub proof fn lemma_report_in_plan_order(state: TransferView, events: Seq<Event>)
    requires
        state.wf(),
        state.run(events) is Finished,
    ensures
        ({
            let last = state_after(state.run(events));
            let report = report_lines(last.records());
            &&& last.files == state.files
            &&& report.len() == last.done <= state.files.len()
            &&& state.run(events) matches StepView::Finished { result: Ok(()), .. }
                ==> report.len() == state.files.len()
            &&& forall|i: int|
                0 <= i < report.len() ==> #[trigger] report[i] == report_line(
                    joined(last.source(), state.files[i]),
                    joined(last.destination(), state.files[i]),
                    longest_source(last.records()),
                )
        }),
{
    lemma_run(state, events);
}

/// A plan whose files are free of `..` segments stays within its two
/// directories: whatever the events, no place that a file is read from or
/// written to has a `..` segment, unless the directory itself has one.
pub proof fn lemma_confined_plan_stays_within(
    direction: Direction,
    plan: PlanView,
    external: Seq<char>,
    events: Seq<Event>,
    i: int,
)
    requires
        plan.confined(),
        0 <= i < plan.files.len(),
    ensures
        ({
            let state = state_after(TransferView::start(direction, plan, external).run(events));
            &&& state.files == plan.files
            &&& has_parent_segment(state.source_of(i)) ==> has_parent_segment(state.source())
            &&& has_parent_segment(state.destination_of(i)) ==> has_parent_segment(
                state.destination(),
            )
        }),
{
    let state = state_after(TransferView::start(direction, plan, external).run(events));
    lemma_run(TransferView::start(direction, plan, external), events);
    if has_parent_segment(state.source_of(i)) {
        lemma_joined_adds_no_parent_segment(state.source(), plan.files[i]);
    }
    if has_parent_segment(state.destination_of(i)) {
        lemma_joined_adds_no_parent_segment(state.destination(), plan.files[i]);
    }
}

/// What a pick-up wrote is what a drop-off of the same plan reads, as long as
/// both start from the same working directory: after two runs that ended
/// well, every file of the plan was copied by both, the pick-up took file `i`
/// from below `from` to the place from which the drop-off took it to below
/// `to`.
pub proof fn lemma_round_trip(
    plan: PlanView,
    from: Seq<char>,
    to: Seq<char>,
    up: Seq<Event>,
    down: Seq<Event>,
)
    requires
        up.len() > 0 && down.len() > 0,
        up[0] matches Event::CurrentDir(Ok(here)) && down[0] matches Event::CurrentDir(Ok(there))
            && here@ == there@,
        TransferView::start(Direction::PickUp, plan, from).run(up) matches StepView::Finished {
            result: Ok(()),
            ..
        },
        TransferView::start(Direction::DropOff, plan, to).run(down) matches StepView::Finished {
            result: Ok(()),
            ..
        },
    ensures
        ({
            let picked = state_after(TransferView::start(Direction::PickUp, plan, from).run(up));
            let dropped = state_after(
                TransferView::start(Direction::DropOff, plan, to).run(down),
            );
            &&& picked.records().len() == plan.files.len()
            &&& dropped.records().len() == plan.files.len()
            &&& forall|i: int|
                0 <= i < plan.files.len() ==> {
                    &&& (#[trigger] picked.records()[i]).0 == joined(from, plan.files[i])
                    &&& picked.records()[i].1 == dropped.records()[i].0
                    &&& (#[trigger] dropped.records()[i]).1 == joined(to, plan.files[i])
                }
        }),
{
    let start_up = TransferView::start(Direction::PickUp, plan, from);
    let start_down = TransferView::start(Direction::DropOff, plan, to);
    lemma_run_split(start_up, up, 1);
    lemma_run_split(start_down, down, 1);
    let located_up = state_after(start_up.step(up[0]));
    let located_down = state_after(start_down.step(down[0]));
    assert(located_up.run(up.take(1).drop_first()) == StepView::Continue(located_up));
    assert(located_down.run(down.take(1).drop_first()) == StepView::Continue(located_down));
    lemma_run(located_up, up.skip(1));
    lemma_run(located_down, down.skip(1));
}

} // verus!
