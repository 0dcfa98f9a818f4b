//! Whole installation attempts: what a worker hands out over any sequence of
//! events, and what holds of every such attempt.

use crate::request::RequestModel;
use crate::status::lemma_stream_append;
use crate::status::lemma_well_formed_terminal_count;
use crate::status::no_terminal;
use crate::status::progress_at_least;
use crate::status::progress_at_most;
use crate::status::stream_well_formed;
use crate::status::terminal_count;
use crate::status::StatusModel;
use crate::text::contains;
use crate::text::lemma_framed_contains;
use crate::worker::accepts;
use crate::worker::answers;
use crate::worker::awaited;
use crate::worker::progress_of;
use crate::worker::start_model;
use crate::worker::step_model;
use crate::worker::steps_left;
use crate::worker::success_text;
use crate::worker::ActionModel;
use crate::worker::EventModel;
use crate::worker::StepModel;
use crate::worker::WorkerModel;
use crate::worker::WorkerPhase;
use vstd::prelude::*;

verus! {

/// The worker after `events`, taken in order. An event that the worker does
/// not accept changes nothing.
pub open spec fn run_end(worker: WorkerModel, events: Seq<EventModel>) -> WorkerModel
    decreases events.len(),
{
    if events.len() == 0 {
        worker
    } else if accepts(worker.phase, events[0]) {
        run_end(step_model(worker, events[0]).worker, events.drop_first())
    } else {
        run_end(worker, events.drop_first())
    }
}

/// The messages that the worker hands out over `events`, in order.
pub open spec fn run_messages(worker: WorkerModel, events: Seq<EventModel>) -> Seq<StatusModel>
    decreases events.len(),
{
    if events.len() == 0 {
        Seq::empty()
    } else if accepts(worker.phase, events[0]) {
        step_model(worker, events[0]).messages + run_messages(
            step_model(worker, events[0]).worker,
            events.drop_first(),
        )
    } else {
        run_messages(worker, events.drop_first())
    }
}

/// The actions that the worker asks for over `events`, one for each event
/// that it accepts, in order.
pub open spec fn run_actions(worker: WorkerModel, events: Seq<EventModel>) -> Seq<ActionModel>
    decreases events.len(),
{
    if events.len() == 0 {
        Seq::empty()
    } else if accepts(worker.phase, events[0]) {
        seq![step_model(worker, events[0]).action] + run_actions(
            step_model(worker, events[0]).worker,
            events.drop_first(),
        )
    } else {
        run_actions(worker, events.drop_first())
    }
}

/// The worker of an attempt for `request` after `events`.
pub open spec fn attempt_end(request: RequestModel, version: Seq<char>, events: Seq<EventModel>)
    -> WorkerModel {
    run_end(start_model(request, version).worker, events)
}

/// All messages of an attempt for `request` over `events`, from its first.
pub open spec fn attempt_messages(
    request: RequestModel,
    version: Seq<char>,
    events: Seq<EventModel>,
) -> Seq<StatusModel> {
    start_model(request, version).messages + run_messages(
        start_model(request, version).worker,
        events,
    )
}

/// All actions of an attempt for `request` over `events`, from its first.
pub open spec fn attempt_actions(
    request: RequestModel,
    version: Seq<char>,
    events: Seq<EventModel>,
) -> Seq<ActionModel> {
    seq![start_model(request, version).action] + run_actions(
        start_model(request, version).worker,
        events,
    )
}

/// A worker whose phase fits its request keeps a fitting phase over every
/// step, and an attempt begins with one.
pub proof fn lemma_run_keeps_fit(worker: WorkerModel, events: Seq<EventModel>)
    requires
        worker.fits(),
    ensures
        run_end(worker, events).fits(),
        run_end(worker, events).request == worker.request,
        run_end(worker, events).version == worker.version,
    decreases events.len(),
{
    if events.len() > 0 {
        if accepts(worker.phase, events[0]) {
            lemma_run_keeps_fit(step_model(worker, events[0]).worker, events.drop_first());
        } else {
            lemma_run_keeps_fit(worker, events.drop_first());
        }
    }
}

/// After the end of the attempt the worker accepts no event: it stays as it
/// is, sends nothing and asks for nothing.
pub proof fn lemma_finished_worker_is_silent(worker: WorkerModel, events: Seq<EventModel>)
    requires
        worker.finished(),
    ensures
        run_end(worker, events) == worker,
        run_messages(worker, events) == Seq::<StatusModel>::empty(),
        run_actions(worker, events) == Seq::<ActionModel>::empty(),
    decreases events.len(),
{
    if events.len() > 0 {
        lemma_finished_worker_is_silent(worker, events.drop_first());
    }
}

/// What one accepted step sends keeps the protocol, lies between the
/// progress of the phase it leaves and that of the phase it enters, and holds
/// a terminal message, as its last, exactly when it ends the attempt.
pub proof fn lemma_step_messages(worker: WorkerModel, event: EventModel)
    requires
        accepts(worker.phase, event),
    ensures
        ({
            let step = step_model(worker, event);
            &&& stream_well_formed(step.messages)
            &&& progress_at_least(step.messages, progress_of(worker.phase))
            &&& progress_at_most(step.messages, progress_of(step.worker.phase))
            &&& progress_of(worker.phase) <= progress_of(step.worker.phase)
            &&& steps_left(step.worker.phase) < steps_left(worker.phase)
            &&& step.worker.finished() ==> step.messages.len() > 0
                && step.messages.last().is_terminal()
            &&& !step.worker.finished() ==> no_terminal(step.messages)
        }),
{
}

/// The messages of any run keep the protocol, never report less than the
/// progress already reached, and end in a terminal message exactly when the
/// run ends an attempt that was still going on.
pub proof fn lemma_run_keeps_protocol(worker: WorkerModel, events: Seq<EventModel>)
    ensures
        stream_well_formed(run_messages(worker, events)),
        progress_at_least(run_messages(worker, events), progress_of(worker.phase)),
        (run_messages(worker, events).len() > 0 && run_messages(
            worker,
            events,
        ).last().is_terminal()) <==> (!worker.finished() && run_end(worker, events).finished()),
    decreases events.len(),
{
    if events.len() > 0 {
        let rest = events.drop_first();
        if accepts(worker.phase, events[0]) {
            let step = step_model(worker, events[0]);
            let tail = run_messages(step.worker, rest);
            lemma_step_messages(worker, events[0]);
            lemma_run_keeps_protocol(step.worker, rest);
            if step.worker.finished() {
                lemma_finished_worker_is_silent(step.worker, rest);
                assert(step.messages + tail =~= step.messages);
            } else {
                lemma_stream_append(step.messages, tail, progress_of(step.worker.phase));
                let whole = step.messages + tail;
                assert forall|i: int|
                    0 <= i < whole.len() && (#[trigger] whole[i]) is Progress implies progress_of(
                    worker.phase,
                ) <= whole[i]->Progress_0 by {
                    if i < step.messages.len() {
                        assert(whole[i] == step.messages[i]);
                    } else {
                        assert(whole[i] == tail[i - step.messages.len()]);
                    }
                }
                if tail.len() > 0 {
                    assert(whole.last() == tail.last());
                } else {
                    assert(whole =~= step.messages);
                    if whole.len() > 0 {
                        assert(!whole[whole.len() - 1].is_terminal());
                    }
                }
            }
        } else {
            lemma_run_keeps_protocol(worker, rest);
        }
    }
}

/// Every attempt keeps the protocol of the status stream, whatever the
/// outcomes of its actions: each progress value lies within the whole,
/// progress never goes back, and the attempt sends one terminal message, as
/// its last, exactly when it has ended, and none before.
pub proof fn lemma_attempt_keeps_protocol(
    request: RequestModel,
    version: Seq<char>,
    events: Seq<EventModel>,
)
    ensures
        stream_well_formed(attempt_messages(request, version, events)),
        terminal_count(attempt_messages(request, version, events)) == if attempt_end(
            request,
            version,
            events,
        ).finished() {
            1nat
        } else {
            0nat
        },
{
    let start = start_model(request, version);
    let tail = run_messages(start.worker, events);
    let whole = attempt_messages(request, version, events);
    lemma_run_keeps_protocol(start.worker, events);
    lemma_stream_append(start.messages, tail, progress_of(start.worker.phase));
    lemma_well_formed_terminal_count(whole);
    if tail.len() > 0 {
        assert(whole.last() == tail.last());
    } else {
        assert(whole =~= start.messages);
        assert(!whole.last().is_terminal());
    }
}

/// The worker accepts exactly the outcomes that the action it asked for can
/// have: a caller that answers each action by its outcome is never refused,
/// and only the end of the attempt leaves nothing to answer.
pub proof fn lemma_answers_are_accepted(
    request: RequestModel,
    phase: WorkerPhase,
    event: EventModel,
)
    ensures
        accepts(phase, event) == answers(awaited(request, phase), event),
        awaited(request, phase) is Stop <==> phase == WorkerPhase::Finished,
{
}

/// How many of `events` the worker accepts.
pub open spec fn accepted_count(worker: WorkerModel, events: Seq<EventModel>) -> nat
    decreases events.len(),
{
    if events.len() == 0 {
        0
    } else if accepts(worker.phase, events[0]) {
        1 + accepted_count(step_model(worker, events[0]).worker, events.drop_first())
    } else {
        accepted_count(worker, events.drop_first())
    }
}

/// A worker never accepts more events than its phase has steps left, and it
/// has finished once it has accepted that many.
pub proof fn lemma_run_is_bounded(worker: WorkerModel, events: Seq<EventModel>)
    ensures
        accepted_count(worker, events) <= steps_left(worker.phase),
        accepted_count(worker, events) == steps_left(worker.phase) ==> run_end(
            worker,
            events,
        ).finished(),
    decreases events.len(),
{
    if events.len() > 0 {
        if accepts(worker.phase, events[0]) {
            lemma_step_messages(worker, events[0]);
            lemma_run_is_bounded(step_model(worker, events[0]).worker, events.drop_first());
        } else {
            lemma_run_is_bounded(worker, events.drop_first());
        }
    }
}

/// An attempt accepts at most seven outcomes before it has ended.
pub proof fn lemma_attempt_is_bounded(
    request: RequestModel,
    version: Seq<char>,
    events: Seq<EventModel>,
)
    ensures
        accepted_count(start_model(request, version).worker, events) <= 7,
{
    lemma_run_is_bounded(start_model(request, version).worker, events);
}

/// Wherever a run asks for the application to be installed, the action just
/// before was the writing of the request's manifest text, as it is, to the
/// place of the request's slot; a run that asks for the installation first of
/// all began in the phase that waits for that writing.
pub proof fn lemma_run_installs_after_persisting(
    worker: WorkerModel,
    events: Seq<EventModel>,
    at: int,
)
    requires
        0 <= at < run_actions(worker, events).len(),
        run_actions(worker, events)[at] is InstallApp,
    ensures
        at == 0 ==> worker.phase == WorkerPhase::Persisting,
        at > 0 ==> run_actions(worker, events)[at - 1] == (ActionModel::WriteManifest {
            name: worker.request.name(),
            text: worker.request.manifest_content(),
        }),
    decreases events.len(),
{
    if events.len() > 0 {
        let rest = events.drop_first();
        if accepts(worker.phase, events[0]) {
            let step = step_model(worker, events[0]);
            let tail = run_actions(step.worker, rest);
            if at > 0 {
                assert(run_actions(worker, events)[at] == tail[at - 1]);
                lemma_run_installs_after_persisting(step.worker, rest, at - 1);
                if at > 1 {
                    assert(run_actions(worker, events)[at - 1] == tail[at - 2]);
                }
            }
        } else {
            lemma_run_installs_after_persisting(worker, rest, at);
        }
    }
}

/// In every attempt the application is installed only directly after the
/// manifest text has been written: the action before `InstallApp` is always
/// `WriteManifest` with the request's slot and its manifest text unchanged,
/// and the worker leaves that action for the installation only when it
/// completed.
pub proof fn lemma_attempt_installs_after_persisting(
    request: RequestModel,
    version: Seq<char>,
    events: Seq<EventModel>,
    at: int,
)
    requires
        0 <= at < attempt_actions(request, version, events).len(),
        attempt_actions(request, version, events)[at] is InstallApp,
    ensures
        at > 0,
        attempt_actions(request, version, events)[at - 1] == (ActionModel::WriteManifest {
            name: request.name(),
            text: request.manifest_content(),
        }),
{
    let start = start_model(request, version);
    let tail = run_actions(start.worker, events);
    assert(at > 0);
    assert(attempt_actions(request, version, events)[at] == tail[at - 1]);
    lemma_run_installs_after_persisting(start.worker, events, at - 1);
    if at > 1 {
        assert(attempt_actions(request, version, events)[at - 1] == tail[at - 2]);
    }
}

/// A manifest that fails to parse ends the attempt on the spot: the step
/// sends the one `Error` message with the failure's text, and whatever events
/// follow, the worker asks for no further action, the installation of the
/// application among them, and sends nothing more.
pub proof fn lemma_parse_failure_ends_attempt(
    worker: WorkerModel,
    failure: Seq<char>,
    events: Seq<EventModel>,
)
    requires
        worker.phase == WorkerPhase::Parsing,
    ensures
        accepts(worker.phase, EventModel::Failed(failure)),
        step_model(worker, EventModel::Failed(failure)) == (StepModel {
            worker: WorkerModel { phase: WorkerPhase::Finished, ..worker },
            messages: seq![StatusModel::Error(failure)],
            action: ActionModel::Stop,
        }),
        run_actions(step_model(worker, EventModel::Failed(failure)).worker, events)
            == Seq::<ActionModel>::empty(),
        run_messages(step_model(worker, EventModel::Failed(failure)).worker, events)
            == Seq::<StatusModel>::empty(),
{
    lemma_finished_worker_is_silent(step_model(worker, EventModel::Failed(failure)).worker, events);
}

/// Any failure ends the attempt in the same way: one `Error` message that
/// carries the failure's text, then nothing.
pub proof fn lemma_failure_ends_attempt(
    worker: WorkerModel,
    failure: Seq<char>,
    events: Seq<EventModel>,
)
    requires
        accepts(worker.phase, EventModel::Failed(failure)),
    ensures
        run_messages(worker, seq![EventModel::Failed(failure)] + events) == seq![
            StatusModel::Error(failure),
        ],
        run_end(worker, seq![EventModel::Failed(failure)] + events).finished(),
{
    let all = seq![EventModel::Failed(failure)] + events;
    let next = step_model(worker, EventModel::Failed(failure)).worker;
    assert(all[0] == EventModel::Failed(failure));
    assert(all.drop_first() =~= events);
    lemma_finished_worker_is_silent(next, events);
    assert(seq![StatusModel::Error(failure)] + Seq::<StatusModel>::empty() =~= seq![
        StatusModel::Error(failure),
    ]);
}

/// A `Success` message of a run carries the text that belongs to the
/// worker's request and version.
pub proof fn lemma_run_success_text(worker: WorkerModel, events: Seq<EventModel>, at: int)
    requires
        0 <= at < run_messages(worker, events).len(),
        run_messages(worker, events)[at] is Success,
    ensures
        run_messages(worker, events)[at] == StatusModel::Success(
            success_text(worker.request, worker.version),
        ),
    decreases events.len(),
{
    if events.len() > 0 {
        let rest = events.drop_first();
        if accepts(worker.phase, events[0]) {
            let step = step_model(worker, events[0]);
            if at >= step.messages.len() {
                assert(run_messages(worker, events)[at] == run_messages(step.worker, rest)[at
                    - step.messages.len()]);
                lemma_run_success_text(step.worker, rest, at - step.messages.len());
            } else {
                assert(run_messages(worker, events)[at] == step.messages[at]);
            }
        } else {
            lemma_run_success_text(worker, rest, at);
        }
    }
}

/// Whatever the outcomes, a `Success` message of an attempt carries the text
/// of its request: after a self-install it contains the running version,
/// after an app-install the application's display name.
pub proof fn lemma_attempt_success_text(
    request: RequestModel,
    version: Seq<char>,
    events: Seq<EventModel>,
    at: int,
)
    requires
        0 <= at < attempt_messages(request, version, events).len(),
        attempt_messages(request, version, events)[at] is Success,
    ensures
        attempt_messages(request, version, events)[at] == StatusModel::Success(
            success_text(request, version),
        ),
        request is SelfInstall ==> contains(success_text(request, version), version),
        request is AppInstall ==> contains(success_text(request, version), request.display_name()),
{
    let start = start_model(request, version);
    assert(attempt_messages(request, version, events)[at] == run_messages(start.worker, events)[at
        - start.messages.len()]);
    lemma_run_success_text(start.worker, events, at - start.messages.len());
    if request is SelfInstall {
        lemma_self_success_names_version(version);
    } else {
        lemma_app_success_names_application(request, version);
    }
}

/// The `Success` text of a self-install contains the running version.
pub proof fn lemma_self_success_names_version(version: Seq<char>)
    ensures
        contains(success_text(RequestModel::SelfInstall, version), version),
{
    lemma_framed_contains(
        "Voidbox v"@,
        version,
        " has been installed successfully!\n\nYou can now use 'voidbox' from your terminal."@,
    );
}

/// The `Success` text of an app-install contains the application's display
/// name.
pub proof fn lemma_app_success_names_application(request: RequestModel, version: Seq<char>)
    requires
        request is AppInstall,
    ensures
        contains(success_text(request, version), request.display_name()),
{
    let name = request.display_name();
    let whole = success_text(request, version);
    assert(whole.subrange(0int, 0int + name.len()) =~= name);
}

} // verus!
