//! Whole flows of the coordinator: its state over any sequence of button
//! presses and status messages, and what holds of every such flow.

use crate::attempt::attempt_end;
use crate::attempt::attempt_messages;
use crate::attempt::lemma_attempt_keeps_protocol;
use crate::coordinator::after_press;
use crate::coordinator::after_status;
use crate::coordinator::after_stream;
use crate::coordinator::press_effect;
use crate::coordinator::started_state;
use crate::coordinator::Button;
use crate::coordinator::EffectModel;
use crate::coordinator::StateModel;
use crate::coordinator::EXIT_FAILED;
use crate::coordinator::EXIT_OK;
use crate::request::RequestModel;
use crate::status::lemma_well_formed_terminal_count;
use crate::status::stream_well_formed;
use crate::status::StatusModel;
use crate::worker::EventModel;
use vstd::prelude::*;

verus! {

/// One thing that reaches the coordinator: a button press of the user or a
/// status message of the worker.
pub enum InputModel {
    Press(Button),
    Status(StatusModel),
}

/// The state after one input.
pub open spec fn after_input(state: StateModel, input: InputModel) -> StateModel {
    match input {
        InputModel::Press(button) => after_press(state, button),
        InputModel::Status(status) => after_status(state, status),
    }
}

/// What one input asks of the caller; a status message asks nothing.
pub open spec fn input_effect(request: RequestModel, state: StateModel, input: InputModel)
    -> EffectModel {
    match input {
        InputModel::Press(button) => press_effect(request, state, button),
        InputModel::Status(_) => EffectModel::Nothing,
    }
}

/// The state after `inputs`, taken in order.
pub open spec fn after_inputs(state: StateModel, inputs: Seq<InputModel>) -> StateModel
    decreases inputs.len(),
{
    if inputs.len() == 0 {
        state
    } else {
        after_inputs(after_input(state, inputs[0]), inputs.drop_first())
    }
}

/// How many workers the coordinator asks for over `inputs`.
pub open spec fn spawn_count(request: RequestModel, state: StateModel, inputs: Seq<InputModel>)
    -> nat
    decreases inputs.len(),
{
    if inputs.len() == 0 {
        0
    } else {
        let spawned: nat = if input_effect(request, state, inputs[0]) is Spawn {
            1
        } else {
            0
        };
        spawned + spawn_count(request, after_input(state, inputs[0]), inputs.drop_first())
    }
}

/// The confirmation is left only for `Installing` at zero progress, only by
/// a press of `Install`, and exactly then a worker is asked for, with the
/// flow's request.
pub proof fn lemma_confirmation_is_left_by_install(
    request: RequestModel,
    state: StateModel,
    input: InputModel,
)
    ensures
        state is Confirmation && input == InputModel::Press(Button::Install) ==> after_input(
            state,
            input,
        ) == started_state(),
        state is Confirmation && input != InputModel::Press(Button::Install) ==> after_input(
            state,
            input,
        ) == state,
        input_effect(request, state, input) is Spawn <==> state is Confirmation && input
            == InputModel::Press(Button::Install),
        input_effect(request, state, input) is Spawn ==> input_effect(request, state, input)
            == EffectModel::Spawn(request),
{
}

/// A flow that has left the confirmation never comes back to it and never
/// asks for a worker.
pub proof fn lemma_confirmation_is_not_entered(
    request: RequestModel,
    state: StateModel,
    inputs: Seq<InputModel>,
)
    requires
        !(state is Confirmation),
    ensures
        !(after_inputs(state, inputs) is Confirmation),
        spawn_count(request, state, inputs) == 0,
    decreases inputs.len(),
{
    if inputs.len() > 0 {
        lemma_confirmation_is_not_entered(
            request,
            after_input(state, inputs[0]),
            inputs.drop_first(),
        );
    }
}

/// Whatever reaches the coordinator, in whatever order, it asks for at most
/// one worker.
pub proof fn lemma_at_most_one_spawn(
    request: RequestModel,
    state: StateModel,
    inputs: Seq<InputModel>,
)
    ensures
        spawn_count(request, state, inputs) <= 1,
    decreases inputs.len(),
{
    if inputs.len() > 0 {
        let next = after_input(state, inputs[0]);
        if input_effect(request, state, inputs[0]) is Spawn {
            lemma_confirmation_is_not_entered(request, next, inputs.drop_first());
        } else {
            lemma_at_most_one_spawn(request, next, inputs.drop_first());
        }
    }
}

/// `Done` and `Error` are kept until the process ends: no press and no
/// message, a late progress message among them, changes a terminal state.
pub proof fn lemma_terminal_state_is_kept(state: StateModel, inputs: Seq<InputModel>)
    requires
        state.is_terminal(),
    ensures
        after_inputs(state, inputs) == state,
    decreases inputs.len(),
{
    if inputs.len() > 0 {
        lemma_terminal_state_is_kept(state, inputs.drop_first());
    }
}

/// The progress shown never leaves the whole while every progress message
/// that arrives lies within it.
pub proof fn lemma_progress_stays_in_range(state: StateModel, inputs: Seq<InputModel>)
    requires
        state.in_range(),
        forall|i: int|
            0 <= i < inputs.len() && (#[trigger] inputs[i]) is Status
                ==> inputs[i]->Status_0.in_range(),
    ensures
        after_inputs(state, inputs).in_range(),
    decreases inputs.len(),
{
    if inputs.len() > 0 {
        let rest = inputs.drop_first();
        assert forall|i: int| 0 <= i < rest.len() && (#[trigger] rest[i]) is Status implies rest[i]
            ->Status_0.in_range() by {
            assert(rest[i] == inputs[i + 1]);
        }
        assert(inputs[0] is Status ==> inputs[0]->Status_0.in_range());
        lemma_progress_stays_in_range(after_input(state, inputs[0]), rest);
    }
}

/// Cancelling at the confirmation asks for exit code 0, asks for no worker
/// and leaves the state; closing asks for exit code 0 after a success and 1
/// after a failure.
pub proof fn lemma_exit_codes(request: RequestModel, state: StateModel)
    ensures
        state is Confirmation ==> press_effect(request, state, Button::Cancel)
            == EffectModel::Exit(EXIT_OK as int) && after_press(state, Button::Cancel) == state,
        state is Done ==> press_effect(request, state, Button::Close) == EffectModel::Exit(
            EXIT_OK as int,
        ),
        state is Error ==> press_effect(request, state, Button::Close) == EffectModel::Exit(
            EXIT_FAILED as int,
        ),
        state is Installing ==> forall|button: Button|
            press_effect(request, state, button) == EffectModel::Nothing,
{
}

/// Messages may arrive over any number of ticks: taking one batch and then
/// another gives the state that taking them as one batch gives.
pub proof fn lemma_batches_join(
    state: StateModel,
    first: Seq<StatusModel>,
    second: Seq<StatusModel>,
)
    ensures
        after_stream(after_stream(state, first), second) == after_stream(state, first + second),
    decreases second.len(),
{
    if second.len() == 0 {
        assert(first + second =~= first);
    } else {
        lemma_batches_join(state, first, second.drop_last());
        assert((first + second).drop_last() =~= first + second.drop_last());
        assert((first + second).last() == second.last());
    }
}

/// While installing, a stream that keeps the protocol leaves the state that
/// its last message alone gives: within one batch a later message supersedes
/// the earlier ones.
pub proof fn lemma_last_message_decides(state: StateModel, stream: Seq<StatusModel>)
    requires
        state is Installing,
        stream_well_formed(stream),
        stream.len() > 0,
    ensures
        after_stream(state, stream) == after_status(state, stream.last()),
        after_stream(state, stream.drop_last()) is Installing,
    decreases stream.len(),
{
    let front = stream.drop_last();
    assert forall|i: int| 0 <= i < front.len() implies !(#[trigger] front[i]).is_terminal() by {
        assert(front[i] == stream[i]);
    }
    lemma_progress_keeps_installing(state, front);
}

/// While installing, progress messages alone keep the coordinator
/// installing.
pub proof fn lemma_progress_keeps_installing(state: StateModel, stream: Seq<StatusModel>)
    requires
        state is Installing,
        forall|i: int| 0 <= i < stream.len() ==> !(#[trigger] stream[i]).is_terminal(),
    ensures
        after_stream(state, stream) is Installing,
    decreases stream.len(),
{
    if stream.len() > 0 {
        let front = stream.drop_last();
        assert forall|i: int| 0 <= i < front.len() implies !(#[trigger] front[i]).is_terminal() by {
            assert(front[i] == stream[i]);
        }
        lemma_progress_keeps_installing(state, front);
        assert(!stream[stream.len() - 1].is_terminal());
    }
}

/// A coordinator that has started an attempt and has taken all of its
/// messages so far stands at a terminal state exactly when the attempt has
/// ended, and is installing otherwise: it sees no progress after the
/// terminal message, and it sees a success or a failure only when the worker
/// has sent one.
pub proof fn lemma_flow_follows_attempt(
    request: RequestModel,
    version: Seq<char>,
    events: Seq<EventModel>,
)
    ensures
        after_stream(started_state(), attempt_messages(request, version, events)).is_terminal()
            <==> attempt_end(request, version, events).finished(),
        !attempt_end(request, version, events).finished() ==> after_stream(
            started_state(),
            attempt_messages(request, version, events),
        ) is Installing,
        after_stream(started_state(), attempt_messages(request, version, events)) == after_status(
            started_state(),
            attempt_messages(request, version, events).last(),
        ),
{
    let stream = attempt_messages(request, version, events);
    lemma_attempt_keeps_protocol(request, version, events);
    lemma_well_formed_terminal_count(stream);
    lemma_last_message_decides(started_state(), stream);
}

} // verus!
