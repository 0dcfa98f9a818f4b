//! Status messages and the protocol of the stream that carries them.

use vstd::prelude::*;

verus! {

/// Highest progress value: the installation is complete.
pub const FULL_PROGRESS: u8 = 100;

/// One message from the worker to the coordinator.
#[derive(Clone, Debug, PartialEq, Eq)]
pub enum InstallStatus {
    /// A milestone: progress in hundredths of the whole, and a status text.
    Progress(u8, String),
    /// The installation succeeded. Ends the stream.
    Success(String),
    /// The installation failed. Ends the stream.
    Error(String),
}

/// Mathematical value of an [`InstallStatus`].
pub enum StatusModel {
    Progress(nat, Seq<char>),
    Success(Seq<char>),
    Error(Seq<char>),
}

impl View for InstallStatus {
    type V = StatusModel;

    open spec fn view(&self) -> StatusModel {
        match *self {
            InstallStatus::Progress(percent, text) => StatusModel::Progress(percent as nat, text@),
            InstallStatus::Success(text) => StatusModel::Success(text@),
            InstallStatus::Error(text) => StatusModel::Error(text@),
        }
    }
}

/// The values of a sequence of messages, in order.
pub open spec fn stream_view(messages: Seq<InstallStatus>) -> Seq<StatusModel> {
    messages.map_values(|m: InstallStatus| m@)
}

impl StatusModel {
    /// A terminal message ends an installation attempt.
    pub open spec fn is_terminal(self) -> bool {
        self is Success || self is Error
    }

    /// A progress message stays within the whole.
    pub open spec fn in_range(self) -> bool {
        self is Progress ==> self->Progress_0 <= FULL_PROGRESS
    }
}

/// No progress message of `stream` reports less than `floor`.
pub open spec fn progress_at_least(stream: Seq<StatusModel>, floor: nat) -> bool {
    forall|i: int|
        0 <= i < stream.len() && (#[trigger] stream[i]) is Progress ==> floor
            <= stream[i]->Progress_0
}

/// No progress message of `stream` reports more than `cap`.
pub open spec fn progress_at_most(stream: Seq<StatusModel>, cap: nat) -> bool {
    forall|i: int|
        0 <= i < stream.len() && (#[trigger] stream[i]) is Progress ==> stream[i]->Progress_0
            <= cap
}

/// No message of `stream` is terminal.
pub open spec fn no_terminal(stream: Seq<StatusModel>) -> bool {
    forall|i: int| 0 <= i < stream.len() ==> !(#[trigger] stream[i]).is_terminal()
}

/// Progress never goes back along `stream`.
pub open spec fn progress_monotone(stream: Seq<StatusModel>) -> bool {
    forall|i: int, j: int|
        0 <= i < j < stream.len() && (#[trigger] stream[i]) is Progress && (
        #[trigger] stream[j]) is Progress ==> stream[i]->Progress_0 <= stream[j]->Progress_0
}

/// Nothing follows a terminal message in `stream`.
pub open spec fn ends_at_terminal(stream: Seq<StatusModel>) -> bool {
    forall|i: int|
        0 <= i < stream.len() && (#[trigger] stream[i]).is_terminal() ==> i == stream.len() - 1
}

/// The protocol of one installation attempt: every progress value lies within
/// the whole, progress never goes back, and a terminal message is the last.
pub open spec fn stream_well_formed(stream: Seq<StatusModel>) -> bool {
    &&& forall|i: int| 0 <= i < stream.len() ==> (#[trigger] stream[i]).in_range()
    &&& progress_monotone(stream)
    &&& ends_at_terminal(stream)
}

/// How many terminal messages `stream` holds.
pub open spec fn terminal_count(stream: Seq<StatusModel>) -> nat
    decreases stream.len(),
{
    if stream.len() == 0 {
        0
    } else {
        terminal_count(stream.drop_last()) + if stream.last().is_terminal() {
            1nat
        } else {
            0nat
        }
    }
}

/// A stream that keeps the protocol holds at most one terminal message, and
/// holds one exactly when its last message is terminal.
pub proof fn lemma_well_formed_terminal_count(stream: Seq<StatusModel>)
    requires
        stream_well_formed(stream),
    ensures
        terminal_count(stream) <= 1,
        terminal_count(stream) == 1 <==> stream.len() > 0 && stream.last().is_terminal(),
    decreases stream.len(),
{
    if stream.len() > 0 {
        let front = stream.drop_last();
        assert forall|i: int| 0 <= i < front.len() implies !(#[trigger] front[i]).is_terminal() by {
            assert(front[i] == stream[i]);
        }
        lemma_no_terminal_count(front);
    }
}

/// A stream without terminal messages counts none.
pub proof fn lemma_no_terminal_count(stream: Seq<StatusModel>)
    requires
        no_terminal(stream),
    ensures
        terminal_count(stream) == 0,
    decreases stream.len(),
{
    if stream.len() > 0 {
        let front = stream.drop_last();
        assert forall|i: int| 0 <= i < front.len() implies !(#[trigger] front[i]).is_terminal() by {
            assert(front[i] == stream[i]);
        }
        lemma_no_terminal_count(front);
    }
}

/// Two streams that keep the protocol join into one that keeps it, where the
/// first stays at or below a progress value that the second never goes under,
/// and the second is empty unless the first holds no terminal message.
pub proof fn lemma_stream_append(front: Seq<StatusModel>, back: Seq<StatusModel>, middle: nat)
    requires
        stream_well_formed(front),
        stream_well_formed(back),
        progress_at_most(front, middle),
        progress_at_least(back, middle),
        back.len() > 0 ==> no_terminal(front),
    ensures
        stream_well_formed(front + back),
{
    let whole = front + back;
    assert forall|i: int| 0 <= i < whole.len() implies (#[trigger] whole[i]).in_range() by {
        if i < front.len() {
            assert(whole[i] == front[i]);
        } else {
            assert(whole[i] == back[i - front.len()]);
        }
    }
    assert forall|i: int, j: int|
        0 <= i < j < whole.len() && (#[trigger] whole[i]) is Progress && (
        #[trigger] whole[j]) is Progress implies whole[i]->Progress_0
        <= whole[j]->Progress_0 by {
        if j < front.len() {
            assert(whole[i] == front[i] && whole[j] == front[j]);
        } else if i < front.len() {
            assert(whole[i] == front[i] && whole[j] == back[j - front.len()]);
        } else {
            assert(whole[i] == back[i - front.len()] && whole[j] == back[j - front.len()]);
        }
    }
    assert forall|i: int|
        0 <= i < whole.len() && (#[trigger] whole[i]).is_terminal() implies i == whole.len()
        - 1 by {
        if i < front.len() {
            assert(whole[i] == front[i]);
        } else {
            assert(whole[i] == back[i - front.len()]);
        }
    }
}

impl InstallStatus {
    /// Whether this message ends the attempt.
    pub fn is_terminal(&self) -> (yes: bool)
        ensures
            yes == self@.is_terminal(),
    {
        match self {
            InstallStatus::Progress(_, _) => false,
            InstallStatus::Success(_) => true,
            InstallStatus::Error(_) => true,
        }
    }

    /// Whether this message keeps its progress value within the whole.
    pub fn in_range(&self) -> (yes: bool)
        ensures
            yes == self@.in_range(),
    {
        match self {
            InstallStatus::Progress(percent, _) => *percent <= FULL_PROGRESS,
            _ => true,
        }
    }
}

} // verus!
