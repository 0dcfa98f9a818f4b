//! The install worker as a step machine.
//!
//! The worker carries one request to success or failure. It does none of the
//! outside work itself: each step takes the outcome of the action it asked for
//! last and answers with the status messages to send, in order, and the action
//! to perform next. A failure of any action ends the attempt at once with one
//! `Error` message; nothing is retried and nothing is undone.

use crate::request::InstallType;
use crate::request::RequestModel;
use crate::status::stream_view;
use crate::status::InstallStatus;
use crate::status::StatusModel;
use crate::status::FULL_PROGRESS;
use crate::text::frame;
use crate::text::framed;
use vstd::prelude::*;

verus! {

/// Where the worker stands: the action whose outcome it waits for.
#[derive(Clone, Copy, Debug, PartialEq, Eq, Structural)]
pub enum WorkerPhase {
    /// Self-install: the directories are being created.
    CreatingDirs,
    /// Self-install: the program is being copied to its place.
    CopyingBinary,
    /// App-install: the runtime's presence is being tested.
    CheckingRuntime,
    /// App-install, runtime absent: its directories are being created.
    RuntimeDirs,
    /// App-install, runtime absent: the program is being copied to its place.
    RuntimeCopy,
    /// App-install: the manifest text is being parsed.
    Parsing,
    /// App-install: the directories are being ensured before the manifest is kept.
    StorageDirs,
    /// App-install: the manifest text is being written to its place.
    Persisting,
    /// App-install: the application is being downloaded and extracted.
    InstallingApp,
    /// The attempt has ended; its terminal message has been handed out.
    Finished,
}

/// The outside work that the worker asks for.
#[derive(Clone, Debug, PartialEq, Eq)]
pub enum WorkerAction {
    /// Create the required directories; answered by `Completed` or `Failed`.
    EnsureDirs,
    /// Copy the running program to its install location; answered by
    /// `Completed` or `Failed`.
    InstallSelf,
    /// Test whether the runtime's install location exists; answered by
    /// `RuntimePresent`.
    CheckRuntime,
    /// Parse `text` as a manifest; answered by `Completed` or `Failed`.
    ParseManifest { text: String },
    /// Write `text`, as it is, to the manifest location of slot `name`;
    /// answered by `Completed` or `Failed`.
    WriteManifest { name: String, text: String },
    /// Install the application from the parsed manifest, passing `flag`;
    /// answered by `Completed` or `Failed`.
    InstallApp { flag: bool },
    /// Nothing more: the attempt has ended.
    Stop,
}

/// Mathematical value of a [`WorkerAction`].
pub enum ActionModel {
    EnsureDirs,
    InstallSelf,
    CheckRuntime,
    ParseManifest { text: Seq<char> },
    WriteManifest { name: Seq<char>, text: Seq<char> },
    InstallApp { flag: bool },
    Stop,
}

impl View for WorkerAction {
    type V = ActionModel;

    open spec fn view(&self) -> ActionModel {
        match *self {
            WorkerAction::EnsureDirs => ActionModel::EnsureDirs,
            WorkerAction::InstallSelf => ActionModel::InstallSelf,
            WorkerAction::CheckRuntime => ActionModel::CheckRuntime,
            WorkerAction::ParseManifest { text } => ActionModel::ParseManifest { text: text@ },
            WorkerAction::WriteManifest { name, text } => ActionModel::WriteManifest {
                name: name@,
                text: text@,
            },
            WorkerAction::InstallApp { flag } => ActionModel::InstallApp { flag },
            WorkerAction::Stop => ActionModel::Stop,
        }
    }
}

/// The outcome of the action that the worker asked for last.
#[derive(Clone, Debug, PartialEq, Eq)]
pub enum WorkerEvent {
    /// The action succeeded.
    Completed,
    /// The runtime test found the runtime present (`true`) or absent.
    RuntimePresent(bool),
    /// The action failed; the text describes the failure.
    Failed(String),
}

/// Mathematical value of a [`WorkerEvent`].
pub enum EventModel {
    Completed,
    RuntimePresent(bool),
    Failed(Seq<char>),
}

impl View for WorkerEvent {
    type V = EventModel;

    open spec fn view(&self) -> EventModel {
        match *self {
            WorkerEvent::Completed => EventModel::Completed,
            WorkerEvent::RuntimePresent(present) => EventModel::RuntimePresent(present),
            WorkerEvent::Failed(text) => EventModel::Failed(text@),
        }
    }
}

/// What one step hands out: the messages to send, oldest first, and the
/// action to perform next.
#[derive(Clone, Debug, PartialEq, Eq)]
pub struct WorkerOutput {
    pub messages: Vec<InstallStatus>,
    pub action: WorkerAction,
}

/// Mathematical value of a [`Worker`].
pub struct WorkerModel {
    pub request: RequestModel,
    pub version: Seq<char>,
    pub phase: WorkerPhase,
}

/// Mathematical value of one step: the worker after it and what it handed out.
pub struct StepModel {
    pub worker: WorkerModel,
    pub messages: Seq<StatusModel>,
    pub action: ActionModel,
}

/// The phase belongs to the sequence of steps of the request's kind.
pub open spec fn phase_fits(request: RequestModel, phase: WorkerPhase) -> bool {
    match request {
        RequestModel::SelfInstall => phase == WorkerPhase::CreatingDirs || phase
            == WorkerPhase::CopyingBinary || phase == WorkerPhase::Finished,
        RequestModel::AppInstall { .. } => phase != WorkerPhase::CreatingDirs && phase
            != WorkerPhase::CopyingBinary,
    }
}

impl WorkerModel {
    /// The worker's phase fits its request.
    pub open spec fn fits(self) -> bool {
        phase_fits(self.request, self.phase)
    }

    /// The attempt has ended.
    pub open spec fn finished(self) -> bool {
        self.phase == WorkerPhase::Finished
    }
}

/// The phase in which an attempt begins.
pub open spec fn first_phase(request: RequestModel) -> WorkerPhase {
    match request {
        RequestModel::SelfInstall => WorkerPhase::CreatingDirs,
        RequestModel::AppInstall { .. } => WorkerPhase::CheckingRuntime,
    }
}

/// Whether `event` answers the action that `phase` waits for.
pub open spec fn accepts(phase: WorkerPhase, event: EventModel) -> bool {
    match phase {
        WorkerPhase::Finished => false,
        WorkerPhase::CheckingRuntime => event is RuntimePresent,
        _ => event is Completed || event is Failed,
    }
}

/// The phase after an accepted event. A failure ends the attempt; a present
/// runtime skips the two steps that install it.
pub open spec fn next_phase(phase: WorkerPhase, event: EventModel) -> WorkerPhase {
    match event {
        EventModel::Failed(_) => WorkerPhase::Finished,
        EventModel::RuntimePresent(present) => if present {
            WorkerPhase::Parsing
        } else {
            WorkerPhase::RuntimeDirs
        },
        EventModel::Completed => match phase {
            WorkerPhase::CreatingDirs => WorkerPhase::CopyingBinary,
            WorkerPhase::CopyingBinary => WorkerPhase::Finished,
            WorkerPhase::CheckingRuntime => WorkerPhase::CheckingRuntime,
            WorkerPhase::RuntimeDirs => WorkerPhase::RuntimeCopy,
            WorkerPhase::RuntimeCopy => WorkerPhase::Parsing,
            WorkerPhase::Parsing => WorkerPhase::StorageDirs,
            WorkerPhase::StorageDirs => WorkerPhase::Persisting,
            WorkerPhase::Persisting => WorkerPhase::InstallingApp,
            WorkerPhase::InstallingApp => WorkerPhase::Finished,
            WorkerPhase::Finished => WorkerPhase::Finished,
        },
    }
}

/// The progress, in hundredths of the whole, that has been reported once the
/// worker stands in `phase`.
pub open spec fn progress_of(phase: WorkerPhase) -> nat {
    match phase {
        WorkerPhase::CreatingDirs => 10,
        WorkerPhase::CopyingBinary => 50,
        WorkerPhase::CheckingRuntime => 10,
        WorkerPhase::RuntimeDirs => 20,
        WorkerPhase::RuntimeCopy => 20,
        WorkerPhase::Parsing => 30,
        WorkerPhase::StorageDirs => 30,
        WorkerPhase::Persisting => 30,
        WorkerPhase::InstallingApp => 50,
        WorkerPhase::Finished => FULL_PROGRESS as nat,
    }
}

/// An upper bound on the accepted events that can still follow in `phase`.
pub open spec fn steps_left(phase: WorkerPhase) -> nat {
    match phase {
        WorkerPhase::CreatingDirs => 2,
        WorkerPhase::CopyingBinary => 1,
        WorkerPhase::CheckingRuntime => 7,
        WorkerPhase::RuntimeDirs => 6,
        WorkerPhase::RuntimeCopy => 5,
        WorkerPhase::Parsing => 4,
        WorkerPhase::StorageDirs => 3,
        WorkerPhase::Persisting => 2,
        WorkerPhase::InstallingApp => 1,
        WorkerPhase::Finished => 0,
    }
}

/// The text of the `Success` message: for a self-install it names the running
/// version and says how to use the program, for an app-install it names the
/// application.
pub open spec fn success_text(request: RequestModel, version: Seq<char>) -> Seq<char> {
    match request {
        RequestModel::SelfInstall => framed(
            "Voidbox v"@,
            version,
            " has been installed successfully!\n\nYou can now use 'voidbox' from your terminal."@,
        ),
        RequestModel::AppInstall { display_name, .. } => display_name
            + " has been installed successfully!"@,
    }
}

/// The status text that announces `phase`, for the phases that announce
/// themselves.
pub open spec fn phase_text(request: RequestModel, phase: WorkerPhase) -> Seq<char> {
    match phase {
        WorkerPhase::CreatingDirs => "Creating directories..."@,
        WorkerPhase::CopyingBinary => "Copying binary..."@,
        WorkerPhase::CheckingRuntime => framed(
            "Preparing to install "@,
            request.display_name(),
            "..."@,
        ),
        WorkerPhase::RuntimeDirs => "Installing Voidbox runtime..."@,
        WorkerPhase::Parsing => "Parsing manifest..."@,
        WorkerPhase::InstallingApp => "Downloading and extracting..."@,
        _ => "Done!"@,
    }
}

/// Whether entering `phase` is reported by a progress message.
pub open spec fn announced(phase: WorkerPhase) -> bool {
    phase != WorkerPhase::RuntimeCopy && phase != WorkerPhase::StorageDirs && phase
        != WorkerPhase::Persisting
}

/// The messages sent when the worker enters `phase` after a success: the
/// phase's progress message, if it has one, and at the end of the attempt the
/// `Success` message after it.
pub open spec fn entering(request: RequestModel, version: Seq<char>, phase: WorkerPhase) -> Seq<
    StatusModel,
> {
    if phase == WorkerPhase::Finished {
        seq![
            StatusModel::Progress(progress_of(phase), phase_text(request, phase)),
            StatusModel::Success(success_text(request, version)),
        ]
    } else if announced(phase) {
        seq![StatusModel::Progress(progress_of(phase), phase_text(request, phase))]
    } else {
        Seq::empty()
    }
}

/// The action whose outcome the worker waits for in `phase`.
pub open spec fn awaited(request: RequestModel, phase: WorkerPhase) -> ActionModel {
    match phase {
        WorkerPhase::CreatingDirs => ActionModel::EnsureDirs,
        WorkerPhase::CopyingBinary => ActionModel::InstallSelf,
        WorkerPhase::CheckingRuntime => ActionModel::CheckRuntime,
        WorkerPhase::RuntimeDirs => ActionModel::EnsureDirs,
        WorkerPhase::RuntimeCopy => ActionModel::InstallSelf,
        WorkerPhase::Parsing => ActionModel::ParseManifest { text: request.manifest_content() },
        WorkerPhase::StorageDirs => ActionModel::EnsureDirs,
        WorkerPhase::Persisting => ActionModel::WriteManifest {
            name: request.name(),
            text: request.manifest_content(),
        },
        WorkerPhase::InstallingApp => ActionModel::InstallApp { flag: false },
        WorkerPhase::Finished => ActionModel::Stop,
    }
}

/// Whether `event` is an outcome that `action` can have: the runtime test
/// says whether the runtime is present, every other action completes or
/// fails, and `Stop` has no outcome.
pub open spec fn answers(action: ActionModel, event: EventModel) -> bool {
    match action {
        ActionModel::Stop => false,
        ActionModel::CheckRuntime => event is RuntimePresent,
        _ => event is Completed || event is Failed,
    }
}

/// The beginning of an attempt: the first progress message and the first
/// action.
pub open spec fn start_model(request: RequestModel, version: Seq<char>) -> StepModel {
    let phase = first_phase(request);
    StepModel {
        worker: WorkerModel { request, version, phase },
        messages: entering(request, version, phase),
        action: awaited(request, phase),
    }
}

/// One step on an accepted event. A failure is reported by one `Error`
/// message that carries the failure's text; a success by the messages of the
/// phase that is entered.
pub open spec fn step_model(worker: WorkerModel, event: EventModel) -> StepModel {
    let phase = next_phase(worker.phase, event);
    StepModel {
        worker: WorkerModel { phase, ..worker },
        messages: match event {
            EventModel::Failed(text) => seq![StatusModel::Error(text)],
            _ => entering(worker.request, worker.version, phase),
        },
        action: awaited(worker.request, phase),
    }
}

/// The worker of one installation attempt.
pub struct Worker {
    request: InstallType,
    version: String,
    phase: WorkerPhase,
}

impl View for Worker {
    type V = WorkerModel;

    closed spec fn view(&self) -> WorkerModel {
        WorkerModel { request: self.request@, version: self.version@, phase: self.phase }
    }
}

impl WorkerPhase {
    /// The progress that has been reported once the worker stands here.
    pub fn progress(self) -> (percent: u8)
        ensures
            percent == progress_of(self),
            percent <= FULL_PROGRESS,
    {
        match self {
            WorkerPhase::CreatingDirs => 10,
            WorkerPhase::CopyingBinary => 50,
            WorkerPhase::CheckingRuntime => 10,
            WorkerPhase::RuntimeDirs => 20,
            WorkerPhase::RuntimeCopy => 20,
            WorkerPhase::Parsing => 30,
            WorkerPhase::StorageDirs => 30,
            WorkerPhase::Persisting => 30,
            WorkerPhase::InstallingApp => 50,
            WorkerPhase::Finished => FULL_PROGRESS,
        }
    }

    /// The phase after `event`, or `None` where `event` does not answer the
    /// action that this phase waits for.
    pub fn after(self, event: &WorkerEvent) -> (next: Option<WorkerPhase>)
        ensures
            next == if accepts(self, event@) {
                Some(next_phase(self, event@))
            } else {
                None
            },
    {
        match self {
            WorkerPhase::Finished => None,
            WorkerPhase::CheckingRuntime => match event {
                WorkerEvent::RuntimePresent(true) => Some(WorkerPhase::Parsing),
                WorkerEvent::RuntimePresent(false) => Some(WorkerPhase::RuntimeDirs),
                _ => None,
            },
            _ => match event {
                WorkerEvent::RuntimePresent(_) => None,
                WorkerEvent::Failed(_) => Some(WorkerPhase::Finished),
                WorkerEvent::Completed => Some(
                    match self {
                        WorkerPhase::CreatingDirs => WorkerPhase::CopyingBinary,
                        WorkerPhase::RuntimeDirs => WorkerPhase::RuntimeCopy,
                        WorkerPhase::RuntimeCopy => WorkerPhase::Parsing,
                        WorkerPhase::Parsing => WorkerPhase::StorageDirs,
                        WorkerPhase::StorageDirs => WorkerPhase::Persisting,
                        WorkerPhase::Persisting => WorkerPhase::InstallingApp,
                        _ => WorkerPhase::Finished,
                    },
                ),
            },
        }
    }
}

/// The text of the `Success` message.
fn success_message(request: &InstallType, version: &str) -> (text: String)
    ensures
        text@ == success_text(request@, version@),
{
    match request {
        InstallType::SelfInstall => frame(
            "Voidbox v",
            version,
            " has been installed successfully!\n\nYou can now use 'voidbox' from your terminal.",
        ),
        InstallType::AppInstall { display_name, .. } => {
            let mut text = display_name.clone();
            text.append(" has been installed successfully!");
            text
        },
    }
}

/// The status text that announces `phase`.
fn phase_message(request: &InstallType, phase: WorkerPhase) -> (text: String)
    ensures
        text@ == phase_text(request@, phase),
{
    match phase {
        WorkerPhase::CreatingDirs => String::from_str("Creating directories..."),
        WorkerPhase::CopyingBinary => String::from_str("Copying binary..."),
        WorkerPhase::CheckingRuntime => frame(
            "Preparing to install ",
            request.display_name(),
            "...",
        ),
        WorkerPhase::RuntimeDirs => String::from_str("Installing Voidbox runtime..."),
        WorkerPhase::Parsing => String::from_str("Parsing manifest..."),
        WorkerPhase::InstallingApp => String::from_str("Downloading and extracting..."),
        _ => String::from_str("Done!"),
    }
}

/// The messages sent when the worker enters `phase` after a success.
fn entering_messages(request: &InstallType, version: &str, phase: WorkerPhase) -> (messages: Vec<
    InstallStatus,
>)
    ensures
        stream_view(messages@) == entering(request@, version@, phase),
{
    let mut messages: Vec<InstallStatus> = Vec::new();
    match phase {
        WorkerPhase::RuntimeCopy | WorkerPhase::StorageDirs | WorkerPhase::Persisting => {},
        WorkerPhase::Finished => {
            messages.push(InstallStatus::Progress(phase.progress(), phase_message(request, phase)));
            messages.push(InstallStatus::Success(success_message(request, version)));
        },
        _ => {
            messages.push(InstallStatus::Progress(phase.progress(), phase_message(request, phase)));
        },
    }
    assert(stream_view(messages@) =~= entering(request@, version@, phase));
    messages
}

/// The action whose outcome the worker waits for in `phase`.
fn awaited_action(request: &InstallType, phase: WorkerPhase) -> (action: WorkerAction)
    ensures
        action@ == awaited(request@, phase),
{
    match phase {
        WorkerPhase::CreatingDirs | WorkerPhase::RuntimeDirs | WorkerPhase::StorageDirs => {
            WorkerAction::EnsureDirs
        },
        WorkerPhase::CopyingBinary | WorkerPhase::RuntimeCopy => WorkerAction::InstallSelf,
        WorkerPhase::CheckingRuntime => WorkerAction::CheckRuntime,
        WorkerPhase::Parsing => WorkerAction::ParseManifest {
            text: String::from_str(request.manifest_content()),
        },
        WorkerPhase::Persisting => WorkerAction::WriteManifest {
            name: String::from_str(request.name()),
            text: String::from_str(request.manifest_content()),
        },
        WorkerPhase::InstallingApp => WorkerAction::InstallApp { flag: false },
        WorkerPhase::Finished => WorkerAction::Stop,
    }
}

impl Worker {
    #[verifier::type_invariant]
    spec fn consistent(&self) -> bool {
        phase_fits(self.request@, self.phase)
    }

    /// Begins the attempt for `request`, run by the program of the given
    /// `version`: the worker, with its first progress message and its first
    /// action.
    pub fn start(request: InstallType, version: String) -> (begun: (Worker, WorkerOutput))
        ensures
            begun.0@ == start_model(request@, version@).worker,
            stream_view(begun.1.messages@) == start_model(request@, version@).messages,
            begun.1.action@ == start_model(request@, version@).action,
            begun.0@.fits(),
    {
        let phase = match request {
            InstallType::SelfInstall => WorkerPhase::CreatingDirs,
            InstallType::AppInstall { .. } => WorkerPhase::CheckingRuntime,
        };
        let messages = entering_messages(&request, version.as_str(), phase);
        let action = awaited_action(&request, phase);
        (Worker { request, version, phase }, WorkerOutput { messages, action })
    }

    /// Takes the outcome of the last action. Where `event` answers the action
    /// that the worker waits for, the worker moves on and hands out the
    /// messages to send and the next action; any other event, and every event
    /// after the end of the attempt, is refused with `None` and changes
    /// nothing. An accepted event brings the end of the attempt nearer.
    pub fn step(&mut self, event: WorkerEvent) -> (out: Option<WorkerOutput>)
        ensures
            final(self)@.fits(),
            match out {
                Some(output) => {
                    &&& accepts(old(self)@.phase, event@)
                    &&& final(self)@ == step_model(old(self)@, event@).worker
                    &&& stream_view(output.messages@) == step_model(old(self)@, event@).messages
                    &&& output.action@ == step_model(old(self)@, event@).action
                    &&& steps_left(final(self)@.phase) < steps_left(old(self)@.phase)
                },
                None => !accepts(old(self)@.phase, event@) && final(self)@ == old(self)@,
            },
    {
        proof {
            use_type_invariant(&*self);
        }
        match self.phase.after(&event) {
            None => None,
            Some(next) => {
                let messages = match event {
                    WorkerEvent::Failed(text) => {
                        let mut messages: Vec<InstallStatus> = Vec::new();
                        messages.push(InstallStatus::Error(text));
                        assert(stream_view(messages@) =~= seq![StatusModel::Error(text@)]);
                        messages
                    },
                    _ => entering_messages(&self.request, self.version.as_str(), next),
                };
                let action = awaited_action(&self.request, next);
                self.phase = next;
                Some(WorkerOutput { messages, action })
            },
        }
    }

    /// The phase in which the worker stands.
    pub fn phase(&self) -> (phase: WorkerPhase)
        ensures
            phase == self@.phase,
    {
        self.phase
    }

    /// Whether the attempt has ended.
    pub fn is_finished(&self) -> (yes: bool)
        ensures
            yes == self@.finished(),
    {
        match self.phase {
            WorkerPhase::Finished => true,
            _ => false,
        }
    }

    /// The request that this worker carries out.
    pub fn request(&self) -> (request: &InstallType)
        ensures
            request@ == self@.request,
    {
        &self.request
    }
}

} // verus!
