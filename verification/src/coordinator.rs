//! The coordinator: the foreground state machine of one installation flow.
//!
//! It starts at the confirmation, moves to `Installing` when the user
//! confirms, follows the worker's status messages while installing, and stays
//! at `Done` or `Error` once a terminal message has arrived. Leaving the
//! process is not done here: a button press answers with the [`Effect`] that
//! the caller is to carry out.

use crate::request::InstallType;
use crate::request::RequestModel;
use crate::status::stream_view;
use crate::status::InstallStatus;
use crate::status::StatusModel;
use crate::status::FULL_PROGRESS;
use crate::text::frame;
use crate::text::framed;
use vstd::prelude::*;

verus! {

/// Exit code after a cancelled or a successful flow.
pub const EXIT_OK: i32 = 0;

/// Exit code after a failed installation.
pub const EXIT_FAILED: i32 = 1;

/// What the coordinator currently shows.
#[derive(Clone, Debug, PartialEq, Eq)]
pub enum InstallerState {
    /// Waiting for the user to confirm or cancel.
    Confirmation,
    /// The worker is running; progress in hundredths of the whole.
    Installing { progress: u8, message: String },
    /// The installation succeeded.
    Done { message: String },
    /// The installation failed.
    Error { message: String },
}

/// Mathematical value of an [`InstallerState`].
pub enum StateModel {
    Confirmation,
    Installing { progress: nat, message: Seq<char> },
    Done { message: Seq<char> },
    Error { message: Seq<char> },
}

impl View for InstallerState {
    type V = StateModel;

    open spec fn view(&self) -> StateModel {
        match *self {
            InstallerState::Confirmation => StateModel::Confirmation,
            InstallerState::Installing { progress, message } => StateModel::Installing {
                progress: progress as nat,
                message: message@,
            },
            InstallerState::Done { message } => StateModel::Done { message: message@ },
            InstallerState::Error { message } => StateModel::Error { message: message@ },
        }
    }
}

impl StateModel {
    /// `Done` and `Error` are the terminal states.
    pub open spec fn is_terminal(self) -> bool {
        self is Done || self is Error
    }

    /// The progress shown while installing lies within the whole.
    pub open spec fn in_range(self) -> bool {
        self is Installing ==> self->progress <= FULL_PROGRESS
    }
}

/// A button of the view.
#[derive(Clone, Copy, Debug, PartialEq, Eq, Structural)]
pub enum Button {
    /// Confirm the installation.
    Install,
    /// Leave before the installation starts.
    Cancel,
    /// Acknowledge the result.
    Close,
}

/// The caption of a button.
pub open spec fn button_text(button: Button) -> Seq<char> {
    match button {
        Button::Install => "Install"@,
        Button::Cancel => "Cancel"@,
        Button::Close => "Close"@,
    }
}

impl Button {
    /// The caption shown on this button.
    pub fn label(self) -> (text: &'static str)
        ensures
            text@ == button_text(self),
    {
        match self {
            Button::Install => "Install",
            Button::Cancel => "Cancel",
            Button::Close => "Close",
        }
    }
}

/// What the caller is to do after a button press.
#[derive(Clone, Debug, PartialEq, Eq)]
pub enum Effect {
    /// Nothing.
    Nothing,
    /// Start the one worker of this flow on the given request.
    Spawn(InstallType),
    /// End the process with the given exit code.
    Exit(i32),
}

/// Mathematical value of an [`Effect`].
pub enum EffectModel {
    Nothing,
    Spawn(RequestModel),
    Exit(int),
}

impl View for Effect {
    type V = EffectModel;

    open spec fn view(&self) -> EffectModel {
        match *self {
            Effect::Nothing => EffectModel::Nothing,
            Effect::Spawn(request) => EffectModel::Spawn(request@),
            Effect::Exit(code) => EffectModel::Exit(code as int),
        }
    }
}

/// The text shown from the confirmation until the worker's first message.
pub open spec fn starting_text() -> Seq<char> {
    "Starting installation..."@
}

/// The state in which a confirmed installation begins.
pub open spec fn started_state() -> StateModel {
    StateModel::Installing { progress: 0, message: starting_text() }
}

/// The state after one status message. A message counts only while
/// installing: the confirmation has no worker yet, and a terminal state is
/// kept until the process ends.
pub open spec fn after_status(state: StateModel, status: StatusModel) -> StateModel {
    match state {
        StateModel::Installing { .. } => match status {
            StatusModel::Progress(progress, message) => StateModel::Installing {
                progress,
                message,
            },
            StatusModel::Success(message) => StateModel::Done { message },
            StatusModel::Error(message) => StateModel::Error { message },
        },
        _ => state,
    }
}

/// The state after the messages of `stream`, applied in order.
pub open spec fn after_stream(state: StateModel, stream: Seq<StatusModel>) -> StateModel
    decreases stream.len(),
{
    if stream.len() == 0 {
        state
    } else {
        after_status(after_stream(state, stream.drop_last()), stream.last())
    }
}

/// The state after a button press. Only `Install` at the confirmation moves
/// the state; every other press leaves it.
pub open spec fn after_press(state: StateModel, button: Button) -> StateModel {
    if state is Confirmation && button == Button::Install {
        started_state()
    } else {
        state
    }
}

/// What a button press asks of the caller, for a flow that installs `request`.
pub open spec fn press_effect(request: RequestModel, state: StateModel, button: Button)
    -> EffectModel {
    match (state, button) {
        (StateModel::Confirmation, Button::Install) => EffectModel::Spawn(request),
        (StateModel::Confirmation, Button::Cancel) => EffectModel::Exit(EXIT_OK as int),
        (StateModel::Done { .. }, Button::Close) => EffectModel::Exit(EXIT_OK as int),
        (StateModel::Error { .. }, Button::Close) => EffectModel::Exit(EXIT_FAILED as int),
        _ => EffectModel::Nothing,
    }
}

/// Mathematical value of an [`InstallerApp`].
pub struct AppModel {
    pub request: RequestModel,
    pub version: Seq<char>,
    pub state: StateModel,
}

/// What the view shows for one state.
#[derive(Clone, Debug, PartialEq, Eq)]
pub struct Screen {
    /// The heading above everything else.
    pub title: String,
    /// A line marked as a failure, shown only after a failed installation.
    pub alert: Option<String>,
    /// The plain lines, top to bottom.
    pub lines: Vec<String>,
    /// The progress bar, in hundredths of the whole, while installing.
    pub progress: Option<u8>,
    /// The buttons, in the order in which they are laid out.
    pub buttons: Vec<Button>,
}

/// Mathematical value of a [`Screen`].
pub struct ScreenModel {
    pub title: Seq<char>,
    pub alert: Option<Seq<char>>,
    pub lines: Seq<Seq<char>>,
    pub progress: Option<nat>,
    pub buttons: Seq<Button>,
}

impl View for Screen {
    type V = ScreenModel;

    open spec fn view(&self) -> ScreenModel {
        ScreenModel {
            title: self.title@,
            alert: match self.alert {
                Some(text) => Some(text@),
                None => None,
            },
            lines: self.lines@.map_values(|line: String| line@),
            progress: match self.progress {
                Some(progress) => Some(progress as nat),
                None => None,
            },
            buttons: self.buttons@,
        }
    }
}

/// The heading of every screen.
pub open spec fn title_text() -> Seq<char> {
    "Voidbox Installer"@
}

/// The line that marks a failed installation.
pub open spec fn failure_text() -> Seq<char> {
    "Installation Failed"@
}

/// The question and the explanation shown at the confirmation.
pub open spec fn confirmation_lines(request: RequestModel, version: Seq<char>) -> Seq<Seq<char>> {
    match request {
        RequestModel::SelfInstall => seq![
            framed("Install Voidbox v"@, version, "?"@),
            "This will install voidbox to ~/.local/bin/voidbox"@,
        ],
        RequestModel::AppInstall { display_name, .. } => seq![
            framed("Install "@, display_name, "?"@),
            "This will download and install the application container."@,
        ],
    }
}

/// What is shown for a flow in a given state.
pub open spec fn screen_of(app: AppModel) -> ScreenModel {
    match app.state {
        StateModel::Confirmation => ScreenModel {
            title: title_text(),
            alert: None,
            lines: confirmation_lines(app.request, app.version),
            progress: None,
            buttons: seq![Button::Install, Button::Cancel],
        },
        StateModel::Installing { progress, message } => ScreenModel {
            title: title_text(),
            alert: None,
            lines: seq![message],
            progress: Some(progress),
            buttons: Seq::empty(),
        },
        StateModel::Done { message } => ScreenModel {
            title: title_text(),
            alert: None,
            lines: seq![message],
            progress: None,
            buttons: seq![Button::Close],
        },
        StateModel::Error { message } => ScreenModel {
            title: title_text(),
            alert: Some(failure_text()),
            lines: seq![message],
            progress: None,
            buttons: seq![Button::Close],
        },
    }
}

/// The coordinator of one installation flow.
pub struct InstallerApp {
    install_type: InstallType,
    version: String,
    state: InstallerState,
}

impl View for InstallerApp {
    type V = AppModel;

    closed spec fn view(&self) -> AppModel {
        AppModel { request: self.install_type@, version: self.version@, state: self.state@ }
    }
}

impl InstallerApp {
    /// A coordinator at the confirmation, for `install_type` and the running
    /// program's `version`.
    pub fn new(install_type: InstallType, version: String) -> (app: InstallerApp)
        ensures
            app@ == (AppModel {
                request: install_type@,
                version: version@,
                state: StateModel::Confirmation,
            }),
    {
        InstallerApp { install_type, version, state: InstallerState::Confirmation }
    }

    /// The state shown now.
    pub fn state(&self) -> (state: &InstallerState)
        ensures
            state@ == self@.state,
    {
        &self.state
    }

    /// The request of this flow.
    pub fn install_type(&self) -> (request: &InstallType)
        ensures
            request@ == self@.request,
    {
        &self.install_type
    }

    /// The running program's version.
    pub fn version(&self) -> (version: &String)
        ensures
            version@ == self@.version,
    {
        &self.version
    }

    /// Confirms the installation. At the confirmation the state becomes
    /// `Installing` at zero progress and the request for the worker is
    /// returned; in every other state nothing changes and no request is
    /// handed out, so that a flow never has a second worker.
    pub fn start_installation(&mut self) -> (spawn: Option<InstallType>)
        ensures
            final(self)@ == (AppModel {
                state: after_press(old(self)@.state, Button::Install),
                ..old(self)@
            }),
            old(self)@.state is Confirmation ==> spawn is Some && spawn->Some_0@ == old(
                self,
            )@.request,
            !(old(self)@.state is Confirmation) ==> spawn is None,
    {
        match self.state {
            InstallerState::Confirmation => {
                self.state = InstallerState::Installing {
                    progress: 0,
                    message: String::from_str("Starting installation..."),
                };
                Some(self.install_type.duplicate())
            },
            _ => None,
        }
    }

    /// Takes one status message from the worker.
    pub fn apply_status(&mut self, status: InstallStatus)
        ensures
            final(self)@ == (AppModel {
                state: after_status(old(self)@.state, status@),
                ..old(self)@
            }),
    {
        match self.state {
            InstallerState::Installing { .. } => {
                self.state = match status {
                    InstallStatus::Progress(progress, message) => InstallerState::Installing {
                        progress,
                        message,
                    },
                    InstallStatus::Success(message) => InstallerState::Done { message },
                    InstallStatus::Error(message) => InstallerState::Error { message },
                };
            },
            _ => {},
        }
    }

    /// Takes the messages that have arrived since the last tick, oldest first.
    pub fn apply_all(&mut self, statuses: Vec<InstallStatus>)
        ensures
            final(self)@ == (AppModel {
                state: after_stream(old(self)@.state, stream_view(statuses@)),
                ..old(self)@
            }),
    {
        let ghost stream = stream_view(statuses@);
        let ghost before = self@;
        for status in pending: statuses
            invariant
                pending.seq() == statuses@,
                stream == stream_view(statuses@),
                self@ == (AppModel {
                    state: after_stream(before.state, stream.take(pending.index() as int)),
                    ..before
                }),
        {
            proof {
                let done = pending.index() as int;
                assert(stream.take(done + 1).drop_last() =~= stream.take(done));
                assert(stream.take(done + 1).last() == status@);
            }
            self.apply_status(status);
        }
        proof {
            assert(stream.take(stream.len() as int) =~= stream);
        }
    }

    /// Reacts to a button press. `Install` at the confirmation starts the
    /// installation; `Cancel` there, and `Close` at a terminal state, ask the
    /// caller to end the process. A button that the current screen does not
    /// show does nothing.
    pub fn press(&mut self, button: Button) -> (effect: Effect)
        ensures
            final(self)@ == (AppModel {
                state: after_press(old(self)@.state, button),
                ..old(self)@
            }),
            effect@ == press_effect(old(self)@.request, old(self)@.state, button),
    {
        match button {
            Button::Install => match self.start_installation() {
                Some(request) => Effect::Spawn(request),
                None => Effect::Nothing,
            },
            Button::Cancel => match self.state {
                InstallerState::Confirmation => Effect::Exit(EXIT_OK),
                _ => Effect::Nothing,
            },
            Button::Close => match self.state {
                InstallerState::Done { .. } => Effect::Exit(EXIT_OK),
                InstallerState::Error { .. } => Effect::Exit(EXIT_FAILED),
                _ => Effect::Nothing,
            },
        }
    }

    /// The content of the view for the current state.
    pub fn screen(&self) -> (screen: Screen)
        ensures
            screen@ == screen_of(self@),
    {
        let title = String::from_str("Voidbox Installer");
        let mut lines: Vec<String> = Vec::new();
        let mut buttons: Vec<Button> = Vec::new();
        let mut alert: Option<String> = None;
        let mut progress: Option<u8> = None;
        match &self.state {
            InstallerState::Confirmation => {
                match &self.install_type {
                    InstallType::SelfInstall => {
                        lines.push(frame("Install Voidbox v", self.version.as_str(), "?"));
                        lines.push(
                            String::from_str("This will install voidbox to ~/.local/bin/voidbox"),
                        );
                    },
                    InstallType::AppInstall { display_name, .. } => {
                        lines.push(frame("Install ", display_name.as_str(), "?"));
                        lines.push(
                            String::from_str(
                                "This will download and install the application container.",
                            ),
                        );
                    },
                }
                buttons.push(Button::Install);
                buttons.push(Button::Cancel);
            },
            InstallerState::Installing { progress: done, message } => {
                lines.push(message.clone());
                progress = Some(*done);
            },
            InstallerState::Done { message } => {
                lines.push(message.clone());
                buttons.push(Button::Close);
            },
            InstallerState::Error { message } => {
                alert = Some(String::from_str("Installation Failed"));
                lines.push(message.clone());
                buttons.push(Button::Close);
            },
        }
        let screen = Screen { title, alert, lines, progress, buttons };
        proof {
            assert(screen@.lines =~= screen_of(self@).lines);
            assert(screen@.buttons =~= screen_of(self@).buttons);
        }
        screen
    }
}

} // verus!
