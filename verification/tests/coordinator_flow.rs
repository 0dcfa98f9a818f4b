use voidbox_installer::coordinator::{
    Button, Effect, InstallerApp, InstallerState, Screen, EXIT_FAILED, EXIT_OK,
};
use voidbox_installer::request::InstallType;
use voidbox_installer::status::InstallStatus;
use voidbox_installer::worker::{Worker, WorkerEvent};

fn sample_app() -> InstallType {
    InstallType::AppInstall {
        name: "brave".to_string(),
        display_name: "Brave Browser".to_string(),
        manifest_content: "name = \"brave\"\n".to_string(),
    }
}

fn installing(progress: u8, message: &str) -> InstallerState {
    InstallerState::Installing { progress, message: message.to_string() }
}

#[test]
fn new_coordinator_waits_for_confirmation() {
    let app = InstallerApp::new(sample_app(), "1.4.2".to_string());
    assert_eq!(app.state(), &InstallerState::Confirmation);
    assert_eq!(app.install_type(), &sample_app());
    assert_eq!(app.version(), "1.4.2");
}

#[test]
fn cancel_at_confirmation_exits_with_zero() {
    let mut app = InstallerApp::new(InstallType::SelfInstall, "1.4.2".to_string());
    assert_eq!(app.press(Button::Cancel), Effect::Exit(0));
    assert_eq!(app.state(), &InstallerState::Confirmation);
}

#[test]
fn install_at_confirmation_starts_the_worker_once() {
    let mut app = InstallerApp::new(sample_app(), "1.4.2".to_string());
    assert_eq!(app.press(Button::Install), Effect::Spawn(sample_app()));
    assert_eq!(app.state(), &installing(0, "Starting installation..."));
    assert_eq!(app.press(Button::Install), Effect::Nothing);
    assert_eq!(app.state(), &installing(0, "Starting installation..."));
    assert_eq!(app.start_installation(), None);
}

#[test]
fn start_installation_hands_out_the_request() {
    let mut app = InstallerApp::new(sample_app(), "1.4.2".to_string());
    assert_eq!(app.start_installation(), Some(sample_app()));
    assert_eq!(app.state(), &installing(0, "Starting installation..."));
    assert_eq!(app.install_type(), &sample_app());
}

#[test]
fn buttons_that_are_not_shown_do_nothing() {
    let mut app = InstallerApp::new(InstallType::SelfInstall, "1.4.2".to_string());
    assert_eq!(app.press(Button::Close), Effect::Nothing);
    assert_eq!(app.state(), &InstallerState::Confirmation);
    app.press(Button::Install);
    assert_eq!(app.press(Button::Cancel), Effect::Nothing);
    assert_eq!(app.press(Button::Close), Effect::Nothing);
    assert_eq!(app.state(), &installing(0, "Starting installation..."));
    app.apply_status(InstallStatus::Success("ok".to_string()));
    assert_eq!(app.press(Button::Cancel), Effect::Nothing);
    assert_eq!(app.press(Button::Install), Effect::Nothing);
    assert_eq!(app.state(), &InstallerState::Done { message: "ok".to_string() });
}

#[test]
fn progress_updates_the_installing_state() {
    let mut app = InstallerApp::new(InstallType::SelfInstall, "1.4.2".to_string());
    app.press(Button::Install);
    app.apply_status(InstallStatus::Progress(50, "Copying binary...".to_string()));
    assert_eq!(app.state(), &installing(50, "Copying binary..."));
}

#[test]
fn success_leads_to_done_and_exit_zero() {
    let mut app = InstallerApp::new(InstallType::SelfInstall, "1.4.2".to_string());
    app.press(Button::Install);
    app.apply_status(InstallStatus::Success("installed".to_string()));
    assert_eq!(app.state(), &InstallerState::Done { message: "installed".to_string() });
    assert_eq!(app.press(Button::Close), Effect::Exit(0));
    assert_eq!(EXIT_OK, 0);
}

#[test]
fn error_leads_to_error_and_exit_one() {
    let mut app = InstallerApp::new(InstallType::SelfInstall, "1.4.2".to_string());
    app.press(Button::Install);
    app.apply_status(InstallStatus::Error("disk full".to_string()));
    assert_eq!(app.state(), &InstallerState::Error { message: "disk full".to_string() });
    assert_eq!(app.press(Button::Close), Effect::Exit(1));
    assert_eq!(EXIT_FAILED, 1);
}

#[test]
fn messages_before_confirmation_are_ignored() {
    let mut app = InstallerApp::new(InstallType::SelfInstall, "1.4.2".to_string());
    app.apply_status(InstallStatus::Progress(50, "early".to_string()));
    assert_eq!(app.state(), &InstallerState::Confirmation);
    app.apply_status(InstallStatus::Success("early".to_string()));
    assert_eq!(app.state(), &InstallerState::Confirmation);
    app.apply_all(vec![InstallStatus::Error("early".to_string())]);
    assert_eq!(app.state(), &InstallerState::Confirmation);
}

#[test]
fn terminal_state_is_kept() {
    let mut app = InstallerApp::new(InstallType::SelfInstall, "1.4.2".to_string());
    app.press(Button::Install);
    app.apply_status(InstallStatus::Error("failed".to_string()));
    app.apply_status(InstallStatus::Progress(70, "late".to_string()));
    app.apply_status(InstallStatus::Success("late".to_string()));
    assert_eq!(app.state(), &InstallerState::Error { message: "failed".to_string() });
}

#[test]
fn a_batch_is_applied_in_order() {
    let mut app = InstallerApp::new(InstallType::SelfInstall, "1.4.2".to_string());
    app.press(Button::Install);
    app.apply_all(vec![
        InstallStatus::Progress(10, "Creating directories...".to_string()),
        InstallStatus::Progress(50, "Copying binary...".to_string()),
    ]);
    assert_eq!(app.state(), &installing(50, "Copying binary..."));
    app.apply_all(Vec::new());
    assert_eq!(app.state(), &installing(50, "Copying binary..."));
    app.apply_all(vec![
        InstallStatus::Progress(100, "Done!".to_string()),
        InstallStatus::Success("installed".to_string()),
    ]);
    assert_eq!(app.state(), &InstallerState::Done { message: "installed".to_string() });
}

#[test]
fn batches_give_the_same_state_as_single_messages() {
    let messages = vec![
        InstallStatus::Progress(10, "a".to_string()),
        InstallStatus::Progress(30, "b".to_string()),
        InstallStatus::Error("c".to_string()),
    ];
    let mut one_by_one = InstallerApp::new(InstallType::SelfInstall, "1".to_string());
    one_by_one.press(Button::Install);
    for message in messages.clone() {
        one_by_one.apply_status(message);
    }
    for split in 0..=messages.len() {
        let mut batched = InstallerApp::new(InstallType::SelfInstall, "1".to_string());
        batched.press(Button::Install);
        batched.apply_all(messages[..split].to_vec());
        batched.apply_all(messages[split..].to_vec());
        assert_eq!(batched.state(), one_by_one.state());
    }
}

#[test]
fn confirmation_screen_of_self_install() {
    let app = InstallerApp::new(InstallType::SelfInstall, "1.4.2".to_string());
    assert_eq!(
        app.screen(),
        Screen {
            title: "Voidbox Installer".to_string(),
            alert: None,
            lines: vec![
                "Install Voidbox v1.4.2?".to_string(),
                "This will install voidbox to ~/.local/bin/voidbox".to_string(),
            ],
            progress: None,
            buttons: vec![Button::Install, Button::Cancel],
        }
    );
}

#[test]
fn confirmation_screen_of_app_install() {
    let app = InstallerApp::new(sample_app(), "1.4.2".to_string());
    assert_eq!(
        app.screen(),
        Screen {
            title: "Voidbox Installer".to_string(),
            alert: None,
            lines: vec![
                "Install Brave Browser?".to_string(),
                "This will download and install the application container.".to_string(),
            ],
            progress: None,
            buttons: vec![Button::Install, Button::Cancel],
        }
    );
}

#[test]
fn installing_screen_shows_progress_and_no_button() {
    let mut app = InstallerApp::new(sample_app(), "1.4.2".to_string());
    app.press(Button::Install);
    assert_eq!(
        app.screen(),
        Screen {
            title: "Voidbox Installer".to_string(),
            alert: None,
            lines: vec!["Starting installation...".to_string()],
            progress: Some(0),
            buttons: vec![],
        }
    );
    app.apply_status(InstallStatus::Progress(30, "Parsing manifest...".to_string()));
    assert_eq!(app.screen().progress, Some(30));
    assert_eq!(app.screen().lines, vec!["Parsing manifest...".to_string()]);
}

#[test]
fn done_screen_offers_close() {
    let mut app = InstallerApp::new(sample_app(), "1.4.2".to_string());
    app.press(Button::Install);
    app.apply_status(InstallStatus::Success("Brave Browser has been installed successfully!".to_string()));
    assert_eq!(
        app.screen(),
        Screen {
            title: "Voidbox Installer".to_string(),
            alert: None,
            lines: vec!["Brave Browser has been installed successfully!".to_string()],
            progress: None,
            buttons: vec![Button::Close],
        }
    );
}

#[test]
fn error_screen_is_marked_as_failure() {
    let mut app = InstallerApp::new(sample_app(), "1.4.2".to_string());
    app.press(Button::Install);
    app.apply_status(InstallStatus::Error("download failed".to_string()));
    assert_eq!(
        app.screen(),
        Screen {
            title: "Voidbox Installer".to_string(),
            alert: Some("Installation Failed".to_string()),
            lines: vec!["download failed".to_string()],
            progress: None,
            buttons: vec![Button::Close],
        }
    );
}

/// Runs a whole flow: confirm, let the worker take `events`, feed every
/// message to the coordinator, then close.
fn whole_flow(request: InstallType, events: Vec<WorkerEvent>) -> (InstallerApp, Effect) {
    let mut app = InstallerApp::new(request, "1.4.2".to_string());
    let spawned = match app.press(Button::Install) {
        Effect::Spawn(request) => request,
        other => panic!("no worker asked for: {:?}", other),
    };
    let (mut worker, first) = Worker::start(spawned, app.version().clone());
    app.apply_all(first.messages);
    for event in events {
        if let Some(out) = worker.step(event) {
            app.apply_all(out.messages);
        }
    }
    let effect = app.press(Button::Close);
    (app, effect)
}

#[test]
fn self_install_flow_ends_with_exit_zero() {
    let (app, effect) = whole_flow(
        InstallType::SelfInstall,
        vec![WorkerEvent::Completed, WorkerEvent::Completed],
    );
    assert_eq!(
        app.state(),
        &InstallerState::Done {
            message: "Voidbox v1.4.2 has been installed successfully!\n\nYou can now use 'voidbox' from your terminal."
                .to_string()
        }
    );
    assert_eq!(effect, Effect::Exit(0));
}

#[test]
fn failed_app_install_flow_ends_with_exit_one() {
    let (app, effect) = whole_flow(
        sample_app(),
        vec![
            WorkerEvent::RuntimePresent(true),
            WorkerEvent::Failed("invalid manifest".to_string()),
        ],
    );
    assert_eq!(app.state(), &InstallerState::Error { message: "invalid manifest".to_string() });
    assert_eq!(effect, Effect::Exit(1));
}

#[test]
fn unfinished_flow_keeps_installing() {
    let (app, effect) = whole_flow(
        sample_app(),
        vec![WorkerEvent::RuntimePresent(false), WorkerEvent::Completed],
    );
    assert_eq!(app.state(), &installing(20, "Installing Voidbox runtime..."));
    assert_eq!(effect, Effect::Nothing);
}

#[test]
fn at_most_one_worker_over_any_presses() {
    let buttons = [Button::Install, Button::Cancel, Button::Close];
    for a in buttons {
        for b in buttons {
            for c in buttons {
                for d in buttons {
                    let mut app = InstallerApp::new(sample_app(), "1".to_string());
                    let mut spawned = 0;
                    let mut left_confirmation = false;
                    for button in [a, b, c, d] {
                        let before = app.state().clone();
                        if matches!(app.press(button), Effect::Spawn(_)) {
                            spawned += 1;
                            assert_eq!(before, InstallerState::Confirmation);
                            assert_eq!(app.state(), &installing(0, "Starting installation..."));
                        }
                        if left_confirmation {
                            assert_ne!(app.state(), &InstallerState::Confirmation);
                        }
                        if app.state() != &InstallerState::Confirmation {
                            left_confirmation = true;
                        }
                    }
                    assert!(spawned <= 1);
                }
            }
        }
    }
}
