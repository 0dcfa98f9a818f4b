use voidbox_installer::request::InstallType;
use voidbox_installer::status::{InstallStatus, FULL_PROGRESS};
use voidbox_installer::text::frame;

#[test]
fn frame_joins_three_texts() {
    assert_eq!(frame("Install ", "Brave", "?"), "Install Brave?");
    assert_eq!(frame("", "", ""), "");
    assert_eq!(frame("a", "", "c"), "ac");
    assert_eq!(frame("v", "1.0 \u{e9}", "\n"), "v1.0 \u{e9}\n");
}

#[test]
fn self_install_has_empty_texts() {
    let request = InstallType::SelfInstall;
    assert_eq!(request.name(), "");
    assert_eq!(request.display_name(), "");
    assert_eq!(request.manifest_content(), "");
}

#[test]
fn app_install_gives_its_texts() {
    let request = InstallType::AppInstall {
        name: "slot".to_string(),
        display_name: "Shown Name".to_string(),
        manifest_content: "raw\ntext".to_string(),
    };
    assert_eq!(request.name(), "slot");
    assert_eq!(request.display_name(), "Shown Name");
    assert_eq!(request.manifest_content(), "raw\ntext");
}

#[test]
fn duplicate_keeps_the_value() {
    let request = InstallType::AppInstall {
        name: "slot".to_string(),
        display_name: "Shown Name".to_string(),
        manifest_content: "raw\ntext".to_string(),
    };
    assert_eq!(request.duplicate(), request);
    assert_eq!(InstallType::SelfInstall.duplicate(), InstallType::SelfInstall);
}

#[test]
fn terminal_messages() {
    assert!(!InstallStatus::Progress(100, "Done!".to_string()).is_terminal());
    assert!(InstallStatus::Success("ok".to_string()).is_terminal());
    assert!(InstallStatus::Error("bad".to_string()).is_terminal());
}

#[test]
fn progress_range() {
    assert_eq!(FULL_PROGRESS, 100);
    assert!(InstallStatus::Progress(0, String::new()).in_range());
    assert!(InstallStatus::Progress(100, String::new()).in_range());
    assert!(!InstallStatus::Progress(101, String::new()).in_range());
    assert!(!InstallStatus::Progress(255, String::new()).in_range());
    assert!(InstallStatus::Success(String::new()).in_range());
    assert!(InstallStatus::Error(String::new()).in_range());
}
