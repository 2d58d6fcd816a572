use rrclone::app::{Action, App, Event, KeyCode, KeyKind, ScreenState, Screen};
use rrclone::drive::{DriveStruct, TokenStruct};
use rrclone::mount::MountError;

fn drive(name: &str) -> DriveStruct {
    DriveStruct {
        name: String::from(name),
        drive_type: String::from("drive"),
        scope: String::from("drive"),
        token: TokenStruct {
            access_token: String::new(),
            token_type: String::new(),
            refresh_token: String::new(),
            expiry: String::new(),
        },
    }
}

fn press(code: KeyCode) -> Event {
    Event::Key(code, KeyKind::Press)
}

fn app() -> App<u32> {
    App::new(&vec![drive("work"), drive("personal")])
}

fn mounted(a: &App<u32>) -> Vec<String> {
    a.mounts().iter().map(|r| r.drive.name.clone()).collect()
}

/// Runs a mount the way the event loop does: the action, then its outcome.
fn mount_selected(a: &mut App<u32>, pid: u32) {
    match a.on_event(press(KeyCode::Enter)) {
        Action::Mount(d) => {
            let target = format!("/mnt/{}", d.name);
            a.finish_mount(d, Some(target), Ok(pid)).unwrap();
        }
        _ => panic!("expected a mount"),
    }
}

#[test]
fn new_app_shows_main_screen() {
    let a = app();
    assert_eq!(a.screen(), ScreenState::Main);
    assert_eq!(a.main_message(), "Use Arrow keys to navigate drives and press Enter");
    assert_eq!(a.drive_message(), "Managing drives");
    assert_eq!(a.drives().selected(), Some(0));
    assert!(a.mounts().is_empty());
    assert!(!a.insert_mode());
    assert_eq!(a.new_name(), "");
}

#[test]
fn select_mount_remount_delete() {
    let mut a = app();
    assert_eq!(a.drives().selected_item().unwrap().name, "work");
    mount_selected(&mut a, 11);
    assert_eq!(a.main_message(), "Mounting ...");
    assert_eq!(mounted(&a), vec!["work"]);
    assert!(matches!(a.on_event(press(KeyCode::Enter)), Action::Nothing));
    assert_eq!(a.main_message(), "No need to re-mount same drive ^_^");
    assert_eq!(mounted(&a), vec!["work"]);
    match a.on_event(press(KeyCode::Delete)) {
        Action::Unmount(rec) => {
            assert_eq!(rec.drive.name, "work");
            assert_eq!(rec.process, 11);
            assert_eq!(a.finish_unmount(Ok(())), Ok(()));
        }
        _ => panic!("expected an unmount"),
    }
    assert_eq!(a.main_message(), "Unmounting ...");
    assert!(mounted(&a).is_empty());
}

#[test]
fn delete_without_mount_says_so() {
    let mut a = app();
    assert!(matches!(a.on_event(press(KeyCode::Delete)), Action::Nothing));
    assert_eq!(a.main_message(), "There is no drive to unmount!");
}

#[test]
fn quit_unmounts_everything() {
    let mut a = app();
    mount_selected(&mut a, 1);
    a.on_event(press(KeyCode::Down));
    mount_selected(&mut a, 2);
    assert_eq!(mounted(&a), vec!["work", "personal"]);
    match a.on_event(press(KeyCode::Char('q'))) {
        Action::Quit(all) => {
            assert_eq!(all.len(), 2);
            assert_eq!(a.finish_unmount(Ok(())), Ok(()));
            assert_eq!(a.finish_unmount(Err(String::from("no such process"))), Err(MountError::TerminationFailed));
        }
        _ => panic!("expected quit"),
    }
    assert!(mounted(&a).is_empty());
}

#[test]
fn failed_mount_shows_error() {
    let mut a = app();
    match a.on_event(press(KeyCode::Enter)) {
        Action::Mount(d) => {
            assert_eq!(a.finish_mount(d, Some(String::from("X")), Err(String::from("denied"))), Err(MountError::SpawnFailed));
        }
        _ => panic!("expected a mount"),
    }
    assert_eq!(a.main_message(), "Could not start the mounting process");
    assert!(mounted(&a).is_empty());
}

#[test]
fn small_terminal_overlay_round_trip() {
    let mut a = app();
    a.on_event(Event::Resize(79, 30));
    assert_eq!(a.screen(), ScreenState::ErrorOverlay { saved: Screen::Main, width: 79, height: 30 });
    a.on_event(Event::Resize(100, 10));
    assert_eq!(a.screen(), ScreenState::ErrorOverlay { saved: Screen::Main, width: 100, height: 10 });
    a.on_event(Event::Resize(80, 21));
    assert_eq!(a.screen(), ScreenState::Main);
}

#[test]
fn overlay_restores_drive_screen_and_blocks_keys() {
    let mut a = app();
    a.on_event(press(KeyCode::Char('d')));
    assert_eq!(a.screen(), ScreenState::DriveManagement);
    a.on_event(Event::Resize(40, 10));
    assert!(matches!(a.on_event(press(KeyCode::Char('q'))), Action::Nothing));
    assert!(matches!(a.on_event(press(KeyCode::Down)), Action::Nothing));
    assert_eq!(a.drives().selected(), Some(0));
    a.on_event(Event::Resize(120, 40));
    assert_eq!(a.screen(), ScreenState::DriveManagement);
}

#[test]
fn large_resize_keeps_screen() {
    let mut a = app();
    a.on_event(press(KeyCode::Char('d')));
    a.on_event(Event::Resize(120, 40));
    assert_eq!(a.screen(), ScreenState::DriveManagement);
}

#[test]
fn releases_are_ignored() {
    let mut a = app();
    a.on_event(Event::Key(KeyCode::Down, KeyKind::Release));
    a.on_event(Event::Key(KeyCode::Down, KeyKind::Repeat));
    assert_eq!(a.drives().selected(), Some(0));
}

#[test]
fn arrows_wrap_on_main_screen() {
    let mut a = app();
    a.on_event(press(KeyCode::Up));
    assert_eq!(a.drives().selected(), Some(1));
    a.on_event(press(KeyCode::Down));
    assert_eq!(a.drives().selected(), Some(0));
}

#[test]
fn refresh_resets_cursor() {
    let mut a = app();
    a.on_event(press(KeyCode::Down));
    assert!(matches!(a.on_event(press(KeyCode::Char('r'))), Action::Refresh));
    assert_eq!(a.drive_message(), "Refreshing list of drives");
    a.set_drives(&vec![drive("x"), drive("y"), drive("z")]);
    assert_eq!(a.drives().selected(), Some(0));
    assert_eq!(a.drives().items().len(), 3);
}

#[test]
fn typing_a_new_drive_name() {
    let mut a = app();
    a.on_event(press(KeyCode::Char('d')));
    a.on_event(press(KeyCode::Char('i')));
    assert!(a.insert_mode());
    for c in "teamx".chars() {
        a.on_event(press(KeyCode::Char(c)));
    }
    a.on_event(press(KeyCode::Backspace));
    assert_eq!(a.new_name(), "team");
    assert!(matches!(a.on_event(press(KeyCode::Enter)), Action::Nothing));
    assert_eq!(a.drive_message(), "Exit insert mode first 'Esc'");
    a.on_event(press(KeyCode::Esc));
    assert!(!a.insert_mode());
    match a.on_event(press(KeyCode::Enter)) {
        Action::Login(c) => {
            assert_eq!(c.program, "rclone");
            assert_eq!(c.args, vec!["config", "create", "team", "drive", "config_is_local", "true"]);
        }
        _ => panic!("expected a login"),
    }
    assert_eq!(a.drive_message(), "After login, press 'r' to refresh");
    a.on_event(press(KeyCode::Char('m')));
    assert_eq!(a.screen(), ScreenState::Main);
}

#[test]
fn quit_from_drive_screen() {
    let mut a = app();
    a.on_event(press(KeyCode::Char('d')));
    assert!(matches!(a.on_event(press(KeyCode::Char('q'))), Action::Quit(_)));
}

#[test]
fn enter_on_empty_catalog_does_nothing() {
    let mut a: App<u32> = App::new(&Vec::new());
    assert!(matches!(a.on_event(press(KeyCode::Enter)), Action::Nothing));
    assert!(matches!(a.on_event(press(KeyCode::Delete)), Action::Nothing));
}
