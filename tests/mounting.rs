use rrclone::commands::{
    free_drive_letters, login_command, mount_command, mount_point_path, pick_drive_letter, unmount_plan, Platform,
    UnmountPlan,
};
use rrclone::drive::{DriveStruct, TokenStruct};
use rrclone::mount::{MountError, MountSet};

fn drive(name: &str) -> DriveStruct {
    DriveStruct {
        name: String::from(name),
        drive_type: String::from("drive"),
        scope: String::from("drive"),
        token: TokenStruct {
            access_token: String::new(),
            token_type: String::new(),
            refresh_token: String::new(),
            expiry: String::new(),
        },
    }
}

fn names(m: &MountSet<u32>) -> Vec<String> {
    m.records().iter().map(|r| r.drive.name.clone()).collect()
}

#[test]
fn mount_twice_keeps_one_record() {
    let mut m: MountSet<u32> = MountSet::new();
    assert_eq!(m.mount(drive("work"), Some(String::from("/mnt/work")), Ok(7)), Ok(()));
    assert_eq!(
        m.mount(drive("work"), Some(String::from("/mnt/work")), Ok(8)),
        Err(MountError::AlreadyMounted)
    );
    assert_eq!(names(&m), vec!["work"]);
    assert_eq!(m.records()[0].process, 7);
    assert_eq!(m.records()[0].target, "/mnt/work");
}

#[test]
fn unmount_of_unmounted_drive_changes_nothing() {
    let mut m: MountSet<u32> = MountSet::new();
    m.mount(drive("work"), Some(String::from("W")), Ok(1)).unwrap();
    assert_eq!(m.unmount(&String::from("personal")).err(), Some(MountError::NotMounted));
    assert_eq!(names(&m), vec!["work"]);
}

#[test]
fn mount_then_unmount_restores_set() {
    let mut m: MountSet<u32> = MountSet::new();
    m.mount(drive("a"), Some(String::from("A")), Ok(1)).unwrap();
    m.mount(drive("b"), Some(String::from("B")), Ok(2)).unwrap();
    m.mount(drive("work"), Some(String::from("W")), Ok(3)).unwrap();
    let rec = m.unmount(&String::from("work")).unwrap();
    assert_eq!(rec.process, 3);
    assert_eq!(rec.drive.name, "work");
    assert_eq!(names(&m), vec!["a", "b"]);
    assert!(!m.is_mounted(&String::from("work")));
}

#[test]
fn unmount_keeps_order_of_others() {
    let mut m: MountSet<u32> = MountSet::new();
    m.mount(drive("a"), Some(String::from("A")), Ok(1)).unwrap();
    m.mount(drive("b"), Some(String::from("B")), Ok(2)).unwrap();
    m.mount(drive("c"), Some(String::from("C")), Ok(3)).unwrap();
    assert_eq!(m.unmount(&String::from("b")).unwrap().process, 2);
    assert_eq!(names(&m), vec!["a", "c"]);
}

#[test]
fn no_target_means_no_mount() {
    let mut m: MountSet<u32> = MountSet::new();
    assert_eq!(m.mount(drive("work"), None, Ok(1)), Err(MountError::TargetAllocationFailed));
    assert!(m.records().is_empty());
}

#[test]
fn failed_spawn_never_enters_set() {
    let mut m: MountSet<u32> = MountSet::new();
    assert_eq!(
        m.mount(drive("work"), Some(String::from("W")), Err(String::from("rclone: not found"))),
        Err(MountError::SpawnFailed)
    );
    assert!(m.records().is_empty());
}

#[test]
fn shutdown_all_empties_set() {
    let mut m: MountSet<u32> = MountSet::new();
    m.mount(drive("work"), Some(String::from("W")), Ok(1)).unwrap();
    m.mount(drive("personal"), Some(String::from("P")), Ok(2)).unwrap();
    let all = m.shutdown_all();
    assert_eq!(all.iter().map(|r| r.process).collect::<Vec<_>>(), vec![1, 2]);
    assert!(m.records().is_empty());
}

#[test]
fn mount_command_line() {
    let c = mount_command(&String::from("work"), &String::from("/Users/evildave/work"));
    assert_eq!(c.program, "rclone");
    assert_eq!(
        c.args,
        vec![
            "mount",
            "work:",
            "/Users/evildave/work",
            "--vfs-cache-mode",
            "full",
            "--allow-other",
            "--vfs-read-chunk-size",
            "32M"
        ]
    );
}

#[test]
fn mount_point_is_under_base() {
    assert_eq!(mount_point_path("/Users/evildave", &String::from("work")), "/Users/evildave/work");
}

#[test]
fn unmount_plans_by_platform() {
    let name = String::from("work");
    assert!(matches!(unmount_plan(Platform::Windows, &name, "/b"), UnmountPlan::Kill));
    assert!(matches!(unmount_plan(Platform::Other, &name, "/b"), UnmountPlan::Unsupported));
    match unmount_plan(Platform::Linux, &name, "/b") {
        UnmountPlan::Run(c) => {
            assert_eq!(c.program, "fusermount");
            assert_eq!(c.args, vec!["-uz", "work"]);
        }
        _ => panic!("expected a command"),
    }
    match unmount_plan(Platform::MacOs, &name, "/b") {
        UnmountPlan::Run(c) => {
            assert_eq!(c.program, "diskutil");
            assert_eq!(c.args, vec!["unmount", "/b/work"]);
        }
        _ => panic!("expected a command"),
    }
}

#[test]
fn login_command_trims_name() {
    let c = login_command("  team drive \n");
    assert_eq!(c.program, "rclone");
    assert_eq!(c.args, vec!["config", "create", "team drive", "drive", "config_is_local", "true"]);
}

#[test]
fn free_letters_skip_used_ones() {
    let used = vec![String::from("C:\\"), String::from("D:\\"), String::from(":odd"), String::new()];
    let free = free_drive_letters(&used);
    assert_eq!(free.len(), 24);
    assert_eq!(free[0], 'A');
    assert_eq!(free[1], 'B');
    assert_eq!(free[2], 'E');
    assert!(!free.contains(&'C'));
    assert!(!free.contains(&'D'));
}

#[test]
fn picked_letter_is_free() {
    let used: Vec<String> = "ABCDEFGHIJKLMNOPQRSTUVWXY".chars().map(|c| format!("{}:\\", c)).collect();
    assert_eq!(pick_drive_letter(&used), Some('Z'));
    let some_used = vec![String::from("C:\\")];
    for _ in 0..20 {
        let c = pick_drive_letter(&some_used).unwrap();
        assert!(c != 'C' && c.is_ascii_uppercase());
    }
}

#[test]
fn no_letter_when_all_used() {
    let used: Vec<String> = "ABCDEFGHIJKLMNOPQRSTUVWXYZ".chars().map(|c| format!("{}:\\", c)).collect();
    assert_eq!(pick_drive_letter(&used), None);
}

#[test]
fn error_messages_are_friendly() {
    assert_eq!(MountError::AlreadyMounted.message(), "No need to re-mount same drive ^_^");
    assert_eq!(MountError::NotMounted.message(), "There is no drive to unmount!");
    assert_eq!(MountError::TargetAllocationFailed.message(), "No free mount target for this drive");
    assert_eq!(MountError::SpawnFailed.message(), "Could not start the mounting process");
    assert_eq!(
        MountError::TerminationFailed.message(),
        "Could not stop the mounting process; the drive may still be attached"
    );
}
