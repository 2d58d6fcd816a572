//! The dashboard's state and its screen state machine: what each terminal
//! event does to the state, and which outside work it asks the event loop to
//! do.

use vstd::prelude::*;
use vstd::string::*;
use crate::commands::{login_command, login_line, command_line, ExternalCommand};
use crate::drive::DriveStruct;
use crate::list::{next_index, prev_index, StatefulList};
use crate::mount::{has_name, mount_result, unmount_result, MountError, MountRecord, MountSet};
use crate::text::push_char;
use crate::utils::{MIN_HEIGHT, MIN_WIDTH};

verus! {

/// A screen the operator works in.
#[derive(Clone, Copy, Debug, PartialEq, Eq, Structural)]
pub enum Screen {
    /// Browse drives, mount and unmount them.
    Main,
    /// Browse drives and create new ones.
    Drives,
}

/// The screen shown: a working screen, or the "terminal too small" overlay,
/// which keeps the screen it covers and the size that caused it.
#[derive(Clone, Copy, Debug, PartialEq, Eq, Structural)]
pub enum ScreenState {
    Main,
    DriveManagement,
    ErrorOverlay { saved: Screen, width: u16, height: u16 },
}

/// The key of a key event.
#[derive(Clone, Copy, Debug, PartialEq, Eq, Structural)]
pub enum KeyCode {
    Char(char),
    Enter,
    Delete,
    Backspace,
    Esc,
    Up,
    Down,
    Other,
}

/// Whether a key went down, repeats, or went up.
#[derive(Clone, Copy, Debug, PartialEq, Eq, Structural)]
pub enum KeyKind {
    Press,
    Repeat,
    Release,
}

/// A terminal event.
#[derive(Clone, Copy, Debug, PartialEq, Eq, Structural)]
pub enum Event {
    /// The terminal now has this many columns and rows.
    Resize(u16, u16),
    Key(KeyCode, KeyKind),
    Other,
}

/// The outside work that an event asks of the event loop.
pub enum Action<H> {
    /// Nothing to do.
    Nothing,
    /// Stop each of these mounting processes, then leave the loop.
    Quit(Vec<MountRecord<H>>),
    /// Find a target for this drive, start its mounting process, and report
    /// with `finish_mount`.
    Mount(DriveStruct),
    /// Stop this record's process (or unmount its target) and report with
    /// `finish_unmount`.
    Unmount(MountRecord<H>),
    /// Read the drive catalog again and hand it to `set_drives`.
    Refresh,
    /// Run this command, which creates a new drive.
    Login(ExternalCommand),
}

/// A size below 80 columns by 21 rows.
pub open spec fn is_small(width: u16, height: u16) -> bool {
    width < MIN_WIDTH || height < MIN_HEIGHT
}

/// The working screen under a screen state.
pub open spec fn base_of(s: ScreenState) -> Screen {
    match s {
        ScreenState::Main => Screen::Main,
        ScreenState::DriveManagement => Screen::Drives,
        ScreenState::ErrorOverlay { saved, .. } => saved,
    }
}

/// The screen state of a working screen.
pub open spec fn shown(b: Screen) -> ScreenState {
    match b {
        Screen::Main => ScreenState::Main,
        Screen::Drives => ScreenState::DriveManagement,
    }
}

/// The screen after a resize: the overlay over the working screen while the
/// terminal is too small, the working screen itself otherwise.
pub open spec fn resized(s: ScreenState, width: u16, height: u16) -> ScreenState {
    if is_small(width, height) {
        ScreenState::ErrorOverlay { saved: base_of(s), width, height }
    } else {
        shown(base_of(s))
    }
}

pub open spec fn msg_welcome() -> Seq<char> {
    "Use Arrow keys to navigate drives and press Enter"@
}

pub open spec fn msg_managing() -> Seq<char> {
    "Managing drives"@
}

pub open spec fn msg_no_remount() -> Seq<char> {
    "No need to re-mount same drive ^_^"@
}

pub open spec fn msg_mounting() -> Seq<char> {
    "Mounting ..."@
}

pub open spec fn msg_unmounting() -> Seq<char> {
    "Unmounting ..."@
}

pub open spec fn msg_nothing_to_unmount() -> Seq<char> {
    "There is no drive to unmount!"@
}

pub open spec fn msg_refreshing() -> Seq<char> {
    "Refreshing list of drives"@
}

pub open spec fn msg_leave_insert() -> Seq<char> {
    "Exit insert mode first 'Esc'"@
}

pub open spec fn msg_after_login() -> Seq<char> {
    "After login, press 'r' to refresh"@
}

/// The status line after a failed mount or unmount.
pub open spec fn error_message(e: MountError) -> Seq<char> {
    match e {
        MountError::AlreadyMounted => msg_no_remount(),
        MountError::TargetAllocationFailed => "No free mount target for this drive"@,
        MountError::SpawnFailed => "Could not start the mounting process"@,
        MountError::NotMounted => msg_nothing_to_unmount(),
        MountError::TerminationFailed => "Could not stop the mounting process; the drive may still be attached"@,
    }
}

impl MountError {
    /// The status line for this error.
    pub fn message(&self) -> (r: String)
        ensures
            r@ == error_message(*self),
    {
        match self {
            MountError::AlreadyMounted => String::from_str("No need to re-mount same drive ^_^"),
            MountError::TargetAllocationFailed => String::from_str("No free mount target for this drive"),
            MountError::SpawnFailed => String::from_str("Could not start the mounting process"),
            MountError::NotMounted => String::from_str("There is no drive to unmount!"),
            MountError::TerminationFailed => String::from_str(
                "Could not stop the mounting process; the drive may still be attached",
            ),
        }
    }
}

/// Relies on `String::pop`: the last character goes, if there is one.
#[verifier::external_body]
fn pop_char(s: &mut String)
    ensures
        final(s)@ == if old(s)@.len() == 0 {
            old(s)@
        } else {
            old(s)@.drop_last()
        },
{
    s.pop();
}

/// The dashboard state: the screen shown, the drives with their cursor, the
/// status lines of both screens, the mounted drives, and the new drive name
/// being typed (with whether typing is on). `H` is the handle of a mounting
/// process.
pub struct App<H> {
    screen: ScreenState,
    drives: StatefulList<DriveStruct>,
    main_message: String,
    drive_message: String,
    mounts: MountSet<H>,
    insert_mode: bool,
    new_name: String,
}

impl<H> App<H> {
    pub closed spec fn screen_view(&self) -> ScreenState {
        self.screen
    }

    pub closed spec fn drives_view(&self) -> StatefulList<DriveStruct> {
        self.drives
    }

    pub closed spec fn main_message_view(&self) -> Seq<char> {
        self.main_message@
    }

    pub closed spec fn drive_message_view(&self) -> Seq<char> {
        self.drive_message@
    }

    pub closed spec fn mounts_view(&self) -> Seq<MountRecord<H>> {
        self.mounts.records_view()
    }

    pub closed spec fn insert_view(&self) -> bool {
        self.insert_mode
    }

    pub closed spec fn name_view(&self) -> Seq<char> {
        self.new_name@
    }

    pub closed spec fn wf(&self) -> bool {
        self.drives.wf() && self.mounts.wf()
    }

    /// The drive under the cursor.
    pub open spec fn selected_drive(&self) -> Option<DriveStruct> {
        match self.drives_view().cursor() {
            Some(i) => Some(self.drives_view().items_view()[i as int]),
            None => None,
        }
    }

    /// A dashboard on the main screen over `drives`, cursor on the first,
    /// nothing mounted, not typing.
    pub fn new(drives: &Vec<DriveStruct>) -> (r: App<H>)
        ensures
            r.wf(),
            r.screen_view() == ScreenState::Main,
            r.drives_view().items_view() == drives@,
            r.drives_view().cursor() == (if drives@.len() == 0 {
                None
            } else {
                Some(0usize)
            }),
            r.main_message_view() == msg_welcome(),
            r.drive_message_view() == msg_managing(),
            r.mounts_view() == Seq::<MountRecord<H>>::empty(),
            !r.insert_view(),
            r.name_view() == Seq::<char>::empty(),
    {
        let list = StatefulList::with_items(drives);
        assert(list.items_view() =~= drives@);
        App {
            screen: ScreenState::Main,
            drives: list,
            main_message: String::from_str("Use Arrow keys to navigate drives and press Enter"),
            drive_message: String::from_str("Managing drives"),
            mounts: MountSet::new(),
            insert_mode: false,
            new_name: String::new(),
        }
    }

    /// The screen shown.
    pub fn screen(&self) -> (r: ScreenState)
        ensures
            r == self.screen_view(),
    {
        self.screen
    }

    /// The drives and their cursor.
    pub fn drives(&self) -> (r: &StatefulList<DriveStruct>)
        ensures
            *r == self.drives_view(),
    {
        &self.drives
    }

    /// The status line of the main screen.
    pub fn main_message(&self) -> (r: &String)
        ensures
            r@ == self.main_message_view(),
    {
        &self.main_message
    }

    /// The status line of the drive management screen.
    pub fn drive_message(&self) -> (r: &String)
        ensures
            r@ == self.drive_message_view(),
    {
        &self.drive_message
    }

    /// The mounted drives, in mount order.
    pub fn mounts(&self) -> (r: &Vec<MountRecord<H>>)
        ensures
            r@ == self.mounts_view(),
    {
        self.mounts.records()
    }

    /// Whether keys type the new drive name.
    pub fn insert_mode(&self) -> (r: bool)
        ensures
            r == self.insert_view(),
    {
        self.insert_mode
    }

    /// The new drive name typed so far.
    pub fn new_name(&self) -> (r: &String)
        ensures
            r@ == self.name_view(),
    {
        &self.new_name
    }

    /// Whether the drive named `name` is mounted.
    pub fn is_mounted(&self, name: &String) -> (r: bool)
        requires
            self.wf(),
        ensures
            r == has_name(self.mounts_view(), name@),
    {
        self.mounts.is_mounted(name)
    }

    /// Replaces the drives by a fresh catalog; the cursor goes to the first.
    pub fn set_drives(&mut self, drives: &Vec<DriveStruct>)
        requires
            old(self).wf(),
        ensures
            final(self).wf(),
            final(self).drives_view().items_view() == drives@,
            final(self).drives_view().cursor() == (if drives@.len() == 0 {
                None
            } else {
                Some(0usize)
            }),
            keeps_screen(*old(self), *final(self)),
            keeps_messages(*old(self), *final(self)),
            keeps_mounts(*old(self), *final(self)),
            keeps_typing(*old(self), *final(self)),
    {
        let list = StatefulList::with_items(drives);
        assert(list.items_view() =~= drives@);
        self.drives = list;
    }

    /// Records the outcome of a mount that `Action::Mount` asked for: the
    /// target found (if any) and what starting the process gave. A failure
    /// shows its message on the main screen.
    pub fn finish_mount(&mut self, drive: DriveStruct, target: Option<String>, spawn: Result<H, String>) -> (r:
        Result<(), MountError>)
        requires
            old(self).wf(),
        ensures
            final(self).wf(),
            (r, final(self).mounts_view()) == mount_result(old(self).mounts_view(), drive, target, spawn),
            r matches Err(e) ==> final(self).main_message_view() == error_message(e),
            r is Ok ==> final(self).main_message_view() == old(self).main_message_view(),
            final(self).drive_message_view() == old(self).drive_message_view(),
            keeps_screen(*old(self), *final(self)),
            keeps_list(*old(self), *final(self)),
            keeps_typing(*old(self), *final(self)),
    {
        let r = self.mounts.mount(drive, target, spawn);
        match r {
            Ok(()) => {},
            Err(e) => {
                self.main_message = e.message();
            },
        }
        r
    }

    /// Records the outcome of stopping the process of an unmounted drive.
    /// The record is gone either way; a failure is reported as
    /// `TerminationFailed` and shown on the main screen.
    pub fn finish_unmount(&mut self, stopped: Result<(), String>) -> (r: Result<(), MountError>)
        ensures
            old(self).wf() ==> final(self).wf(),
            stopped is Ok ==> r is Ok && *final(self) == *old(self),
            stopped is Err ==> r == Err::<(), MountError>(MountError::TerminationFailed),
            stopped is Err ==> final(self).main_message_view() == error_message(
                MountError::TerminationFailed,
            ),
            final(self).drive_message_view() == old(self).drive_message_view(),
            keeps_screen(*old(self), *final(self)),
            keeps_list(*old(self), *final(self)),
            keeps_mounts(*old(self), *final(self)),
            keeps_typing(*old(self), *final(self)),
    {
        match stopped {
            Ok(()) => Ok(()),
            Err(_) => {
                let e = MountError::TerminationFailed;
                self.main_message = e.message();
                Err(e)
            },
        }
    }

    /// Takes every mount out, for the event loop to stop their processes
    /// before it ends.
    fn quit(&mut self) -> (r: Action<H>)
        requires
            old(self).wf(),
        ensures
            final(self).wf(),
            quits(*old(self), *final(self), r),
    {
        let all = self.mounts.shutdown_all();
        Action::Quit(all)
    }

    fn refresh(&mut self) -> (r: Action<H>)
        requires
            old(self).wf(),
        ensures
            final(self).wf(),
            refreshes(*old(self), *final(self), r),
    {
        self.drive_message = String::from_str("Refreshing list of drives");
        Action::Refresh
    }

    fn cursor_key(&mut self, down: bool)
        requires
            old(self).wf(),
        ensures
            final(self).wf(),
            down ==> moved_next(old(self).drives_view(), final(self).drives_view()),
            !down ==> moved_prev(old(self).drives_view(), final(self).drives_view()),
            keeps_screen(*old(self), *final(self)),
            keeps_messages(*old(self), *final(self)),
            keeps_mounts(*old(self), *final(self)),
            keeps_typing(*old(self), *final(self)),
    {
        if down {
            self.drives.next();
        } else {
            self.drives.previous();
        }
    }

    fn main_key(&mut self, code: KeyCode) -> (r: Action<H>)
        requires
            old(self).wf(),
        ensures
            final(self).wf(),
            main_step(*old(self), *final(self), code, r),
    {
        match code {
            KeyCode::Char(c) => {
                if c == 'q' {
                    self.quit()
                } else if c == 'd' {
                    self.screen = ScreenState::DriveManagement;
                    Action::Nothing
                } else if c == 'r' {
                    self.refresh()
                } else {
                    Action::Nothing
                }
            },
            KeyCode::Down => {
                self.cursor_key(true);
                Action::Nothing
            },
            KeyCode::Up => {
                self.cursor_key(false);
                Action::Nothing
            },
            KeyCode::Enter => {
                match self.drives.selected_item() {
                    None => Action::Nothing,
                    Some(d) => {
                        if self.mounts.is_mounted(&d.name) {
                            self.main_message = String::from_str("No need to re-mount same drive ^_^");
                            Action::Nothing
                        } else {
                            let chosen = d.clone();
                            self.main_message = String::from_str("Mounting ...");
                            Action::Mount(chosen)
                        }
                    },
                }
            },
            KeyCode::Delete => {
                match self.drives.selected_item() {
                    None => Action::Nothing,
                    Some(d) => {
                        let name = d.name.clone();
                        match self.mounts.unmount(&name) {
                            Ok(rec) => {
                                self.main_message = String::from_str("Unmounting ...");
                                Action::Unmount(rec)
                            },
                            Err(_) => {
                                self.main_message = String::from_str("There is no drive to unmount!");
                                Action::Nothing
                            },
                        }
                    },
                }
            },
            _ => Action::Nothing,
        }
    }

    fn drives_key(&mut self, code: KeyCode) -> (r: Action<H>)
        requires
            old(self).wf(),
        ensures
            final(self).wf(),
            drives_step(*old(self), *final(self), code, r),
    {
        match code {
            KeyCode::Esc => {
                self.insert_mode = false;
                Action::Nothing
            },
            KeyCode::Down => {
                self.cursor_key(true);
                Action::Nothing
            },
            KeyCode::Up => {
                self.cursor_key(false);
                Action::Nothing
            },
            KeyCode::Enter => {
                if self.insert_mode {
                    self.drive_message = String::from_str("Exit insert mode first 'Esc'");
                    Action::Nothing
                } else {
                    self.drive_message = String::from_str("After login, press 'r' to refresh");
                    Action::Login(login_command(self.new_name.as_str()))
                }
            },
            KeyCode::Backspace => {
                pop_char(&mut self.new_name);
                Action::Nothing
            },
            KeyCode::Char(c) => {
                if self.insert_mode {
                    push_char(&mut self.new_name, c);
                    Action::Nothing
                } else if c == 'i' {
                    self.insert_mode = true;
                    Action::Nothing
                } else if c == 'm' {
                    self.screen = ScreenState::Main;
                    Action::Nothing
                } else if c == 'q' {
                    self.quit()
                } else if c == 'r' {
                    self.refresh()
                } else {
                    Action::Nothing
                }
            },
            _ => Action::Nothing,
        }
    }

    /// What one terminal event does. A resize moves to or from the "terminal
    /// too small" overlay; a key press goes to the screen shown (the overlay
    /// takes none); other events, and key repeats and releases, do nothing.
    pub fn on_event(&mut self, ev: Event) -> (r: Action<H>)
        requires
            old(self).wf(),
        ensures
            final(self).wf(),
            ev matches Event::Resize(w, h) ==> {
                &&& final(self).screen_view() == resized(old(self).screen_view(), w, h)
                &&& keeps_list(*old(self), *final(self))
                &&& keeps_messages(*old(self), *final(self))
                &&& keeps_mounts(*old(self), *final(self))
                &&& keeps_typing(*old(self), *final(self))
                &&& r is Nothing
            },
            ev is Other ==> *final(self) == *old(self) && r is Nothing,
            ev matches Event::Key(code, kind) ==> {
                if kind != KeyKind::Press || old(self).screen_view() is ErrorOverlay {
                    *final(self) == *old(self) && r is Nothing
                } else if old(self).screen_view() == ScreenState::Main {
                    main_step(*old(self), *final(self), code, r)
                } else {
                    drives_step(*old(self), *final(self), code, r)
                }
            },
    {
        match ev {
            Event::Resize(w, h) => {
                let base = match self.screen {
                    ScreenState::Main => Screen::Main,
                    ScreenState::DriveManagement => Screen::Drives,
                    ScreenState::ErrorOverlay { saved, .. } => saved,
                };
                if w < MIN_WIDTH || h < MIN_HEIGHT {
                    self.screen = ScreenState::ErrorOverlay { saved: base, width: w, height: h };
                } else {
                    self.screen = match base {
                        Screen::Main => ScreenState::Main,
                        Screen::Drives => ScreenState::DriveManagement,
                    };
                }
                Action::Nothing
            },
            Event::Key(code, kind) => {
                if kind != KeyKind::Press {
                    Action::Nothing
                } else {
                    match self.screen {
                        ScreenState::Main => self.main_key(code),
                        ScreenState::DriveManagement => self.drives_key(code),
                        ScreenState::ErrorOverlay { .. } => Action::Nothing,
                    }
                }
            },
            Event::Other => Action::Nothing,
        }
    }
}

pub open spec fn keeps_screen<H>(o: App<H>, f: App<H>) -> bool {
    f.screen_view() == o.screen_view()
}

pub open spec fn keeps_list<H>(o: App<H>, f: App<H>) -> bool {
    f.drives_view() == o.drives_view()
}

pub open spec fn keeps_messages<H>(o: App<H>, f: App<H>) -> bool {
    f.main_message_view() == o.main_message_view() && f.drive_message_view() == o.drive_message_view()
}

pub open spec fn keeps_mounts<H>(o: App<H>, f: App<H>) -> bool {
    f.mounts_view() == o.mounts_view()
}

pub open spec fn keeps_typing<H>(o: App<H>, f: App<H>) -> bool {
    f.insert_view() == o.insert_view() && f.name_view() == o.name_view()
}

/// The cursor moved one item forward over the same items.
pub open spec fn moved_next(o: StatefulList<DriveStruct>, f: StatefulList<DriveStruct>) -> bool {
    &&& f.items_view() == o.items_view()
    &&& f.cursor() == match o.cursor() {
        Some(i) => Some(next_index(i as int, o.items_view().len() as int) as usize),
        None => None,
    }
}

/// The cursor moved one item back over the same items.
pub open spec fn moved_prev(o: StatefulList<DriveStruct>, f: StatefulList<DriveStruct>) -> bool {
    &&& f.items_view() == o.items_view()
    &&& f.cursor() == match o.cursor() {
        Some(i) => Some(prev_index(i as int, o.items_view().len() as int) as usize),
        None => None,
    }
}

/// Quitting: every mount is handed out, in mount order, and the set is
/// emptied; nothing else changes.
pub open spec fn quits<H>(o: App<H>, f: App<H>, r: Action<H>) -> bool {
    &&& r matches Action::Quit(all) && all@ == o.mounts_view()
    &&& f.mounts_view() == Seq::<MountRecord<H>>::empty()
    &&& keeps_screen(o, f)
    &&& keeps_list(o, f)
    &&& keeps_messages(o, f)
    &&& keeps_typing(o, f)
}

/// Asking for a fresh catalog, with the drive screen saying so.
pub open spec fn refreshes<H>(o: App<H>, f: App<H>, r: Action<H>) -> bool {
    &&& r is Refresh
    &&& f.drive_message_view() == msg_refreshing()
    &&& f.main_message_view() == o.main_message_view()
    &&& keeps_screen(o, f)
    &&& keeps_list(o, f)
    &&& keeps_mounts(o, f)
    &&& keeps_typing(o, f)
}

/// Only the main status line changed, to `msg`, and nothing is asked.
pub open spec fn says_main<H>(o: App<H>, f: App<H>, msg: Seq<char>) -> bool {
    &&& f.main_message_view() == msg
    &&& f.drive_message_view() == o.drive_message_view()
    &&& keeps_screen(o, f)
    &&& keeps_list(o, f)
    &&& keeps_typing(o, f)
}

/// Only the cursor moved, and nothing is asked.
pub open spec fn cursor_moved<H>(o: App<H>, f: App<H>, down: bool, r: Action<H>) -> bool {
    &&& down ==> moved_next(o.drives_view(), f.drives_view())
    &&& !down ==> moved_prev(o.drives_view(), f.drives_view())
    &&& keeps_screen(o, f)
    &&& keeps_messages(o, f)
    &&& keeps_mounts(o, f)
    &&& keeps_typing(o, f)
    &&& r is Nothing
}

/// What a key press does on the main screen: `q` quits; `d` opens the drive
/// screen; `r` asks for a fresh catalog; the arrows move the cursor; Enter
/// asks to mount the selected drive unless it is mounted; Delete takes the
/// selected drive's mount out for its process to be stopped, if it has one.
pub open spec fn main_step<H>(o: App<H>, f: App<H>, code: KeyCode, r: Action<H>) -> bool {
    match code {
        KeyCode::Char(c) => if c == 'q' {
            quits(o, f, r)
        } else if c == 'd' {
            &&& f.screen_view() == ScreenState::DriveManagement
            &&& keeps_list(o, f)
            &&& keeps_messages(o, f)
            &&& keeps_mounts(o, f)
            &&& keeps_typing(o, f)
            &&& r is Nothing
        } else if c == 'r' {
            refreshes(o, f, r)
        } else {
            f == o && r is Nothing
        },
        KeyCode::Down => cursor_moved(o, f, true, r),
        KeyCode::Up => cursor_moved(o, f, false, r),
        KeyCode::Enter => match o.selected_drive() {
            None => f == o && r is Nothing,
            Some(d) => if has_name(o.mounts_view(), d.name@) {
                &&& says_main(o, f, msg_no_remount())
                &&& keeps_mounts(o, f)
                &&& r is Nothing
            } else {
                &&& says_main(o, f, msg_mounting())
                &&& keeps_mounts(o, f)
                &&& r matches Action::Mount(m) && m == d
            },
        },
        KeyCode::Delete => match o.selected_drive() {
            None => f == o && r is Nothing,
            Some(d) => if has_name(o.mounts_view(), d.name@) {
                &&& says_main(o, f, msg_unmounting())
                &&& r matches Action::Unmount(rec) && unmount_result(o.mounts_view(), d.name@) == (
                    Ok::<MountRecord<H>, MountError>(rec),
                    f.mounts_view(),
                )
            } else {
                &&& says_main(o, f, msg_nothing_to_unmount())
                &&& keeps_mounts(o, f)
                &&& r is Nothing
            },
        },
        _ => f == o && r is Nothing,
    }
}

/// What a key press does on the drive screen. Esc stops typing; the arrows
/// move the cursor; Enter, while typing, asks to stop typing first, and
/// otherwise asks to create a drive of the typed name; Backspace deletes the
/// last typed character. While typing, a character key types it; otherwise
/// `i` starts typing, `m` goes back to the main screen, `q` quits and `r`
/// asks for a fresh catalog.
pub open spec fn drives_step<H>(o: App<H>, f: App<H>, code: KeyCode, r: Action<H>) -> bool {
    match code {
        KeyCode::Esc => {
            &&& !f.insert_view()
            &&& f.name_view() == o.name_view()
            &&& keeps_screen(o, f)
            &&& keeps_list(o, f)
            &&& keeps_messages(o, f)
            &&& keeps_mounts(o, f)
            &&& r is Nothing
        },
        KeyCode::Down => cursor_moved(o, f, true, r),
        KeyCode::Up => cursor_moved(o, f, false, r),
        KeyCode::Enter => {
            &&& f.drive_message_view() == if o.insert_view() {
                msg_leave_insert()
            } else {
                msg_after_login()
            }
            &&& f.main_message_view() == o.main_message_view()
            &&& keeps_screen(o, f)
            &&& keeps_list(o, f)
            &&& keeps_mounts(o, f)
            &&& keeps_typing(o, f)
            &&& o.insert_view() ==> r is Nothing
            &&& !o.insert_view() ==> (r matches Action::Login(c) && command_line(c) == login_line(
                o.name_view(),
            ))
        },
        KeyCode::Backspace => {
            &&& f.name_view() == if o.name_view().len() == 0 {
                o.name_view()
            } else {
                o.name_view().drop_last()
            }
            &&& f.insert_view() == o.insert_view()
            &&& keeps_screen(o, f)
            &&& keeps_list(o, f)
            &&& keeps_messages(o, f)
            &&& keeps_mounts(o, f)
            &&& r is Nothing
        },
        KeyCode::Char(c) => if o.insert_view() {
            &&& f.name_view() == o.name_view().push(c)
            &&& f.insert_view()
            &&& keeps_screen(o, f)
            &&& keeps_list(o, f)
            &&& keeps_messages(o, f)
            &&& keeps_mounts(o, f)
            &&& r is Nothing
        } else if c == 'i' {
            &&& f.insert_view()
            &&& f.name_view() == o.name_view()
            &&& keeps_screen(o, f)
            &&& keeps_list(o, f)
            &&& keeps_messages(o, f)
            &&& keeps_mounts(o, f)
            &&& r is Nothing
        } else if c == 'm' {
            &&& f.screen_view() == ScreenState::Main
            &&& keeps_list(o, f)
            &&& keeps_messages(o, f)
            &&& keeps_mounts(o, f)
            &&& keeps_typing(o, f)
            &&& r is Nothing
        } else if c == 'q' {
            quits(o, f, r)
        } else if c == 'r' {
            refreshes(o, f, r)
        } else {
            f == o && r is Nothing
        },
        _ => f == o && r is Nothing,
    }
}

/// A terminal shrunk below the minimum from a working screen shows the
/// overlay; grown back to the minimum or more, it shows the screen it covered
/// and no other, whatever sizes came between.
pub proof fn lemma_resize_round_trip(s: ScreenState, small: Seq<(u16, u16)>, w: u16, h: u16)
    requires
        small.len() > 0,
        is_small(small.last().0, small.last().1),
        !is_small(w, h),
        !(s is ErrorOverlay),
    ensures
        resized_all(s, small) is ErrorOverlay,
        resized(resized_all(s, small), w, h) == s,
{
    lemma_resize_keeps_base(s, small);
}

/// Resizes never change the working screen under the overlay.
proof fn lemma_resize_keeps_base(s: ScreenState, sizes: Seq<(u16, u16)>)
    ensures
        base_of(resized_all(s, sizes)) == base_of(s),
        sizes.len() > 0 && is_small(sizes.last().0, sizes.last().1) ==> resized_all(s, sizes) is ErrorOverlay,
    decreases sizes.len(),
{
    if sizes.len() > 0 {
        lemma_resize_keeps_base(s, sizes.drop_last());
    }
}

/// The screen after a sequence of resizes.
pub open spec fn resized_all(s: ScreenState, sizes: Seq<(u16, u16)>) -> ScreenState
    decreases sizes.len(),
{
    if sizes.len() == 0 {
        s
    } else {
        let last = sizes.last();
        resized(resized_all(s, sizes.drop_last()), last.0, last.1)
    }
}

} // verus!
