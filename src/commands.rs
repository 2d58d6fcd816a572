//! The external commands that mount, unmount and create drives, and the
//! choice of a mount target.

use vstd::prelude::*;
use vstd::string::*;
use rand::seq::SliceRandom;
use crate::drive::texts;
use crate::text::push_str;

verus! {

broadcast use vstd::seq_lib::group_to_multiset_ensures;

/// A program to run and its arguments.
pub struct ExternalCommand {
    pub program: String,
    pub args: Vec<String>,
}

/// The platform the dashboard runs on, as far as mounting is concerned.
#[derive(Clone, Copy, Debug, PartialEq, Eq, Structural)]
pub enum Platform {
    Windows,
    Linux,
    MacOs,
    Other,
}

/// How a mounted drive is unmounted.
pub enum UnmountPlan {
    /// Stop the mounting process itself.
    Kill,
    /// Run a platform unmount utility.
    Run(ExternalCommand),
    /// The platform has no known way.
    Unsupported,
}

/// The command line of a command.
pub open spec fn command_line(c: ExternalCommand) -> (Seq<char>, Seq<Seq<char>>) {
    (c.program@, texts(c.args@))
}

/// The mounting command: `rclone mount <name>: <target>` with a full VFS
/// cache, other users allowed, and 32M read chunks.
pub open spec fn mount_line(name: Seq<char>, target: Seq<char>) -> (Seq<char>, Seq<Seq<char>>) {
    (
        "rclone"@,
        seq![
            "mount"@,
            name + ":"@,
            target,
            "--vfs-cache-mode"@,
            "full"@,
            "--allow-other"@,
            "--vfs-read-chunk-size"@,
            "32M"@,
        ],
    )
}

/// The mount point directory of a drive: `<base>/<name>`.
pub open spec fn mount_path(base: Seq<char>, name: Seq<char>) -> Seq<char> {
    base + "/"@ + name
}

fn arg(s: &str) -> (r: String)
    ensures
        r@ == s@,
{
    String::from_str(s)
}

/// The command that mounts the drive `name` on `target`.
pub fn mount_command(name: &String, target: &String) -> (r: ExternalCommand)
    ensures
        command_line(r) == mount_line(name@, target@),
{
    let mut remote = name.clone();
    push_str(&mut remote, ":");
    let mut args: Vec<String> = Vec::new();
    args.push(arg("mount"));
    args.push(remote);
    args.push(target.clone());
    args.push(arg("--vfs-cache-mode"));
    args.push(arg("full"));
    args.push(arg("--allow-other"));
    args.push(arg("--vfs-read-chunk-size"));
    args.push(arg("32M"));
    let r = ExternalCommand { program: arg("rclone"), args };
    assert(texts(r.args@) =~= mount_line(name@, target@).1);
    r
}

/// The directory a drive is mounted on where mount points are directories.
pub fn mount_point_path(base: &str, name: &String) -> (r: String)
    ensures
        r@ == mount_path(base@, name@),
{
    let mut s = String::from_str(base);
    push_str(&mut s, "/");
    push_str(&mut s, name.as_str());
    s
}

/// How the drive `name` is unmounted on `platform`: on Windows its process
/// is stopped; on Linux `fusermount -uz <name>` runs; on macOS
/// `diskutil unmount <base>/<name>` runs; elsewhere there is no way.
pub open spec fn unmount_plan_spec(platform: Platform, name: Seq<char>, base: Seq<char>) -> Option<
    (Seq<char>, Seq<Seq<char>>),
> {
    match platform {
        Platform::Linux => Some(("fusermount"@, seq!["-uz"@, name])),
        Platform::MacOs => Some(("diskutil"@, seq!["unmount"@, mount_path(base, name)])),
        _ => None,
    }
}

/// The way to unmount the drive `name` on `platform`.
pub fn unmount_plan(platform: Platform, name: &String, base: &str) -> (r: UnmountPlan)
    ensures
        platform == Platform::Windows <==> r is Kill,
        platform == Platform::Other <==> r is Unsupported,
        r matches UnmountPlan::Run(c) ==> unmount_plan_spec(platform, name@, base@) == Some(command_line(c)),
{
    match platform {
        Platform::Windows => UnmountPlan::Kill,
        Platform::Linux => {
            let mut args: Vec<String> = Vec::new();
            args.push(arg("-uz"));
            args.push(name.clone());
            let c = ExternalCommand { program: arg("fusermount"), args };
            assert(texts(c.args@) =~= seq!["-uz"@, name@]);
            UnmountPlan::Run(c)
        },
        Platform::MacOs => {
            let mut args: Vec<String> = Vec::new();
            args.push(arg("unmount"));
            args.push(mount_point_path(base, name));
            let c = ExternalCommand { program: arg("diskutil"), args };
            assert(texts(c.args@) =~= seq!["unmount"@, mount_path(base@, name@)]);
            UnmountPlan::Run(c)
        },
        Platform::Other => UnmountPlan::Unsupported,
    }
}

/// What `str::trim` keeps of a text.
pub uninterp spec fn trimmed(s: Seq<char>) -> Seq<char>;

/// Relies on `str::trim`: the text without its leading and trailing Unicode
/// white space, a function of the text alone.
#[verifier::external_body]
fn trim(s: &str) -> (r: &str)
    ensures
        r@ == trimmed(s@),
{
    s.trim()
}

/// The command that creates a Google Drive remote named `name` (trimmed),
/// authorised in a local browser.
pub open spec fn login_line(name: Seq<char>) -> (Seq<char>, Seq<Seq<char>>) {
    (
        "rclone"@,
        seq!["config"@, "create"@, trimmed(name), "drive"@, "config_is_local"@, "true"@],
    )
}

/// The command that creates a new drive named `name`.
pub fn login_command(name: &str) -> (r: ExternalCommand)
    ensures
        command_line(r) == login_line(name@),
{
    let mut args: Vec<String> = Vec::new();
    args.push(arg("config"));
    args.push(arg("create"));
    args.push(String::from_str(trim(name)));
    args.push(arg("drive"));
    args.push(arg("config_is_local"));
    args.push(arg("true"));
    let r = ExternalCommand { program: arg("rclone"), args };
    assert(texts(r.args@) =~= login_line(name@).1);
    r
}

/// The drive letters, in order.
pub open spec fn letters() -> Seq<char> {
    "ABCDEFGHIJKLMNOPQRSTUVWXYZ"@
}

/// The drive letter a mounted path uses: its first character, unless the
/// path is empty or starts with `:`.
pub open spec fn path_letter(p: Seq<char>) -> Option<char> {
    if p.len() > 0 && p[0] != ':' {
        Some(p[0])
    } else {
        None
    }
}

/// Some path of `paths` uses the letter `c`.
pub open spec fn letter_in_use(paths: Seq<Seq<char>>, c: char) -> bool {
    exists|i: int| 0 <= i < paths.len() && path_letter(#[trigger] paths[i]) == Some(c)
}

/// The letters of `ls` that no path uses, in order.
pub open spec fn free_of(ls: Seq<char>, paths: Seq<Seq<char>>) -> Seq<char>
    decreases ls.len(),
{
    if ls.len() == 0 {
        ls
    } else if letter_in_use(paths, ls.last()) {
        free_of(ls.drop_last(), paths)
    } else {
        free_of(ls.drop_last(), paths).push(ls.last())
    }
}

fn letter_used(paths: &Vec<String>, c: char) -> (r: bool)
    ensures
        r == letter_in_use(texts(paths@), c),
{
    let ghost ps = texts(paths@);
    let mut i: usize = 0;
    while i < paths.len()
        invariant
            ps == texts(paths@),
            i <= paths@.len(),
            forall|j: int| 0 <= j < i ==> path_letter(#[trigger] ps[j]) != Some(c),
        decreases paths@.len() - i,
    {
        let p = paths[i].as_str();
        if p.unicode_len() > 0 {
            let first = p.get_char(0);
            if first != ':' && first == c {
                assert(path_letter(ps[i as int]) == Some(c));
                return true;
            }
        }
        assert(path_letter(ps[i as int]) != Some(c));
        i = i + 1;
    }
    false
}

/// The drive letters that none of the mounted `paths` uses, in order.
pub fn free_drive_letters(paths: &Vec<String>) -> (r: Vec<char>)
    ensures
        r@ == free_of(letters(), texts(paths@)),
{
    let all = "ABCDEFGHIJKLMNOPQRSTUVWXYZ";
    let n = all.unicode_len();
    let mut r: Vec<char> = Vec::new();
    let mut i: usize = 0;
    while i < n
        invariant
            n == letters().len(),
            all@ == letters(),
            i <= n,
            r@ == free_of(letters().subrange(0, i as int), texts(paths@)),
        decreases n - i,
    {
        let c = all.get_char(i);
        assert(letters().subrange(0, i + 1).drop_last() =~= letters().subrange(0, i as int));
        if !letter_used(paths, c) {
            r.push(c);
        }
        i = i + 1;
    }
    assert(letters().subrange(0, n as int) =~= letters());
    r
}

/// Relies on rand's `SliceRandom::shuffle` with the thread's generator,
/// which only swaps items: the result is a permutation.
#[verifier::external_body]
fn shuffle(v: &mut Vec<char>)
    ensures
        final(v)@.to_multiset() == old(v)@.to_multiset(),
{
    v.shuffle(&mut rand::thread_rng())
}

/// A drive letter, picked at random among those that none of the mounted
/// `paths` uses; none where all are used.
pub fn pick_drive_letter(paths: &Vec<String>) -> (r: Option<char>)
    ensures
        r is None <==> free_of(letters(), texts(paths@)).len() == 0,
        r matches Some(c) ==> free_of(letters(), texts(paths@)).contains(c),
{
    let mut free = free_drive_letters(paths);
    let ghost before = free@;
    shuffle(&mut free);
    proof {
        before.to_multiset_ensures();
        free@.to_multiset_ensures();
    }
    if free.len() == 0 {
        None
    } else {
        let c = free[0];
        assert(free@.contains(c));
        assert(free@.to_multiset().count(c) > 0);
        assert(before.to_multiset().count(c) > 0);
        Some(c)
    }
}

} // verus!
