//! The mount set: which drives are mounted, on which target, by which
//! process; and the commands that mount and unmount a drive.

use vstd::prelude::*;
use crate::drive::{texts, DriveStruct};

verus! {

broadcast use vstd::seq_lib::group_to_multiset_ensures;

/// Why a mount or an unmount did not happen as asked.
#[derive(Clone, Copy, Debug, PartialEq, Eq, Structural)]
pub enum MountError {
    /// The drive is mounted already.
    AlreadyMounted,
    /// No free mount target was found.
    TargetAllocationFailed,
    /// The mounting process could not be started.
    SpawnFailed,
    /// The drive is not mounted.
    NotMounted,
    /// The mounting process could not be stopped; its record is gone anyway.
    TerminationFailed,
}

/// A mounted drive: the drive, the local target it is mounted on, and the
/// handle of the process that keeps it mounted.
pub struct MountRecord<H> {
    pub drive: DriveStruct,
    pub target: String,
    pub process: H,
}

/// Some record of `m` is for the drive named `name`.
pub open spec fn has_name<H>(m: Seq<MountRecord<H>>, name: Seq<char>) -> bool {
    exists|i: int| 0 <= i < m.len() && (#[trigger] m[i]).drive.name@ == name
}

/// No two records of `m` are for drives of the same name.
pub open spec fn names_unique<H>(m: Seq<MountRecord<H>>) -> bool {
    forall|i: int, j: int|
        0 <= i < m.len() && 0 <= j < m.len() && i != j ==> (#[trigger] m[i]).drive.name@ != (
        #[trigger] m[j]).drive.name@
}

/// The position of the record of the drive named `name`.
pub open spec fn index_of<H>(m: Seq<MountRecord<H>>, name: Seq<char>) -> int {
    choose|i: int| 0 <= i < m.len() && (#[trigger] m[i]).drive.name@ == name
}

/// How many records of `m` are for the drive named `name`.
pub open spec fn count_named<H>(m: Seq<MountRecord<H>>, name: Seq<char>) -> nat
    decreases m.len(),
{
    if m.len() == 0 {
        0
    } else {
        count_named(m.drop_last(), name) + if m.last().drive.name@ == name {
            1nat
        } else {
            0nat
        }
    }
}

/// The outcome of mounting `drive` on the set `m`, given the target found for
/// it and what starting the mounting process gave: the result and the set
/// after.
pub open spec fn mount_result<H>(
    m: Seq<MountRecord<H>>,
    drive: DriveStruct,
    target: Option<String>,
    spawn: Result<H, String>,
) -> (Result<(), MountError>, Seq<MountRecord<H>>) {
    if has_name(m, drive.name@) {
        (Err(MountError::AlreadyMounted), m)
    } else {
        match target {
            None => (Err(MountError::TargetAllocationFailed), m),
            Some(t) => match spawn {
                Err(_) => (Err(MountError::SpawnFailed), m),
                Ok(h) => (Ok(()), m.push(MountRecord { drive, target: t, process: h })),
            },
        }
    }
}

/// The outcome of unmounting the drive named `name` from the set `m`: the
/// record taken out (whose process is then to be stopped) and the set after.
pub open spec fn unmount_result<H>(m: Seq<MountRecord<H>>, name: Seq<char>) -> (
    Result<MountRecord<H>, MountError>,
    Seq<MountRecord<H>>,
) {
    if has_name(m, name) {
        (Ok(m[index_of(m, name)]), m.remove(index_of(m, name)))
    } else {
        (Err(MountError::NotMounted), m)
    }
}

/// The mounted drives, at most one record per drive name, in mount order.
pub struct MountSet<H> {
    records: Vec<MountRecord<H>>,
}

impl<H> MountSet<H> {
    /// The records, in mount order.
    pub closed spec fn records_view(&self) -> Seq<MountRecord<H>> {
        self.records@
    }

    pub open spec fn wf(&self) -> bool {
        names_unique(self.records_view())
    }

    /// An empty set.
    pub fn new() -> (r: MountSet<H>)
        ensures
            r.wf(),
            r.records_view() == Seq::<MountRecord<H>>::empty(),
    {
        MountSet { records: Vec::new() }
    }

    /// The records, in mount order.
    pub fn records(&self) -> (r: &Vec<MountRecord<H>>)
        ensures
            r@ == self.records_view(),
    {
        &self.records
    }

    /// The position of the record of the drive named `name`, if there is one.
    fn find(&self, name: &String) -> (r: Option<usize>)
        requires
            self.wf(),
        ensures
            r is None <==> !has_name(self.records_view(), name@),
            r matches Some(i) ==> i == index_of(self.records_view(), name@),
    {
        let mut i: usize = 0;
        while i < self.records.len()
            invariant
                self.wf(),
                i <= self.records@.len(),
                forall|j: int| 0 <= j < i ==> (#[trigger] self.records@[j]).drive.name@ != name@,
            decreases self.records@.len() - i,
        {
            if self.records[i].drive.name == *name {
                proof {
                    let k = index_of(self.records@, name@);
                    assert(has_name(self.records@, name@));
                    assert(self.records@[k].drive.name@ == name@);
                    assert(self.records@[i as int].drive.name@ == name@);
                    if k != i {
                        assert(self.records@[k].drive.name@ != self.records@[i as int].drive.name@);
                    }
                }
                return Some(i);
            }
            i = i + 1;
        }
        None
    }

    /// Whether the drive named `name` is mounted.
    pub fn is_mounted(&self, name: &String) -> (r: bool)
        requires
            self.wf(),
        ensures
            r == has_name(self.records_view(), name@),
    {
        self.find(name).is_some()
    }

    /// Records `drive` as mounted on `target` by the process that `spawn`
    /// gives. Fails, leaving the set as it is, with `AlreadyMounted` where the
    /// drive's name is mounted, then with `TargetAllocationFailed` where no
    /// target was found, then with `SpawnFailed` where the process did not
    /// start.
    pub fn mount(&mut self, drive: DriveStruct, target: Option<String>, spawn: Result<H, String>) -> (r: Result<
        (),
        MountError,
    >)
        requires
            old(self).wf(),
        ensures
            final(self).wf(),
            (r, final(self).records_view()) == mount_result(old(self).records_view(), drive, target, spawn),
    {
        if self.is_mounted(&drive.name) {
            return Err(MountError::AlreadyMounted);
        }
        match target {
            None => Err(MountError::TargetAllocationFailed),
            Some(t) => match spawn {
                Err(_) => Err(MountError::SpawnFailed),
                Ok(h) => {
                    let ghost name = drive.name@;
                    self.records.push(MountRecord { drive, target: t, process: h });
                    proof {
                        let m = self.records@;
                        assert forall|i: int, j: int|
                            0 <= i < m.len() && 0 <= j < m.len() && i != j implies (#[trigger] m[i]).drive.name@
                            != (#[trigger] m[j]).drive.name@ by {
                            if i == m.len() - 1 {
                                assert(m[j] == old(self).records@[j]);
                            } else if j == m.len() - 1 {
                                assert(m[i] == old(self).records@[i]);
                            } else {
                                assert(m[i] == old(self).records@[i]);
                                assert(m[j] == old(self).records@[j]);
                            }
                        }
                    }
                    Ok(())
                },
            },
        }
    }

    /// Takes the record of the drive named `name` out of the set, so that its
    /// process can be stopped. Fails with `NotMounted`, leaving the set as it
    /// is, where no such drive is mounted.
    pub fn unmount(&mut self, name: &String) -> (r: Result<MountRecord<H>, MountError>)
        requires
            old(self).wf(),
        ensures
            final(self).wf(),
            (r, final(self).records_view()) == unmount_result(old(self).records_view(), name@),
    {
        match self.find(name) {
            None => Err(MountError::NotMounted),
            Some(i) => {
                let rec = self.records.remove(i);
                proof {
                    let m = self.records@;
                    let o = old(self).records@;
                    assert forall|a: int, b: int|
                        0 <= a < m.len() && 0 <= b < m.len() && a != b implies (#[trigger] m[a]).drive.name@
                        != (#[trigger] m[b]).drive.name@ by {
                        let a2 = if a < i {
                            a
                        } else {
                            a + 1
                        };
                        let b2 = if b < i {
                            b
                        } else {
                            b + 1
                        };
                        assert(m[a] == o[a2]);
                        assert(m[b] == o[b2]);
                    }
                }
                Ok(rec)
            },
        }
    }

    /// Takes every record out of the set, in mount order, so that each
    /// process can be stopped; the set is left empty.
    pub fn shutdown_all(&mut self) -> (r: Vec<MountRecord<H>>)
        requires
            old(self).wf(),
        ensures
            final(self).wf(),
            final(self).records_view() == Seq::<MountRecord<H>>::empty(),
            r@ == old(self).records_view(),
    {
        let mut all = Vec::new();
        std::mem::swap(&mut all, &mut self.records);
        all
    }
}

/// Where no record has a name, it counts none of it.
proof fn lemma_count_absent<H>(m: Seq<MountRecord<H>>, name: Seq<char>)
    requires
        !has_name(m, name),
    ensures
        count_named(m, name) == 0,
    decreases m.len(),
{
    if m.len() > 0 {
        assert(m.last() == m[m.len() - 1]);
        assert(!has_name(m.drop_last(), name)) by {
            if has_name(m.drop_last(), name) {
                let i = choose|i: int|
                    0 <= i < m.drop_last().len() && (#[trigger] m.drop_last()[i]).drive.name@ == name;
                assert(m[i] == m.drop_last()[i]);
            }
        }
        lemma_count_absent(m.drop_last(), name);
    }
}

/// In a set with unique names, a mounted name has exactly one record.
pub proof fn lemma_count_one<H>(m: Seq<MountRecord<H>>, name: Seq<char>)
    requires
        names_unique(m),
        has_name(m, name),
    ensures
        count_named(m, name) == 1,
    decreases m.len(),
{
    let k = index_of(m, name);
    let d = m.drop_last();
    assert(names_unique(d)) by {
        assert forall|i: int, j: int|
            0 <= i < d.len() && 0 <= j < d.len() && i != j implies (#[trigger] d[i]).drive.name@ != (
            #[trigger] d[j]).drive.name@ by {
            assert(d[i] == m[i]);
            assert(d[j] == m[j]);
        }
    }
    if k == m.len() - 1 {
        assert(!has_name(d, name)) by {
            if has_name(d, name) {
                let i = choose|i: int| 0 <= i < d.len() && (#[trigger] d[i]).drive.name@ == name;
                assert(d[i] == m[i]);
            }
        }
        lemma_count_absent(d, name);
    } else {
        assert(d[k] == m[k]);
        assert(has_name(d, name));
        lemma_count_one(d, name);
        assert(m.last() == m[m.len() - 1]);
    }
}

/// Mounting a drive twice in a row, where the first call mounted it (or it
/// was mounted before), leaves exactly one record for it, and the second
/// call fails with `AlreadyMounted` and changes nothing.
pub proof fn lemma_mount_twice<H>(
    m: Seq<MountRecord<H>>,
    drive: DriveStruct,
    target1: Option<String>,
    spawn1: Result<H, String>,
    target2: Option<String>,
    spawn2: Result<H, String>,
)
    requires
        names_unique(m),
        has_name(m, drive.name@) || mount_result(m, drive, target1, spawn1).0 is Ok,
    ensures
        ({
            let m1 = mount_result(m, drive, target1, spawn1).1;
            let (r2, m2) = mount_result(m1, drive, target2, spawn2);
            &&& r2 == Err::<(), MountError>(MountError::AlreadyMounted)
            &&& m2 == m1
            &&& count_named(m2, drive.name@) == 1
        }),
{
    let m1 = mount_result(m, drive, target1, spawn1).1;
    if !has_name(m, drive.name@) {
        let n = m1.len() - 1;
        assert(m1[n].drive.name@ == drive.name@);
        assert forall|i: int, j: int|
            0 <= i < m1.len() && 0 <= j < m1.len() && i != j implies (#[trigger] m1[i]).drive.name@ != (
            #[trigger] m1[j]).drive.name@ by {
            if i == n {
                assert(m1[j] == m[j]);
            } else if j == n {
                assert(m1[i] == m[i]);
            } else {
                assert(m1[i] == m[i]);
                assert(m1[j] == m[j]);
            }
        }
    }
    assert(has_name(m1, drive.name@));
    lemma_count_one(m1, drive.name@);
}

/// Unmounting a drive that is not mounted fails with `NotMounted` and
/// leaves the set as it was.
pub proof fn lemma_unmount_absent<H>(m: Seq<MountRecord<H>>, name: Seq<char>)
    requires
        !has_name(m, name),
    ensures
        unmount_result(m, name) == (Err::<MountRecord<H>, MountError>(MountError::NotMounted), m),
{
}

/// Mounting a drive that is not mounted and then unmounting it leaves the
/// set as it was, whatever the mount's outcome.
pub proof fn lemma_mount_unmount<H>(
    m: Seq<MountRecord<H>>,
    drive: DriveStruct,
    target: Option<String>,
    spawn: Result<H, String>,
)
    requires
        names_unique(m),
        !has_name(m, drive.name@),
    ensures
        unmount_result(mount_result(m, drive, target, spawn).1, drive.name@).1 == m,
{
    let m1 = mount_result(m, drive, target, spawn).1;
    if mount_result(m, drive, target, spawn).0 is Ok {
        let n = m.len() as int;
        assert(m1[n].drive.name@ == drive.name@);
        assert(has_name(m1, drive.name@));
        let k = index_of(m1, drive.name@);
        if k != n {
            assert(m1[k] == m[k]);
        }
        assert(m1.remove(n) =~= m);
    }
}

} // verus!
