//! Early system initialisation: mounting the common pseudo file systems.
//!
//! The mounts are system calls made by the caller; this module decides which
//! mount comes next and when initialisation is over.

use vstd::prelude::*;
use crate::initd::error::Error;

verus! {

/// Errno of a mount point that is already occupied.
pub const EBUSY: i32 = 16;

/// One mount: `what` of type `fstype` at `point`.
#[derive(Clone, Copy)]
pub struct MountPoint {
    pub what: &'static str,
    pub point: &'static str,
    pub fstype: &'static str,
}

/// The file systems that early initialisation mounts.
pub struct SystemInit {
    mount_dev: bool,
    mount_proc: bool,
    mount_sys: bool,
    mount_debug: bool,
    mount_run: bool,
    mount_tmp: bool,
}

/// A mount as `(what, point, fstype)`.
pub type MountView = (Seq<char>, Seq<char>, Seq<char>);

pub open spec fn view_of_mount(m: MountPoint) -> MountView {
    (m.what@, m.point@, m.fstype@)
}

/// Appends `m` when `enabled`.
pub open spec fn push_if(s: Seq<MountView>, enabled: bool, m: MountView) -> Seq<MountView> {
    if enabled {
        s.push(m)
    } else {
        s
    }
}

/// What the step after some mounts does.
pub enum InitStep {
    /// Mount this next.
    Mount(MountPoint),
    /// Initialisation is over, with this result.
    Done(Result<(), Error>),
}

/// Whether the outcome of one mount lets initialisation go on: success, or
/// a mount point that is already occupied.
pub open spec fn tolerated(r: Result<(), Error>) -> bool {
    match r {
        Ok(()) => true,
        Err(Error::FailedToMount { error, .. }) => error == EBUSY,
        Err(_) => false,
    }
}

impl SystemInit {
    /// Which of the six file systems are mounted, in the order
    /// devtmpfs, proc, sysfs, debugfs, the tmpfs at /run and the one at /tmp.
    pub closed spec fn enabled(&self) -> (bool, bool, bool, bool, bool, bool) {
        (self.mount_dev, self.mount_proc, self.mount_sys, self.mount_debug, self.mount_run, self.mount_tmp)
    }

    /// The mounts, in order, that initialisation makes.
    pub open spec fn plan(&self) -> Seq<MountView> {
        let e = self.enabled();
        let s = push_if(Seq::empty(), e.0, ("none"@, "/dev"@, "devtmpfs"@));
        let s = push_if(s, e.1, ("proc"@, "/proc"@, "proc"@));
        let s = push_if(s, e.2, ("sys"@, "/sys"@, "sysfs"@));
        let s = push_if(s, e.3, ("debug"@, "/sys/kernel/debug"@, "debugfs"@));
        let s = push_if(s, e.4, ("tmpfs"@, "/run"@, "tmpfs"@));
        push_if(s, e.5, ("tmpfs"@, "/tmp"@, "tmpfs"@))
    }

    /// The mounts, in order, that initialisation makes.
    pub fn mounts(&self) -> (v: Vec<MountPoint>)
        ensures
            v@.map_values(|m: MountPoint| view_of_mount(m)) == self.plan(),
    {
        let mut v: Vec<MountPoint> = Vec::new();
        if self.mount_dev {
            v.push(MountPoint { what: "none", point: "/dev", fstype: "devtmpfs" });
        }
        if self.mount_proc {
            v.push(MountPoint { what: "proc", point: "/proc", fstype: "proc" });
        }
        if self.mount_sys {
            v.push(MountPoint { what: "sys", point: "/sys", fstype: "sysfs" });
        }
        if self.mount_debug {
            v.push(MountPoint { what: "debug", point: "/sys/kernel/debug", fstype: "debugfs" });
        }
        if self.mount_run {
            v.push(MountPoint { what: "tmpfs", point: "/run", fstype: "tmpfs" });
        }
        if self.mount_tmp {
            v.push(MountPoint { what: "tmpfs", point: "/tmp", fstype: "tmpfs" });
        }
        proof {
            let p = self.plan();
            assert(v@.map_values(|m: MountPoint| view_of_mount(m)) =~= p);
        }
        v
    }

    /// The result of one mount as initialisation sees it: an occupied mount
    /// point is only worth a warning.
    pub fn mount(result: Result<(), Error>) -> (r: Result<(), Error>)
        ensures
            tolerated(result) ==> r is Ok,
            !tolerated(result) ==> r == result,
            r is Ok <==> (result is Ok || (result matches Err(Error::FailedToMount { error, .. })
                && error == EBUSY)),
    {
        proof {
            lemma_only_busy_mount_points_tolerated(result);
        }
        match result {
            Ok(()) => Ok(()),
            Err(Error::FailedToMount { error, directory }) => {
                if error == EBUSY {
                    Ok(())
                } else {
                    Err(Error::FailedToMount { error, directory })
                }
            },
            Err(e) => Err(e),
        }
    }

    /// The step of initialisation after `issued` mounts of the plan, the
    /// last of which ended with `last`: stop at the first mount that fails
    /// for another reason than an occupied mount point, else mount the next
    /// file system of the plan, else finish.
    pub fn init(&self, issued: usize, last: Option<Result<(), Error>>) -> (step: InitStep)
        requires
            issued <= self.plan().len(),
            (issued == 0) == (last is None),
        ensures
            (last matches Some(Err(Error::FailedToMount { error, .. })) && error != EBUSY) ==> step
                == InitStep::Done(last->0),
            (last matches Some(Err(e)) && !(e is FailedToMount)) ==> step == InitStep::Done(last->0),
            match last {
                Some(r) if !tolerated(r) => step == InitStep::Done(r),
                _ => if issued < self.plan().len() {
                    step matches InitStep::Mount(m) && view_of_mount(m) == self.plan()[issued as int]
                } else {
                    step matches InitStep::Done(Ok(()))
                },
            },
    {
        if let Some(r) = last {
            proof {
                lemma_only_busy_mount_points_tolerated(r);
            }
            let checked = Self::mount(r);
            if let Err(e) = checked {
                return InitStep::Done(Err(e));
            }
        }
        let plan = self.mounts();
        proof {
            assert(plan@.map_values(|m: MountPoint| view_of_mount(m)).len() == plan@.len());
        }
        if issued < plan.len() {
            let m = plan[issued];
            proof {
                assert(view_of_mount(m) == plan@.map_values(|m: MountPoint| view_of_mount(m))[issued as int]);
            }
            InitStep::Mount(m)
        } else {
            InitStep::Done(Ok(()))
        }
    }
}

impl Default for SystemInit {
    fn default() -> (s: Self)
        ensures
            s.enabled() == (true, true, true, true, true, true),
    {
        SystemInit {
            mount_dev: true,
            mount_proc: true,
            mount_sys: true,
            mount_debug: true,
            mount_run: true,
            mount_tmp: true,
        }
    }
}

/// Initialisation goes on past a mount exactly when the mount succeeded or
/// failed because its mount point is occupied (`EBUSY`, 16): any other
/// failure, of a mount with another errno or of anything else, stops it.
pub proof fn lemma_only_busy_mount_points_tolerated(r: Result<(), Error>)
    ensures
        EBUSY == 16,
        tolerated(r) <==> (r is Ok || (r matches Err(Error::FailedToMount { error, .. }) && error
            == EBUSY)),
{
}

} // verus!
