//! Process status, file descriptors and the decisions around a few system calls.

use vstd::prelude::*;
use vstd::std_specs::cmp::PartialEqSpecImpl;
use vstd::std_specs::convert::FromSpecImpl;
use vstd::string::StringSliceAdditionalSpecFns;
use crate::initd::error::{Error, strerror, errno_description};

verus! {

/// Whether a supervised process still runs.
#[derive(Debug, Clone, Copy, PartialEq, Eq, Structural)]
pub enum ProcessStatus {
    Alive,
    Dead { status: i32 },
}

impl ProcessStatus {
    pub fn is_alive(&self) -> (b: bool)
        ensures
            b == (*self is Alive),
    {
        match self {
            ProcessStatus::Alive => true,
            ProcessStatus::Dead { .. } => false,
        }
    }

    /// The status of a process that exited with the given exit code; a
    /// process that has no exit code (killed by a signal) counts as alive.
    pub fn from_exit_code(code: Option<i32>) -> (s: ProcessStatus)
        ensures
            s == (match code {
                None => ProcessStatus::Alive,
                Some(c) => ProcessStatus::Dead { status: c },
            }),
    {
        match code {
            None => ProcessStatus::Alive,
            Some(c) => ProcessStatus::Dead { status: c },
        }
    }

    /// The status after polling a process without waiting: `None` when it
    /// has not exited, else its exit code.
    pub fn from_try_wait(exited: Option<Option<i32>>) -> (s: ProcessStatus)
        ensures
            s == (match exited {
                None => ProcessStatus::Alive,
                Some(None) => ProcessStatus::Alive,
                Some(Some(c)) => ProcessStatus::Dead { status: c },
            }),
    {
        match exited {
            None => ProcessStatus::Alive,
            Some(code) => ProcessStatus::from_exit_code(code),
        }
    }
}

/// File type bits of a mode.
pub const S_IFMT: u32 = 0o170000;

/// File type of a directory.
pub const S_IFDIR: u32 = 0o040000;

/// File type of a symbolic link.
pub const S_IFLNK: u32 = 0o120000;

/// Whether a file mode describes a directory.
pub fn is_dir(mode: u32) -> (b: bool)
    ensures
        b == (mode & S_IFMT == S_IFDIR),
{
    (mode & S_IFMT) == S_IFDIR
}

/// Whether a file mode describes a symbolic link.
pub fn is_symlink(mode: u32) -> (b: bool)
    ensures
        b == (mode & S_IFMT == S_IFLNK),
{
    (mode & S_IFMT) == S_IFLNK
}

/// What to do about a directory that must exist, given what `stat` said.
pub enum DirAction {
    /// It is missing: create it.
    Create,
    /// Nothing left to do, with this result.
    Finished(Result<(), Error>),
}

/// The decision of `create_missing_dir` for `dir`: a `stat` that failed with
/// an errno means the directory is missing, any other failure is passed on,
/// and an existing file must be a directory.
pub fn create_missing_dir(dir: &str, stat_mode: Result<u32, Error>) -> (a: DirAction)
    ensures
        match stat_mode {
            Err(Error::Errno { .. }) => a is Create,
            Err(Error::ErrnoWithMessage { .. }) => a is Create,
            Err(e) => a == DirAction::Finished(Err(e)),
            Ok(mode) => if mode & S_IFMT == S_IFDIR {
                a == DirAction::Finished(Ok(()))
            } else {
                a matches DirAction::Finished(Err(Error::DirectoryAlreadyExistsAsFile { message, directory }))
                    && message@ == "The directory you tried to create already exists as a file"@
                    && directory@ == dir@
            },
        },
{
    match stat_mode {
        Err(Error::Errno { .. }) => DirAction::Create,
        Err(Error::ErrnoWithMessage { .. }) => DirAction::Create,
        Err(e) => DirAction::Finished(Err(e)),
        Ok(mode) => {
            if !is_dir(mode) {
                DirAction::Finished(
                    Err(
                        Error::DirectoryAlreadyExistsAsFile {
                            message: "The directory you tried to create already exists as a file",
                            directory: dir.to_owned(),
                        },
                    ),
                )
            } else {
                DirAction::Finished(Ok(()))
            }
        },
    }
}

/// The error for a `mkdir` of `dir` that failed with `errno`.
pub fn mkdir_failure(dir: &str, errno: i32) -> (e: Error)
    ensures
        e matches Error::FailedToCreateDirectory { message, directory, errno: n, error_message }
            && message@ == "Tried to create missing directory"@ && directory@ == dir@ && n == errno
            && error_message@ == errno_description(errno),
{
    Error::FailedToCreateDirectory {
        message: "Tried to create missing directory",
        directory: dir.to_owned(),
        errno,
        error_message: strerror(errno),
    }
}

/// The error for a `mount` at `point` that failed with `errno`.
pub fn mount_failure(point: &str, errno: i32) -> (e: Error)
    ensures
        e matches Error::FailedToMount { directory, error } && directory@ == point@ && error == errno,
{
    Error::FailedToMount { directory: point.to_owned(), error: errno }
}

/// Whether every string can become a C string: none holds a NUL byte.
pub open spec fn c_compatible(items: Seq<&str>) -> bool {
    forall|i: int| 0 <= i < items.len() ==> !(#[trigger] items[i]).spec_bytes().contains(0u8)
}

/// The check that `execve` makes before it turns its arguments and its
/// environment into C strings.
pub fn check_c_strings(items: &[&str]) -> (r: Result<(), Error>)
    ensures
        r is Ok <==> c_compatible(items@),
        r matches Err(e) ==> e is FailedToConvertStringToCString,
{
    let mut i: usize = 0;
    while i < items.len()
        invariant
            i <= items@.len(),
            forall|k: int| 0 <= k < i ==> !(#[trigger] items@[k]).spec_bytes().contains(0u8),
        decreases items@.len() - i,
    {
        let bytes = items[i].as_bytes();
        let mut j: usize = 0;
        while j < bytes.len()
            invariant
                j <= bytes@.len(),
                i < items@.len(),
                bytes@ == items@[i as int].spec_bytes(),
                forall|k: int| 0 <= k < j ==> bytes@[k] != 0u8,
            decreases bytes@.len() - j,
        {
            if bytes[j] == 0u8 {
                assert(items@[i as int].spec_bytes().contains(0u8)) by {
                    assert(bytes@[j as int] == 0u8);
                }
                return Err(Error::FailedToConvertStringToCString);
            }
            j = j + 1;
        }
        i = i + 1;
    }
    Ok(())
}

/// An owned file descriptor; negative when there is none.
#[derive(Debug)]
pub struct AutoCloseFD {
    fd: i32,
}

impl View for AutoCloseFD {
    type V = i32;

    closed spec fn view(&self) -> i32 {
        self.fd
    }
}

impl AutoCloseFD {
    pub fn new(fd: i32) -> (r: Self)
        ensures
            r@ == fd,
    {
        Self { fd }
    }

    /// Gives up the descriptor: returns it when there is one (the caller
    /// closes it) and leaves none behind. Closing twice releases nothing.
    pub fn close(&mut self) -> (released: Option<i32>)
        ensures
            old(self)@ < 0 ==> released is None && final(self)@ == old(self)@,
            old(self)@ >= 0 ==> released == Some(old(self)@) && final(self)@ == -1,
    {
        if self.fd < 0 {
            return None;
        }
        let fd = self.fd;
        self.fd = -1;
        Some(fd)
    }
}

/// A descriptor is released at most once: after `close`, closing again
/// releases nothing.
pub proof fn lemma_close_releases_once(before: i32, released: Option<i32>, after: i32, again: Option<i32>, last: i32)
    requires
        before < 0 ==> released is None && after == before,
        before >= 0 ==> released == Some(before) && after == -1,
        after < 0 ==> again is None && last == after,
        after >= 0 ==> again == Some(after) && last == -1,
    ensures
        again is None,
        last < 0,
{
}

/// Something that holds a file descriptor.
pub trait FD {
    spec fn descriptor(&self) -> i32;

    fn get(&self) -> (fd: i32)
        ensures
            fd == self.descriptor(),
    ;
}

impl FD for AutoCloseFD {
    open spec fn descriptor(&self) -> i32 {
        self@
    }

    fn get(&self) -> (fd: i32) {
        self.fd
    }
}

impl PartialEq for AutoCloseFD {
    fn eq(&self, other: &AutoCloseFD) -> (r: bool) {
        let o = other.get();
        self.get() == o
    }
}

impl PartialEqSpecImpl for AutoCloseFD {
    open spec fn obeys_eq_spec() -> bool {
        true
    }

    open spec fn eq_spec(&self, other: &AutoCloseFD) -> bool {
        self@ == other@
    }
}

impl From<i32> for AutoCloseFD {
    fn from(other: i32) -> (r: Self)
        ensures
            r@ == other,
    {
        let r = Self::new(other);
        assert(r@ == other);
        r
    }
}

impl FromSpecImpl<i32> for AutoCloseFD {
    open spec fn obeys_from_spec() -> bool {
        true
    }

    /// The descriptor that holds `v`.
    open spec fn from_spec(v: i32) -> AutoCloseFD {
        choose|f: AutoCloseFD| f@ == v
    }
}

/// The two ends of a fresh pipe, from the descriptors that `pipe2` filled in;
/// either one left at -1 means the pipe was not created.
pub fn pipe_ends(fds: [i32; 2]) -> (r: Result<(AutoCloseFD, AutoCloseFD), Error>)
    ensures
        r is Ok <==> (fds@[0] != -1 && fds@[1] != -1),
        r matches Ok((a, b)) ==> a@ == fds@[0] && b@ == fds@[1],
        r matches Err(e) ==> e is PipeCreationFailed,
{
    let a = fds[0];
    let b = fds[1];
    if a == -1 || b == -1 {
        return Err(Error::PipeCreationFailed);
    }
    Ok((AutoCloseFD::from(a), AutoCloseFD::from(b)))
}

} // verus!
