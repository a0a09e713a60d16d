//! The tasks of the network process: a console shell it keeps running.

use vstd::prelude::*;
use crate::initd::util::AutoCloseFD;

verus! {

/// What happens when a task's process exits.
#[derive(Debug, Clone, Copy, PartialEq, Eq, Structural)]
pub enum RestartStrategy {
    Never,
    RestartProcess,
    Reboot,
}

/// Poll event: data to read.
pub const POLLIN: i16 = 1;

/// A program and its argument vector (the first argument is the program's
/// own name).
pub struct Command {
    pub program: &'static str,
    pub argv: Vec<&'static str>,
}

/// A shell on the console, watched through its descriptor and restarted
/// when it exits.
pub struct ShellTask {
    child_fd: AutoCloseFD,
}

impl ShellTask {
    /// The task around a spawned shell, watched through `child_fd`.
    pub fn new(child_fd: AutoCloseFD) -> (t: Self)
        ensures
            t.fd()@ == child_fd@,
    {
        Self { child_fd }
    }

    pub closed spec fn fd(&self) -> AutoCloseFD {
        self.child_fd
    }

    /// The command that starts the shell: `/bin/sh` called `sh`.
    pub fn spawn() -> (c: Command)
        ensures
            c.program@ == "/bin/sh"@,
            c.argv@.len() == 1,
            c.argv@[0]@ == "sh"@,
    {
        let mut argv: Vec<&'static str> = Vec::new();
        argv.push("sh");
        Command { program: "/bin/sh", argv }
    }

    /// Takes the descriptor of a newly spawned shell and hands back the old
    /// one, which the caller closes.
    pub fn restart(&mut self, child_fd: AutoCloseFD) -> (old_fd: AutoCloseFD)
        ensures
            final(self).fd()@ == child_fd@,
            old_fd@ == old(self).fd()@,
    {
        let mut fd = child_fd;
        std::mem::swap(&mut fd, &mut self.child_fd);
        fd
    }

    pub fn name(&self) -> (n: &'static str)
        ensures
            n@ == "shell"@,
    {
        "shell"
    }

    pub fn restart_strategy(&self) -> (s: RestartStrategy)
        ensures
            s == RestartStrategy::RestartProcess,
    {
        RestartStrategy::RestartProcess
    }

    /// The descriptor to poll, and for what: the shell's, for reading.
    pub fn poll_fd(&self) -> (r: Option<(&AutoCloseFD, i16)>)
        ensures
            r matches Some((f, ev)) && f@ == self.fd()@ && ev == POLLIN,
    {
        Some((&self.child_fd, POLLIN))
    }
}

} // verus!
