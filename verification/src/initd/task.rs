//! The processes that the init process runs.
//!
//! Starting a process is the caller's business: a task describes the process
//! as a [`SpawnRequest`], and the caller spawns it.

use vstd::prelude::*;
use vstd::std_specs::convert::FromSpecImpl;
use crate::config;

verus! {

/// What the supervisor does when a task's process exits.
#[derive(Debug, Clone, Copy, PartialEq, Eq, Structural)]
pub enum RestartStrategy {
    Never,
    RestartProcess,
    Reboot,
}

impl From<config::RestartStrategy> for RestartStrategy {
    fn from(other: config::RestartStrategy) -> (r: Self) {
        match other {
            config::RestartStrategy::Never => Self::Never,
            config::RestartStrategy::RestartProcess => Self::RestartProcess,
            config::RestartStrategy::Reboot => Self::Reboot,
        }
    }
}

impl FromSpecImpl<config::RestartStrategy> for RestartStrategy {
    open spec fn obeys_from_spec() -> bool {
        true
    }

    open spec fn from_spec(v: config::RestartStrategy) -> RestartStrategy {
        strategy_of(v)
    }
}

/// The task strategy for a configured strategy: the same variant.
pub open spec fn strategy_of(v: config::RestartStrategy) -> RestartStrategy {
    match v {
        config::RestartStrategy::Never => RestartStrategy::Never,
        config::RestartStrategy::RestartProcess => RestartStrategy::RestartProcess,
        config::RestartStrategy::Reboot => RestartStrategy::Reboot,
    }
}

/// The character sequences of a list of strings.
pub open spec fn strings_view(v: Seq<String>) -> Seq<Seq<char>> {
    v.map_values(|s: String| s@)
}

/// The character sequences of a list of string slices.
pub open spec fn strs_view(v: Seq<&str>) -> Seq<Seq<char>> {
    v.map_values(|s: &str| s@)
}

/// Owned copies of string slices.
pub fn to_strings(items: &[&str]) -> (v: Vec<String>)
    ensures
        strings_view(v@) == strs_view(items@),
{
    let mut v: Vec<String> = Vec::new();
    let mut i: usize = 0;
    while i < items.len()
        invariant
            i <= items@.len(),
            strings_view(v@) == strs_view(items@.take(i as int)),
        decreases items@.len() - i,
    {
        let ghost before = v@;
        let s = items[i].to_owned();
        v.push(s);
        proof {
            assert(items@.take(i + 1) =~= items@.take(i as int).push(items@[i as int]));
            assert(strings_view(v@) =~= strings_view(before).push(s@));
            assert(strs_view(items@.take(i + 1)) =~= strs_view(items@.take(i as int)).push(items@[i as int]@));
        }
        i = i + 1;
    }
    proof {
        assert(items@.take(items@.len() as int) == items@);
    }
    v
}

/// Copies of a list of strings.
pub fn clone_strings(items: &Vec<String>) -> (v: Vec<String>)
    ensures
        strings_view(v@) == strings_view(items@),
{
    let mut v: Vec<String> = Vec::new();
    let mut i: usize = 0;
    while i < items.len()
        invariant
            i <= items@.len(),
            strings_view(v@) == strings_view(items@.take(i as int)),
        decreases items@.len() - i,
    {
        let ghost before = v@;
        let s = items[i].clone();
        v.push(s);
        proof {
            assert(items@.take(i + 1) =~= items@.take(i as int).push(items@[i as int]));
            assert(strings_view(v@) =~= strings_view(before).push(s@));
            assert(strings_view(items@.take(i + 1)) =~= strings_view(items@.take(i as int)).push(items@[i as int]@));
        }
        i = i + 1;
    }
    proof {
        assert(items@.take(items@.len() as int) == items@);
    }
    v
}

/// Where a spawned process reads its standard input from.
#[derive(Debug, Clone, Copy, PartialEq, Eq, Structural)]
pub enum StdinSource {
    /// The init process's own standard input (the console).
    Inherit,
    /// Nothing.
    Null,
}

/// How to start a process. Standard output is always the init process's own.
pub struct SpawnRequest {
    pub program: String,
    pub args: Vec<String>,
    pub stdin: StdinSource,
    /// Start with an empty environment.
    pub clear_env: bool,
    /// Kill the process when its handle is dropped.
    pub kill_on_drop: bool,
    /// Put the process in a process group of its own.
    pub own_process_group: bool,
}

/// The plain values of a spawn request.
pub struct SpawnView {
    pub program: Seq<char>,
    pub args: Seq<Seq<char>>,
    pub stdin: StdinSource,
    pub clear_env: bool,
    pub kill_on_drop: bool,
    pub own_process_group: bool,
}

impl View for SpawnRequest {
    type V = SpawnView;

    open spec fn view(&self) -> SpawnView {
        SpawnView {
            program: self.program@,
            args: strings_view(self.args@),
            stdin: self.stdin,
            clear_env: self.clear_env,
            kill_on_drop: self.kill_on_drop,
            own_process_group: self.own_process_group,
        }
    }
}

/// How every task process is started: with the given program and arguments,
/// an empty environment, killed with its handle, in a process group of its
/// own, reading the console only when it is the shell.
pub open spec fn spawn_spec(program: Seq<char>, args: Seq<Seq<char>>, is_shell: bool) -> SpawnView {
    SpawnView {
        program,
        args,
        stdin: if is_shell {
            StdinSource::Inherit
        } else {
            StdinSource::Null
        },
        clear_env: true,
        kill_on_drop: true,
        own_process_group: true,
    }
}

/// A process that the init process runs and watches.
pub struct SubprocessTask {
    name: String,
    executable: String,
    arguments: Vec<String>,
    restart_strategy: RestartStrategy,
    is_shell: bool,
}

/// The plain values of a task.
pub struct TaskView {
    pub name: Seq<char>,
    pub executable: Seq<char>,
    pub arguments: Seq<Seq<char>>,
    pub restart_strategy: RestartStrategy,
    pub is_shell: bool,
}

impl View for SubprocessTask {
    type V = TaskView;

    closed spec fn view(&self) -> TaskView {
        TaskView {
            name: self.name@,
            executable: self.executable@,
            arguments: strings_view(self.arguments@),
            restart_strategy: self.restart_strategy,
            is_shell: self.is_shell,
        }
    }
}

impl SubprocessTask {
    pub fn new(
        executable: &str,
        arguments: &[&str],
        restart_strategy: RestartStrategy,
        name: &str,
        shell: bool,
    ) -> (t: Self)
        ensures
            t@ == (TaskView {
                name: name@,
                executable: executable@,
                arguments: strs_view(arguments@),
                restart_strategy,
                is_shell: shell,
            }),
    {
        Self {
            executable: executable.to_owned(),
            arguments: to_strings(arguments),
            restart_strategy,
            name: name.to_owned(),
            is_shell: shell,
        }
    }

    /// How to start `command` with `arguments`.
    pub fn spawn(command: &str, arguments: &Vec<String>, is_shell: bool) -> (r: SpawnRequest)
        ensures
            r@ == spawn_spec(command@, strings_view(arguments@), is_shell),
    {
        SpawnRequest {
            program: command.to_owned(),
            args: clone_strings(arguments),
            stdin: if is_shell {
                StdinSource::Inherit
            } else {
                StdinSource::Null
            },
            clear_env: true,
            kill_on_drop: true,
            own_process_group: true,
        }
    }

    /// How to start (or start again) the task's process.
    pub fn restart(&self) -> (r: SpawnRequest)
        ensures
            r@ == spawn_spec(self@.executable, self@.arguments, self@.is_shell),
    {
        Self::spawn(self.executable.as_str(), &self.arguments, self.is_shell)
    }

    pub fn name(&self) -> (n: &str)
        ensures
            n@ == self@.name,
    {
        self.name.as_str()
    }

    pub fn restart_strategy(&self) -> (s: RestartStrategy)
        ensures
            s == self@.restart_strategy,
    {
        self.restart_strategy
    }
}

/// The interactive shell on the console.
pub struct ShellTask;

impl ShellTask {
    /// `/bin/sh` with no arguments, named "shell", rebooting when it dies.
    pub fn new() -> (t: SubprocessTask)
        ensures
            t@ == (TaskView {
                name: "shell"@,
                executable: "/bin/sh"@,
                arguments: Seq::empty(),
                restart_strategy: RestartStrategy::Reboot,
                is_shell: true,
            }),
    {
        let no_arguments: Vec<&str> = Vec::new();
        let t = SubprocessTask::new("/bin/sh", no_arguments.as_slice(), RestartStrategy::Reboot, "shell", true);
        proof {
            assert(strs_view(no_arguments@) =~= Seq::<Seq<char>>::empty());
        }
        t
    }
}

} // verus!
