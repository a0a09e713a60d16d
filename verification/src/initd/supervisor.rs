//! What the init process runs and how it reacts when a task's process ends.
//!
//! Each task is watched by its own loop: wait for the process, and when it
//! dies act on the task's restart strategy. A watch that stops with a status
//! brings the system down (the caller reboots); a watch that stops without
//! one lets the other tasks go on.

use vstd::prelude::*;
use crate::config::{Configuration, ServiceConfiguration, name_lt};
use crate::initd::error::Error;
use crate::initd::task::{strategy_of, RestartStrategy, SubprocessTask, ShellTask, TaskView, strs_view, strings_view};
use crate::initd::util::ProcessStatus;

verus! {

/// The plain values of the network task.
pub open spec fn network_task_view() -> TaskView {
    TaskView {
        name: "network"@,
        executable: "/bin/netconf"@,
        arguments: Seq::empty(),
        restart_strategy: RestartStrategy::Never,
        is_shell: true,
    }
}

/// The plain values of the shell task.
pub open spec fn shell_task_view() -> TaskView {
    TaskView {
        name: "shell"@,
        executable: "/bin/sh"@,
        arguments: Seq::empty(),
        restart_strategy: RestartStrategy::Reboot,
        is_shell: true,
    }
}

/// The task that runs a configured service.
pub open spec fn service_task_view(entry: (String, ServiceConfiguration)) -> TaskView {
    TaskView {
        name: entry.0@,
        executable: entry.1.file@,
        arguments: strings_view(entry.1.args@),
        restart_strategy: strategy_of(entry.1.restart_strategy),
        is_shell: false,
    }
}

/// The tasks the init process runs: the shell, the network task, then the
/// configured services in order.
pub open spec fn planned_tasks(config: &Configuration) -> Seq<TaskView> {
    seq![shell_task_view(), network_task_view()] + config.services@.map_values(
        |e: (String, ServiceConfiguration)| service_task_view(e),
    )
}

/// Borrowed slices of a list of strings.
pub fn as_strs(items: &Vec<String>) -> (v: Vec<&str>)
    ensures
        strs_view(v@) == strings_view(items@),
{
    let mut v: Vec<&str> = Vec::new();
    let mut i: usize = 0;
    while i < items.len()
        invariant
            i <= items@.len(),
            strs_view(v@) == strings_view(items@.take(i as int)),
        decreases items@.len() - i,
    {
        let ghost before = v@;
        let s = items[i].as_str();
        v.push(s);
        proof {
            assert(items@.take(i + 1) =~= items@.take(i as int).push(items@[i as int]));
            assert(strs_view(v@) =~= strs_view(before).push(s@));
            assert(strings_view(items@.take(i + 1)) =~= strings_view(items@.take(i as int)).push(
                items@[i as int]@,
            ));
        }
        i = i + 1;
    }
    proof {
        assert(items@.take(items@.len() as int) == items@);
    }
    v
}

/// The tasks the init process runs for a configuration.
pub fn plan_tasks(config: &Configuration) -> (tasks: Vec<SubprocessTask>)
    requires
        config.wf(),
    ensures
        tasks@.map_values(|t: SubprocessTask| t@) == planned_tasks(config),
        tasks@.len() == config.services@.len() + 2,
        forall|i: int|
            0 <= i < config.services@.len() ==> same_strategy(
                #[trigger] tasks@[i + 2]@.restart_strategy,
                config.services@[i].1.restart_strategy,
            ) && tasks@[i + 2]@.name == config.services@[i].0@ && tasks@[i + 2]@.executable
                == config.services@[i].1.file@ && !tasks@[i + 2]@.is_shell,
        forall|i: int, j: int|
            2 <= i < j < tasks@.len() ==> name_lt(#[trigger] tasks@[i]@.name, #[trigger] tasks@[j]@.name),
{
    let mut tasks: Vec<SubprocessTask> = Vec::new();
    tasks.push(ShellTask::new());
    let no_arguments: Vec<&str> = Vec::new();
    tasks.push(SubprocessTask::new("/bin/netconf", no_arguments.as_slice(), RestartStrategy::Never, "network", true));
    proof {
        assert(strs_view(no_arguments@) =~= Seq::<Seq<char>>::empty());
    }
    let ghost head = seq![shell_task_view(), network_task_view()];
    let ghost services = config.services@.map_values(
        |e: (String, ServiceConfiguration)| service_task_view(e),
    );
    proof {
        assert(tasks@.map_values(|t: SubprocessTask| t@) =~= head);
    }
    let mut i: usize = 0;
    while i < config.services.len()
        invariant
            i <= config.services@.len(),
            tasks@.map_values(|t: SubprocessTask| t@) == head + services.take(i as int),
            services == config.services@.map_values(
                |e: (String, ServiceConfiguration)| service_task_view(e),
            ),
        decreases config.services@.len() - i,
    {
        let entry = &config.services[i];
        let args = as_strs(&entry.1.args);
        let strategy = RestartStrategy::from(entry.1.restart_strategy);
        let ghost before = tasks@;
        let t = SubprocessTask::new(entry.1.file.as_str(), args.as_slice(), strategy, entry.0.as_str(), false);
        tasks.push(t);
        proof {
            assert(t@ == service_task_view(config.services@[i as int]));
            assert(services.take(i + 1) =~= services.take(i as int).push(services[i as int]));
            assert(tasks@.map_values(|t: SubprocessTask| t@) =~= before.map_values(
                |t: SubprocessTask| t@,
            ).push(t@));
        }
        i = i + 1;
    }
    proof {
        assert(services.take(config.services@.len() as int) == services);
        let views = tasks@.map_values(|t: SubprocessTask| t@);
        lemma_services_planned_as_configured(config);
        assert forall|i: int| 0 <= i < config.services@.len() implies same_strategy(
            #[trigger] tasks@[i + 2]@.restart_strategy,
            config.services@[i].1.restart_strategy,
        ) && tasks@[i + 2]@.name == config.services@[i].0@ && tasks@[i + 2]@.executable
            == config.services@[i].1.file@ && !tasks@[i + 2]@.is_shell by {
            assert(views[i + 2] == tasks@[i + 2]@);
        }
        assert forall|i: int, j: int| 2 <= i < j < tasks@.len() implies name_lt(
            #[trigger] tasks@[i]@.name,
            #[trigger] tasks@[j]@.name,
        ) by {
            assert(views[i] == tasks@[i]@);
            assert(views[j] == tasks@[j]@);
            assert(views[i] == services[i - 2]);
            assert(views[j] == services[j - 2]);
            assert(name_lt(config.services@[i - 2].0@, config.services@[j - 2].0@));
        }
    }
    tasks
}

/// What happened to a watched task since the watch last acted.
#[derive(Debug, Clone, Copy, PartialEq, Eq, Structural)]
pub enum WatchEvent {
    /// Waiting for the process failed.
    WaitFailed,
    /// The wait ended with this status.
    Waited(ProcessStatus),
    /// The process was started again.
    Restarted,
    /// Starting the process again failed.
    RestartFailed,
}

/// What the watch of a task does next.
#[derive(Debug, Clone, Copy, PartialEq, Eq, Structural)]
pub enum WatchAction {
    /// Wait for the process.
    Wait,
    /// Start the process again.
    Restart,
    /// Stop watching; a status means the system must go down.
    Stop(Option<ProcessStatus>),
}

/// The watch of one task.
pub struct TaskWatch {
    pub strategy: RestartStrategy,
    /// The status the task last died with (-1 before it died).
    pub last: ProcessStatus,
}

/// The watch's next `last` and action after `event`.
pub open spec fn watch_step(strategy: RestartStrategy, last: ProcessStatus, event: WatchEvent) -> (
    ProcessStatus,
    WatchAction,
) {
    match event {
        WatchEvent::WaitFailed => (last, WatchAction::Stop(Some(last))),
        WatchEvent::Waited(ProcessStatus::Alive) => (last, WatchAction::Wait),
        WatchEvent::Waited(dead) => (
            dead,
            match strategy {
                RestartStrategy::Never => WatchAction::Stop(None),
                RestartStrategy::Reboot => WatchAction::Stop(Some(dead)),
                RestartStrategy::RestartProcess => WatchAction::Restart,
            },
        ),
        WatchEvent::Restarted => (last, WatchAction::Wait),
        WatchEvent::RestartFailed => (last, WatchAction::Stop(Some(last))),
    }
}

impl TaskWatch {
    /// A watch that starts by waiting for the process.
    pub fn new(strategy: RestartStrategy) -> (w: Self)
        ensures
            w.strategy == strategy,
            w.last == (ProcessStatus::Dead { status: -1i32 }),
    {
        TaskWatch { strategy, last: ProcessStatus::Dead { status: -1 } }
    }

    /// Acts on `event`: a live process is waited for again; a dead one is
    /// left alone (`Never`), brings the system down (`Reboot`) or is
    /// restarted (`RestartProcess`); a failed wait or restart brings the
    /// system down with the status the task last died with.
    pub fn step(&mut self, event: WatchEvent) -> (a: WatchAction)
        ensures
            final(self).strategy == old(self).strategy,
            (final(self).last, a) == watch_step(old(self).strategy, old(self).last, event),
            event == WatchEvent::Waited(ProcessStatus::Alive) ==> a == WatchAction::Wait
                && final(self).last == old(self).last,
            a matches WatchAction::Stop(Some(_)) ==> event is WaitFailed || event is RestartFailed
                || (old(self).strategy is Reboot && event matches WatchEvent::Waited(
                ProcessStatus::Dead { .. },
            )),
    {
        proof {
            lemma_live_process_waited_for(self.strategy, self.last);
            lemma_system_stops_only_on_failure_or_reboot(self.strategy, self.last, event);
        }
        match event {
            WatchEvent::WaitFailed => WatchAction::Stop(Some(self.last)),
            WatchEvent::Waited(ProcessStatus::Alive) => WatchAction::Wait,
            WatchEvent::Waited(dead) => {
                self.last = dead;
                match self.strategy {
                    RestartStrategy::Never => WatchAction::Stop(None),
                    RestartStrategy::Reboot => WatchAction::Stop(Some(dead)),
                    RestartStrategy::RestartProcess => WatchAction::Restart,
                }
            },
            WatchEvent::Restarted => WatchAction::Wait,
            WatchEvent::RestartFailed => WatchAction::Stop(Some(self.last)),
        }
    }
}

/// How the supervisor learns that a watch is over.
#[derive(Debug, Clone, Copy, PartialEq, Eq, Structural)]
pub enum JoinOutcome {
    /// A watch stopped with this result.
    Stopped(Option<ProcessStatus>),
    /// A watch could not be joined.
    JoinFailed,
    /// No watch is left.
    NoTasks,
}

/// Whether the system keeps running after `outcome`.
pub open spec fn keeps_running(outcome: JoinOutcome) -> bool {
    outcome == JoinOutcome::Stopped(None)
}

/// The supervisor's reaction to the end of a watch: only a watch that
/// stopped without a status lets the system go on.
pub fn task_finished(outcome: JoinOutcome) -> (r: Result<(), Error>)
    ensures
        keeps_running(outcome) ==> r is Ok,
        !keeps_running(outcome) ==> r matches Err(Error::AllChildrenDied),
{
    match outcome {
        JoinOutcome::Stopped(Some(_)) => Err(Error::AllChildrenDied),
        JoinOutcome::Stopped(None) => Ok(()),
        _ => Err(Error::AllChildrenDied),
    }
}

/// A task that must not be restarted and whose process dies is let go: the
/// system keeps running.
pub proof fn lemma_never_task_death_keeps_system(last: ProcessStatus, status: i32)
    ensures
        ({
            let (_, a) = watch_step(RestartStrategy::Never, last, WatchEvent::Waited(ProcessStatus::Dead { status }));
            a matches WatchAction::Stop(r) && keeps_running(JoinOutcome::Stopped(r))
        }),
{
}

/// A task that requires a reboot and whose process dies brings the system
/// down, reporting the status it died with.
pub proof fn lemma_reboot_task_death_stops_system(last: ProcessStatus, status: i32)
    ensures
        ({
            let (l, a) = watch_step(RestartStrategy::Reboot, last, WatchEvent::Waited(ProcessStatus::Dead { status }));
            &&& l == (ProcessStatus::Dead { status })
            &&& a == WatchAction::Stop(Some(ProcessStatus::Dead { status }))
            &&& !keeps_running(JoinOutcome::Stopped(Some(l)))
        }),
{
}

/// A task that is restarted when it dies is watched for ever as long as
/// waiting and restarting work: neither a wait nor a successful restart
/// ends its watch.
pub proof fn lemma_restarted_task_watched_until_failure(last: ProcessStatus, event: WatchEvent)
    requires
        event is Waited || event is Restarted,
    ensures
        !(watch_step(RestartStrategy::RestartProcess, last, event).1 is Stop),
{
}

/// Whatever the strategy, a failed wait or a failed restart brings the
/// system down.
pub proof fn lemma_failure_stops_system(strategy: RestartStrategy, last: ProcessStatus, event: WatchEvent)
    requires
        event is WaitFailed || event is RestartFailed,
    ensures
        ({
            let (l, a) = watch_step(strategy, last, event);
            a matches WatchAction::Stop(r) && !keeps_running(JoinOutcome::Stopped(r))
        }),
{
}

/// A configured strategy and a task's strategy of the same name.
pub open spec fn same_strategy(t: RestartStrategy, c: crate::config::RestartStrategy) -> bool {
    &&& (t is Never <==> c is Never)
    &&& (t is RestartProcess <==> c is RestartProcess)
    &&& (t is Reboot <==> c is Reboot)
}

/// Each configured service becomes, after the shell and the network task,
/// a task of its own name, file and arguments, not reading the console, with
/// the restart strategy of the same name as the configured one.
pub proof fn lemma_services_planned_as_configured(config: &Configuration)
    ensures
        planned_tasks(config).len() == config.services@.len() + 2,
        forall|i: int|
            0 <= i < config.services@.len() ==> {
                let t = #[trigger] planned_tasks(config)[i + 2];
                let (name, service) = config.services@[i];
                &&& same_strategy(t.restart_strategy, service.restart_strategy)
                &&& t.name == name@
                &&& t.executable == service.file@
                &&& t.arguments == strings_view(service.args@)
                &&& !t.is_shell
            },
{
    let head = seq![shell_task_view(), network_task_view()];
    let rest = config.services@.map_values(|e: (String, ServiceConfiguration)| service_task_view(e));
    assert forall|i: int| 0 <= i < config.services@.len() implies {
        let t = #[trigger] planned_tasks(config)[i + 2];
        let (name, service) = config.services@[i];
        &&& same_strategy(t.restart_strategy, service.restart_strategy)
        &&& t.name == name@
        &&& t.executable == service.file@
        &&& t.arguments == strings_view(service.args@)
        &&& !t.is_shell
    } by {
        assert(planned_tasks(config)[i + 2] == rest[i]);
    }
}

/// A process that is still alive is waited for again, whatever its task's
/// strategy: the watch neither stops nor restarts it, and keeps the status
/// the task last died with.
pub proof fn lemma_live_process_waited_for(strategy: RestartStrategy, last: ProcessStatus)
    ensures
        watch_step(strategy, last, WatchEvent::Waited(ProcessStatus::Alive)) == (
            last,
            WatchAction::Wait,
        ),
{
}

/// The system is brought down only by a failed wait, a failed restart, or
/// the death of a task that requires a reboot; and a watch restarts only a
/// dead process of a task that is restarted.
pub proof fn lemma_system_stops_only_on_failure_or_reboot(
    strategy: RestartStrategy,
    last: ProcessStatus,
    event: WatchEvent,
)
    ensures
        watch_step(strategy, last, event).1 matches WatchAction::Stop(Some(_)) ==> event is WaitFailed
            || event is RestartFailed || (strategy is Reboot && event matches WatchEvent::Waited(
            ProcessStatus::Dead { .. },
        )),
        watch_step(strategy, last, event).1 is Restart ==> strategy is RestartProcess
            && event matches WatchEvent::Waited(ProcessStatus::Dead { .. }),
{
}

} // verus!
