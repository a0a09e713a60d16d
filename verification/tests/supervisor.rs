use cudyos::config::{Configuration, NetworkConfiguration, ServiceConfiguration};
use cudyos::config::RestartStrategy as ConfiguredStrategy;
use cudyos::initd::args::default_config_file;
use cudyos::initd::error::Error;
use cudyos::initd::supervisor::{
    plan_tasks, task_finished, JoinOutcome, TaskWatch, WatchAction, WatchEvent,
};
use cudyos::initd::task::{RestartStrategy, ShellTask, StdinSource, SubprocessTask};
use cudyos::initd::util::ProcessStatus;

fn service(file: &str, args: &[&str], restart_strategy: ConfiguredStrategy) -> ServiceConfiguration {
    ServiceConfiguration {
        file: file.to_string(),
        args: args.iter().map(|a| a.to_string()).collect(),
        restart_strategy,
    }
}

#[test]
fn tasks_are_shell_network_then_services() {
    let config = Configuration {
        network: NetworkConfiguration { interfaces: vec![] },
        services: vec![
            ("dropbear".to_string(), service("/bin/dropbear", &["-F", "-R"], ConfiguredStrategy::RestartProcess)),
            ("ntpd".to_string(), service("/bin/ntpd", &[], ConfiguredStrategy::Never)),
        ],
    };
    let tasks = plan_tasks(&config);
    assert_eq!(tasks.len(), 4);
    assert_eq!(tasks[0].name(), "shell");
    assert_eq!(tasks[0].restart_strategy(), RestartStrategy::Reboot);
    assert_eq!(tasks[1].name(), "network");
    assert_eq!(tasks[1].restart_strategy(), RestartStrategy::Never);
    assert_eq!(tasks[2].name(), "dropbear");
    assert_eq!(tasks[2].restart_strategy(), RestartStrategy::RestartProcess);
    assert_eq!(tasks[3].name(), "ntpd");
    assert_eq!(tasks[3].restart_strategy(), RestartStrategy::Never);

    let net = tasks[1].restart();
    assert_eq!(net.program, "/bin/netconf");
    assert!(net.args.is_empty());
    assert_eq!(net.stdin, StdinSource::Inherit);

    let dropbear = tasks[2].restart();
    assert_eq!(dropbear.program, "/bin/dropbear");
    assert_eq!(dropbear.args, vec!["-F".to_string(), "-R".to_string()]);
    assert_eq!(dropbear.stdin, StdinSource::Null);
    assert!(dropbear.clear_env && dropbear.kill_on_drop && dropbear.own_process_group);
}

#[test]
fn the_shell_reads_the_console() {
    let shell = ShellTask::new();
    assert_eq!(shell.name(), "shell");
    let req = shell.restart();
    assert_eq!(req.program, "/bin/sh");
    assert!(req.args.is_empty());
    assert_eq!(req.stdin, StdinSource::Inherit);
    let other = SubprocessTask::new("/bin/x", &["a"], RestartStrategy::Never, "x", false);
    assert_eq!(other.restart().args, vec!["a".to_string()]);
}

#[test]
fn configured_strategies_convert() {
    assert_eq!(RestartStrategy::from(ConfiguredStrategy::Never), RestartStrategy::Never);
    assert_eq!(RestartStrategy::from(ConfiguredStrategy::RestartProcess), RestartStrategy::RestartProcess);
    assert_eq!(RestartStrategy::from(ConfiguredStrategy::Reboot), RestartStrategy::Reboot);
}

#[test]
fn watch_of_a_restarted_task() {
    let mut w = TaskWatch::new(RestartStrategy::RestartProcess);
    assert_eq!(w.step(WatchEvent::Waited(ProcessStatus::Alive)), WatchAction::Wait);
    assert_eq!(w.step(WatchEvent::Waited(ProcessStatus::Dead { status: 1 })), WatchAction::Restart);
    assert_eq!(w.step(WatchEvent::Restarted), WatchAction::Wait);
    assert_eq!(w.step(WatchEvent::Waited(ProcessStatus::Dead { status: 2 })), WatchAction::Restart);
    assert_eq!(
        w.step(WatchEvent::RestartFailed),
        WatchAction::Stop(Some(ProcessStatus::Dead { status: 2 }))
    );
}

#[test]
fn watch_of_never_and_reboot_tasks() {
    let mut never = TaskWatch::new(RestartStrategy::Never);
    assert_eq!(never.step(WatchEvent::Waited(ProcessStatus::Dead { status: 0 })), WatchAction::Stop(None));
    let mut reboot = TaskWatch::new(RestartStrategy::Reboot);
    assert_eq!(
        reboot.step(WatchEvent::Waited(ProcessStatus::Dead { status: 9 })),
        WatchAction::Stop(Some(ProcessStatus::Dead { status: 9 }))
    );
    let mut failing = TaskWatch::new(RestartStrategy::Never);
    assert_eq!(
        failing.step(WatchEvent::WaitFailed),
        WatchAction::Stop(Some(ProcessStatus::Dead { status: -1 }))
    );
}

#[test]
fn supervisor_goes_down_on_status() {
    assert!(task_finished(JoinOutcome::Stopped(None)).is_ok());
    assert!(matches!(
        task_finished(JoinOutcome::Stopped(Some(ProcessStatus::Dead { status: 1 }))),
        Err(Error::AllChildrenDied)
    ));
    assert!(matches!(task_finished(JoinOutcome::JoinFailed), Err(Error::AllChildrenDied)));
    assert!(matches!(task_finished(JoinOutcome::NoTasks), Err(Error::AllChildrenDied)));
}

#[test]
fn default_configuration_path() {
    assert_eq!(default_config_file(), "/config.json");
}
