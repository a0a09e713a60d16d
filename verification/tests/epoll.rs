use cudyos::initd::util::AutoCloseFD;
use cudyos::netconf::epoll::Select;
use cudyos::netconf::task::{RestartStrategy, ShellTask, POLLIN};

#[test]
fn read_fds_are_added_once() {
    let a = AutoCloseFD::new(3);
    let b = AutoCloseFD::new(4);
    let a2 = AutoCloseFD::new(3);
    let mut s = Select::new();
    s.add_read_fd(&a);
    s.add_read_fd(&b);
    s.add_read_fd(&a2);
    s.add_read_fd(&a);
    s.poll();
}

#[test]
fn the_network_shell_restarts() {
    assert_eq!(ShellTask::spawn().program, "/bin/sh");
    assert_eq!(ShellTask::spawn().argv, vec!["sh"]);
    let mut t = ShellTask::new(AutoCloseFD::new(5));
    assert_eq!(t.name(), "shell");
    assert_eq!(t.restart_strategy(), RestartStrategy::RestartProcess);
    assert_eq!(t.poll_fd().unwrap().1, POLLIN);
    let mut old = t.restart(AutoCloseFD::new(6));
    assert_eq!(old.close(), Some(5));
    assert_eq!(*t.poll_fd().unwrap().0, AutoCloseFD::new(6));
}
