use cudyos::initd::util::AutoCloseFD;
use cudyos::netconf::netlink::{LinkAttr, LinkMessage, OperState};
use cudyos::netconf::rtnl::{
    after_message, get_interfaces, interface_from_link, NetlinkError, NetworkTask, PayloadKind,
    ReplyStep, RtnlReply,
};
use cudyos::netconf::task::{RestartStrategy, POLLIN};

fn link(index: u32, attrs: Vec<LinkAttr>) -> LinkMessage {
    LinkMessage { index, family: 0, attrs }
}

#[test]
fn interfaces_from_link_replies() {
    let replies = vec![
        RtnlReply::Control,
        RtnlReply::NewLink(link(1, vec![
            LinkAttr::IfName("lo".to_string()),
            LinkAttr::OperState(OperState::Unknown),
        ])),
        RtnlReply::OtherMessage,
        RtnlReply::NewLink(link(2, vec![
            LinkAttr::OperState(OperState::Up),
            LinkAttr::PhysPortName("p0".to_string()),
            LinkAttr::IfName("eth0".to_string()),
        ])),
    ];
    let list = get_interfaces(&replies).unwrap();
    assert_eq!(list.len(), 2);
    assert_eq!(list[0].id, 1);
    assert_eq!(list[0].name, "lo");
    assert_eq!(list[0].oper_state, OperState::Unknown);
    assert_eq!(list[0].physical_port_name, None);
    assert_eq!(list[1].name, "eth0");
    assert_eq!(list[1].physical_port_name.as_deref(), Some("p0"));
    assert_eq!(list[1].physical_switch_name.as_deref(), Some("p0"));
}

#[test]
fn incomplete_link_replies_are_errors() {
    let no_name = link(1, vec![LinkAttr::OperState(OperState::Up)]);
    assert!(matches!(
        interface_from_link(&no_name),
        Err(NetlinkError::MissingNetlinkResponseField { field: "name" })
    ));
    let no_state = link(1, vec![LinkAttr::IfName("x".to_string())]);
    let replies = vec![RtnlReply::NewLink(no_state), RtnlReply::NewLink(no_name)];
    assert!(matches!(
        get_interfaces(&replies),
        Err(NetlinkError::MissingNetlinkResponseField { field: "oper_state" })
    ));
}

#[test]
fn walking_a_receive_buffer() {
    assert!(matches!(after_message(0, PayloadKind::Message, 20, 60), ReplyStep::Keep(Some(20))));
    assert!(matches!(after_message(40, PayloadKind::Message, 20, 60), ReplyStep::Keep(None)));
    assert!(matches!(after_message(0, PayloadKind::Message, 0, 60), ReplyStep::Keep(None)));
    assert!(matches!(after_message(0, PayloadKind::Done, 20, 60), ReplyStep::Finished));
    assert!(matches!(
        after_message(0, PayloadKind::Overrun, 20, 60),
        ReplyStep::Failed(NetlinkError::ResponseOverrun)
    ));
}

#[test]
fn the_network_task_reboots() {
    let t = NetworkTask::new(AutoCloseFD::new(8));
    assert_eq!(t.name(), "network");
    assert_eq!(t.restart_strategy(), RestartStrategy::Reboot);
    let (fd, ev) = t.poll_fd().unwrap();
    assert_eq!(*fd, AutoCloseFD::new(8));
    assert_eq!(ev, POLLIN);
}

#[test]
fn netlink_error_messages() {
    assert_eq!(NetlinkError::ResponseOverrun.message(), "Response didn't fit in the provided buffer");
    assert_eq!(
        NetlinkError::MissingNetlinkResponseField { field: "name" }.message(),
        "Missing field name from netlink response"
    );
    let io = std::io::Error::new(std::io::ErrorKind::Other, "boom");
    let expected = format!("Failed to send netlink request: {:?}", io);
    assert_eq!(NetlinkError::FailedToSendNetlinkRequest { error: io }.message(), expected);
    let io = std::io::Error::new(std::io::ErrorKind::Other, "gone");
    let expected = format!("Failed to read from netlink socket: {:?}", io);
    assert_eq!(NetlinkError::FailedTOReadFromNetlinkSocket { error: io }.message(), expected);
    let decode = rtnetlink::packet::DecodeError::from("short buffer");
    let expected = format!("Failed to deserialize netlink message: {:?}", decode);
    assert_eq!(NetlinkError::FailedToDeserialize { error: decode }.message(), expected);
}
