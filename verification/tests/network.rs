use cudyos::config::{ConfigOperState, LinkConfig, NetworkConfiguration, NetworkInterfaceConfiguration};
use cudyos::netconf::netlink::{LinkAttr, LinkMessage, OperState};
use cudyos::netconf::network::{
    contains_name, create_bridge, ensure_accept_ra, ensure_oper_state, failure_message, link_state,
    lookup_failure, netlink_errno, LinkAction, LinkState, LookupOutcome, NetworkTaskImpl, RoundState,
    AF_BRIDGE, ENODEV,
};

fn iface(oper_state: ConfigOperState, link_config: LinkConfig) -> NetworkInterfaceConfiguration {
    NetworkInterfaceConfiguration { oper_state, accept_ra: true, link_config }
}

fn up(index: u32) -> LinkState {
    LinkState { index, family: 0, up: true }
}

fn down(index: u32) -> LinkState {
    LinkState { index, family: 0, up: false }
}

#[test]
fn oper_state_changes() {
    assert!(ensure_oper_state(ConfigOperState::Up, &up(2)).is_none());
    assert!(matches!(ensure_oper_state(ConfigOperState::Up, &down(2)), Some(LinkAction::SetUp { index: 2 })));
    assert!(matches!(ensure_oper_state(ConfigOperState::Down, &up(5)), Some(LinkAction::SetDown { index: 5 })));
    assert!(ensure_oper_state(ConfigOperState::Down, &down(5)).is_none());
    assert!(ensure_accept_ra(false, &up(5)).is_none());
}

#[test]
fn link_state_from_message() {
    let m = LinkMessage { index: 4, family: AF_BRIDGE, attrs: vec![LinkAttr::OperState(OperState::Up)] };
    assert_eq!(link_state(&m), LinkState { index: 4, family: AF_BRIDGE, up: true });
    let m = LinkMessage { index: 4, family: 0, attrs: vec![LinkAttr::OperState(OperState::Dormant)] };
    assert!(!link_state(&m).up);
}

#[test]
fn lookup_failures() {
    assert_eq!(lookup_failure(None), LookupOutcome::Absent);
    assert_eq!(lookup_failure(Some(-ENODEV)), LookupOutcome::Absent);
    assert_eq!(lookup_failure(Some(-1)), LookupOutcome::Unavailable);
    assert_eq!(lookup_failure(Some(0)), LookupOutcome::Unavailable);
    assert_eq!(netlink_errno(-19), 19);
    assert_eq!(netlink_errno(13), 13);
    assert_eq!(failure_message(-19), "No such device");
}

#[test]
fn a_round_of_lookups() {
    let wan = iface(ConfigOperState::Up, LinkConfig::Plain);
    let mut round = RoundState::new();
    let actions = round.observe(&"wan".to_string(), &wan, LookupOutcome::Found(down(2)));
    assert_eq!(actions.len(), 1);
    assert!(matches!(actions[0], LinkAction::SetUp { index: 2 }));
    assert!(round.observe(&"br0".to_string(), &wan, LookupOutcome::Absent).is_empty());
    assert!(round.observe(&"br0".to_string(), &wan, LookupOutcome::Absent).is_empty());
    assert!(round.observe(&"lan".to_string(), &wan, LookupOutcome::Unavailable).is_empty());
    assert_eq!(round.found.len(), 1);
    assert_eq!(round.missing, vec!["br0".to_string()]);
    assert!(contains_name(&round.missing, &"br0".to_string()));
    assert!(!contains_name(&round.missing, &"lan".to_string()));
}

fn task() -> NetworkTaskImpl {
    NetworkTaskImpl::new(NetworkConfiguration {
        interfaces: vec![
            ("br0".to_string(), iface(ConfigOperState::Up, LinkConfig::Bridge { vlan_filtering: true })),
            ("lan1".to_string(), iface(ConfigOperState::Up, LinkConfig::BridgeMember { bridge_name: "br0".to_string() })),
            ("wan".to_string(), iface(ConfigOperState::Up, LinkConfig::Plain)),
        ],
    })
}

#[test]
fn missing_bridges_are_created() {
    let t = task();
    match t.missing_interface_action(&"br0".to_string()) {
        Some(LinkAction::CreateBridge { name, vlan_filtering }) => {
            assert_eq!(name, "br0");
            assert!(vlan_filtering);
        }
        _ => panic!("a missing bridge is created"),
    }
    assert!(t.missing_interface_action(&"wan".to_string()).is_none());
    assert!(t.missing_interface_action(&"unknown".to_string()).is_none());
    assert!(matches!(create_bridge(&"x".to_string(), false), LinkAction::CreateBridge { vlan_filtering: false, .. }));
}

#[test]
fn bridge_members_are_attached_only_when_known() {
    let mut t = task();
    let mut round = RoundState::new();
    let conf = iface(ConfigOperState::Up, LinkConfig::Plain);
    round.observe(&"br0".to_string(), &conf, LookupOutcome::Found(LinkState { index: 9, family: AF_BRIDGE, up: true }));
    round.observe(&"lan1".to_string(), &conf, LookupOutcome::Absent);
    let missing = t.finish_lookups(round);
    assert_eq!(missing, vec!["lan1".to_string()]);
    // the missing member is not among the known links, so nothing is requested
    assert!(t.missing_interface_action(&"lan1".to_string()).is_none());
    // a known member of a known bridge is attached
    t.interfaces.push(("lan1".to_string(), up(4)));
    assert!(matches!(
        t.join_bridge(&"br0".to_string(), &"lan1".to_string()),
        Some(LinkAction::SetMaster { index: 4, master: 9 })
    ));
    // a bridge that is not of the bridge family is not used
    t.interfaces[0].1.family = 0;
    assert!(t.join_bridge(&"br0".to_string(), &"lan1".to_string()).is_none());
}
