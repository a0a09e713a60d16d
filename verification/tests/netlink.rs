use cudyos::netconf::netlink::{
    accepts_router_advertisements, AfSpecInetAttr, BridgeInfo, Inet6Attr, LinkAddExt, LinkAddRequest, LinkAttr, LinkExt, LinkInfo,
    LinkMessage, OperState,
};

fn dev_conf(accept_ra: i32, len: usize) -> Vec<u8> {
    let mut bytes = vec![0u8; len];
    if len >= 16 {
        bytes[12..16].copy_from_slice(&accept_ra.to_ne_bytes());
    }
    bytes
}

fn link(attrs: Vec<LinkAttr>) -> LinkMessage {
    LinkMessage { index: 3, family: 0, attrs }
}

#[test]
fn link_name_and_state() {
    let m = link(vec![
        LinkAttr::Other(0),
        LinkAttr::IfName("wan".to_string()),
        LinkAttr::OperState(OperState::Up),
        LinkAttr::IfName("ignored".to_string()),
    ]);
    assert_eq!(m.name(), Some("wan"));
    assert_eq!(m.get_oper_state(), Some(OperState::Up));
    assert!(m.is_link_up());
    let down = link(vec![LinkAttr::OperState(OperState::Down)]);
    assert!(!down.is_link_up());
    assert_eq!(down.name(), None);
    let unknown = link(vec![]);
    assert!(!unknown.is_link_up());
    assert_eq!(unknown.get_oper_state(), None);
}

#[test]
fn accept_ra_reads_the_ipv6_device_configuration() {
    let with = |conf: Vec<u8>| {
        link(vec![LinkAttr::AfSpecInet(vec![
            AfSpecInetAttr::Other(1),
            AfSpecInetAttr::Inet6(vec![Inet6Attr::Other(2), Inet6Attr::DevConf(conf)]),
        ])])
    };
    assert_eq!(with(dev_conf(1, 204)).accept_ra(), Some(true));
    assert_eq!(with(dev_conf(2, 220)).accept_ra(), Some(true));
    assert_eq!(with(dev_conf(0, 204)).accept_ra(), Some(false));
    assert_eq!(with(dev_conf(1, 203)).accept_ra(), None);
    assert_eq!(link(vec![]).accept_ra(), None);
    assert!(with(dev_conf(0, 204)).get_af_spec_inet().is_some());
    assert_eq!(with(dev_conf(-1, 204)).accept_ra(), Some(false));
    assert_eq!(with(dev_conf(0x0100_0000, 204)).accept_ra(), Some(true));
}

#[test]
fn accept_ra_values_that_accept_advertisements() {
    assert!(accepts_router_advertisements(1));
    assert!(accepts_router_advertisements(2));
    assert!(accepts_router_advertisements(i32::MAX));
    assert!(!accepts_router_advertisements(0));
    assert!(!accepts_router_advertisements(-1));
    assert!(!accepts_router_advertisements(i32::MIN));
}

#[test]
fn vlan_filtering_added_to_a_new_bridge() {
    let req = LinkAddRequest { attrs: vec![LinkAttr::IfName("br0".to_string())] };
    let req = req.vlan_filtering(true);
    assert_eq!(req.attrs.len(), 2);
    match &req.attrs[1] {
        LinkAttr::Info(infos) => match &infos[..] {
            [LinkInfo::BridgeData(opts)] => assert_eq!(opts, &vec![BridgeInfo::VlanFiltering(1)]),
            _ => panic!("expected bridge data"),
        },
        _ => panic!("expected link information"),
    }
}

#[test]
fn vlan_filtering_joins_existing_information() {
    let req = LinkAddRequest {
        attrs: vec![
            LinkAttr::IfName("br0".to_string()),
            LinkAttr::Info(vec![LinkInfo::Other(7)]),
        ],
    };
    let req = req.vlan_filtering(false);
    assert_eq!(req.attrs.len(), 2);
    match &req.attrs[1] {
        LinkAttr::Info(infos) => {
            assert_eq!(infos.len(), 2);
            assert!(matches!(infos[0], LinkInfo::Other(7)));
            match &infos[1] {
                LinkInfo::BridgeData(opts) => assert_eq!(opts, &vec![BridgeInfo::VlanFiltering(0)]),
                _ => panic!("expected bridge data"),
            }
        }
        _ => panic!("expected link information"),
    }
}

#[test]
fn vlan_filtering_replaces_the_existing_option() {
    let req = LinkAddRequest {
        attrs: vec![LinkAttr::Info(vec![LinkInfo::BridgeData(vec![
            BridgeInfo::Other(4),
            BridgeInfo::VlanFiltering(0),
        ])])],
    };
    let req = req.vlan_filtering(true).vlan_filtering(true);
    match &req.attrs[..] {
        [LinkAttr::Info(infos)] => match &infos[..] {
            [LinkInfo::BridgeData(opts)] => {
                assert_eq!(opts, &vec![BridgeInfo::Other(4), BridgeInfo::VlanFiltering(1)])
            }
            _ => panic!("expected bridge data"),
        },
        _ => panic!("expected one information attribute"),
    }
}

fn bridge_options(req: &LinkAddRequest) -> Vec<Vec<BridgeInfo>> {
    let mut found = Vec::new();
    for attr in &req.attrs {
        if let LinkAttr::Info(infos) = attr {
            for info in infos {
                if let LinkInfo::BridgeData(opts) = info {
                    found.push(opts.clone());
                }
            }
        }
    }
    found
}

#[test]
fn vlan_filtering_last_setting_wins() {
    let fresh = || LinkAddRequest { attrs: vec![LinkAttr::IfName("br0".to_string())] };
    let twice = fresh().vlan_filtering(true).vlan_filtering(false);
    let once = fresh().vlan_filtering(false);
    assert_eq!(twice.attrs.len(), once.attrs.len());
    assert_eq!(bridge_options(&twice), bridge_options(&once));
    assert_eq!(bridge_options(&once), vec![vec![BridgeInfo::VlanFiltering(0)]]);

    let same_twice = fresh().vlan_filtering(true).vlan_filtering(true);
    let same_once = fresh().vlan_filtering(true);
    assert_eq!(same_twice.attrs.len(), same_once.attrs.len());
    assert_eq!(bridge_options(&same_twice), bridge_options(&same_once));
}
