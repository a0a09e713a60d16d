use cudyos::config::{
    default_restart_strategy, find_entry, true_value, ConfigOperState, LinkConfig,
    NetworkConfiguration, NetworkInterfaceConfiguration, RestartStrategy,
};

fn iface(oper_state: ConfigOperState, link_config: LinkConfig) -> NetworkInterfaceConfiguration {
    NetworkInterfaceConfiguration { oper_state, accept_ra: true_value(), link_config }
}

#[test]
fn defaults_of_the_configuration_file() {
    assert_eq!(default_restart_strategy(), RestartStrategy::Reboot);
    assert!(true_value());
    assert!(matches!(LinkConfig::default(), LinkConfig::Plain));
}

#[test]
fn interfaces_are_found_by_name() {
    let config = NetworkConfiguration {
        interfaces: vec![
            ("wan".to_string(), iface(ConfigOperState::Up, LinkConfig::Plain)),
            ("br0".to_string(), iface(ConfigOperState::Down, LinkConfig::Bridge { vlan_filtering: true })),
        ],
    };
    let br0 = config.interface(&"br0".to_string()).unwrap();
    assert_eq!(br0.oper_state, ConfigOperState::Down);
    assert!(matches!(br0.link_config, LinkConfig::Bridge { vlan_filtering: true }));
    assert!(config.interface(&"lan".to_string()).is_none());
    assert_eq!(find_entry(&config.interfaces, &"wan".to_string()), Some(0));
    assert_eq!(find_entry(&config.interfaces, &"br0".to_string()), Some(1));
    assert_eq!(find_entry(&config.interfaces, &"eth9".to_string()), None);
}
