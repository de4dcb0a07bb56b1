use torc_snaproute_client::api::{
    encode_ipv4intf, encode_ipv4route, encode_port, encode_sub_port, encode_vlan, IPv4Intf,
    initialization_requests, Method, Port, SubPort, Vlan, add_route_request, append_decimal, delete_route_request, endpoint_url,
    port_stat_from_record, port_stats_from_response, read_ipv4intf, read_ports,
    read_sub_ports, read_vlans, request_failed, route_from_record, routes_from_response,
    split_address_into_ip_and_mask, InterfaceEntry, PortEntry, PortStateRecord,
    RouteStateRecord, SwitchConfig, VlanEntry, PORTS_STATE_PATH,
};

fn config(ports: Vec<PortEntry>, vlans: Vec<VlanEntry>, interfaces: Vec<InterfaceEntry>) -> SwitchConfig {
    SwitchConfig { ports, vlans, interfaces }
}

fn port(name: &str, mode: Option<&str>, speed: Option<i32>) -> PortEntry {
    PortEntry { name: name.to_string(), mode: mode.map(|m| m.to_string()), speed }
}

#[test]
fn split_host_suffix() {
    let (ip, mask) = split_address_into_ip_and_mask("10.0.0.1/32");
    assert_eq!(ip, "10.0.0.1");
    assert_eq!(mask, "255.255.255.255");
}

#[test]
fn split_network_suffix() {
    let (ip, mask) = split_address_into_ip_and_mask("10.0.0.0/24");
    assert_eq!(ip, "10.0.0.0");
    assert_eq!(mask, "255.255.255.0");
}

#[test]
fn split_without_suffix() {
    let (ip, mask) = split_address_into_ip_and_mask("10.0.0.1");
    assert_eq!(ip, "10.0.0.1");
    assert_eq!(mask, "255.255.255.255");
}

#[test]
fn split_unknown_suffix_is_kept() {
    let (ip, mask) = split_address_into_ip_and_mask("10.0.0.0/16");
    assert_eq!(ip, "10.0.0.0/16");
    assert_eq!(mask, "255.255.255.255");
}

#[test]
fn split_empty_and_bare_suffix() {
    let (ip, mask) = split_address_into_ip_and_mask("");
    assert_eq!(ip, "");
    assert_eq!(mask, "255.255.255.255");
    let (ip, mask) = split_address_into_ip_and_mask("/24");
    assert_eq!(ip, "");
    assert_eq!(mask, "255.255.255.0");
}

#[test]
fn port_with_mode_gives_one_port() {
    let c = config(vec![port("eth0", Some("QSFP"), None)], vec![], vec![]);
    let ports = read_ports(&c);
    assert_eq!(ports.len(), 1);
    assert_eq!(ports[0].IntfRef, "eth0");
    assert_eq!(ports[0].BreakOutMode, "QSFP");
    assert_eq!(read_sub_ports(&c).len(), 0);
}

#[test]
fn port_with_speed_gives_one_sub_port() {
    let c = config(vec![port("eth0", None, Some(100))], vec![], vec![]);
    let subs = read_sub_ports(&c);
    assert_eq!(subs.len(), 1);
    assert_eq!(subs[0].IntfRef, "eth0");
    assert_eq!(subs[0].Speed, 100);
    assert_eq!(subs[0].AdminState, "UP");
    assert_eq!(read_ports(&c).len(), 0);
}

#[test]
fn port_with_both_and_neither() {
    let c = config(
        vec![port("eth0", Some("4x10G"), Some(10000)), port("eth1", None, None), port("eth2", Some("1x40G"), None)],
        vec![],
        vec![],
    );
    let ports = read_ports(&c);
    assert_eq!(ports.len(), 2);
    assert_eq!(ports[0].IntfRef, "eth0");
    assert_eq!(ports[1].IntfRef, "eth2");
    assert_eq!(ports[1].BreakOutMode, "1x40G");
    let subs = read_sub_ports(&c);
    assert_eq!(subs.len(), 1);
    assert_eq!(subs[0].Speed, 10000);
}

#[test]
fn empty_config_gives_nothing() {
    let c = config(vec![], vec![], vec![]);
    assert!(read_ports(&c).is_empty());
    assert!(read_sub_ports(&c).is_empty());
    assert!(read_vlans(&c).is_empty());
    assert!(read_ipv4intf(&c).is_empty());
}

#[test]
fn vlan_has_single_port() {
    let c = config(vec![], vec![VlanEntry { id: 10, ports: "eth0".to_string() }], vec![]);
    let vlans = read_vlans(&c);
    assert_eq!(vlans.len(), 1);
    assert_eq!(vlans[0].VlanId, 10);
    assert_eq!(vlans[0].UntagIntfList, vec!["eth0".to_string()]);
}

#[test]
fn interface_is_named_after_vlan() {
    let c = config(vec![], vec![], vec![InterfaceEntry { vlan_id: 10, addr: "10.0.0.1/24".to_string() }]);
    let intfs = read_ipv4intf(&c);
    assert_eq!(intfs.len(), 1);
    assert_eq!(intfs[0].IntfRef, "vlan10");
    assert_eq!(intfs[0].IpAddr, "10.0.0.1/24");
}

#[test]
fn decimal_notation() {
    for n in [0i64, 7, 10, 4095, -3, -120, i64::MAX, i64::MIN] {
        let mut s = "x".to_string();
        append_decimal(&mut s, n);
        assert_eq!(s, format!("x{}", n));
    }
}

#[test]
fn empty_objects_give_empty_results() {
    assert!(port_stats_from_response(200, &vec![]).is_empty());
    assert!(routes_from_response(200, &vec![]).is_empty());
}

#[test]
fn route_without_next_hop_goes_nowhere() {
    let rec = RouteStateRecord { destination_nw: "10.1.0.0/24".to_string(), next_hop_ips: vec![] };
    let r = route_from_record(&rec);
    assert_eq!(r.from, "10.1.0.0/24");
    assert_eq!(r.to, "");
}

#[test]
fn route_takes_first_next_hop() {
    let rec = RouteStateRecord {
        destination_nw: "10.1.0.0/24".to_string(),
        next_hop_ips: vec!["10.0.0.2".to_string(), "10.0.0.3".to_string()],
    };
    let r = route_from_record(&rec);
    assert_eq!(r.to, "10.0.0.2");
}

#[test]
fn error_status_gives_fallback() {
    let ports = vec![PortStateRecord { if_index: 1, oper_state: "UP".to_string() }];
    let routes = vec![RouteStateRecord { destination_nw: "a".to_string(), next_hop_ips: vec![] }];
    for status in [404u16, 500, 302, 201] {
        assert!(port_stats_from_response(status, &ports).is_empty());
        assert!(routes_from_response(status, &routes).is_empty());
    }
    assert!(request_failed(404));
    assert!(request_failed(500));
    assert!(!request_failed(200));
    assert!(!request_failed(399));
}

#[test]
fn port_states_are_read() {
    let recs = vec![
        PortStateRecord { if_index: 3, oper_state: "UP".to_string() },
        PortStateRecord { if_index: 4, oper_state: "DOWN".to_string() },
    ];
    let stats = port_stats_from_response(200, &recs);
    assert_eq!(stats.len(), 2);
    assert_eq!(stats[0].id, 3);
    assert!(stats[0].connected);
    assert_eq!(stats[1].id, 4);
    assert!(!stats[1].connected);
    let one = port_stat_from_record(&PortStateRecord { if_index: 9, oper_state: "up".to_string() });
    assert!(!one.connected);
}

#[test]
fn routes_are_read() {
    let recs = vec![
        RouteStateRecord { destination_nw: "10.1.0.0/24".to_string(), next_hop_ips: vec!["10.0.0.2".to_string()] },
        RouteStateRecord { destination_nw: "10.2.0.0/24".to_string(), next_hop_ips: vec![] },
    ];
    let routes = routes_from_response(200, &recs);
    assert_eq!(routes.len(), 2);
    assert_eq!(routes[0].from, "10.1.0.0/24");
    assert_eq!(routes[0].to, "10.0.0.2");
    assert_eq!(routes[1].to, "");
}

#[test]
fn add_route_builds_static_route() {
    let r = add_route_request("10.1.0.0/24", "10.0.0.2");
    assert_eq!(r.DestinationNw, "10.1.0.0");
    assert_eq!(r.NetworkMask, "255.255.255.0");
    assert_eq!(r.Protocol, "STATIC");
    assert_eq!(r.NextHop.len(), 1);
    assert_eq!(r.NextHop[0].NextHopIp, "10.0.0.2");
}

#[test]
fn delete_route_has_no_next_hop() {
    let r = delete_route_request("10.1.0.5/32");
    assert_eq!(r.DestinationNw, "10.1.0.5");
    assert_eq!(r.NetworkMask, "255.255.255.255");
    assert_eq!(r.Protocol, "STATIC");
    assert!(r.NextHop.is_empty());
}

#[test]
fn url_of_endpoint() {
    assert_eq!(
        endpoint_url("127.0.0.1:8080", PORTS_STATE_PATH),
        "http://127.0.0.1:8080/public/v1/state/Ports"
    );
}

#[test]
fn port_body_is_json() {
    let p = Port { IntfRef: "eth0".to_string(), BreakOutMode: "QSFP".to_string() };
    assert_eq!(encode_port(&p), "{\"IntfRef\":\"eth0\",\"BreakOutMode\":\"QSFP\"}");
}

#[test]
fn port_body_escapes_strings() {
    let p = Port { IntfRef: "a\"b\\c".to_string(), BreakOutMode: "x\ny".to_string() };
    assert_eq!(encode_port(&p), "{\"IntfRef\":\"a\\\"b\\\\c\",\"BreakOutMode\":\"x\\ny\"}");
}

#[test]
fn sub_port_body_is_json() {
    let p = SubPort { IntfRef: "eth0".to_string(), Speed: 100, AdminState: "UP".to_string() };
    assert_eq!(encode_sub_port(&p), "{\"IntfRef\":\"eth0\",\"Speed\":100,\"AdminState\":\"UP\"}");
    let n = SubPort { IntfRef: "e".to_string(), Speed: -5, AdminState: "UP".to_string() };
    assert_eq!(encode_sub_port(&n), "{\"IntfRef\":\"e\",\"Speed\":-5,\"AdminState\":\"UP\"}");
}

#[test]
fn vlan_body_is_json() {
    let v = Vlan { VlanId: 10, UntagIntfList: vec!["eth0".to_string()] };
    assert_eq!(encode_vlan(&v), "{\"VlanId\":10,\"UntagIntfList\":[\"eth0\"]}");
    let w = Vlan { VlanId: 2, UntagIntfList: vec!["a".to_string(), "b".to_string()] };
    assert_eq!(encode_vlan(&w), "{\"VlanId\":2,\"UntagIntfList\":[\"a\",\"b\"]}");
    let e = Vlan { VlanId: 3, UntagIntfList: vec![] };
    assert_eq!(encode_vlan(&e), "{\"VlanId\":3,\"UntagIntfList\":[]}");
}

#[test]
fn ipv4intf_body_is_json() {
    let i = IPv4Intf { IntfRef: "vlan10".to_string(), IpAddr: "10.0.0.1/24".to_string() };
    assert_eq!(encode_ipv4intf(&i), "{\"IntfRef\":\"vlan10\",\"IpAddr\":\"10.0.0.1/24\"}");
}

#[test]
fn route_bodies_are_json() {
    let add = add_route_request("10.1.0.0/24", "10.0.0.2");
    assert_eq!(
        encode_ipv4route(&add),
        "{\"DestinationNw\":\"10.1.0.0\",\"NetworkMask\":\"255.255.255.0\",\"Protocol\":\"STATIC\",\"NextHop\":[{\"NextHopIp\":\"10.0.0.2\"}]}"
    );
    let del = delete_route_request("10.1.0.5");
    assert_eq!(
        encode_ipv4route(&del),
        "{\"DestinationNw\":\"10.1.0.5\",\"NetworkMask\":\"255.255.255.255\",\"Protocol\":\"STATIC\",\"NextHop\":[]}"
    );
}

#[test]
fn initialization_sends_records_in_order() {
    let c = config(
        vec![port("eth0", Some("QSFP"), Some(100))],
        vec![VlanEntry { id: 10, ports: "eth0".to_string() }],
        vec![InterfaceEntry { vlan_id: 10, addr: "10.0.0.1/24".to_string() }],
    );
    let reqs = initialization_requests("sw:8080", &c);
    assert_eq!(reqs.len(), 4);
    assert!(reqs[0].method == Method::Patch);
    assert_eq!(reqs[0].url, "http://sw:8080/public/v1/config/Port");
    assert_eq!(reqs[0].body, "{\"IntfRef\":\"eth0\",\"BreakOutMode\":\"QSFP\"}");
    assert!(reqs[1].method == Method::Patch);
    assert_eq!(reqs[1].body, "{\"IntfRef\":\"eth0\",\"Speed\":100,\"AdminState\":\"UP\"}");
    assert!(reqs[2].method == Method::Post);
    assert_eq!(reqs[2].url, "http://sw:8080/public/v1/config/Vlan");
    assert_eq!(reqs[2].body, "{\"VlanId\":10,\"UntagIntfList\":[\"eth0\"]}");
    assert!(reqs[3].method == Method::Post);
    assert_eq!(reqs[3].url, "http://sw:8080/public/v1/config/IPv4Intf");
    assert_eq!(reqs[3].body, "{\"IntfRef\":\"vlan10\",\"IpAddr\":\"10.0.0.1/24\"}");
}

#[test]
fn initialization_of_empty_config_sends_nothing() {
    let c = config(vec![], vec![], vec![]);
    assert!(initialization_requests("sw:8080", &c).is_empty());
}
