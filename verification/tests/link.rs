use iproute_rs::show::links_to_json_string;
use iproute_rs::show::links_to_string;
use iproute_rs::show::parse_link_message;
use iproute_rs::show::resolve_controller_and_link_names;
use iproute_rs::show::resolve_netns_names;
use iproute_rs::show::CliLinkInfo;
use iproute_rs::wire::InfoBridge;
use iproute_rs::wire::InfoBridgePort;
use iproute_rs::wire::InfoData;
use iproute_rs::wire::InfoPortData;
use iproute_rs::wire::LinkAttribute;
use iproute_rs::wire::LinkInfo;
use iproute_rs::wire::LinkMessage;
use iproute_rs::wire::Prop;

fn plain_message(index: u32, name: &str, extra: Vec<LinkAttribute>) -> LinkMessage {
    let mut attributes = vec![
        LinkAttribute::IfName(name.to_string()),
        LinkAttribute::Mtu(1500),
        LinkAttribute::Qdisc("noqueue".to_string()),
        LinkAttribute::OperState(6),
        LinkAttribute::Mode(0),
        LinkAttribute::Group(0),
        LinkAttribute::Address(vec![0x02, 0x03, 0x04, 0x05, 0x06, 0x07]),
        LinkAttribute::Broadcast(vec![0xff, 0xff, 0xff, 0xff, 0xff, 0xff]),
    ];
    attributes.extend(extra);
    LinkMessage {
        index,
        // up | broadcast | running | multicast | lower-up
        flags: 0x1_1043,
        link_layer_type: 1,
        attributes,
    }
}

fn parse(msg: &LinkMessage, details: bool) -> CliLinkInfo {
    parse_link_message(msg, details).unwrap()
}

#[test]
fn test_link_show() {
    let msg = plain_message(2, "test-dummy0", vec![LinkAttribute::TxQueueLen(1000)]);
    let link = parse(&msg, false);
    assert_eq!(
        "2: test-dummy0: <BROADCAST,MULTICAST,UP,LOWER_UP> mtu 1500 qdisc noqueue state UP \
         mode DEFAULT group default qlen 1000\n    link/ether 02:03:04:05:06:07 brd \
         ff:ff:ff:ff:ff:ff",
        link.gen_string()
    );
}

#[test]
fn test_link_show_json() {
    let msg = plain_message(2, "test-dummy0", vec![]);
    let link = parse(&msg, false);
    let parsed: serde_json::Value = serde_json::from_str(&link.to_json_string()).unwrap();
    assert_eq!(parsed["ifindex"], serde_json::Value::from(2u32));
    assert_eq!(parsed["ifname"], serde_json::Value::from("test-dummy0"));
    assert_eq!(parsed["operstate"], serde_json::Value::from("UP"));
    assert_eq!(parsed["flags"][0], serde_json::Value::from("BROADCAST"));
    assert!(parsed.get("txqlen").is_none());
    assert!(parsed.get("master").is_none());
}

#[test]
fn test_link_detailed_show() {
    let msg = plain_message(
        2,
        "test-dummy0",
        vec![
            LinkAttribute::Promiscuity(0),
            LinkAttribute::MinMtu(68),
            LinkAttribute::MaxMtu(9000),
            LinkAttribute::NumTxQueues(1),
            LinkAttribute::NumRxQueues(1),
            LinkAttribute::Other(56, b"virtio0\0".to_vec()),
            LinkAttribute::Other(57, b"pci\0".to_vec()),
        ],
    );
    let link = parse(&msg, true);
    let text = link.gen_string();
    assert!(text.contains(" promiscuity 0 allmulti 0 minmtu 68 maxmtu 9000 "));
    assert!(text.contains("parentbus pci "));
    assert!(text.contains("parentdev virtio0 "));
}

#[test]
fn test_link_detailed_show_json() {
    let msg = plain_message(
        2,
        "test-dummy0",
        vec![LinkAttribute::MinMtu(68), LinkAttribute::MaxMtu(9000)],
    );
    let link = parse(&msg, true);
    let parsed: serde_json::Value = serde_json::from_str(&link.to_json_string()).unwrap();
    assert_eq!(parsed["min_mtu"], serde_json::Value::from(68u32));
    assert_eq!(parsed["max_mtu"], serde_json::Value::from(9000u32));
    // Details are inlined into the record object, not nested.
    assert!(parsed.get("details").is_none());
}

#[test]
fn test_link_show_lo() {
    let msg = LinkMessage {
        index: 1,
        flags: 0x1_0049,
        link_layer_type: 772,
        attributes: vec![
            LinkAttribute::IfName("lo".to_string()),
            LinkAttribute::Mtu(65536),
            LinkAttribute::Qdisc("noqueue".to_string()),
            LinkAttribute::OperState(0),
            LinkAttribute::Mode(0),
            LinkAttribute::Group(0),
            LinkAttribute::TxQueueLen(1000),
            LinkAttribute::Address(vec![0; 6]),
            LinkAttribute::Broadcast(vec![0; 6]),
        ],
    };
    let link = parse(&msg, false);
    assert_eq!(
        "1: lo: <LOOPBACK,UP,LOWER_UP> mtu 65536 qdisc noqueue state UNKNOWN mode DEFAULT \
         group default qlen 1000\n    link/loopback 00:00:00:00:00:00 brd 00:00:00:00:00:00",
        link.gen_string()
    );
}

#[test]
fn test_link_show_lo_json() {
    let msg = LinkMessage {
        index: 1,
        flags: 0x1_0049,
        link_layer_type: 772,
        attributes: vec![
            LinkAttribute::IfName("lo".to_string()),
            LinkAttribute::Mtu(65536),
            LinkAttribute::Address(vec![0; 6]),
            LinkAttribute::Broadcast(vec![0; 6]),
        ],
    };
    let link = parse(&msg, false);
    let parsed: serde_json::Value = serde_json::from_str(&link.to_json_string()).unwrap();
    assert_eq!(parsed["ifname"], serde_json::Value::from("lo"));
    assert_eq!(parsed["link_type"], serde_json::Value::from("loopback"));
    assert_eq!(parsed["address"], serde_json::Value::from("00:00:00:00:00:00"));
}

#[test]
fn controller_resolution_renders_master_name() {
    let eth = plain_message(3, "eth0", vec![LinkAttribute::Controller(4)]);
    let br = plain_message(4, "br0", vec![]);
    let mut links = vec![parse(&eth, false), parse(&br, false)];
    resolve_controller_and_link_names(&mut links);
    let text = links[0].gen_string();
    assert!(text.contains(" master br0 "));
    let parsed: serde_json::Value = serde_json::from_str(&links[0].to_json_string()).unwrap();
    assert_eq!(parsed["master"], serde_json::Value::from("br0"));
    // The numeric controller index never renders.
    assert!(!text.contains("master 4"));
}

#[test]
fn link_reference_resolves_to_name_and_clears_index() {
    let parent = plain_message(2, "dummy0", vec![]);
    let vlan_if = plain_message(5, "dummy0.1", vec![LinkAttribute::Link(2)]);
    let mut links = vec![parse(&parent, false), parse(&vlan_if, false)];
    resolve_controller_and_link_names(&mut links);
    let text = links[1].gen_string();
    assert!(text.starts_with("5: dummy0.1@dummy0: "));
    let parsed: serde_json::Value = serde_json::from_str(&links[1].to_json_string()).unwrap();
    assert_eq!(parsed["link"], serde_json::Value::from("dummy0"));
    assert!(parsed.get("link_index").is_none());
}

#[test]
fn zero_link_index_never_resolves() {
    let a = plain_message(2, "dummy0", vec![LinkAttribute::Link(0)]);
    let mut links = vec![parse(&a, false)];
    resolve_controller_and_link_names(&mut links);
    let parsed: serde_json::Value = serde_json::from_str(&links[0].to_json_string()).unwrap();
    assert_eq!(parsed["link_index"], serde_json::Value::from(0u32));
    assert!(parsed.get("link").is_none());
}

#[test]
fn permaddr_equal_to_address_is_suppressed() {
    let mac = vec![0x02, 0x03, 0x04, 0x05, 0x06, 0x07];
    let msg = plain_message(2, "eth0", vec![LinkAttribute::PermAddress(mac)]);
    let link = parse(&msg, false);
    let text = link.gen_string();
    assert!(!text.contains("permaddr"));
    let parsed: serde_json::Value = serde_json::from_str(&link.to_json_string()).unwrap();
    assert!(parsed.get("permaddr").is_none());
}

#[test]
fn permaddr_differing_from_address_is_shown() {
    let msg = plain_message(
        2,
        "eth0",
        vec![LinkAttribute::PermAddress(vec![0xaa, 0xbb, 0xcc, 0, 0, 1])],
    );
    let link = parse(&msg, false);
    assert!(link.gen_string().contains(" permaddr aa:bb:cc:00:00:01"));
    let parsed: serde_json::Value = serde_json::from_str(&link.to_json_string()).unwrap();
    assert_eq!(parsed["permaddr"], serde_json::Value::from("aa:bb:cc:00:00:01"));
}

#[test]
fn link_rendering_is_idempotent() {
    let msg = plain_message(3, "eth0", vec![LinkAttribute::Controller(4)]);
    let br = plain_message(4, "br0", vec![]);
    let mut links = vec![parse(&msg, false), parse(&br, false)];
    resolve_controller_and_link_names(&mut links);
    assert_eq!(links[0].gen_string(), links[0].gen_string());
    assert_eq!(links[0].to_json_string(), links[0].to_json_string());
    assert_eq!(links_to_string(&links, false), links_to_string(&links, false));
}

#[test]
fn netns_ids_resolve_to_names() {
    let msg = plain_message(2, "veth0", vec![LinkAttribute::LinkNetNsId(7)]);
    let mut links = vec![parse(&msg, false)];
    let pairs = vec![(7, "blue".to_string())];
    resolve_netns_names(&mut links, &pairs);
    assert!(links[0].gen_string().contains(" link-netns blue"));
    // With no pairs (no local handles), the numeric id renders instead.
    let mut links2 = vec![parse(&msg, false)];
    resolve_netns_names(&mut links2, &Vec::new());
    assert!(links2[0].gen_string().contains(" link-netnsid 7"));
}

#[test]
fn malformed_parent_name_is_a_typed_error() {
    let bad = plain_message(2, "eth0", vec![LinkAttribute::Other(56, b"abc".to_vec())]);
    assert!(parse_link_message(&bad, true).is_err());
    let bad_utf8 = plain_message(2, "eth0", vec![LinkAttribute::Other(56, vec![0xff, 0])]);
    assert!(parse_link_message(&bad_utf8, true).is_err());
    // Without the details pass the attribute is not decoded at all.
    assert!(parse_link_message(&bad, false).is_ok());
}

#[test]
fn altnames_render_one_per_line() {
    let msg = plain_message(
        2,
        "dummy0",
        vec![LinkAttribute::PropList(vec![Prop::AltIfName("dmmy-zero".to_string())])],
    );
    let link = parse(&msg, false);
    assert!(link.gen_string().ends_with("\n    altname dmmy-zero"));
    let parsed: serde_json::Value = serde_json::from_str(&link.to_json_string()).unwrap();
    assert_eq!(parsed["altnames"][0], serde_json::Value::from("dmmy-zero"));
}

#[test]
fn list_rendering_joins_with_newlines() {
    let a = parse(&plain_message(1, "a0", vec![]), false);
    let b = parse(&plain_message(2, "b0", vec![]), false);
    let links = vec![a, b];
    let text = links_to_string(&links, false);
    assert_eq!(2, text.matches("link/ether").count());
    assert!(text.contains("\n2: b0: "));
    let parsed: serde_json::Value = serde_json::from_str(&links_to_json_string(&links)).unwrap();
    assert_eq!(parsed.as_array().unwrap().len(), 2);
}

#[test]
fn test_link_detailed_show_bridge() {
    let msg = plain_message(
        6,
        "test-br0",
        vec![LinkAttribute::LinkInfo(vec![
            LinkInfo::Kind("bridge".to_string()),
            LinkInfo::Data(InfoData::Bridge(vec![
                InfoBridge::ForwardDelay(1500),
                InfoBridge::HelloTime(200),
                InfoBridge::GroupFwdMask(0),
            ])),
        ])],
    );
    let link = parse(&msg, true);
    let text = link.gen_string();
    assert!(text.contains("\n    bridge forward_delay 1500 hello_time 200 "));
    assert!(text.contains("group_fwd_mask 0 "));
}

#[test]
fn test_link_detailed_show_json_bridge() {
    let msg = plain_message(
        6,
        "test-br1",
        vec![LinkAttribute::LinkInfo(vec![
            LinkInfo::Kind("bridge".to_string()),
            LinkInfo::Data(InfoData::Bridge(vec![InfoBridge::ForwardDelay(1500)])),
        ])],
    );
    let link = parse(&msg, true);
    let parsed: serde_json::Value = serde_json::from_str(&link.to_json_string()).unwrap();
    assert_eq!(parsed["linkinfo"]["info_kind"], serde_json::Value::from("bridge"));
    assert_eq!(
        parsed["linkinfo"]["info_data"]["forward_delay"],
        serde_json::Value::from(1500u32)
    );
}

#[test]
fn test_link_detailed_show_bridge_port() {
    let msg = plain_message(
        7,
        "test-dummy2",
        vec![LinkAttribute::LinkInfo(vec![
            LinkInfo::Kind("dummy".to_string()),
            LinkInfo::PortKind("bridge".to_string()),
            LinkInfo::PortData(InfoPortData::BridgePort(vec![
                InfoBridgePort::State(3),
                InfoBridgePort::Cost(100),
            ])),
        ])],
    );
    let link = parse(&msg, true);
    let text = link.gen_string();
    assert!(text.contains("\n    dummy \n    bridge_slave state forwarding "));
    assert!(text.contains("cost 100 "));
}

#[test]
fn test_link_detailed_show_json_bridge_port() {
    let msg = plain_message(
        7,
        "test-dummy3",
        vec![LinkAttribute::LinkInfo(vec![
            LinkInfo::Kind("dummy".to_string()),
            LinkInfo::PortKind("bridge".to_string()),
            LinkInfo::PortData(InfoPortData::BridgePort(vec![InfoBridgePort::State(3)])),
        ])],
    );
    let link = parse(&msg, true);
    let parsed: serde_json::Value = serde_json::from_str(&link.to_json_string()).unwrap();
    assert_eq!(
        parsed["linkinfo"]["info_slave_kind"],
        serde_json::Value::from("bridge")
    );
    assert_eq!(
        parsed["linkinfo"]["info_slave_data"]["state"],
        serde_json::Value::from("forwarding")
    );
}
