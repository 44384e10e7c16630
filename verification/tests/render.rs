use iproute_rs::bridge::CliLinkInfoDataBridge;
use iproute_rs::bridge_port::CliLinkInfoDataBridgePort;
use iproute_rs::textfmt::format_bridge_id;
use iproute_rs::textfmt::format_bridge_timer;
use iproute_rs::vlan::CliLinkInfoDataVlan;
use iproute_rs::wire::InfoBridge;
use iproute_rs::wire::InfoBridgePort;
use iproute_rs::wire::InfoVlan;

#[test]
fn vlan_scenario_text() {
    let attrs = vec![
        InfoVlan::Protocol(0x8100),
        InfoVlan::Id(10),
        InfoVlan::Flags(0x3, 0x3),
    ];
    let v = CliLinkInfoDataVlan::new(&attrs);
    assert_eq!("protocol 802.1Q id 10 <REORDER_HDR,GVRP>", v.gen_string());
}

#[test]
fn vlan_protocol_fallback_is_lowercase_hex() {
    let attrs = vec![InfoVlan::Protocol(0x9100), InfoVlan::Id(7)];
    let v = CliLinkInfoDataVlan::new(&attrs);
    assert_eq!("protocol 0x9100 id 7 ", v.gen_string());
}

#[test]
fn bridge_id_formatting() {
    let s = format_bridge_id(0x8000, [2, 3, 4, 5, 6, 7]);
    assert_eq!("8000.2:3:4:5:6:7", s);
}

#[test]
fn timer_matches_fixed_point_rendering() {
    assert_eq!("   0.00", format_bridge_timer(0));
    assert_eq!("   0.05", format_bridge_timer(5));
    assert_eq!("   1.50", format_bridge_timer(150));
    assert_eq!("1234.56", format_bridge_timer(123456));
    for v in [0u64, 1, 5, 99, 100, 101, 150, 9999, 123456, 99999999] {
        let expected = format!("{:>7.2}", v as f64 / 100.0);
        assert_eq!(expected, format_bridge_timer(v));
    }
}

#[test]
fn forwarding_mask_zero_is_decimal() {
    let attrs = vec![InfoBridge::GroupFwdMask(0)];
    let b = CliLinkInfoDataBridge::new(&attrs);
    let text = b.gen_string();
    assert!(text.contains("group_fwd_mask 0 "));
    assert!(!text.contains("group_fwd_mask 0x"));
}

#[test]
fn forwarding_mask_nonzero_is_hex() {
    let attrs = vec![InfoBridge::GroupFwdMask(0x4000)];
    let b = CliLinkInfoDataBridge::new(&attrs);
    assert!(b.gen_string().contains("group_fwd_mask 0x4000 "));
}

#[test]
fn absent_extension_counters_are_omitted() {
    let attrs = vec![InfoBridge::ForwardDelay(1500)];
    let b = CliLinkInfoDataBridge::new(&attrs);
    assert!(!b.gen_string().contains("fdb_n_learned"));
    assert!(!b.to_json_string().contains("fdb_n_learned"));
}

#[test]
fn fdb_learned_raw_attribute_decodes() {
    let attrs = vec![InfoBridge::Other(48, vec![7, 0, 0, 0])];
    let b = CliLinkInfoDataBridge::new(&attrs);
    assert!(b.gen_string().contains("fdb_n_learned 7 "));
    assert!(b.to_json_string().contains("\"fdb_n_learned\":7"));
}

#[test]
fn bridge_decode_is_order_independent_without_duplicates() {
    let a1 = vec![
        InfoBridge::ForwardDelay(1500),
        InfoBridge::HelloTime(200),
        InfoBridge::Priority(0x8000),
    ];
    let a2 = vec![
        InfoBridge::Priority(0x8000),
        InfoBridge::ForwardDelay(1500),
        InfoBridge::HelloTime(200),
    ];
    assert_eq!(
        CliLinkInfoDataBridge::new(&a1).gen_string(),
        CliLinkInfoDataBridge::new(&a2).gen_string()
    );
}

#[test]
fn rendering_is_idempotent() {
    let attrs = vec![InfoBridge::ForwardDelay(1500), InfoBridge::GroupFwdMask(3)];
    let b = CliLinkInfoDataBridge::new(&attrs);
    assert_eq!(b.gen_string(), b.gen_string());
    assert_eq!(b.to_json_string(), b.to_json_string());
}

#[test]
fn bridge_port_text_defaults() {
    let attrs = vec![InfoBridgePort::State(3), InfoBridgePort::Cost(100)];
    let p = CliLinkInfoDataBridgePort::new(&attrs);
    let text = p.gen_string();
    assert!(text.starts_with("state forwarding "));
    assert!(text.contains("cost 100 "));
    assert!(text.contains("group_fwd_mask 0 group_fwd_mask_str 0x0 "));
    assert!(text.ends_with("mab off"));
}

#[test]
fn bridge_json_is_well_formed() {
    let attrs = vec![
        InfoBridge::ForwardDelay(1500),
        InfoBridge::VlanProtocol(0x8100),
        InfoBridge::GroupFwdMask(0),
    ];
    let b = CliLinkInfoDataBridge::new(&attrs);
    let parsed: serde_json::Value = serde_json::from_str(&b.to_json_string()).unwrap();
    assert_eq!(parsed["forward_delay"], serde_json::Value::from(1500u32));
    assert_eq!(parsed["vlan_protocol"], serde_json::Value::from("802.1Q"));
    assert_eq!(parsed["group_fwd_mask"], serde_json::Value::from("0"));
}
