use iproute_rs::show::parse_link_message;
use iproute_rs::wire::LinkAttribute;
use iproute_rs::wire::LinkMessage;

const COLOR_CLEAR: &str = "\x1b[0m";

/// A loopback-like record, as `link show lo` would deliver it.
fn lo_message() -> LinkMessage {
    LinkMessage {
        index: 1,
        // up | loopback | running | lower-up
        flags: 0x1_0049,
        link_layer_type: 772,
        attributes: vec![
            LinkAttribute::IfName("lo".to_string()),
            LinkAttribute::Mtu(65536),
            LinkAttribute::Qdisc("noqueue".to_string()),
            LinkAttribute::OperState(0),
            LinkAttribute::Mode(0),
            LinkAttribute::Group(0),
            LinkAttribute::TxQueueLen(1000),
            LinkAttribute::Address(vec![0, 0, 0, 0, 0, 0]),
            LinkAttribute::Broadcast(vec![0, 0, 0, 0, 0, 0]),
        ],
    }
}

#[test]
fn test_ip_link_show_color_always() {
    let link = parse_link_message(&lo_message(), false).unwrap();
    let our_output = link.gen_string_with_color(true);
    assert!(our_output.contains(COLOR_CLEAR));
    assert_eq!(
        "1: \x1b[36mlo: \x1b[0m<LOOPBACK,UP,LOWER_UP> mtu 65536 qdisc noqueue state UNKNOWN \
         mode DEFAULT group default qlen 1000\n    link/loopback \
         \x1b[33m00:00:00:00:00:00\x1b[0m brd \x1b[33m00:00:00:00:00:00\x1b[0m",
        our_output
    );
}

#[test]
fn test_ip_link_show_color_auto_without_terminal() {
    let link = parse_link_message(&lo_message(), false).unwrap();
    let our_output = link.gen_string_with_color(false);
    assert!(!our_output.contains(COLOR_CLEAR));
    assert_eq!(
        "1: lo: <LOOPBACK,UP,LOWER_UP> mtu 65536 qdisc noqueue state UNKNOWN mode DEFAULT \
         group default qlen 1000\n    link/loopback 00:00:00:00:00:00 brd 00:00:00:00:00:00",
        our_output
    );
}

#[test]
fn test_ip_link_show_color_never() {
    let link = parse_link_message(&lo_message(), false).unwrap();
    let our_output = link.gen_string_with_color(false);
    assert!(!our_output.contains(COLOR_CLEAR));
    assert_eq!(
        "1: lo: <LOOPBACK,UP,LOWER_UP> mtu 65536 qdisc noqueue state UNKNOWN mode DEFAULT \
         group default qlen 1000\n    link/loopback 00:00:00:00:00:00 brd 00:00:00:00:00:00",
        our_output
    );
}
