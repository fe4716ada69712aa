use leafshell::network::{nmcli_output_is_well_formed, ConnectionKind, NetworkIcon, NetworkState};

fn parse(out: &str) -> NetworkState {
    assert!(nmcli_output_is_well_formed(out));
    NetworkState::from_nmcli_output(out)
}

#[test]
fn wifi_connection_takes_the_name_field() {
    let n = parse("Home:802-11-wireless:wlan0:activated\n");
    assert!(n.connected);
    assert_eq!(n.kind, ConnectionKind::Wifi);
    assert_eq!(n.ssid.as_deref(), Some("Home"));
    assert_eq!(n.connection.as_deref(), Some("Home"));
    assert_eq!(n.icon(), NetworkIcon::Wifi);
    assert_eq!(n.status_text(), "Connected");
}

#[test]
fn ethernet_connection_has_no_ssid() {
    let n = parse("Wired connection 1:802-3-ethernet:enp3s0:activated");
    assert!(n.connected);
    assert_eq!(n.kind, ConnectionKind::Ethernet);
    assert_eq!(n.ssid, None);
    assert_eq!(n.connection.as_deref(), Some("Wired connection 1"));
    assert_eq!(n.icon(), NetworkIcon::Cable);
}

#[test]
fn loopback_and_inactive_lines_are_skipped() {
    let out = "lo:loopback:lo:activated\nHome:802-11-wireless:wlan0:activating\nOffice:802-3-ethernet:eth0:activated\n";
    let n = parse(out);
    assert_eq!(n.kind, ConnectionKind::Ethernet);
    assert_eq!(n.connection.as_deref(), Some("Office"));
}

#[test]
fn other_kinds_are_skipped() {
    let n = parse("vpn:vpn:tun0:activated\nbr:bridge:br0:activated\n");
    assert!(!n.connected);
    assert_eq!(n.kind, ConnectionKind::Disconnected);
    assert_eq!(n.ssid, None);
    assert_eq!(n.connection, None);
    assert_eq!(n.icon(), NetworkIcon::Offline);
    assert_eq!(n.status_text(), "Disconnected");
}

#[test]
fn empty_output_is_disconnected() {
    let n = parse("");
    assert!(!n.connected);
    assert_eq!(n.kind, ConnectionKind::Disconnected);
}

#[test]
fn first_matching_line_wins() {
    let n = parse("A:802-3-ethernet:eth0:activated\nB:802-11-wireless:wlan0:activated\n");
    assert_eq!(n.kind, ConnectionKind::Ethernet);
    assert_eq!(n.connection.as_deref(), Some("A"));
}

#[test]
fn carriage_return_before_line_break_is_dropped() {
    let n = parse("Home:802-11-wireless:wlan0:activated\r\n");
    assert_eq!(n.kind, ConnectionKind::Wifi);
}

#[test]
fn carriage_return_on_last_unterminated_line_is_kept() {
    // "activated\r" is not "activated": the line is skipped.
    let n = parse("Home:802-11-wireless:wlan0:activated\r");
    assert_eq!(n.kind, ConnectionKind::Disconnected);
}

#[test]
fn state_field_takes_the_rest_of_the_line() {
    let n = parse("Home:802-11-wireless:wlan0:activated:extra\n");
    assert_eq!(n.kind, ConnectionKind::Disconnected);
}

#[test]
fn short_line_before_a_match_is_refused() {
    assert!(!nmcli_output_is_well_formed("oops\nHome:802-11-wireless:wlan0:activated\n"));
    assert!(!nmcli_output_is_well_formed("a:b:c\n"));
    assert!(!nmcli_output_is_well_formed("\n"));
}

#[test]
fn short_line_after_a_match_is_never_read() {
    let n = parse("Home:802-11-wireless:wlan0:activated\noops\n");
    assert_eq!(n.kind, ConnectionKind::Wifi);
}

#[test]
fn non_ascii_connection_name_is_kept() {
    let n = parse("Café:802-11-wireless:wlän0:activated");
    assert_eq!(n.ssid.as_deref(), Some("Café"));
}
