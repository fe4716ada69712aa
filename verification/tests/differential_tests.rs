//! The library against straightforward std and chrono code for the same
//! computations, on many generated inputs.
use leafshell::audio::VolumeReading;
use leafshell::hyprland::{keyboards_are_well_formed, HyprlandState, Keyboard};
use leafshell::media::{MediaState, MediaStatus};
use leafshell::network::{nmcli_output_is_well_formed, ConnectionKind, NetworkState};

struct Lcg(u64);

impl Lcg {
    fn next(&mut self) -> u64 {
        self.0 = self.0.wrapping_mul(6364136223846793005).wrapping_add(1442695040888963407);
        self.0 >> 33
    }
    fn pick<'a>(&mut self, items: &[&'a str]) -> &'a str {
        items[(self.next() as usize) % items.len()]
    }
}

/// The connection that the nmcli lines give, `None` for a line without
/// four fields before a match.
fn oracle_network(out: &str) -> Option<(ConnectionKind, Option<String>, Option<String>)> {
    for line in out.lines() {
        let parts: Vec<&str> = line.splitn(4, ':').collect();
        if parts.len() != 4 {
            return None;
        }
        let name = parts[0];
        let kind = parts[1];
        let state = parts[3];
        if state != "activated" || kind == "loopback" {
            continue;
        }
        match kind {
            "802-11-wireless" => {
                return Some((ConnectionKind::Wifi, Some(name.to_string()), Some(name.to_string())))
            }
            "802-3-ethernet" => return Some((ConnectionKind::Ethernet, None, Some(name.to_string()))),
            _ => continue,
        }
    }
    Some((ConnectionKind::Disconnected, None, None))
}

#[test]
fn nmcli_parsing_agrees_with_lines_and_splitn() {
    let pieces = [
        "Home", "Office", "802-11-wireless", "802-3-ethernet", "loopback", "wlan0", "activated", "deactivating",
        ":", ":", ":", "\n", "\n", "\r", "\r\n", "", "é", "vpn",
    ];
    let mut rng = Lcg(7);
    for _ in 0..20000 {
        let n = (rng.next() % 12) as usize;
        let mut out = String::new();
        for _ in 0..n {
            out.push_str(rng.pick(&pieces));
        }
        let expected = oracle_network(&out);
        assert_eq!(nmcli_output_is_well_formed(&out), expected.is_some(), "{:?}", out);
        if let Some((kind, ssid, connection)) = expected {
            let got: NetworkState = NetworkState::from_nmcli_output(&out);
            assert_eq!(got.kind, kind, "{:?}", out);
            assert_eq!(got.ssid, ssid, "{:?}", out);
            assert_eq!(got.connection, connection, "{:?}", out);
            assert_eq!(got.connected, kind != ConnectionKind::Disconnected);
        }
    }
}

#[test]
fn wpctl_reading_agrees_with_split_whitespace() {
    let pieces = ["Volume:", " ", "\t", "0.80", "[MUTED]", "[MUTED", "\n", "\u{a0}", "x", "1.5"];
    let mut rng = Lcg(11);
    for _ in 0..20000 {
        let n = (rng.next() % 8) as usize;
        let mut out = String::new();
        for _ in 0..n {
            out.push_str(rng.pick(&pieces));
        }
        let r = VolumeReading::from_wpctl_output(&out);
        assert_eq!(r.muted, out.contains("[MUTED]"), "{:?}", out);
        assert_eq!(r.level.as_deref(), out.split_whitespace().nth(1), "{:?}", out);
    }
}

#[test]
fn keyboard_layout_agrees_with_find() {
    let mut rng = Lcg(3);
    for _ in 0..5000 {
        let n = (rng.next() % 5) as usize;
        let kbs: Vec<Keyboard> = (0..n)
            .map(|_| Keyboard {
                main: match rng.next() % 3 {
                    0 => None,
                    1 => Some(false),
                    _ => Some(true),
                },
                active_keymap: if rng.next() % 4 == 0 { None } else { Some(format!("k{}", rng.next() % 9)) },
            })
            .collect();
        // the first keyboard whose flag is true, refused at a non-boolean flag before it
        let mut expected: Option<String> = Some("Unknown".to_string());
        for kb in &kbs {
            match kb.main {
                None => {
                    expected = None;
                    break;
                }
                Some(true) => {
                    expected = Some(kb.active_keymap.clone().unwrap_or_else(|| "Unknown".to_string()));
                    break;
                }
                Some(false) => {}
            }
        }
        assert_eq!(keyboards_are_well_formed(Some(&kbs)), expected.is_some());
        if let Some(e) = expected {
            assert_eq!(HyprlandState::keyboard_layout(Some(&kbs)), e);
        }
    }
}

fn oracle_progress(position: Option<u64>, length: Option<u64>) -> String {
    let d = chrono::Duration::from_std(std::time::Duration::from_micros(position.unwrap_or(0))).unwrap();
    let dm = d.num_minutes();
    let f = chrono::Duration::from_std(std::time::Duration::from_micros(length.unwrap_or(1_000_000))).unwrap();
    let fm = f.num_minutes();
    format!("{:02}:{:02} / {:02}:{:02}", dm, d.num_seconds() - (dm * 60), fm, f.num_seconds() - (fm * 60))
}

fn oracle_title(title: &str) -> String {
    let mut t = title.to_string();
    if t.len() > 14 {
        t = format!("{}...", t.get(0..=14).unwrap());
    }
    t
}

#[test]
fn media_labels_agree_with_chrono_and_get() {
    let mut rng = Lcg(5);
    let words = ["a", "bc", "é", "日本", "🎵", " ", "Song", "x"];
    for k in 0..20000u64 {
        let position = if k % 7 == 0 { None } else { Some(rng.next().wrapping_mul(rng.next()) % (k * 1_000_003 + 1)) };
        let length = if k % 5 == 0 { None } else { Some(k.wrapping_mul(0x9e37_79b9_7f4a_7c15)) };
        let n = (rng.next() % 10) as usize;
        let mut title = String::new();
        for _ in 0..n {
            title.push_str(rng.pick(&words));
        }
        let m = MediaState {
            title: title.clone(),
            artist: String::new(),
            status: MediaStatus::Playing,
            player_name: String::new(),
            position,
            length,
        };
        assert_eq!(m.progress_label(), oracle_progress(position, length));
        if title.len() <= 14 || title.is_char_boundary(15) {
            assert_eq!(m.title_label(), oracle_title(&title));
        }
    }
    let big = MediaState { position: Some(u64::MAX), length: Some(u64::MAX), ..MediaState::default() };
    assert_eq!(big.progress_label(), oracle_progress(Some(u64::MAX), Some(u64::MAX)));
}
