use leafshell::audio::{AudioState, VolumeReading};
use leafshell::text::is_white_space_char;

fn args(inv: &leafshell::command::Invocation) -> Vec<&str> {
    inv.args.iter().map(|s| s.as_str()).collect()
}

#[test]
fn volume_icon_thresholds() {
    let icon = |volume: u8, muted: bool| AudioState { volume, muted }.volume_icon();
    assert_eq!(icon(50, true), "muted");
    assert_eq!(icon(0, false), "muted");
    assert_eq!(icon(1, false), "low");
    assert_eq!(icon(32, false), "low");
    assert_eq!(icon(33, false), "medium");
    assert_eq!(icon(65, false), "medium");
    assert_eq!(icon(66, false), "high");
    assert_eq!(icon(255, false), "high");
}

#[test]
fn reading_unmuted_volume() {
    let r = VolumeReading::from_wpctl_output("Volume: 0.80\n");
    assert!(!r.muted);
    assert_eq!(r.level.as_deref(), Some("0.80"));
}

#[test]
fn reading_muted_volume() {
    let r = VolumeReading::from_wpctl_output("Volume: 0.45 [MUTED]\n");
    assert!(r.muted);
    assert_eq!(r.level.as_deref(), Some("0.45"));
}

#[test]
fn reading_without_level() {
    let r = VolumeReading::from_wpctl_output("  Volume:\t\n");
    assert!(!r.muted);
    assert_eq!(r.level, None);
    let r = VolumeReading::from_wpctl_output("");
    assert_eq!(r.level, None);
    let r = VolumeReading::from_wpctl_output("[MUTED");
    assert!(!r.muted);
}

#[test]
fn reading_matches_split_whitespace() {
    for out in ["a b c", "  x\u{3000}y ", "\u{85}one\u{a0}two", "single", "p\u{2009}q"] {
        let r = VolumeReading::from_wpctl_output(out);
        assert_eq!(r.level.as_deref(), out.split_whitespace().nth(1));
        assert_eq!(r.muted, out.contains("[MUTED]"));
    }
}

#[test]
fn white_space_matches_std_for_every_char() {
    for u in 0u32..=0x10ffff {
        if let Some(c) = char::from_u32(u) {
            assert_eq!(is_white_space_char(c), c.is_whitespace(), "{:x}", u);
        }
    }
}

#[test]
fn set_volume_clamps_at_100() {
    let inv = AudioState::set_volume_command(150);
    assert_eq!(inv.program, "wpctl");
    assert_eq!(args(&inv), vec!["set-volume", "@DEFAULT_AUDIO_SINK@", "100%"]);
    assert_eq!(args(&AudioState::set_volume_command(7)), vec!["set-volume", "@DEFAULT_AUDIO_SINK@", "7%"]);
    assert_eq!(args(&AudioState::set_volume_command(0))[2], "0%");
    assert_eq!(args(&AudioState::set_volume_command(100))[2], "100%");
}

#[test]
fn adjust_volume_sign_and_magnitude() {
    let up = AudioState::adjust_volume_command(2);
    assert_eq!(up.program, "wpctl");
    assert_eq!(args(&up), vec!["set-volume", "-l", "1.0", "@DEFAULT_AUDIO_SINK@", "2%+"]);
    assert_eq!(args(&AudioState::adjust_volume_command(-2))[4], "2%-");
    assert_eq!(args(&AudioState::adjust_volume_command(0))[4], "0%+");
    assert_eq!(args(&AudioState::adjust_volume_command(-128))[4], "128%-");
    assert_eq!(args(&AudioState::adjust_volume_command(127))[4], "127%+");
}

#[test]
fn toggle_mute_command() {
    let inv = AudioState::toggle_mute_command();
    assert_eq!(inv.program, "wpctl");
    assert_eq!(args(&inv), vec!["set-mute", "@DEFAULT_AUDIO_SINK@", "toggle"]);
}
