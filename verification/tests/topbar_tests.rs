use leafshell::audio::AudioState;
use leafshell::hyprland::{HyprlandState, Workspace};
use leafshell::media::{MediaState, MediaStatus};
use leafshell::network::{ConnectionKind, NetworkState};
use leafshell::topbar::{
    tophub_components, tophub_width, update, ButtonStyle, Effect, Message, Source, State,
    TophubComponent, UiState,
};

fn hypr(count: u8, current: u8) -> HyprlandState {
    HyprlandState {
        workspaces: (1..=count).map(|id| Workspace { id, name: id.to_string() }).collect(),
        current_workspace: current,
        keyboard_layout: "us".to_string(),
    }
}

fn state(status: MediaStatus) -> State {
    let mut player = MediaState::default();
    player.status = status;
    State::new(
        hypr(3, 1),
        AudioState { volume: 40, muted: false },
        NetworkState { connected: false, ssid: None, connection: None, kind: ConnectionKind::Disconnected },
        player,
    )
}

const RELOADS: [Effect; 4] = [
    Effect::Reload(Source::Hyprland),
    Effect::Reload(Source::Network),
    Effect::Reload(Source::Audio),
    Effect::Reload(Source::Media),
];

#[test]
fn new_state_starts_with_empty_ui() {
    let s = state(MediaStatus::Stopped);
    assert_eq!(s.ui, UiState { media_running: None, last_workspace: None, hubflags: 0 });
    assert_eq!(UiState::default(), s.ui);
}

#[test]
fn first_tick_starts_hub_animation_and_reloads() {
    let mut s = state(MediaStatus::Stopped);
    let e = update(&mut s, Message::Tick);
    let mut expected = vec![Effect::StartHubAnimation];
    expected.extend(RELOADS);
    assert_eq!(e, expected);
    assert_eq!(s.ui.media_running, Some(false));
    assert_eq!(s.ui.hubflags, 0);
}

#[test]
fn second_tick_settles() {
    let mut s = state(MediaStatus::Playing);
    update(&mut s, Message::Tick);
    let e = update(&mut s, Message::Tick);
    assert_eq!(e, RELOADS.to_vec());
}

#[test]
fn media_player_joins_the_hub_and_stays() {
    let mut s = state(MediaStatus::Playing);
    update(&mut s, Message::Tick);
    assert_eq!(s.ui.hubflags, 0x80);
    assert_eq!(tophub_components(s.ui.hubflags), vec![TophubComponent::Clock, TophubComponent::MediaPlayer]);
    let mut stopped = MediaState::default();
    stopped.status = MediaStatus::Stopped;
    update(&mut s, Message::MediaUpdated(stopped));
    let e = update(&mut s, Message::Tick);
    assert_eq!(e[0], Effect::StartHubAnimation);
    assert_eq!(s.ui.media_running, Some(false));
    assert_eq!(s.ui.hubflags, 0x80);
    assert_eq!(tophub_components(s.ui.hubflags).len(), 2);
}

#[test]
fn workspace_press_remembers_the_previous_workspace() {
    let mut s = state(MediaStatus::Stopped);
    let e = update(&mut s, Message::Workspace(3));
    assert_eq!(e, vec![Effect::StartWorkspaceAnimation, Effect::SwitchWorkspace(3)]);
    assert_eq!(s.ui.last_workspace, Some(1));
    assert_eq!(s.hyprland.current_workspace, 1);
}

#[test]
fn hyprland_report_switches_only_on_change() {
    let mut s = state(MediaStatus::Stopped);
    let e = update(&mut s, Message::HyprlandUpdated(hypr(4, 1)));
    assert!(e.is_empty());
    assert_eq!(s.ui.last_workspace, None);
    assert_eq!(s.hyprland.workspaces.len(), 4);
    let e = update(&mut s, Message::HyprlandUpdated(hypr(4, 2)));
    assert_eq!(e, vec![Effect::StartWorkspaceAnimation]);
    assert_eq!(s.ui.last_workspace, Some(1));
    assert_eq!(s.hyprland.current_workspace, 2);
}

#[test]
fn commands_are_followed_by_reloads() {
    let cases = [
        (Message::VolumeUp, vec![Effect::AdjustVolume(2), Effect::Reload(Source::Audio)]),
        (Message::VolumeDown, vec![Effect::AdjustVolume(-2), Effect::Reload(Source::Audio)]),
        (Message::ToggleMute, vec![Effect::ToggleMute, Effect::Reload(Source::Audio)]),
        (Message::NextLanguage, vec![Effect::CycleLayout, Effect::Reload(Source::Hyprland)]),
        (Message::SkipForward, vec![Effect::MediaNext, Effect::Reload(Source::Media)]),
        (Message::SkipBack, vec![Effect::MediaPrevious, Effect::Reload(Source::Media)]),
        (Message::Pause, vec![Effect::MediaPlayPause, Effect::Reload(Source::Media)]),
    ];
    for (m, expected) in cases {
        let mut s = state(MediaStatus::Stopped);
        assert_eq!(update(&mut s, m), expected);
        assert_eq!(s.ui, UiState::default());
    }
}

#[test]
fn reports_replace_their_part() {
    let mut s = state(MediaStatus::Stopped);
    assert!(update(&mut s, Message::AudioUpdated(AudioState { volume: 90, muted: true })).is_empty());
    assert_eq!(s.audio, AudioState { volume: 90, muted: true });
    let net = NetworkState { connected: true, ssid: None, connection: Some("eth0".to_string()), kind: ConnectionKind::Ethernet };
    assert!(update(&mut s, Message::NetworkUpdated(net)).is_empty());
    assert_eq!(s.network.connection.as_deref(), Some("eth0"));
    let mut player = MediaState::default();
    player.title = "Song".to_string();
    assert!(update(&mut s, Message::MediaUpdated(player)).is_empty());
    assert_eq!(s.player.title, "Song");
    assert_eq!(s.audio.volume, 90);
}

#[test]
fn workspace_row_has_at_least_ten_buttons() {
    let s = state(MediaStatus::Stopped);
    let b = s.workspace_buttons();
    assert_eq!(b.len(), 10);
    assert_eq!(b[0].style, ButtonStyle::Active);
    assert!(b[0].extra_bold);
    assert_eq!(b[1].style, ButtonStyle::Occupied);
    assert_eq!(b[2].style, ButtonStyle::Occupied);
    assert_eq!(b[3].style, ButtonStyle::Idle);
    assert!(!b[3].extra_bold);
    for (k, button) in b.iter().enumerate() {
        assert_eq!(button.number, k + 1);
        assert_eq!(button.target as usize, k + 1);
    }
}

#[test]
fn switching_fades_the_previous_button() {
    let mut s = state(MediaStatus::Stopped);
    update(&mut s, Message::Workspace(2));
    update(&mut s, Message::HyprlandUpdated(hypr(3, 2)));
    let b = s.workspace_buttons();
    assert_eq!(b[0].style, ButtonStyle::Fading);
    assert_eq!(b[1].style, ButtonStyle::Active);
    assert_eq!(b[2].style, ButtonStyle::Occupied);
}

#[test]
fn buttons_below_the_active_workspace_are_in_use() {
    let mut s = state(MediaStatus::Stopped);
    s.hyprland = hypr(2, 6);
    let b = s.workspace_buttons();
    assert_eq!(b[4].style, ButtonStyle::Occupied);
    assert!(b[4].extra_bold);
    assert_eq!(b[5].style, ButtonStyle::Active);
    assert!(!b[5].extra_bold);
    assert_eq!(b[6].style, ButtonStyle::Idle);
}

#[test]
fn many_workspaces_give_one_button_each() {
    let mut s = state(MediaStatus::Stopped);
    s.hyprland = hypr(12, 12);
    let b = s.workspace_buttons();
    assert_eq!(b.len(), 12);
    assert_eq!(b[11].style, ButtonStyle::Active);
}

#[test]
fn hub_components_and_width() {
    assert_eq!(tophub_components(0), vec![TophubComponent::Clock]);
    assert_eq!(tophub_components(0x7f), vec![TophubComponent::Clock]);
    assert_eq!(tophub_components(0xff).len(), 2);
    assert_eq!(tophub_width(&tophub_components(0)), 120);
    assert_eq!(tophub_width(&tophub_components(0x80)), 420);
    assert_eq!(TophubComponent::Clock.size(), (120, 0));
    assert_eq!(TophubComponent::MediaPlayer.size(), (300, 0));
    assert!(TophubComponent::Clock.horizontal());
}
