use vstd::prelude::*;

use crate::audio::AudioState;
use crate::hyprland::HyprlandState;
use crate::media::{MediaState, MediaStatus};
use crate::network::NetworkState;

verus! {

/// The bit of `UiState::hubflags` that puts the media player in the hub.
pub const MEDIA_PLAYER_FLAG: u8 = 0x80;

/// Whether `hubflags` puts the media player in the hub.
pub open spec fn shows_media_player(hubflags: u8) -> bool {
    (hubflags & 0x80u8) >> 7u8 != 0
}

/// The bar's own state: whether media was last seen running (`None`
/// before the first look), the workspace that was active before the last
/// switch, and the flags of the components shown in the hub.
#[derive(Debug, Clone, Copy, PartialEq, Eq, Structural)]
pub struct UiState {
    pub media_running: Option<bool>,
    pub last_workspace: Option<u8>,
    pub hubflags: u8,
}

impl Default for UiState {
    fn default() -> (r: UiState)
        ensures
            r.media_running is None,
            r.last_workspace is None,
            r.hubflags == 0,
    {
        UiState { media_running: None, last_workspace: None, hubflags: 0 }
    }
}

/// The bar's state after a tick that sees the player in `status`, and
/// whether the hub's animation starts again: it does when the player's
/// running state differs from the one seen last (or none was seen). Once
/// media has run, the media player stays in the hub.
pub open spec fn ui_after_tick(ui: UiState, status: MediaStatus) -> (UiState, bool) {
    let running = status != MediaStatus::Stopped;
    (
        UiState {
            media_running: Some(running),
            hubflags: if running {
                ui.hubflags | 0x80u8
            } else {
                ui.hubflags
            },
            ..ui
        },
        ui.media_running != Some(running),
    )
}

impl UiState {
    /// A tick; see [`ui_after_tick`]. Returns whether the hub's animation
    /// starts again.
    pub fn tick(&mut self, status: &MediaStatus) -> (restart: bool)
        ensures
            (*final(self), restart) == ui_after_tick(*old(self), *status),
    {
        let running = *status != MediaStatus::Stopped;
        let restart = match self.media_running {
            Some(r) => r != running,
            None => true,
        };
        self.media_running = Some(running);
        if running {
            self.hubflags = self.hubflags | MEDIA_PLAYER_FLAG;
        }
        restart
    }

    /// Remembers `previous` as the workspace that was active before a
    /// switch (the workspace animation starts with it).
    pub fn switch_workspace(&mut self, previous: u8)
        ensures
            *final(self) == (UiState { last_workspace: Some(previous), ..*old(self) }),
    {
        self.last_workspace = Some(previous);
    }
}

/// Everything the bar shows.
#[derive(Debug, Clone)]
pub struct State {
    pub hyprland: HyprlandState,
    pub audio: AudioState,
    pub network: NetworkState,
    pub player: MediaState,
    pub ui: UiState,
}

impl State {
    /// The bar's state from what the system first reports.
    pub fn new(
        hyprland: HyprlandState,
        audio: AudioState,
        network: NetworkState,
        player: MediaState,
    ) -> (r: State)
        ensures
            r == (State { hyprland, audio, network, player, ui: r.ui }),
            r.ui.media_running is None,
            r.ui.last_workspace is None,
            r.ui.hubflags == 0,
    {
        State { hyprland, audio, network, player, ui: UiState::default() }
    }
}

/// What the bar is told: a user action, a tick of its clock, or what a
/// reload of one of its sources brought back.
#[derive(Debug, Clone)]
pub enum Message {
    NextLanguage,
    Workspace(u8),
    VolumeUp,
    VolumeDown,
    ToggleMute,
    NetworkUpdated(NetworkState),
    AudioUpdated(AudioState),
    Tick,
    HyprlandUpdated(HyprlandState),
    SkipForward,
    SkipBack,
    Pause,
    MediaUpdated(MediaState),
}

/// A source of the bar's state, read again in the background.
#[derive(Debug, Clone, Copy, PartialEq, Eq, Structural)]
pub enum Source {
    Hyprland,
    Network,
    Audio,
    Media,
}

/// What the bar asks to be done after a message, in order.
#[derive(Debug, Clone, Copy, PartialEq, Eq, Structural)]
pub enum Effect {
    StartHubAnimation,
    StartWorkspaceAnimation,
    SwitchWorkspace(u8),
    AdjustVolume(i8),
    ToggleMute,
    CycleLayout,
    MediaNext,
    MediaPrevious,
    MediaPlayPause,
    Reload(Source),
}

/// The reloads that every tick asks for.
pub open spec fn reload_all() -> Seq<Effect> {
    seq![
        Effect::Reload(Source::Hyprland),
        Effect::Reload(Source::Network),
        Effect::Reload(Source::Audio),
        Effect::Reload(Source::Media),
    ]
}

/// The state after `m`.
pub open spec fn next_state(s: State, m: Message) -> State {
    match m {
        Message::Tick => State { ui: ui_after_tick(s.ui, s.player.status).0, ..s },
        Message::Workspace(_) => State {
            ui: UiState { last_workspace: Some(s.hyprland.current_workspace), ..s.ui },
            ..s
        },
        Message::HyprlandUpdated(h) => State {
            ui: if h.current_workspace != s.hyprland.current_workspace {
                UiState { last_workspace: Some(s.hyprland.current_workspace), ..s.ui }
            } else {
                s.ui
            },
            hyprland: h,
            ..s
        },
        Message::AudioUpdated(a) => State { audio: a, ..s },
        Message::NetworkUpdated(n) => State { network: n, ..s },
        Message::MediaUpdated(p) => State { player: p, ..s },
        _ => s,
    }
}

/// The effects of `m` in state `s`, in order.
pub open spec fn effects_of(s: State, m: Message) -> Seq<Effect> {
    match m {
        Message::Tick => if ui_after_tick(s.ui, s.player.status).1 {
            seq![Effect::StartHubAnimation] + reload_all()
        } else {
            reload_all()
        },
        Message::Workspace(i) => seq![Effect::StartWorkspaceAnimation, Effect::SwitchWorkspace(i)],
        Message::HyprlandUpdated(h) => if h.current_workspace != s.hyprland.current_workspace {
            seq![Effect::StartWorkspaceAnimation]
        } else {
            seq![]
        },
        Message::VolumeUp => seq![Effect::AdjustVolume(2i8), Effect::Reload(Source::Audio)],
        Message::VolumeDown => seq![Effect::AdjustVolume(-2i8), Effect::Reload(Source::Audio)],
        Message::ToggleMute => seq![Effect::ToggleMute, Effect::Reload(Source::Audio)],
        Message::NextLanguage => seq![Effect::CycleLayout, Effect::Reload(Source::Hyprland)],
        Message::SkipForward => seq![Effect::MediaNext, Effect::Reload(Source::Media)],
        Message::SkipBack => seq![Effect::MediaPrevious, Effect::Reload(Source::Media)],
        Message::Pause => seq![Effect::MediaPlayPause, Effect::Reload(Source::Media)],
        _ => seq![],
    }
}

fn push_reloads(effects: &mut Vec<Effect>)
    ensures
        final(effects)@ == old(effects)@ + reload_all(),
{
    effects.push(Effect::Reload(Source::Hyprland));
    effects.push(Effect::Reload(Source::Network));
    effects.push(Effect::Reload(Source::Audio));
    effects.push(Effect::Reload(Source::Media));
    assert(final(effects)@ =~= old(effects)@ + reload_all());
}

/// Handles one message: changes the state as [`next_state`] says and
/// returns the effects that [`effects_of`] lists.
pub fn update(state: &mut State, message: Message) -> (effects: Vec<Effect>)
    ensures
        message matches Message::AudioUpdated(a) ==> final(state).audio == a,
        message matches Message::NetworkUpdated(n) ==> final(state).network == n,
        message matches Message::MediaUpdated(p) ==> final(state).player == p,
        message matches Message::HyprlandUpdated(h) ==> final(state).hyprland == h,
        *final(state) == next_state(*old(state), message),
        effects@ == effects_of(*old(state), message),
{
    let mut effects: Vec<Effect> = Vec::new();
    match message {
        Message::Tick => {
            let status = state.player.status;
            if state.ui.tick(&status) {
                effects.push(Effect::StartHubAnimation);
            }
            push_reloads(&mut effects);
        },
        Message::Workspace(i) => {
            let current = state.hyprland.current_workspace;
            state.ui.switch_workspace(current);
            effects.push(Effect::StartWorkspaceAnimation);
            effects.push(Effect::SwitchWorkspace(i));
        },
        Message::HyprlandUpdated(h) => {
            if h.current_workspace != state.hyprland.current_workspace {
                let current = state.hyprland.current_workspace;
                state.ui.switch_workspace(current);
                effects.push(Effect::StartWorkspaceAnimation);
            }
            state.hyprland = h;
        },
        Message::AudioUpdated(a) => {
            state.audio = a;
        },
        Message::VolumeUp => {
            effects.push(Effect::AdjustVolume(2));
            effects.push(Effect::Reload(Source::Audio));
        },
        Message::VolumeDown => {
            effects.push(Effect::AdjustVolume(-2));
            effects.push(Effect::Reload(Source::Audio));
        },
        Message::ToggleMute => {
            effects.push(Effect::ToggleMute);
            effects.push(Effect::Reload(Source::Audio));
        },
        Message::NetworkUpdated(n) => {
            state.network = n;
        },
        Message::NextLanguage => {
            effects.push(Effect::CycleLayout);
            effects.push(Effect::Reload(Source::Hyprland));
        },
        Message::MediaUpdated(p) => {
            state.player = p;
        },
        Message::SkipForward => {
            effects.push(Effect::MediaNext);
            effects.push(Effect::Reload(Source::Media));
        },
        Message::SkipBack => {
            effects.push(Effect::MediaPrevious);
            effects.push(Effect::Reload(Source::Media));
        },
        Message::Pause => {
            effects.push(Effect::MediaPlayPause);
            effects.push(Effect::Reload(Source::Media));
        },
    }
    effects
}

/// Once the media player is in the hub it stays there, whatever the bar
/// is told.
pub proof fn lemma_media_player_stays(s: State, m: Message)
    requires
        shows_media_player(s.ui.hubflags),
    ensures
        shows_media_player(next_state(s, m).ui.hubflags),
{
    let h = s.ui.hubflags;
    assert(((h & 0x80u8) >> 7u8 != 0) ==> (((h | 0x80u8) & 0x80u8) >> 7u8 != 0)) by (bit_vector);
}

/// A tick that sees media playing or paused puts the media player in the hub.
pub proof fn lemma_running_media_shows_player(s: State)
    requires
        s.player.status != MediaStatus::Stopped,
    ensures
        shows_media_player(next_state(s, Message::Tick).ui.hubflags),
{
    let h = s.ui.hubflags;
    assert(((h | 0x80u8) & 0x80u8) >> 7u8 != 0) by (bit_vector);
}

/// Every tick reads every source again, whatever the state: the reloads
/// end the tick's effects, after at most the start of the hub animation.
pub proof fn lemma_tick_reloads_every_source(s: State)
    ensures
        effects_of(s, Message::Tick) == reload_all() || effects_of(s, Message::Tick) == seq![
            Effect::StartHubAnimation,
        ] + reload_all(),
{
}

/// The bar keeps no state of the system of its own: only a report of a
/// source changes what it shows of that source, and to what was reported.
pub proof fn lemma_sources_change_only_by_reports(s: State, m: Message)
    ensures
        ({
            let t = next_state(s, m);
            &&& (t.hyprland != s.hyprland ==> (m matches Message::HyprlandUpdated(h) && t.hyprland == h))
            &&& (t.audio != s.audio ==> (m matches Message::AudioUpdated(a) && t.audio == a))
            &&& (t.network != s.network ==> (m matches Message::NetworkUpdated(n) && t.network == n))
            &&& (t.player != s.player ==> (m matches Message::MediaUpdated(p) && t.player == p))
        }),
{
}

/// A report of a source is always taken over as it is, whatever the bar
/// showed before, and it changes nothing else the bar shows of the system.
pub proof fn lemma_reports_are_taken(s: State, m: Message)
    ensures
        m matches Message::AudioUpdated(a) ==> next_state(s, m).audio == a && next_state(s, m).network
            == s.network && next_state(s, m).player == s.player && next_state(s, m).hyprland
            == s.hyprland,
        m matches Message::NetworkUpdated(n) ==> next_state(s, m).network == n && next_state(s, m).audio
            == s.audio && next_state(s, m).player == s.player && next_state(s, m).hyprland
            == s.hyprland,
        m matches Message::MediaUpdated(p) ==> next_state(s, m).player == p && next_state(s, m).audio
            == s.audio && next_state(s, m).network == s.network && next_state(s, m).hyprland
            == s.hyprland,
        m matches Message::HyprlandUpdated(h) ==> next_state(s, m).hyprland == h && next_state(s, m).audio
            == s.audio && next_state(s, m).network == s.network && next_state(s, m).player
            == s.player,
{
}

/// A second tick that sees the player as the first did does not start the
/// hub animation again.
pub proof fn lemma_tick_settles(s: State)
    ensures
        effects_of(next_state(s, Message::Tick), Message::Tick) == reload_all(),
{
}

/// Each command that changes a source is followed at once by a reload of
/// that source.
pub proof fn lemma_commands_reload_their_source(s: State, m: Message, k: int)
    requires
        0 <= k < effects_of(s, m).len(),
    ensures
        match effects_of(s, m)[k] {
            Effect::AdjustVolume(_) | Effect::ToggleMute => k + 1 < effects_of(s, m).len()
                && effects_of(s, m)[k + 1] == Effect::Reload(Source::Audio),
            Effect::CycleLayout => k + 1 < effects_of(s, m).len() && effects_of(s, m)[k + 1]
                == Effect::Reload(Source::Hyprland),
            Effect::MediaNext | Effect::MediaPrevious | Effect::MediaPlayPause => k + 1 < effects_of(
                s,
                m,
            ).len() && effects_of(s, m)[k + 1] == Effect::Reload(Source::Media),
            _ => true,
        },
{
    if m is Tick {
        assert(ui_after_tick(s.ui, s.player.status).1 ==> effects_of(s, m) =~= seq![
            Effect::StartHubAnimation,
            Effect::Reload(Source::Hyprland),
            Effect::Reload(Source::Network),
            Effect::Reload(Source::Audio),
            Effect::Reload(Source::Media),
        ]);
        assert(!ui_after_tick(s.ui, s.player.status).1 ==> effects_of(s, m) =~= reload_all());
    }
}

/// The workspace remembered as the previous one only ever becomes the
/// workspace that was active when the message came.
pub proof fn lemma_last_workspace_is_a_previous_one(s: State, m: Message)
    ensures
        next_state(s, m).ui.last_workspace == s.ui.last_workspace || next_state(s, m).ui.last_workspace
            == Some(s.hyprland.current_workspace),
{
}

/// Pressing workspace `i` and then hearing from Hyprland that `i` is
/// active makes the button of the workspace active before fade out, when
/// that button shows a workspace in use.
pub proof fn lemma_switch_fades_previous(s: State, i: u8, h: HyprlandState)
    requires
        h.current_workspace == i,
        i != s.hyprland.current_workspace,
        1 <= s.hyprland.current_workspace,
        s.hyprland.current_workspace <= h.workspaces@.len() || s.hyprland.current_workspace < i,
    ensures
        ({
            let after = next_state(next_state(s, Message::Workspace(i)), Message::HyprlandUpdated(h));
            let w = s.hyprland.current_workspace;
            workspace_button(
                w as nat,
                after.hyprland.workspaces@.len(),
                after.hyprland.current_workspace,
                after.ui.last_workspace,
            ).style == ButtonStyle::Fading
        }),
{
    let s1 = next_state(s, Message::Workspace(i));
    assert(s1.ui.last_workspace == Some(s.hyprland.current_workspace));
    assert(s1.hyprland.current_workspace == s.hyprland.current_workspace);
    assert(next_state(s1, Message::HyprlandUpdated(h)).ui.last_workspace == Some(
        s.hyprland.current_workspace,
    ));
}

/// How a workspace button looks.
#[derive(Debug, Clone, Copy, PartialEq, Eq, Structural)]
pub enum ButtonStyle {
    /// The active workspace, highlighted as the workspace animation runs.
    Active,
    /// The workspace that was active before the last switch, fading out.
    Fading,
    /// An existing workspace (or one below the active one).
    Occupied,
    /// A free slot, highlighted only under the pointer.
    Idle,
}

/// One button of the workspace row.
#[derive(Debug, Clone, Copy, PartialEq, Eq, Structural)]
pub struct WorkspaceButton {
    /// The number shown, from 1.
    pub number: usize,
    /// The workspace that a press switches to (the number taken modulo 256).
    pub target: u8,
    /// Whether the number is drawn extra bold rather than bold.
    pub extra_bold: bool,
    pub style: ButtonStyle,
}

/// How many buttons the workspace row has: one per workspace, at least 10.
pub open spec fn button_count(workspaces: nat) -> nat {
    if workspaces > 10 {
        workspaces
    } else {
        10
    }
}

/// The button numbered `n` when `workspaces` workspaces exist, `current` is
/// active and `last` was active before the last switch.
pub open spec fn workspace_button(n: nat, workspaces: nat, current: u8, last: Option<u8>) -> WorkspaceButton {
    let in_use = n <= workspaces || n < current;
    WorkspaceButton {
        number: n as usize,
        target: (n % 256) as u8,
        extra_bold: in_use,
        style: if n % 256 == current {
            ButtonStyle::Active
        } else if in_use {
            if last == Some(n as u8) && n < 256 {
                ButtonStyle::Fading
            } else {
                ButtonStyle::Occupied
            }
        } else {
            ButtonStyle::Idle
        },
    }
}

impl State {
    /// The buttons of the workspace row, numbered from 1.
    pub fn workspace_buttons(&self) -> (r: Vec<WorkspaceButton>)
        ensures
            r@.len() == button_count(self.hyprland.workspaces@.len()),
            forall|k: int|
                0 <= k < r@.len() ==> #[trigger] r@[k] == workspace_button(
                    (k + 1) as nat,
                    self.hyprland.workspaces@.len(),
                    self.hyprland.current_workspace,
                    self.ui.last_workspace,
                ),
            r@.len() >= 10,
            r@.len() >= self.hyprland.workspaces@.len(),
            forall|k: int|
                0 <= k < r@.len() ==> {
                    &&& (#[trigger] r@[k]).number == k + 1
                    &&& r@[k].target as int == (k + 1) % 256
                    &&& r@[k].extra_bold == (k + 1 <= self.hyprland.workspaces@.len() || k + 1
                        < self.hyprland.current_workspace)
                    &&& (r@[k].style == ButtonStyle::Active <==> (k + 1) % 256
                        == self.hyprland.current_workspace)
                    &&& (r@[k].style == ButtonStyle::Idle <==> ((k + 1) % 256
                        != self.hyprland.current_workspace && !r@[k].extra_bold))
                    &&& (r@[k].style == ButtonStyle::Fading ==> self.ui.last_workspace == Some(
                        r@[k].target,
                    ) && k + 1 < 256)
                },
    {
        let count = self.hyprland.workspaces.len();
        let current = self.hyprland.current_workspace;
        let last = self.ui.last_workspace;
        let end = if count > 10 {
            count
        } else {
            10
        };
        let mut r: Vec<WorkspaceButton> = Vec::new();
        let mut k: usize = 0;
        while k < end
            invariant
                count == self.hyprland.workspaces@.len(),
                current == self.hyprland.current_workspace,
                last == self.ui.last_workspace,
                end == button_count(count as nat),
                k <= end,
                r@.len() == k,
                forall|j: int|
                    0 <= j < k ==> #[trigger] r@[j] == workspace_button(
                        (j + 1) as nat,
                        count as nat,
                        current,
                        last,
                    ),
            decreases end - k,
        {
            let n = k + 1;
            let in_use = n <= count || n < current as usize;
            let target = (n % 256) as u8;
            let style = if target == current {
                ButtonStyle::Active
            } else if in_use {
                let fading = match last {
                    Some(l) => l as usize == n,
                    None => false,
                };
                if fading {
                    ButtonStyle::Fading
                } else {
                    ButtonStyle::Occupied
                }
            } else {
                ButtonStyle::Idle
            };
            let b = WorkspaceButton { number: n, target, extra_bold: in_use, style };
            assert(b == workspace_button(n as nat, count as nat, current, last));
            r.push(b);
            k = k + 1;
        }
        r
    }
}

/// A component of the hub in the middle of the bar.
#[derive(Debug, Clone, Copy, PartialEq, Eq, Structural)]
pub enum TophubComponent {
    Clock,
    MediaPlayer,
}

/// The width that a component takes in the hub.
pub open spec fn component_width(c: TophubComponent) -> nat {
    match c {
        TophubComponent::Clock => 120,
        TophubComponent::MediaPlayer => 300,
    }
}

/// The width of the hub's content: the sum of its components' widths.
pub open spec fn content_width(cs: Seq<TophubComponent>) -> nat
    decreases cs.len(),
{
    if cs.len() == 0 {
        0
    } else {
        content_width(cs.drop_last()) + component_width(cs.last())
    }
}

impl TophubComponent {
    /// The size that the component asks for: 120 wide for the clock, 300
    /// for the media player, and no fixed height.
    pub fn size(&self) -> (r: (u32, u32))
        ensures
            r == (component_width(*self) as u32, 0u32),
    {
        match self {
            TophubComponent::Clock => (120, 0),
            TophubComponent::MediaPlayer => (300, 0),
        }
    }

    /// Whether the component is laid out in a row: every component is.
    pub fn horizontal(&self) -> (r: bool)
        ensures
            r,
    {
        true
    }
}

/// The components of the hub: the clock, then the media player when
/// `hubflags` holds its flag.
pub fn tophub_components(hubflags: u8) -> (r: Vec<TophubComponent>)
    ensures
        r@ == (if shows_media_player(hubflags) {
            seq![TophubComponent::Clock, TophubComponent::MediaPlayer]
        } else {
            seq![TophubComponent::Clock]
        }),
{
    let mut r: Vec<TophubComponent> = Vec::new();
    r.push(TophubComponent::Clock);
    if (hubflags & MEDIA_PLAYER_FLAG) >> 7 != 0 {
        r.push(TophubComponent::MediaPlayer);
    }
    r
}

/// The width of the hub's content before its animation scales it.
pub fn tophub_width(components: &Vec<TophubComponent>) -> (r: u32)
    requires
        content_width(components@) <= u32::MAX,
    ensures
        r == content_width(components@),
{
    let mut width: u32 = 0;
    let mut i: usize = 0;
    while i < components.len()
        invariant
            i <= components.len(),
            content_width(components@) <= u32::MAX,
            width == content_width(components@.subrange(0, i as int)),
        decreases components.len() - i,
    {
        proof {
            let s = components@.subrange(0, i + 1);
            assert(s.drop_last() =~= components@.subrange(0, i as int));
            lemma_content_width_prefix(components@, i + 1);
        }
        width = width + components[i].size().0;
        i = i + 1;
    }
    assert(components@.subrange(0, i as int) =~= components@);
    width
}

proof fn lemma_content_width_prefix(cs: Seq<TophubComponent>, k: int)
    requires
        0 <= k <= cs.len(),
    ensures
        content_width(cs.subrange(0, k)) <= content_width(cs),
    decreases cs.len() - k,
{
    if k < cs.len() {
        lemma_content_width_prefix(cs, k + 1);
        assert(cs.subrange(0, k + 1).drop_last() =~= cs.subrange(0, k));
    } else {
        assert(cs.subrange(0, k) =~= cs);
    }
}

} // verus!
