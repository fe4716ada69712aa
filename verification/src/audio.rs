use vstd::prelude::*;

use crate::command::{invocation, owned_args, texts, Invocation};
use crate::text::{
    contains_str, decimal, occurs_in, push_char, push_decimal, second_word, second_word_of,
};

verus! {

/// The default audio sink: its volume in percent and whether it is muted.
#[derive(Debug, Clone, Copy, PartialEq, Eq, Structural)]
pub struct AudioState {
    pub volume: u8,
    pub muted: bool,
}

/// What the bar reads from `wpctl get-volume @DEFAULT_AUDIO_SINK@`, whose
/// output looks like `Volume: 0.80` or `Volume: 0.80 [MUTED]`: whether the
/// sink is muted, and the text of the volume level (the second word).
#[derive(Debug, Clone)]
pub struct VolumeReading {
    pub muted: bool,
    pub level: Option<String>,
}

/// The volume level `p` in percent as `wpctl set-volume` takes it, at most 100.
pub open spec fn volume_arg(p: u8) -> Seq<char> {
    decimal(if p <= 100 {
        p as nat
    } else {
        100
    }).push('%')
}

/// The magnitude of a change of `delta` percent followed by its direction,
/// as `wpctl set-volume` takes it (`2%+`, `2%-`).
pub open spec fn volume_step_arg(delta: i8) -> Seq<char> {
    let magnitude: nat = if delta >= 0 {
        delta as nat
    } else {
        (-delta) as nat
    };
    decimal(magnitude).push('%').push(if delta >= 0 { '+' } else { '-' })
}

impl VolumeReading {
    /// Reads the output of `wpctl get-volume`: muted when the output holds
    /// `[MUTED]`, and the level text is the second white-space separated word.
    pub fn from_wpctl_output(out: &str) -> (r: VolumeReading)
        ensures
            r.muted == occurs_in(out@, "[MUTED]"@),
            match r.level {
                Some(w) => second_word(out@) == Some(w@),
                None => second_word(out@) is None,
            },
    {
        VolumeReading { muted: contains_str(out, "[MUTED]"), level: second_word_of(out) }
    }
}

impl AudioState {
    /// The icon name for the volume: "muted" when muted or at 0, then
    /// "low" under 33, "medium" under 66, and "high" above.
    pub fn volume_icon(&self) -> (r: &'static str)
        ensures
            r@ == (if self.muted || self.volume == 0 {
                "muted"@
            } else if self.volume < 33 {
                "low"@
            } else if self.volume < 66 {
                "medium"@
            } else {
                "high"@
            }),
    {
        if self.muted || self.volume == 0 {
            "muted"
        } else if self.volume < 33 {
            "low"
        } else if self.volume < 66 {
            "medium"
        } else {
            "high"
        }
    }

    /// `wpctl set-volume @DEFAULT_AUDIO_SINK@ <p>%`, the level clamped at 100.
    pub fn set_volume_command(percent: u8) -> (r: Invocation)
        ensures
            r.command_line() == ("wpctl"@, seq![
                "set-volume"@,
                "@DEFAULT_AUDIO_SINK@"@,
                volume_arg(percent),
            ]),
    {
        let p: u8 = if percent <= 100 {
            percent
        } else {
            100
        };
        let mut val = String::new();
        push_decimal(&mut val, p as u64);
        push_char(&mut val, '%');
        let mut args = owned_args(&["set-volume", "@DEFAULT_AUDIO_SINK@"]);
        let ghost fixed = args@;
        args.push(val);
        proof {
            assert(texts(args@) =~= texts(fixed).push(volume_arg(percent)));
        }
        invocation("wpctl", args)
    }

    /// `wpctl set-volume -l 1.0 @DEFAULT_AUDIO_SINK@ <|delta|>%<sign>`: a
    /// relative change, capped by wpctl at 100%.
    pub fn adjust_volume_command(delta: i8) -> (r: Invocation)
        ensures
            r.command_line() == ("wpctl"@, seq![
                "set-volume"@,
                "-l"@,
                "1.0"@,
                "@DEFAULT_AUDIO_SINK@"@,
                volume_step_arg(delta),
            ]),
    {
        let magnitude: u8 = if delta >= 0 {
            delta as u8
        } else {
            (-(delta as i16)) as u8
        };
        let mut val = String::new();
        push_decimal(&mut val, magnitude as u64);
        push_char(&mut val, '%');
        push_char(&mut val, if delta >= 0 { '+' } else { '-' });
        let mut args = owned_args(&["set-volume", "-l", "1.0", "@DEFAULT_AUDIO_SINK@"]);
        let ghost fixed = args@;
        args.push(val);
        proof {
            assert(texts(args@) =~= texts(fixed).push(volume_step_arg(delta)));
        }
        invocation("wpctl", args)
    }

    /// `wpctl set-mute @DEFAULT_AUDIO_SINK@ toggle`.
    pub fn toggle_mute_command() -> (r: Invocation)
        ensures
            r.command_line() == ("wpctl"@, seq![
                "set-mute"@,
                "@DEFAULT_AUDIO_SINK@"@,
                "toggle"@,
            ]),
    {
        let args = owned_args(&["set-mute", "@DEFAULT_AUDIO_SINK@", "toggle"]);
        invocation("wpctl", args)
    }
}

} // verus!
