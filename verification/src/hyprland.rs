use vstd::prelude::*;

use crate::command::{invocation, owned_args, texts, Invocation};
use crate::text::{decimal, opt_string_view, push_decimal};

verus! {

/// A Hyprland workspace.
#[derive(Debug, Clone)]
pub struct Workspace {
    pub id: u8,
    pub name: String,
}

/// What the bar shows of Hyprland: the workspaces that exist, the active
/// one, and the keyboard layout in use.
#[derive(Debug, Clone)]
pub struct HyprlandState {
    pub workspaces: Vec<Workspace>,
    pub current_workspace: u8,
    pub keyboard_layout: String,
}

/// A keyboard as `hyprctl devices -j` lists it: its `main` flag (`None`
/// where the field is not a JSON boolean) and its active keymap (`None`
/// where that field is not a string).
#[derive(Debug, Clone)]
pub struct Keyboard {
    pub main: Option<bool>,
    pub active_keymap: Option<String>,
}

/// The `main` flag and the active keymap of a keyboard, as plain values.
pub open spec fn keyboard_fields(k: Keyboard) -> (Option<bool>, Option<Seq<char>>) {
    (k.main, opt_string_view(k.active_keymap))
}

/// The plain values of a list of keyboards.
pub open spec fn keyboards_fields(v: Seq<Keyboard>) -> Seq<(Option<bool>, Option<Seq<char>>)> {
    v.map_values(|k: Keyboard| keyboard_fields(k))
}

/// The layout shown when no main keyboard names one.
pub open spec fn unknown_layout() -> Seq<char> {
    "Unknown"@
}

/// The layout found by looking at the keyboards from index `i` on: the
/// active keymap of the first main keyboard. `None` when a keyboard whose
/// `main` flag is not a boolean is reached first (the lookup is refused).
pub open spec fn layout_from(kbs: Seq<(Option<bool>, Option<Seq<char>>)>, i: int) -> Option<Seq<char>>
    decreases kbs.len() - i,
{
    if i < 0 || i >= kbs.len() {
        Some(unknown_layout())
    } else {
        match kbs[i].0 {
            None => None,
            Some(true) => Some(
                match kbs[i].1 {
                    Some(k) => k,
                    None => unknown_layout(),
                },
            ),
            Some(false) => layout_from(kbs, i + 1),
        }
    }
}

/// The keyboard layout that the `keyboards` list of `hyprctl devices -j`
/// gives (`None` for the list when the field is not an array).
pub open spec fn layout_of(keyboards: Option<Seq<(Option<bool>, Option<Seq<char>>)>>) -> Option<Seq<char>> {
    match keyboards {
        None => Some(unknown_layout()),
        Some(kbs) => layout_from(kbs, 0),
    }
}

/// The layout is the keymap of the first keyboard marked main, however far
/// down the list it comes, when every keyboard before it is marked not main
/// ("Unknown" when that keyboard has no keymap).
pub proof fn lemma_layout_is_first_main(kbs: Seq<(Option<bool>, Option<Seq<char>>)>, j: int)
    requires
        0 <= j < kbs.len(),
        kbs[j].0 == Some(true),
        forall|i: int| 0 <= i < j ==> #[trigger] kbs[i].0 == Some(false),
    ensures
        layout_of(Some(kbs)) == Some(
            match kbs[j].1 {
                Some(k) => k,
                None => unknown_layout(),
            },
        ),
{
    lemma_layout_skips_non_main(kbs, 0, j);
}

/// With no keyboard marked main and every flag a boolean, the layout is
/// "Unknown"; a flag that is not a boolean before the first main keyboard
/// refuses the lookup.
pub proof fn lemma_layout_without_main(kbs: Seq<(Option<bool>, Option<Seq<char>>)>, j: int)
    requires
        0 <= j <= kbs.len(),
        forall|i: int| 0 <= i < j ==> #[trigger] kbs[i].0 == Some(false),
        j == kbs.len() || kbs[j].0 is None,
    ensures
        j == kbs.len() ==> layout_of(Some(kbs)) == Some(unknown_layout()),
        j < kbs.len() ==> layout_of(Some(kbs)) is None,
{
    lemma_layout_skips_non_main(kbs, 0, j);
}

proof fn lemma_layout_skips_non_main(kbs: Seq<(Option<bool>, Option<Seq<char>>)>, i: int, j: int)
    requires
        0 <= i <= j <= kbs.len(),
        forall|k: int| i <= k < j ==> #[trigger] kbs[k].0 == Some(false),
    ensures
        layout_from(kbs, i) == layout_from(kbs, j),
    decreases j - i,
{
    if i < j {
        lemma_layout_skips_non_main(kbs, i + 1, j);
    }
}

pub open spec fn keyboards_view(keyboards: Option<&Vec<Keyboard>>) -> Option<Seq<(Option<bool>, Option<Seq<char>>)>> {
    match keyboards {
        None => None,
        Some(v) => Some(keyboards_fields(v@)),
    }
}

pub open spec fn owned_keyboards_view(keyboards: Option<Vec<Keyboard>>) -> Option<Seq<(Option<bool>, Option<Seq<char>>)>> {
    match keyboards {
        None => None,
        Some(v) => Some(keyboards_fields(v@)),
    }
}

/// What `hyprctl devices -j` output `json` lists as keyboards, read with
/// `serde_json`: `None` when the text is not JSON, `Some(None)` when its
/// `keyboards` field is not an array, and otherwise the `main` flag (where
/// it is a boolean) and the `active_keymap` (where it is a string) of each.
pub uninterp spec fn devices_keyboards(json: Seq<char>) -> Option<Option<Seq<(Option<bool>, Option<Seq<char>>)>>>;

#[verifier::external_type_specification]
#[verifier::external_body]
pub struct ExJsonError(serde_json::Error);

/// `serde_json::from_str` into a `serde_json::Value`, then the `keyboards`
/// array of it (`Value::as_array`) and of each keyboard its `main` flag
/// (`Value::as_bool`) and `active_keymap` (`Value::as_str`). The contract
/// names the result ([`devices_keyboards`]) and says that an error comes
/// exactly where the name says the text is not JSON; what serde_json accepts
/// as JSON is left to it.
#[verifier::external_body]
fn parse_devices_keyboards(json: &str) -> (r: Result<Option<Vec<Keyboard>>, serde_json::Error>)
    ensures
        match r {
            Ok(kbs) => devices_keyboards(json@) == Some(owned_keyboards_view(kbs)),
            Err(_) => devices_keyboards(json@) is None,
        },
{
    let devices: serde_json::Value = serde_json::from_str(json)?;
    Ok(devices["keyboards"].as_array().map(|kbs| {
        kbs.iter().map(|kb| Keyboard {
            main: kb["main"].as_bool(),
            active_keymap: kb["active_keymap"].as_str().map(|s| s.to_string()),
        }).collect()
    }))
}

/// Why the state could not be read from what `hyprctl` printed.
#[derive(Debug, Clone, Copy, PartialEq, Eq, Structural)]
pub enum HyprlandError {
    /// The output of `hyprctl devices -j` is not JSON.
    InvalidDevicesJson,
}

fn find_layout(keyboards: Option<&Vec<Keyboard>>) -> (r: Option<String>)
    ensures
        match r {
            Some(s) => layout_of(keyboards_view(keyboards)) == Some(s@),
            None => layout_of(keyboards_view(keyboards)) is None,
        },
{
    match keyboards {
        None => Some(String::from_str("Unknown")),
        Some(kbs) => {
            let mut i: usize = 0;
            while i < kbs.len()
                invariant
                    i <= kbs.len(),
                    keyboards_view(keyboards) == Some(keyboards_fields(kbs@)),
                            layout_from(keyboards_fields(kbs@), 0) == layout_from(keyboards_fields(kbs@), i as int),
                decreases kbs.len() - i,
            {
                match kbs[i].main {
                    None => {
                        return None;
                    },
                    Some(true) => {
                        return match &kbs[i].active_keymap {
                            Some(k) => Some(k.clone()),
                            None => Some(String::from_str("Unknown")),
                        };
                    },
                    Some(false) => {},
                }
                i = i + 1;
            }
            Some(String::from_str("Unknown"))
        },
    }
}

/// Whether `HyprlandState::keyboard_layout` accepts `keyboards`: no keyboard
/// up to the first main one has a `main` flag that is not a boolean.
pub fn keyboards_are_well_formed(keyboards: Option<&Vec<Keyboard>>) -> (r: bool)
    ensures
        r == layout_of(keyboards_view(keyboards)) is Some,
{
    find_layout(keyboards).is_some()
}

impl HyprlandState {
    /// The layout to show: the active keymap of the first keyboard marked
    /// main, and "Unknown" when there is none, when that keyboard has no
    /// keymap, or when there is no keyboard list.
    pub fn keyboard_layout(keyboards: Option<&Vec<Keyboard>>) -> (r: String)
        requires
            layout_of(keyboards_view(keyboards)) is Some,
        ensures
            layout_of(keyboards_view(keyboards)) == Some(r@),
    {
        match find_layout(keyboards) {
            Some(s) => s,
            None => String::new(),
        }
    }

    /// The state that `hyprctl workspaces -j`, `hyprctl activeworkspace -j`
    /// and `hyprctl devices -j` report together.
    pub fn from_reports(
        workspaces: Vec<Workspace>,
        active: &Workspace,
        keyboards: Option<&Vec<Keyboard>>,
    ) -> (r: HyprlandState)
        requires
            layout_of(keyboards_view(keyboards)) is Some,
        ensures
            r.workspaces@ == workspaces@,
            r.current_workspace == active.id,
            layout_of(keyboards_view(keyboards)) == Some(r.keyboard_layout@),
    {
        let layout = HyprlandState::keyboard_layout(keyboards);
        HyprlandState { workspaces, current_workspace: active.id, keyboard_layout: layout }
    }

    /// `hyprctl switchxkblayout all next`: moves every keyboard to its next
    /// layout.
    pub fn cycle_layout_command() -> (r: Invocation)
        ensures
            r.command_line() == ("hyprctl"@, seq!["switchxkblayout"@, "all"@, "next"@]),
    {
        invocation("hyprctl", owned_args(&["switchxkblayout", "all", "next"]))
    }

    /// The state from what `hyprctl` printed: the workspaces and the active
    /// one as read, and the layout from the raw output of `hyprctl devices -j`.
    /// An error exactly when that output is not JSON.
    pub fn from_hyprctl(workspaces: Vec<Workspace>, active: &Workspace, devices_json: &str) -> (r:
        Result<HyprlandState, HyprlandError>)
        requires
            devices_keyboards(devices_json@) matches Some(kbs) ==> layout_of(kbs) is Some,
        ensures
            r is Err <==> devices_keyboards(devices_json@) is None,
            r matches Err(e) ==> e == HyprlandError::InvalidDevicesJson,
            r matches Ok(st) ==> {
                &&& st.workspaces@ == workspaces@
                &&& st.current_workspace == active.id
                &&& devices_keyboards(devices_json@) matches Some(kbs)
                &&& layout_of(kbs) == Some(st.keyboard_layout@)
            },
    {
        match parse_devices_keyboards(devices_json) {
            Err(_) => Err(HyprlandError::InvalidDevicesJson),
            Ok(kbs) => Ok(HyprlandState::from_reports(workspaces, active, kbs.as_ref())),
        }
    }

    /// As [`HyprlandState::from_hyprctl`], but `None` where the keyboard
    /// lookup is refused: a keyboard whose `main` flag is not a boolean comes
    /// before the first main one.
    pub fn checked_from_hyprctl(
        workspaces: Vec<Workspace>,
        active: &Workspace,
        devices_json: &str,
    ) -> (r: Option<Result<HyprlandState, HyprlandError>>)
        ensures
            r is None <==> (devices_keyboards(devices_json@) matches Some(kbs) && layout_of(kbs) is None),
            r matches Some(Err(e)) ==> e == HyprlandError::InvalidDevicesJson
                && devices_keyboards(devices_json@) is None,
            r matches Some(Ok(st)) ==> {
                &&& st.workspaces@ == workspaces@
                &&& st.current_workspace == active.id
                &&& devices_keyboards(devices_json@) matches Some(kbs)
                &&& layout_of(kbs) == Some(st.keyboard_layout@)
            },
    {
        match parse_devices_keyboards(devices_json) {
            Err(_) => Some(Err(HyprlandError::InvalidDevicesJson)),
            Ok(kbs) => {
                if keyboards_are_well_formed(kbs.as_ref()) {
                    Some(HyprlandState::from_hyprctl(workspaces, active, devices_json))
                } else {
                    None
                }
            },
        }
    }
}

/// `hyprctl dispatch workspace <i>`: makes workspace `i` the active one.
pub fn switch_workspace_command(i: u8) -> (r: Invocation)
    ensures
        r.command_line() == ("hyprctl"@, seq!["dispatch"@, "workspace"@, decimal(i as nat)]),
{
    let mut n = String::new();
    push_decimal(&mut n, i as u64);
    let mut args = owned_args(&["dispatch", "workspace"]);
    let ghost fixed = args@;
    args.push(n);
    proof {
        assert(texts(args@) =~= texts(fixed).push(decimal(i as nat)));
    }
    invocation("hyprctl", args)
}

} // verus!
