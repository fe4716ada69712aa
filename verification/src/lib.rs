//! The state and the decisions of a status bar for the Hyprland compositor:
//! parsing what the system tools report, building the command lines that
//! change the system, and the bar's own state machine.
pub mod text;
pub mod audio;
pub mod clock;
pub mod command;
pub mod hyprland;
pub mod media;
pub mod network;
pub mod topbar;
