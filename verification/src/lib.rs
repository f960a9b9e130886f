//! Messages for the terminal: success, error, warning and information lines
//! with colors, tags and sounds, message builders, pulsing lines, spinners,
//! and the preferences that govern them.
//!
//! The library decides; the caller does.  Every function that prints or
//! plays returns the list of effects (text to write, sounds to play, pauses)
//! that the caller carries out in order, and the library's state lives in a
//! `Settings` value that the caller owns.
use vstd::prelude::*;

pub mod text;
pub mod config;
pub mod paint;
pub mod sound;
pub mod settings;
pub mod output;
pub mod colors;
pub mod messages;
pub mod builder;
pub mod pulse;
pub mod spinner;
pub mod setup;
pub mod location;
pub mod color_utils;
pub mod audio_utils;
pub mod basic;

pub use crate::paint::Color;
pub use crate::builder::{MessageBuilder, message};
pub use crate::config::{Config, Frequency};
pub use crate::messages::{
    critical, colored_msg, error, info, play_error_sound, play_success_sound, play_warning_sound,
    sound_error, sound_success, status_error, status_valid, status_warn, success, warn, warning,
};
pub use crate::output::{Effect, make_bold, synchronized_message};
pub use crate::pulse::{colorize_text, pulse_custom, pulse_gentle, pulse_musical, pulse_with_error_sound};
pub use crate::settings::{
    Settings, apply_config, disable_all, disable_colors, disable_pulse, disable_sound, enable_all,
    enable_colors, enable_pulse, enable_sound, get_beep_count, get_beep_interval_ms,
    get_pulse_speed_ms, get_spinner_speed_ms, set_beep_interval_ms, set_pulse_speed_ms,
    set_spinner_speed_ms, sync_color_with_sound,
};
pub use crate::setup::Setup;
pub use crate::sound::{SoundConfig, SoundStep, SoundType, configure_sounds};
pub use crate::spinner::{SpinnerHandle, spinner};
