//! The switches and speeds that every message consults: whether colors,
//! sound and pulsing are on, whether colors follow the sound switch, the
//! speeds, and the preferences in use.
use vstd::prelude::*;
use crate::config::{Config, ConfigView, config_text, default_config, freqs_literal, lemma_config_read_back, parse_config};
use crate::sound::{SoundConfig, SoundConfigView, SoundType, configure_sounds, default_sounds, sounds_of};

verus! {

/// The on/off switches, changed together.
#[derive(Clone, Copy)]
struct Switches {
    color_enabled: bool,
    sound_enabled: bool,
    sync_color_sound: bool,
    pulse_enabled: bool,
}

/// The library's state.
pub struct Settings {
    switches: Switches,
    pulse_speed_ms: u64,
    beep_interval_ms: u64,
    spinner_speed_ms: u64,
    config: Config,
    sounds: SoundConfig,
}

/// The value of a `Settings`.
pub struct SettingsView {
    pub color_enabled: bool,
    pub sound_enabled: bool,
    pub sync_color_sound: bool,
    pub pulse_enabled: bool,
    pub pulse_speed_ms: u64,
    pub beep_interval_ms: u64,
    pub spinner_speed_ms: u64,
    pub config: ConfigView,
    pub sounds: SoundConfigView,
}

impl View for Settings {
    type V = SettingsView;

    closed spec fn view(&self) -> SettingsView {
        SettingsView {
            color_enabled: self.switches.color_enabled,
            sound_enabled: self.switches.sound_enabled,
            sync_color_sound: self.switches.sync_color_sound,
            pulse_enabled: self.switches.pulse_enabled,
            pulse_speed_ms: self.pulse_speed_ms,
            beep_interval_ms: self.beep_interval_ms,
            spinner_speed_ms: self.spinner_speed_ms,
            config: self.config@,
            sounds: self.sounds@,
        }
    }
}

/// While colors follow the sound switch, the two switches agree.
pub open spec fn in_sync(v: SettingsView) -> bool {
    v.sync_color_sound ==> v.color_enabled == v.sound_enabled
}

/// The state before any preferences are applied.
pub open spec fn initial_settings() -> SettingsView {
    SettingsView {
        color_enabled: true,
        sound_enabled: true,
        sync_color_sound: false,
        pulse_enabled: true,
        pulse_speed_ms: 300,
        beep_interval_ms: 50,
        spinner_speed_ms: 100,
        config: default_config(),
        sounds: default_sounds(),
    }
}

/// `v` with colors set to `on`, and sound with them while they are in sync.
pub open spec fn with_colors(v: SettingsView, on: bool) -> SettingsView {
    SettingsView {
        color_enabled: on,
        sound_enabled: if v.sync_color_sound {
            on
        } else {
            v.sound_enabled
        },
        ..v
    }
}

/// `v` with sound set to `on`, and colors with it while they are in sync.
pub open spec fn with_sound(v: SettingsView, on: bool) -> SettingsView {
    SettingsView {
        sound_enabled: on,
        color_enabled: if v.sync_color_sound {
            on
        } else {
            v.color_enabled
        },
        ..v
    }
}

/// `v` after applying the preferences `c`.
pub open spec fn applied(v: SettingsView, c: ConfigView) -> SettingsView {
    SettingsView {
        sound_enabled: c.audio_enabled,
        sync_color_sound: c.sync_color_sound,
        pulse_enabled: c.pulse_with_beeps,
        pulse_speed_ms: c.pulse_speed_ms,
        beep_interval_ms: c.beep_interval_ms,
        spinner_speed_ms: c.spinner_speed_ms,
        config: c,
        sounds: sounds_of(c),
        color_enabled: if c.sync_color_sound {
            c.audio_enabled
        } else {
            v.color_enabled
        },
    }
}

/// Applying preferences `c` makes the switches and speeds follow them: sound
/// is on exactly when `c` turns audio on, pulsing exactly when `c` pulses
/// with beeps, colors follow sound exactly when `c` syncs them (and are left
/// as they were otherwise), the three speeds are `c`'s, the preferences in
/// use are `c`, and the tones are the ones `c` names.
pub proof fn lemma_apply_config(v: SettingsView, c: ConfigView)
    ensures
        applied(v, c).sound_enabled == c.audio_enabled,
        applied(v, c).pulse_enabled == c.pulse_with_beeps,
        applied(v, c).sync_color_sound == c.sync_color_sound,
        applied(v, c).color_enabled == (if c.sync_color_sound { c.audio_enabled } else { v.color_enabled }),
        applied(v, c).pulse_speed_ms == c.pulse_speed_ms,
        applied(v, c).beep_interval_ms == c.beep_interval_ms,
        applied(v, c).spinner_speed_ms == c.spinner_speed_ms,
        applied(v, c).config == c,
        applied(v, c).sounds.success_freq1 == c.success_freq1,
        applied(v, c).sounds.success_freq2 == c.success_freq2,
        applied(v, c).sounds.error_freq1 == c.error_freq1,
        applied(v, c).sounds.error_freq2 == c.error_freq2,
        applied(v, c).sounds.warning_freq == c.warning_freq,
        applied(v, c).sounds.beep_freq == c.beep_freq,
{
}

/// `v` with colors made to follow sound (or not); when turned on, colors
/// take the sound switch's value.
pub open spec fn with_sync(v: SettingsView, enable: bool) -> SettingsView {
    SettingsView {
        sync_color_sound: enable,
        color_enabled: if enable {
            v.sound_enabled
        } else {
            v.color_enabled
        },
        ..v
    }
}

/// While colors follow the sound switch, turning either switch on or off
/// turns the other with it; and no change of a switch, of the sync, or of
/// the preferences makes the two disagree while they are in sync.
pub proof fn lemma_switches_in_sync(v: SettingsView, on: bool, enable: bool, c: ConfigView)
    requires
        in_sync(v),
    ensures
        in_sync(with_colors(v, on)),
        in_sync(with_sound(v, on)),
        in_sync(with_sync(v, enable)),
        in_sync(applied(v, c)),
        v.sync_color_sound ==> with_colors(v, on).sound_enabled == on,
        v.sync_color_sound ==> with_sound(v, on).color_enabled == on,
{
}

/// `v` with the pulse speed in use set to `ms`; the preferences in use stay
/// as they are.
pub open spec fn with_pulse_speed(v: SettingsView, ms: u64) -> SettingsView {
    SettingsView { pulse_speed_ms: ms, ..v }
}

/// `v` with the pause between beeps in use set to `ms`.
pub open spec fn with_beep_interval(v: SettingsView, ms: u64) -> SettingsView {
    SettingsView { beep_interval_ms: ms, ..v }
}

/// `v` with the spinner speed in use set to `ms`.
pub open spec fn with_spinner_speed(v: SettingsView, ms: u64) -> SettingsView {
    SettingsView { spinner_speed_ms: ms, ..v }
}

/// A speed that is set is the one read back; the preferences in use stay as
/// they are; and the copy of them that the setter gives to be saved carries
/// the new speed, so that writing it in its text form and reading that back
/// gives the speed again.  Setting a speed leaves the switches as they were.
pub proof fn lemma_speeds_read_back(v: SettingsView, ms: u64)
    requires
        freqs_literal(v.config),
    ensures
        with_pulse_speed(v, ms).pulse_speed_ms == ms,
        with_beep_interval(v, ms).beep_interval_ms == ms,
        with_spinner_speed(v, ms).spinner_speed_ms == ms,
        with_pulse_speed(v, ms).config == v.config,
        with_beep_interval(v, ms).config == v.config,
        with_spinner_speed(v, ms).config == v.config,
        parse_config(config_text(ConfigView { pulse_speed_ms: ms, ..v.config })).pulse_speed_ms == ms,
        parse_config(config_text(ConfigView { beep_interval_ms: ms, ..v.config })).beep_interval_ms == ms,
        parse_config(config_text(ConfigView { spinner_speed_ms: ms, ..v.config })).spinner_speed_ms == ms,
        in_sync(v) ==> in_sync(with_pulse_speed(v, ms)) && in_sync(with_beep_interval(v, ms))
            && in_sync(with_spinner_speed(v, ms)),
{
    lemma_config_read_back(ConfigView { pulse_speed_ms: ms, ..v.config });
    lemma_config_read_back(ConfigView { beep_interval_ms: ms, ..v.config });
    lemma_config_read_back(ConfigView { spinner_speed_ms: ms, ..v.config });
}

/// The number of beeps of a sound: notifications beep as warnings do, and
/// no sound means no beeps.
pub open spec fn beep_count_of(c: ConfigView, sound: Option<SoundType>) -> usize {
    match sound {
        Some(SoundType::Success) => c.success_beep_count,
        Some(SoundType::Error) => c.error_beep_count,
        Some(SoundType::Warning) => c.warning_beep_count,
        Some(SoundType::Notification) => c.warning_beep_count,
        Some(SoundType::Beep) => c.beep_count,
        None => 0,
    }
}

impl Settings {
    #[verifier::type_invariant]
    closed spec fn well_formed(self) -> bool {
        in_sync(self@)
    }

    /// The state before any preferences are applied: colors, sound and
    /// pulsing on, no sync, default speeds and preferences.
    pub fn new() -> (s: Settings)
        ensures
            s@ == initial_settings(),
    {
        Settings {
            switches: Switches {
                color_enabled: true,
                sound_enabled: true,
                sync_color_sound: false,
                pulse_enabled: true,
            },
            pulse_speed_ms: 300,
            beep_interval_ms: 50,
            spinner_speed_ms: 100,
            config: Config::default(),
            sounds: SoundConfig::default(),
        }
    }

    /// Whether colors are on.
    pub fn color_enabled(&self) -> (r: bool)
        ensures
            r == self@.color_enabled,
            self@.sync_color_sound ==> self@.color_enabled == self@.sound_enabled,
    {
        proof {
            use_type_invariant(self);
        }
        self.switches.color_enabled
    }

    /// Whether sound is on.
    pub fn sound_enabled(&self) -> (r: bool)
        ensures
            r == self@.sound_enabled,
            self@.sync_color_sound ==> self@.color_enabled == self@.sound_enabled,
    {
        proof {
            use_type_invariant(self);
        }
        self.switches.sound_enabled
    }

    /// Whether colors follow the sound switch.
    pub fn sync_color_sound(&self) -> (r: bool)
        ensures
            r == self@.sync_color_sound,
    {
        self.switches.sync_color_sound
    }

    /// Whether messages pulse bold with their beeps.
    pub fn pulse_enabled(&self) -> (r: bool)
        ensures
            r == self@.pulse_enabled,
    {
        self.switches.pulse_enabled
    }

    /// The preferences in use.
    pub fn config(&self) -> (r: &Config)
        ensures
            r@ == self@.config,
    {
        &self.config
    }

    /// The tones in use.
    pub fn sounds(&self) -> (r: &SoundConfig)
        ensures
            r@ == self@.sounds,
    {
        &self.sounds
    }
}

impl Default for Settings {
    fn default() -> (s: Settings)
        ensures
            s@ == initial_settings(),
    {
        Settings::new()
    }
}

/// Applies the preferences `config`: the sound, sync and pulse switches,
/// the speeds and the tones follow it, and while colors follow sound they
/// take its value.
pub fn apply_config(settings: &mut Settings, config: &Config)
    ensures
        final(settings)@ == applied(old(settings)@, config@),
{
    let color_enabled = if config.sync_color_sound {
        config.audio_enabled
    } else {
        settings.switches.color_enabled
    };
    settings.switches = Switches {
        color_enabled,
        sound_enabled: config.audio_enabled,
        sync_color_sound: config.sync_color_sound,
        pulse_enabled: config.pulse_with_beeps,
    };
    settings.pulse_speed_ms = config.pulse_speed_ms;
    settings.beep_interval_ms = config.beep_interval_ms;
    settings.spinner_speed_ms = config.spinner_speed_ms;
    settings.config = config.clone();
    let mut sounds = SoundConfig::default();
    configure_sounds(&mut sounds, config);
    settings.sounds = sounds;
}

/// The number of beeps that `sound` makes under the preferences in use.
pub fn get_beep_count(settings: &Settings, sound: Option<SoundType>) -> (n: usize)
    ensures
        n == beep_count_of(settings@.config, sound),
{
    let config = &settings.config;
    match sound {
        Some(SoundType::Success) => config.success_beep_count,
        Some(SoundType::Error) => config.error_beep_count,
        Some(SoundType::Warning) => config.warning_beep_count,
        Some(SoundType::Notification) => config.warning_beep_count,
        Some(SoundType::Beep) => config.beep_count,
        None => 0,
    }
}

// ── Speeds ───────────────────────────────────────────────────────────────────

/// The pause between the bold and the plain state of a pulse, in ms.
pub fn get_pulse_speed_ms(settings: &Settings) -> (r: u64)
    ensures
        r == settings@.pulse_speed_ms,
{
    settings.pulse_speed_ms
}

/// The pause between successive beeps, in ms.
pub fn get_beep_interval_ms(settings: &Settings) -> (r: u64)
    ensures
        r == settings@.beep_interval_ms,
{
    settings.beep_interval_ms
}

/// The time each spinner frame is shown, in ms.
pub fn get_spinner_speed_ms(settings: &Settings) -> (r: u64)
    ensures
        r == settings@.spinner_speed_ms,
{
    settings.spinner_speed_ms
}

/// Sets the pulse speed in use, and gives a copy of the preferences in use with
/// the new value, for the caller to save; the preferences in use stay as
/// they are.
pub fn set_pulse_speed_ms(settings: &mut Settings, speed_ms: u64) -> (saved: Config)
    ensures
        final(settings)@ == with_pulse_speed(old(settings)@, speed_ms),
        saved@ == (ConfigView { pulse_speed_ms: speed_ms, ..old(settings)@.config }),
{
    proof {
        use_type_invariant(&*settings);
    }
    settings.pulse_speed_ms = speed_ms;
    let mut saved = settings.config.clone();
    saved.pulse_speed_ms = speed_ms;
    saved
}

/// Sets the beep interval in use, and gives a copy of the preferences in use with
/// the new value, for the caller to save; the preferences in use stay as
/// they are.
pub fn set_beep_interval_ms(settings: &mut Settings, interval_ms: u64) -> (saved: Config)
    ensures
        final(settings)@ == with_beep_interval(old(settings)@, interval_ms),
        saved@ == (ConfigView { beep_interval_ms: interval_ms, ..old(settings)@.config }),
{
    proof {
        use_type_invariant(&*settings);
    }
    settings.beep_interval_ms = interval_ms;
    let mut saved = settings.config.clone();
    saved.beep_interval_ms = interval_ms;
    saved
}

/// Sets the spinner speed in use, and gives a copy of the preferences in use with
/// the new value, for the caller to save; the preferences in use stay as
/// they are.
pub fn set_spinner_speed_ms(settings: &mut Settings, speed_ms: u64) -> (saved: Config)
    ensures
        final(settings)@ == with_spinner_speed(old(settings)@, speed_ms),
        saved@ == (ConfigView { spinner_speed_ms: speed_ms, ..old(settings)@.config }),
{
    proof {
        use_type_invariant(&*settings);
    }
    settings.spinner_speed_ms = speed_ms;
    let mut saved = settings.config.clone();
    saved.spinner_speed_ms = speed_ms;
    saved
}

// ── Switches ─────────────────────────────────────────────────────────────────

/// Makes colors follow the sound switch (or stop following it); when
/// turned on, colors take the sound switch's value at once.
pub fn sync_color_with_sound(settings: &mut Settings, enable: bool)
    ensures
        final(settings)@ == with_sync(old(settings)@, enable),
{
    let old = settings.switches;
    settings.switches = Switches {
        sync_color_sound: enable,
        color_enabled: if enable {
            old.sound_enabled
        } else {
            old.color_enabled
        },
        ..old
    };
}

/// Turns colors on, and sound too while they are in sync.
pub fn enable_colors(settings: &mut Settings)
    ensures
        final(settings)@ == with_colors(old(settings)@, true),
{
    let old = settings.switches;
    settings.switches = Switches {
        color_enabled: true,
        sound_enabled: if old.sync_color_sound {
            true
        } else {
            old.sound_enabled
        },
        ..old
    };
}

/// Turns colors off, and sound too while they are in sync.
pub fn disable_colors(settings: &mut Settings)
    ensures
        final(settings)@ == with_colors(old(settings)@, false),
{
    let old = settings.switches;
    settings.switches = Switches {
        color_enabled: false,
        sound_enabled: if old.sync_color_sound {
            false
        } else {
            old.sound_enabled
        },
        ..old
    };
}

/// Turns sound on, and colors too while they are in sync.
pub fn enable_sound(settings: &mut Settings)
    ensures
        final(settings)@ == with_sound(old(settings)@, true),
{
    let old = settings.switches;
    settings.switches = Switches {
        sound_enabled: true,
        color_enabled: if old.sync_color_sound {
            true
        } else {
            old.color_enabled
        },
        ..old
    };
}

/// Turns sound off, and colors too while they are in sync.
pub fn disable_sound(settings: &mut Settings)
    ensures
        final(settings)@ == with_sound(old(settings)@, false),
{
    let old = settings.switches;
    settings.switches = Switches {
        sound_enabled: false,
        color_enabled: if old.sync_color_sound {
            false
        } else {
            old.color_enabled
        },
        ..old
    };
}

/// Turns colors and sound on.
pub fn enable_all(settings: &mut Settings)
    ensures
        final(settings)@ == with_sound(with_colors(old(settings)@, true), true),
        final(settings)@.color_enabled && final(settings)@.sound_enabled,
{
    enable_colors(settings);
    enable_sound(settings);
}

/// Turns colors and sound off.
pub fn disable_all(settings: &mut Settings)
    ensures
        final(settings)@ == with_sound(with_colors(old(settings)@, false), false),
        !final(settings)@.color_enabled && !final(settings)@.sound_enabled,
{
    disable_colors(settings);
    disable_sound(settings);
}

/// Makes messages pulse bold with their beeps.
pub fn enable_pulse(settings: &mut Settings)
    ensures
        final(settings)@ == (SettingsView { pulse_enabled: true, ..old(settings)@ }),
{
    proof {
        use_type_invariant(&*settings);
    }
    settings.switches = Switches { pulse_enabled: true, ..settings.switches };
}

/// Stops messages from pulsing.
pub fn disable_pulse(settings: &mut Settings)
    ensures
        final(settings)@ == (SettingsView { pulse_enabled: false, ..old(settings)@ }),
{
    proof {
        use_type_invariant(&*settings);
    }
    settings.switches = Switches { pulse_enabled: false, ..settings.switches };
}

} // verus!
