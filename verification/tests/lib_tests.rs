use messagio::basic;
use messagio::{message, Color, Config, MessageBuilder, Settings, SoundType};

fn freq(f: &messagio::Frequency) -> f32 {
    f.as_str().parse::<f32>().unwrap()
}

#[test]
fn lib_test_message_builder_legacy() {
    let settings = Settings::new();
    let msg = MessageBuilder::new("Hello")
        .colored_text(&settings, "World", Color::Green)
        .build(&settings);
    assert!(msg.contains("Hello"));
    assert!(msg.contains("World"));

    let switches = basic::Switches::new();
    let msg = basic::MessageBuilder::new("Hello")
        .colored_text(&switches, "World", Color::Green)
        .build(&switches);
    assert!(msg.contains("Hello"));
    assert!(msg.contains("World"));
}

#[test]
fn lib_test_builder_chaining() {
    let settings = Settings::new();
    let b = message("Test").color(Color::Red).with_symbol("!").with_sound(SoundType::Beep);
    let out = b.build(&settings);
    assert!(out.contains("Test"));
    assert!(out.contains("!"));

    let switches = basic::Switches::new();
    let b = basic::message("Test").color(Color::Red).with_symbol("!").with_sound(SoundType::Beep);
    let out = b.build(&switches);
    assert!(out.contains("Test"));
    assert!(out.contains("!"));
}

#[test]
fn test_config_default() {
    let config = Config::default();
    assert!(config.audio_enabled);
    assert_eq!(config.volume_percent, 80);
    assert!(!config.sync_color_sound);
    assert!(config.pulse_with_beeps);
    assert_eq!(config.success_beep_count, 2);
    assert_eq!(config.error_beep_count, 2);
    assert_eq!(config.warning_beep_count, 2);
    assert_eq!(config.pulse_speed_ms, 300);
    assert_eq!(config.beep_interval_ms, 50);
    assert_eq!(config.spinner_speed_ms, 100);
}

#[test]
fn test_config_roundtrip() {
    let original = Config::default();
    let parsed = Config::from_str(&original.to_toml()).expect("parse failed");

    assert_eq!(parsed.audio_enabled, original.audio_enabled);
    assert_eq!(parsed.success_beep_count, original.success_beep_count);
    assert_eq!(parsed.error_beep_count, original.error_beep_count);
    assert_eq!(parsed.warning_beep_count, original.warning_beep_count);
    assert_eq!(parsed.beep_count, original.beep_count);
    assert_eq!(parsed.pulse_speed_ms, original.pulse_speed_ms);
    assert_eq!(parsed.beep_interval_ms, original.beep_interval_ms);
    assert_eq!(parsed.spinner_speed_ms, original.spinner_speed_ms);
    assert!((freq(&parsed.success_freq1) - freq(&original.success_freq1)).abs() < 0.01);
    assert!((freq(&parsed.error_freq1) - freq(&original.error_freq1)).abs() < 0.01);
    assert!((freq(&parsed.warning_freq) - freq(&original.warning_freq)).abs() < 0.01);
    assert!((freq(&parsed.beep_freq) - freq(&original.beep_freq)).abs() < 0.01);
}

#[test]
fn test_config_section_isolation() {
    // Verifies that beep_count in [error] doesn't clobber [success], etc.
    let toml = "\
audio_enabled = true
volume_percent = 80
sync_color_sound = false
pulse_with_beeps = true
pulse_speed_ms = 200
beep_interval_ms = 30
spinner_speed_ms = 50

[success]
freq1 = 440
freq2 = 880
duration1 = 200
duration2 = 200
beep_count = 2

[error]
freq1 = 220
freq2 = 110
duration1 = 300
duration2 = 300
beep_count = 4

[warning]
freq = 660
duration = 150
beep_count = 3

[beep]
freq = 440
duration = 150
beep_count = 1
";
    let cfg = Config::from_str(toml).unwrap();
    assert_eq!(cfg.success_beep_count, 2);
    assert_eq!(cfg.error_beep_count, 4);
    assert_eq!(cfg.warning_beep_count, 3);
    assert_eq!(cfg.beep_count, 1);
    assert_eq!(cfg.pulse_speed_ms, 200);
    assert_eq!(cfg.beep_interval_ms, 30);
    assert_eq!(cfg.spinner_speed_ms, 50);
    assert!((freq(&cfg.success_freq1) - 440.0).abs() < 0.01);
    assert!((freq(&cfg.error_freq1) - 220.0).abs() < 0.01);
    assert!((freq(&cfg.warning_freq) - 660.0).abs() < 0.01);
}
