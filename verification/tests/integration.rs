use messagio::{
    disable_sound, enable_colors, enable_pulse, disable_pulse, error, info, message,
    play_error_sound, play_success_sound, play_warning_sound, success, sync_color_with_sound,
    warning, Color, Effect, Settings, SoundStep, SoundType,
};

fn printed(effects: &[Effect]) -> String {
    let mut all = String::new();
    for e in effects {
        if let Effect::Print(s) = e {
            all.push_str(s);
        }
    }
    all
}

#[test]
fn test_message_functions() {
    let settings = Settings::new();
    let s = success(&settings, "Test success");
    let e = error(&settings, "Test error");
    let w = warning(&settings, "Test warning");
    let i = info(&settings, "Test info");
    assert!(printed(&s).contains("Test success"));
    assert!(printed(&e).contains("Test error"));
    assert!(printed(&w).contains("Test warning"));
    assert!(i.contains("Test info"));
}

#[test]
fn test_builder() {
    let settings = Settings::new();
    let builder = message("Test")
        .color(Color::Red)
        .with_symbol("!")
        .with_sound(SoundType::Beep);

    let effects = builder.send(&settings);
    assert!(printed(&effects).contains("Test"));
    assert!(effects.iter().any(|e| matches!(e, Effect::Play(_))));
}

#[test]
fn test_sound_types() {
    let settings = Settings::new();
    let s = play_success_sound(&settings);
    let e = play_error_sound(&settings);
    let w = play_warning_sound(&settings);
    assert_eq!(s.len(), 3);
    assert_eq!(e.len(), 3);
    assert_eq!(w.len(), 3);
    assert!(matches!(e[1], SoundStep::Rest { ms: 100 }));
}

#[test]
fn test_blink_feature() {
    let mut settings = Settings::new();
    enable_pulse(&mut settings);
    assert!(settings.pulse_enabled());

    disable_pulse(&mut settings);
    assert!(!settings.pulse_enabled());

    enable_pulse(&mut settings);
}

#[test]
fn test_sync_feature() {
    let mut settings = Settings::new();
    sync_color_with_sound(&mut settings, true);
    assert!(settings.sync_color_sound());

    disable_sound(&mut settings);
    assert!(!settings.sound_enabled());
    assert!(!settings.color_enabled());

    enable_colors(&mut settings);
    assert!(settings.sound_enabled());
    assert!(settings.color_enabled());

    sync_color_with_sound(&mut settings, false);
}
