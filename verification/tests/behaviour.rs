use messagio::location::nearest_project_root;
use messagio::basic;
use messagio::colors;
use messagio::output::synchronized_message;
use messagio::setup::{bool_answer, beep_count_answer, volume_answer, yes_no_answer, SetupStep};
use messagio::sound::beep_sample_count;
use messagio::text::parse_unsigned_chars;
use messagio::{
    apply_config, disable_all, disable_colors, enable_all, enable_sound, get_beep_count,
    get_pulse_speed_ms, make_bold, message, pulse_custom, set_pulse_speed_ms, spinner,
    sync_color_with_sound, Color, Config, Effect, Frequency, MessageBuilder, Settings, Setup,
    SoundStep, SoundType,
};

const DEFAULT_TOML: &str = "audio_enabled = true\nvolume_percent = 80\nsync_color_sound = false\npulse_with_beeps = true\npulse_speed_ms = 300\nbeep_interval_ms = 50\nspinner_speed_ms = 100\n\n[success]\nfreq1 = 440\nfreq2 = 880\nduration1 = 200\nduration2 = 200\nbeep_count = 2\n\n[error]\nfreq1 = 220\nfreq2 = 110\nduration1 = 300\nduration2 = 300\nbeep_count = 2\n\n[warning]\nfreq = 660\nduration = 150\nbeep_count = 2\n\n[beep]\nfreq = 440\nduration = 150\nbeep_count = 1\n";

fn plain_settings() -> Settings {
    let mut s = Settings::new();
    disable_colors(&mut s);
    s
}

fn prints(effects: &[Effect]) -> Vec<String> {
    effects
        .iter()
        .filter_map(|e| if let Effect::Print(s) = e { Some(s.clone()) } else { None })
        .collect()
}

#[test]
fn default_text_form_is_exact() {
    assert_eq!(Config::default().to_toml(), DEFAULT_TOML);
}

#[test]
fn custom_config_reads_back() {
    let text = "audio_enabled = false\nvolume_percent = 37\nsync_color_sound = true\npulse_with_beeps = false\npulse_speed_ms = 123\n[success]\nfreq1 = 880.5\nbeep_count = 7\n[error]\nduration2 = 9\n[warning]\nfreq = 1e3\n[beep]\nfreq = -inf\nduration = 1\nbeep_count = 10\n";
    let c = Config::from_str(text).unwrap();
    let back = Config::from_str(&c.to_toml()).unwrap();
    assert_eq!(back.to_toml(), c.to_toml());
    assert!(!back.audio_enabled);
    assert_eq!(back.volume_percent, 37);
    assert!(back.sync_color_sound);
    assert!(!back.pulse_with_beeps);
    assert_eq!(back.pulse_speed_ms, 123);
    assert_eq!(back.success_freq1.as_str(), "880.5");
    assert_eq!(back.success_beep_count, 7);
    assert_eq!(back.error_duration2, 9);
    assert_eq!(back.warning_freq.as_str(), "1e3");
    assert_eq!(back.beep_freq.as_str(), "-inf");
    assert_eq!(back.beep_duration, 1);
    assert_eq!(back.beep_count, 10);
}

#[test]
fn volume_is_clamped_so_it_reads_back_as_100() {
    let c = Config::from_str("volume_percent = 150").unwrap();
    assert_eq!(c.volume_percent, 100);
    let mut big = Config::default();
    big.volume_percent = 150;
    assert_eq!(Config::from_str(&big.to_toml()).unwrap().volume_percent, 100);
}

#[test]
fn values_that_do_not_parse_keep_the_default() {
    let c = Config::from_str("volume_percent = loud\npulse_speed_ms = -5\n[beep]\nfreq = high\nbeep_count = 1.5\n").unwrap();
    assert_eq!(c.volume_percent, 80);
    assert_eq!(c.pulse_speed_ms, 300);
    assert_eq!(c.beep_freq.as_str(), "440");
    assert_eq!(c.beep_count, 1);
    let c = Config::from_str("pulse_speed_ms = +5\r\nspinner_speed_ms=  7  \r\n").unwrap();
    assert_eq!(c.pulse_speed_ms, 5);
    assert_eq!(c.spinner_speed_ms, 7);
}

#[test]
fn comments_unknown_sections_and_stray_lines_are_skipped() {
    let c = Config::from_str("# beep_count = 9\n[success]\n[nonsense]\nbeep_count = 9\nno equals sign\naudio_enabled = yes\n").unwrap();
    assert_eq!(c.success_beep_count, 2);
    assert_eq!(c.beep_count, 1);
    assert!(!c.audio_enabled);
    let empty = Config::from_str("").unwrap();
    assert_eq!(empty.to_toml(), DEFAULT_TOML);
}

#[test]
fn frequency_literals() {
    for ok in ["440", "1.", ".5", "1.5e2", "2E-3", "+7", "-inf", "Infinity", "NaN"] {
        assert!(Frequency::parse(ok).is_some(), "{}", ok);
    }
    for bad in ["", ".", "e5", "1e", " 1", "1 ", "1.2.3", "0x10", "infinite", "--1"] {
        assert!(Frequency::parse(bad).is_none(), "{}", bad);
    }
    assert_eq!(Frequency::from_hz(440).as_str(), "440");
}

#[test]
fn unsigned_numbers() {
    let chars = |s: &str| s.chars().collect::<Vec<char>>();
    assert_eq!(parse_unsigned_chars(&chars("+42"), u64::MAX), Some(42));
    assert_eq!(parse_unsigned_chars(&chars("-0"), u64::MAX), None);
    assert_eq!(parse_unsigned_chars(&chars("+"), u64::MAX), None);
    assert_eq!(parse_unsigned_chars(&chars("4294967295"), u32::MAX as u64), Some(4294967295));
    assert_eq!(parse_unsigned_chars(&chars("4294967296"), u32::MAX as u64), None);
    assert_eq!(parse_unsigned_chars(&chars("18446744073709551616"), u64::MAX), None);
}

#[test]
fn switches_follow_each_other_while_in_sync() {
    let mut s = Settings::new();
    sync_color_with_sound(&mut s, true);
    disable_colors(&mut s);
    assert!(!s.color_enabled());
    assert!(!s.sound_enabled());
    enable_sound(&mut s);
    assert!(s.color_enabled());
    sync_color_with_sound(&mut s, false);
    disable_colors(&mut s);
    assert!(s.sound_enabled());
    enable_all(&mut s);
    assert!(s.color_enabled() && s.sound_enabled());
    disable_all(&mut s);
    assert!(!s.color_enabled() && !s.sound_enabled());
}

#[test]
fn applying_preferences_with_sync_sets_colors_from_sound() {
    let mut s = Settings::new();
    let c = Config::from_str("audio_enabled = false\nsync_color_sound = true\npulse_speed_ms = 10\n[warning]\nbeep_count = 5").unwrap();
    apply_config(&mut s, &c);
    assert!(!s.sound_enabled());
    assert!(!s.color_enabled());
    assert!(s.sync_color_sound());
    assert_eq!(get_pulse_speed_ms(&s), 10);
    assert_eq!(get_beep_count(&s, Some(SoundType::Notification)), 5);
    assert_eq!(get_beep_count(&s, Some(SoundType::Warning)), 5);
    assert_eq!(get_beep_count(&s, None), 0);
}

#[test]
fn speeds_read_back_and_go_to_the_saved_copy() {
    let mut s = Settings::new();
    let saved = set_pulse_speed_ms(&mut s, 42);
    assert_eq!(get_pulse_speed_ms(&s), 42);
    assert_eq!(saved.pulse_speed_ms, 42);
    assert_eq!(s.config().pulse_speed_ms, 300);
}

#[test]
fn bold_text_is_wrapped_in_escape_codes() {
    assert_eq!(make_bold("x"), "\x1b[1mx\x1b[0m");
}

#[test]
fn message_without_beeps_only_prints() {
    let s = Settings::new();
    let out = synchronized_message(&s, "hello", 0, Vec::new());
    assert_eq!(out.len(), 1);
    assert_eq!(prints(&out), vec!["hello\n".to_string()]);
}

#[test]
fn message_with_beeps_pulses_and_plays() {
    let s = plain_settings();
    let out = messagio::success(&s, "saved");
    assert_eq!(prints(&out), vec!["\r\x1b[K\x1b[1m[\u{2713}] saved\x1b[0m".to_string(), "\n".to_string()]);
    assert!(matches!(out[1], Effect::Play(_)));
    let mut quiet = plain_settings();
    messagio::disable_sound(&mut quiet);
    messagio::disable_pulse(&mut quiet);
    let out = messagio::critical(&quiet, "down");
    assert_eq!(out.len(), 1);
    assert_eq!(prints(&out), vec!["[\u{2717}] CRITICAL: down\n".to_string()]);
}

#[test]
fn plain_tags() {
    assert_eq!(colors::check(false), "[ OK ]");
    assert_eq!(colors::cross(false), "[FAIL]");
    assert_eq!(colors::warn(false), "[WARN]");
    assert_eq!(colors::info(false), "[INFO]");
    assert_eq!(colors::valid_prefix(false), "  [\u{2713}] VALID");
    assert_eq!(colors::warn_prefix(false), "  [\u{26a0}] WARN");
    assert_eq!(colors::error_prefix(false), "  [\u{2717}] ERROR");
    let s = plain_settings();
    assert_eq!(messagio::info(&s, "note"), "[i] note");
    assert_eq!(messagio::colored_msg(&s, "plain", Color::Red), "plain");
    assert_eq!(messagio::color_utils::info(&s), "[i] ");
}

#[test]
fn colored_output_wraps_the_text() {
    colored::control::set_override(true);
    let painted = colors::colorize(true, "x", Color::Red);
    assert!(painted.starts_with("\x1b["));
    assert!(painted.ends_with("x\x1b[0m"));
    assert!(colors::check(true).contains("\x1b["));
    let s = Settings::new();
    let built = message("Hi").color(Color::Blue).with_symbol("*").build(&s);
    assert!(built.starts_with("* \x1b["));
}

#[test]
fn pulse_alternates_bold_and_normal() {
    let s = plain_settings();
    let out = pulse_custom(&s, "go", Color::Green, SoundType::Beep, 2);
    assert_eq!(out.len(), 8);
    assert_eq!(
        prints(&out),
        vec![
            "\r\x1b[K\x1b[1mgo\x1b[0m".to_string(),
            "\r\x1b[Kgo".to_string(),
            "\r\x1b[K\x1b[1mgo\x1b[0m".to_string(),
            "\n".to_string(),
        ]
    );
    assert!(matches!(out[2], Effect::Pause(300)));
    match &out[1] {
        Effect::Play(steps) => {
            assert_eq!(steps.len(), 1);
            assert!(matches!(&steps[0], SoundStep::Tone { duration_ms: 150, .. }));
        }
        _ => panic!("expected the beep"),
    }
    let none = pulse_custom(&s, "go", Color::Green, SoundType::Beep, 0);
    assert_eq!(prints(&none), vec!["\n".to_string()]);
}

#[test]
fn spinner_cycles_its_frames_until_finished() {
    let s = plain_settings();
    let mut h = spinner(&s, "work");
    let frames: Vec<String> = (0..5).map(|_| h.next_frame().unwrap()).collect();
    assert_eq!(frames[0], "\r\u{25d0} work");
    assert_eq!(frames[1], "\r\u{25d3} work");
    assert_eq!(frames[2], "\r\u{25d1} work");
    assert_eq!(frames[3], "\r\u{25d2} work");
    assert_eq!(frames[4], "\r\u{25d0} work");
    assert_eq!(h.speed_ms(), 100);
    let mut other = spinner(&s, "other");
    assert_eq!(h.finish_success(s.color_enabled(), "done"), "\r[\u{2713}] done\n");
    assert!(h.next_frame().is_none());
    assert!(other.next_frame().is_some());
    assert_eq!(other.finish_error(s.color_enabled(), "failed"), "\r[\u{2717}] failed\n");
}

#[test]
fn first_run_questions() {
    let mut setup = Setup::new();
    assert_eq!(setup.prompt(), Some("  Enable audio feedback? [y/n]: "));
    assert_eq!(setup.answer("maybe\n"), Some("  Please enter y or n."));
    assert_eq!(setup.answer(" NO \n"), None);
    assert_eq!(setup.step, SetupStep::Pulse);
    assert_eq!(setup.answer("y\n"), Some("\n  Now configure beep counts (1-10 beeps per sound type):"));
    assert_eq!(setup.answer("11\n"), Some("  Please enter a number between 1 and 10."));
    assert_eq!(setup.answer("3\n"), None);
    assert_eq!(setup.answer("4\n"), None);
    assert!(!setup.is_done());
    assert_eq!(setup.answer("10\n"), None);
    assert!(setup.is_done());
    assert_eq!(setup.prompt(), None);
    let c = setup.config();
    assert!(!c.audio_enabled);
    assert_eq!(c.volume_percent, 80);
    assert!(!c.sync_color_sound);
    assert_eq!(c.success_beep_count, 3);
    assert_eq!(c.error_beep_count, 4);
    assert_eq!(c.warning_beep_count, 10);
    assert_eq!(c.beep_count, 1);
}

#[test]
fn answers_are_read_after_trimming() {
    assert_eq!(bool_answer("  YES \n"), Some(true));
    assert_eq!(bool_answer("n"), Some(false));
    assert_eq!(yes_no_answer("Y"), None);
    assert_eq!(volume_answer(" 100\n"), Some(100));
    assert_eq!(volume_answer("101"), None);
    assert_eq!(beep_count_answer("0"), None);
    assert_eq!(beep_count_answer(" 10 "), Some(10));
}

#[test]
fn sample_counts() {
    assert_eq!(beep_sample_count(200), 8820);
    assert_eq!(beep_sample_count(1), 44);
    assert_eq!(beep_sample_count(0), 0);
}

#[test]
fn builder_text_and_send() {
    let s = plain_settings();
    let b = MessageBuilder::new("a").text("b").text("c");
    assert_eq!(b.build(&s), "a b c");
    let quiet = message("m").with_symbol("!").build(&s);
    assert_eq!(quiet, "! m");
    let forced = message("m").with_sound(SoundType::Error).blinking();
    let mut no_pulse = plain_settings();
    messagio::disable_pulse(&mut no_pulse);
    let out = forced.send(&no_pulse);
    assert_eq!(prints(&out)[0], "\r\x1b[K\x1b[1mm\x1b[0m");
    let out = message("m").send(&no_pulse);
    assert_eq!(prints(&out), vec!["m\n".to_string()]);
    assert_eq!(MessageBuilder::default().build(&s), "");
}

#[test]
fn basic_messages_print_then_play() {
    let mut sw = basic::Switches::new();
    basic::disable_colors(&mut sw);
    let out = basic::success(&sw, "ok");
    assert_eq!(prints(&out), vec!["[\u{2713}] ok\n".to_string()]);
    assert!(matches!(out[1], Effect::Play(_)));
    basic::disable_sound(&mut sw);
    assert_eq!(basic::warning(&sw, "w").len(), 1);
    let built = basic::message("x").color(Color::Red).blinking().build(&sw);
    assert_eq!(built, "x");
    let tones = basic::play_error_sound();
    assert!(matches!(&tones[0], SoundStep::Tone { duration_ms: 300, .. }));
}

#[test]
fn messages_with_sound_always_play_it() {
    let mut s = plain_settings();
    messagio::disable_sound(&mut s);
    let out = messagio::sound::success_message(&s, "stored");
    assert_eq!(prints(&out), vec!["[\u{2713}] stored\n".to_string()]);
    assert!(matches!(out[1], Effect::Play(_)));
    let out = messagio::sound::error_message(&s, "lost");
    assert_eq!(prints(&out), vec!["[\u{2717}] lost\n".to_string()]);
    match &out[1] {
        Effect::Play(steps) => assert!(matches!(&steps[0], SoundStep::Tone { duration_ms: 300, .. })),
        _ => panic!("expected the error sound"),
    }
    let mut sw = basic::Switches::new();
    basic::disable_colors(&mut sw);
    basic::disable_sound(&mut sw);
    let out = basic::success_message(&sw, "fine");
    assert_eq!(prints(&out), vec!["[\u{2713}] fine\n".to_string()]);
    assert_eq!(out.len(), 2);
    let out = basic::error_message(&sw, "bad");
    assert_eq!(prints(&out), vec!["[\u{2717}] bad\n".to_string()]);
}

#[test]
fn basic_spinners_share_one_running_flag() {
    let mut sw = basic::Switches::new();
    basic::disable_colors(&mut sw);
    let mut h = basic::spinner(&mut sw, "load");
    let mut other = basic::spinner(&mut sw, "other");
    assert_eq!(h.speed_ms(), 100);
    assert_eq!(h.next_frame(&sw).unwrap(), "\r\u{25d0} load");
    assert_eq!(other.next_frame(&sw).unwrap(), "\r\u{25d0} other");
    assert_eq!(h.finish_success(&mut sw, "done"), "\r[\u{2713}] done\n");
    assert!(h.next_frame(&sw).is_none());
    assert!(other.next_frame(&sw).is_none());
    let mut p = basic::progress(&mut sw, "again");
    assert!(p.next_frame(&sw).is_some());
    assert_eq!(basic::progress_fail(&mut sw, "no"), "\r[\u{2717}] no\n");
    assert!(p.next_frame(&sw).is_none());
}

#[test]
fn speeds_set_are_saved_and_read_back() {
    let mut s = Settings::new();
    let saved = messagio::set_spinner_speed_ms(&mut s, 75);
    assert_eq!(messagio::get_spinner_speed_ms(&s), 75);
    let back = Config::from_str(&saved.to_toml()).unwrap();
    assert_eq!(back.spinner_speed_ms, 75);
    let saved = messagio::set_beep_interval_ms(&mut s, 12);
    assert_eq!(messagio::get_beep_interval_ms(&s), 12);
    let back = Config::from_str(&saved.to_toml()).unwrap();
    assert_eq!(back.beep_interval_ms, 12);
    assert_eq!(back.spinner_speed_ms, 100);
    assert_eq!(s.config().spinner_speed_ms, 100);
}

#[test]
fn legacy_critical_always_sounds_and_blinking_is_bold() {
    let mut sw = basic::Switches::new();
    basic::disable_colors(&mut sw);
    basic::disable_sound(&mut sw);
    let out = basic::critical(&sw, "down");
    assert_eq!(prints(&out), vec!["[\u{2717}] CRITICAL: down\n".to_string()]);
    assert!(matches!(out[1], Effect::Play(_)));
    colored::control::set_override(true);
    let on = basic::Switches::new();
    assert_eq!(basic::message("m").blinking().build(&on), "\x1b[1mm\x1b[0m");
    assert_eq!(basic::message("m").color(Color::Red).blinking().build(&on), "\x1b[1;31mm\x1b[0m");
    assert_eq!(basic::message("m").build(&on), "m");
}

#[test]
fn colors_come_out_as_asked() {
    colored::control::set_override(true);
    assert_eq!(colors::colorize(true, "x", Color::Red), "\x1b[1;31mx\x1b[0m");
    assert_eq!(colors::check(true), "[\x1b[1;32m OK \x1b[0m]");
    let s = Settings::new();
    assert_eq!(messagio::colorize_text(&s, "t", Color::BrightBlue), "\x1b[94mt\x1b[0m");
    assert_eq!(messagio::info(&s, "n"), "[\x1b[1;36mINFO\x1b[0m] \x1b[34mn\x1b[0m");
    let crit = messagio::messages::critical_text(true, "z");
    assert!(crit.ends_with("\x1b[1;40;31mz\x1b[0m"));
    let nested = messagio::paint::paint("a\x1b[0mb", Color::Green);
    assert_eq!(nested, "\x1b[32ma\x1b[0m\x1b[32mb\x1b[0m");
}

#[test]
fn the_nearest_project_root_is_chosen() {
    assert_eq!(nearest_project_root(&[false, true, true]), Some(1));
    assert_eq!(nearest_project_root(&[true]), Some(0));
    assert_eq!(nearest_project_root(&[false, false]), None);
    assert_eq!(nearest_project_root(&[]), None);
}
