//! The preferences file: the `Config` type, its TOML-like text form, and the
//! parser that reads it back.
use vstd::prelude::*;
use crate::text::{
    all_digits, chars_eq_str, push_char, push_str, is_whitespace, lacks, lemma_find_after,
    lemma_float_literal_shape, lemma_lines_from_line, lemma_parse_decimal, trim_start, trim_end,
    strip_brackets_start, strip_brackets_end, chars_of, decimal, find, find_char, is_digit, is_float_literal,
    is_float_literal_chars, lemma_decimal_parses, lemma_find, lines, lines_from, lower,
    parse_unsigned, parse_unsigned_chars, push_decimal, split_once, string_of, strip_brackets,
    strip_brackets_chars, sub_chars, trim, trim_chars, unsigned_part,
};

verus! {

// ── Frequencies ──────────────────────────────────────────────────────────────

/// A tone frequency in hertz, held as the decimal literal it was read from
/// (`440`, `880.5`, `1e3`, ...), which `str::parse::<f32>` accepts.
pub struct Frequency {
    text: String,
}

impl View for Frequency {
    type V = Seq<char>;

    closed spec fn view(&self) -> Seq<char> {
        self.text@
    }
}

impl Frequency {
    #[verifier::type_invariant]
    closed spec fn well_formed(self) -> bool {
        is_float_literal(self.text@)
    }

    /// The frequency written as `text`, when `str::parse::<f32>` accepts it.
    pub fn parse(text: &str) -> (r: Option<Frequency>)
        ensures
            r is Some <==> is_float_literal(text@),
            r matches Some(f) ==> f@ == text@,
    {
        let cs = chars_of(text);
        Self::parse_chars(cs.as_slice())
    }

    /// The frequency written as the characters `cs`, when they are a float literal.
    pub fn parse_chars(cs: &[char]) -> (r: Option<Frequency>)
        ensures
            r is Some <==> is_float_literal(cs@),
            r matches Some(f) ==> f@ == cs@,
    {
        if is_float_literal_chars(cs) {
            Some(Frequency { text: string_of(cs) })
        } else {
            None
        }
    }

    /// A whole number of hertz.
    pub fn from_hz(hz: u64) -> (f: Frequency)
        ensures
            f@ == decimal(hz as nat),
    {
        let mut text = String::new();
        push_decimal(&mut text, hz);
        proof {
            lemma_decimal_is_float_literal(hz as nat);
        }
        Frequency { text }
    }

    /// The literal, as written; it is always a float literal.
    pub fn as_str(&self) -> (r: &str)
        ensures
            r@ == self@,
            is_float_literal(r@),
    {
        proof {
            use_type_invariant(self);
        }
        self.text.as_str()
    }
}

impl Clone for Frequency {
    fn clone(&self) -> (r: Self)
        ensures
            r@ == self@,
    {
        proof {
            use_type_invariant(self);
        }
        Frequency { text: self.text.clone() }
    }
}

/// A decimal number is a float literal.
pub proof fn lemma_decimal_is_float_literal(n: nat)
    ensures
        is_float_literal(decimal(n)),
{
    let d = decimal(n);
    lemma_decimal_parses(n);
    lemma_lower_of_digits(d);
    assert(unsigned_part(d) == d);
    lemma_find_absent(d, 'e');
    lemma_find_absent(d, '.');
}

/// Lowercasing leaves digits as they are.
pub proof fn lemma_lower_of_digits(d: Seq<char>)
    requires
        all_digits(d),
    ensures
        lower(d) == d,
{
    assert(lower(d) =~= d);
}

/// `find` finds nothing in a sequence of digits, for a character that is not a digit.
pub proof fn lemma_find_absent(d: Seq<char>, c: char)
    requires
        all_digits(d),
        !is_digit(c),
    ensures
        find(d, c) is None,
{
    lemma_find(d, c);
    if let Some(i) = find(d, c) {
        assert(is_digit(d[i]));
    }
}

// ── The configuration ────────────────────────────────────────────────────────

/// The preferences: switches, speeds, and the tones of each sound.
pub struct Config {
    pub audio_enabled: bool,
    pub volume_percent: u32,
    pub sync_color_sound: bool,
    pub pulse_with_beeps: bool,
    pub pulse_speed_ms: u64,
    pub beep_interval_ms: u64,
    pub spinner_speed_ms: u64,
    pub success_freq1: Frequency,
    pub success_freq2: Frequency,
    pub success_duration1: u64,
    pub success_duration2: u64,
    pub success_beep_count: usize,
    pub error_freq1: Frequency,
    pub error_freq2: Frequency,
    pub error_duration1: u64,
    pub error_duration2: u64,
    pub error_beep_count: usize,
    pub warning_freq: Frequency,
    pub warning_duration: u64,
    pub warning_beep_count: usize,
    pub beep_freq: Frequency,
    pub beep_duration: u64,
    pub beep_count: usize,
}

/// The value of a `Config`, with each frequency as its literal.
pub struct ConfigView {
    pub audio_enabled: bool,
    pub volume_percent: u32,
    pub sync_color_sound: bool,
    pub pulse_with_beeps: bool,
    pub pulse_speed_ms: u64,
    pub beep_interval_ms: u64,
    pub spinner_speed_ms: u64,
    pub success_freq1: Seq<char>,
    pub success_freq2: Seq<char>,
    pub success_duration1: u64,
    pub success_duration2: u64,
    pub success_beep_count: usize,
    pub error_freq1: Seq<char>,
    pub error_freq2: Seq<char>,
    pub error_duration1: u64,
    pub error_duration2: u64,
    pub error_beep_count: usize,
    pub warning_freq: Seq<char>,
    pub warning_duration: u64,
    pub warning_beep_count: usize,
    pub beep_freq: Seq<char>,
    pub beep_duration: u64,
    pub beep_count: usize,
}

impl View for Config {
    type V = ConfigView;

    open spec fn view(&self) -> ConfigView {
        ConfigView {
            audio_enabled: self.audio_enabled,
            volume_percent: self.volume_percent,
            sync_color_sound: self.sync_color_sound,
            pulse_with_beeps: self.pulse_with_beeps,
            pulse_speed_ms: self.pulse_speed_ms,
            beep_interval_ms: self.beep_interval_ms,
            spinner_speed_ms: self.spinner_speed_ms,
            success_freq1: self.success_freq1@,
            success_freq2: self.success_freq2@,
            success_duration1: self.success_duration1,
            success_duration2: self.success_duration2,
            success_beep_count: self.success_beep_count,
            error_freq1: self.error_freq1@,
            error_freq2: self.error_freq2@,
            error_duration1: self.error_duration1,
            error_duration2: self.error_duration2,
            error_beep_count: self.error_beep_count,
            warning_freq: self.warning_freq@,
            warning_duration: self.warning_duration,
            warning_beep_count: self.warning_beep_count,
            beep_freq: self.beep_freq@,
            beep_duration: self.beep_duration,
            beep_count: self.beep_count,
        }
    }
}

/// The default preferences.
pub open spec fn default_config() -> ConfigView {
    ConfigView {
        audio_enabled: true,
        volume_percent: 80,
        sync_color_sound: false,
        pulse_with_beeps: true,
        pulse_speed_ms: 300,
        beep_interval_ms: 50,
        spinner_speed_ms: 100,
        success_freq1: decimal(440),
        success_freq2: decimal(880),
        success_duration1: 200,
        success_duration2: 200,
        success_beep_count: 2,
        error_freq1: decimal(220),
        error_freq2: decimal(110),
        error_duration1: 300,
        error_duration2: 300,
        error_beep_count: 2,
        warning_freq: decimal(660),
        warning_duration: 150,
        warning_beep_count: 2,
        beep_freq: decimal(440),
        beep_duration: 150,
        beep_count: 1,
    }
}

impl Default for Config {
    fn default() -> (c: Self)
        ensures
            c@ == default_config(),
    {
        Config {
            audio_enabled: true,
            volume_percent: 80,
            sync_color_sound: false,
            pulse_with_beeps: true,
            pulse_speed_ms: 300,
            beep_interval_ms: 50,
            spinner_speed_ms: 100,
            success_freq1: Frequency::from_hz(440),
            success_freq2: Frequency::from_hz(880),
            success_duration1: 200,
            success_duration2: 200,
            success_beep_count: 2,
            error_freq1: Frequency::from_hz(220),
            error_freq2: Frequency::from_hz(110),
            error_duration1: 300,
            error_duration2: 300,
            error_beep_count: 2,
            warning_freq: Frequency::from_hz(660),
            warning_duration: 150,
            warning_beep_count: 2,
            beep_freq: Frequency::from_hz(440),
            beep_duration: 150,
            beep_count: 1,
        }
    }
}

impl Clone for Config {
    fn clone(&self) -> (c: Self)
        ensures
            c@ == self@,
    {
        Config {
            audio_enabled: self.audio_enabled,
            volume_percent: self.volume_percent,
            sync_color_sound: self.sync_color_sound,
            pulse_with_beeps: self.pulse_with_beeps,
            pulse_speed_ms: self.pulse_speed_ms,
            beep_interval_ms: self.beep_interval_ms,
            spinner_speed_ms: self.spinner_speed_ms,
            success_freq1: self.success_freq1.clone(),
            success_freq2: self.success_freq2.clone(),
            success_duration1: self.success_duration1,
            success_duration2: self.success_duration2,
            success_beep_count: self.success_beep_count,
            error_freq1: self.error_freq1.clone(),
            error_freq2: self.error_freq2.clone(),
            error_duration1: self.error_duration1,
            error_duration2: self.error_duration2,
            error_beep_count: self.error_beep_count,
            warning_freq: self.warning_freq.clone(),
            warning_duration: self.warning_duration,
            warning_beep_count: self.warning_beep_count,
            beep_freq: self.beep_freq.clone(),
            beep_duration: self.beep_duration,
            beep_count: self.beep_count,
        }
    }
}

// ── Reading the text form ────────────────────────────────────────────────────

/// The `[section]` that the lines being read belong to.
#[derive(Clone, Copy, PartialEq, Eq, Structural, Debug)]
pub enum Section {
    Top,
    Success,
    Error,
    Warning,
    Beep,
}

/// The section that a header names; an unknown name leads back to the top level.
pub open spec fn section_named(name: Seq<char>) -> Section {
    if name == "success"@ {
        Section::Success
    } else if name == "error"@ {
        Section::Error
    } else if name == "warning"@ {
        Section::Warning
    } else if name == "beep"@ {
        Section::Beep
    } else {
        Section::Top
    }
}

/// `cfg` after the top-level setting `key = value`.  A value that does not
/// parse, and an unknown key, leave it as it was.
pub open spec fn apply_top(cfg: ConfigView, key: Seq<char>, value: Seq<char>) -> ConfigView {
    if key == "audio_enabled"@ {
        ConfigView { audio_enabled: value == "true"@, ..cfg }
    } else if key == "sync_color_sound"@ {
        ConfigView { sync_color_sound: value == "true"@, ..cfg }
    } else if key == "pulse_with_beeps"@ {
        ConfigView { pulse_with_beeps: value == "true"@, ..cfg }
    } else if key == "pulse_speed_ms"@ {
        match parse_unsigned(value, u64::MAX as nat) {
            Some(v) => ConfigView { pulse_speed_ms: v as u64, ..cfg },
            None => cfg,
        }
    } else if key == "beep_interval_ms"@ {
        match parse_unsigned(value, u64::MAX as nat) {
            Some(v) => ConfigView { beep_interval_ms: v as u64, ..cfg },
            None => cfg,
        }
    } else if key == "spinner_speed_ms"@ {
        match parse_unsigned(value, u64::MAX as nat) {
            Some(v) => ConfigView { spinner_speed_ms: v as u64, ..cfg },
            None => cfg,
        }
    } else if key == "volume_percent"@ {
        match parse_unsigned(value, u32::MAX as nat) {
            Some(v) => ConfigView { volume_percent: if v <= 100 { v as u32 } else { 100 }, ..cfg },
            None => cfg,
        }
    } else {
        cfg
    }
}

/// The duration or count that `value` gives, if it parses.
pub open spec fn parsed_u64(value: Seq<char>, old: u64) -> u64 {
    match parse_unsigned(value, u64::MAX as nat) {
        Some(v) => v as u64,
        None => old,
    }
}

pub open spec fn parsed_usize(value: Seq<char>, old: usize) -> usize {
    match parse_unsigned(value, usize::MAX as nat) {
        Some(v) => v as usize,
        None => old,
    }
}

/// The frequency that `value` gives, if it is a float literal.
pub open spec fn parsed_freq(value: Seq<char>, old: Seq<char>) -> Seq<char> {
    if is_float_literal(value) {
        value
    } else {
        old
    }
}

/// `cfg` after the setting `key = value` inside `[success]`.
pub open spec fn apply_success(cfg: ConfigView, key: Seq<char>, value: Seq<char>) -> ConfigView {
    if key == "freq1"@ {
        ConfigView { success_freq1: parsed_freq(value, cfg.success_freq1), ..cfg }
    } else if key == "freq2"@ {
        ConfigView { success_freq2: parsed_freq(value, cfg.success_freq2), ..cfg }
    } else if key == "duration1"@ {
        ConfigView { success_duration1: parsed_u64(value, cfg.success_duration1), ..cfg }
    } else if key == "duration2"@ {
        ConfigView { success_duration2: parsed_u64(value, cfg.success_duration2), ..cfg }
    } else if key == "beep_count"@ {
        ConfigView { success_beep_count: parsed_usize(value, cfg.success_beep_count), ..cfg }
    } else {
        cfg
    }
}

/// `cfg` after the setting `key = value` inside `[error]`.
pub open spec fn apply_error(cfg: ConfigView, key: Seq<char>, value: Seq<char>) -> ConfigView {
    if key == "freq1"@ {
        ConfigView { error_freq1: parsed_freq(value, cfg.error_freq1), ..cfg }
    } else if key == "freq2"@ {
        ConfigView { error_freq2: parsed_freq(value, cfg.error_freq2), ..cfg }
    } else if key == "duration1"@ {
        ConfigView { error_duration1: parsed_u64(value, cfg.error_duration1), ..cfg }
    } else if key == "duration2"@ {
        ConfigView { error_duration2: parsed_u64(value, cfg.error_duration2), ..cfg }
    } else if key == "beep_count"@ {
        ConfigView { error_beep_count: parsed_usize(value, cfg.error_beep_count), ..cfg }
    } else {
        cfg
    }
}

/// `cfg` after the setting `key = value` inside `[warning]`.
pub open spec fn apply_warning(cfg: ConfigView, key: Seq<char>, value: Seq<char>) -> ConfigView {
    if key == "freq"@ {
        ConfigView { warning_freq: parsed_freq(value, cfg.warning_freq), ..cfg }
    } else if key == "duration"@ {
        ConfigView { warning_duration: parsed_u64(value, cfg.warning_duration), ..cfg }
    } else if key == "beep_count"@ {
        ConfigView { warning_beep_count: parsed_usize(value, cfg.warning_beep_count), ..cfg }
    } else {
        cfg
    }
}

/// `cfg` after the setting `key = value` inside `[beep]`.
pub open spec fn apply_beep(cfg: ConfigView, key: Seq<char>, value: Seq<char>) -> ConfigView {
    if key == "freq"@ {
        ConfigView { beep_freq: parsed_freq(value, cfg.beep_freq), ..cfg }
    } else if key == "duration"@ {
        ConfigView { beep_duration: parsed_u64(value, cfg.beep_duration), ..cfg }
    } else if key == "beep_count"@ {
        ConfigView { beep_count: parsed_usize(value, cfg.beep_count), ..cfg }
    } else {
        cfg
    }
}

/// `cfg` after the setting `key = value` in section `sec`.
pub open spec fn apply_setting(sec: Section, cfg: ConfigView, key: Seq<char>, value: Seq<char>) -> ConfigView {
    match sec {
        Section::Top => apply_top(cfg, key, value),
        Section::Success => apply_success(cfg, key, value),
        Section::Error => apply_error(cfg, key, value),
        Section::Warning => apply_warning(cfg, key, value),
        Section::Beep => apply_beep(cfg, key, value),
    }
}

/// The section and preferences after reading one line.  Blank lines and
/// `#` comments change nothing; `[name]` opens a section; `key = value` sets
/// a preference of the current section; any other line is skipped.
pub open spec fn apply_line(sec: Section, cfg: ConfigView, raw: Seq<char>) -> (Section, ConfigView) {
    let line = trim(raw);
    if line.len() == 0 || line[0] == '#' {
        (sec, cfg)
    } else if line[0] == '[' {
        (section_named(strip_brackets(line)), cfg)
    } else {
        match split_once(line, '=') {
            None => (sec, cfg),
            Some((k, v)) => (sec, apply_setting(sec, cfg, trim(k), trim(v))),
        }
    }
}

/// The section and preferences after reading the lines `ls` in turn, from
/// section `sec` and preferences `cfg`.
pub open spec fn read_lines(ls: Seq<Seq<char>>, sec: Section, cfg: ConfigView) -> (Section, ConfigView)
    decreases ls.len(),
{
    if ls.len() == 0 {
        (sec, cfg)
    } else {
        let (s2, c2) = apply_line(sec, cfg, ls[0]);
        read_lines(ls.drop_first(), s2, c2)
    }
}

/// The preferences that the text `s` gives: the defaults, changed by each of
/// its lines in turn.
pub open spec fn parse_config(s: Seq<char>) -> ConfigView {
    read_lines(lines(s), Section::Top, default_config()).1
}

fn section_named_chars(name: &[char]) -> (r: Section)
    ensures
        r == section_named(name@),
{
    if chars_eq_str(name, "success") {
        Section::Success
    } else if chars_eq_str(name, "error") {
        Section::Error
    } else if chars_eq_str(name, "warning") {
        Section::Warning
    } else if chars_eq_str(name, "beep") {
        Section::Beep
    } else {
        Section::Top
    }
}

fn read_u64(value: &[char], old: u64) -> (r: u64)
    ensures
        r == parsed_u64(value@, old),
{
    match parse_unsigned_chars(value, u64::MAX) {
        Some(v) => v,
        None => old,
    }
}

fn read_usize(value: &[char], old: usize) -> (r: usize)
    ensures
        r == parsed_usize(value@, old),
{
    match parse_unsigned_chars(value, usize::MAX as u64) {
        Some(v) => v as usize,
        None => old,
    }
}

fn read_freq(value: &[char], freq: &mut Frequency)
    ensures
        final(freq)@ == parsed_freq(value@, old(freq)@),
{
    if let Some(f) = Frequency::parse_chars(value) {
        *freq = f;
    }
}

fn apply_top_exec(cfg: &mut Config, key: &[char], value: &[char])
    ensures
        final(cfg)@ == apply_top(old(cfg)@, key@, value@),
{
    if chars_eq_str(key, "audio_enabled") {
        cfg.audio_enabled = chars_eq_str(value, "true");
    } else if chars_eq_str(key, "sync_color_sound") {
        cfg.sync_color_sound = chars_eq_str(value, "true");
    } else if chars_eq_str(key, "pulse_with_beeps") {
        cfg.pulse_with_beeps = chars_eq_str(value, "true");
    } else if chars_eq_str(key, "pulse_speed_ms") {
        cfg.pulse_speed_ms = read_u64(value, cfg.pulse_speed_ms);
    } else if chars_eq_str(key, "beep_interval_ms") {
        cfg.beep_interval_ms = read_u64(value, cfg.beep_interval_ms);
    } else if chars_eq_str(key, "spinner_speed_ms") {
        cfg.spinner_speed_ms = read_u64(value, cfg.spinner_speed_ms);
    } else if chars_eq_str(key, "volume_percent") {
        if let Some(v) = parse_unsigned_chars(value, u32::MAX as u64) {
            cfg.volume_percent = if v <= 100 {
                v as u32
            } else {
                100
            };
        }
    }
}

fn apply_success_exec(cfg: &mut Config, key: &[char], value: &[char])
    ensures
        final(cfg)@ == apply_success(old(cfg)@, key@, value@),
{
    if chars_eq_str(key, "freq1") {
        read_freq(value, &mut cfg.success_freq1);
    } else if chars_eq_str(key, "freq2") {
        read_freq(value, &mut cfg.success_freq2);
    } else if chars_eq_str(key, "duration1") {
        cfg.success_duration1 = read_u64(value, cfg.success_duration1);
    } else if chars_eq_str(key, "duration2") {
        cfg.success_duration2 = read_u64(value, cfg.success_duration2);
    } else if chars_eq_str(key, "beep_count") {
        cfg.success_beep_count = read_usize(value, cfg.success_beep_count);
    }
}

fn apply_error_exec(cfg: &mut Config, key: &[char], value: &[char])
    ensures
        final(cfg)@ == apply_error(old(cfg)@, key@, value@),
{
    if chars_eq_str(key, "freq1") {
        read_freq(value, &mut cfg.error_freq1);
    } else if chars_eq_str(key, "freq2") {
        read_freq(value, &mut cfg.error_freq2);
    } else if chars_eq_str(key, "duration1") {
        cfg.error_duration1 = read_u64(value, cfg.error_duration1);
    } else if chars_eq_str(key, "duration2") {
        cfg.error_duration2 = read_u64(value, cfg.error_duration2);
    } else if chars_eq_str(key, "beep_count") {
        cfg.error_beep_count = read_usize(value, cfg.error_beep_count);
    }
}

fn apply_warning_exec(cfg: &mut Config, key: &[char], value: &[char])
    ensures
        final(cfg)@ == apply_warning(old(cfg)@, key@, value@),
{
    if chars_eq_str(key, "freq") {
        read_freq(value, &mut cfg.warning_freq);
    } else if chars_eq_str(key, "duration") {
        cfg.warning_duration = read_u64(value, cfg.warning_duration);
    } else if chars_eq_str(key, "beep_count") {
        cfg.warning_beep_count = read_usize(value, cfg.warning_beep_count);
    }
}

fn apply_beep_exec(cfg: &mut Config, key: &[char], value: &[char])
    ensures
        final(cfg)@ == apply_beep(old(cfg)@, key@, value@),
{
    if chars_eq_str(key, "freq") {
        read_freq(value, &mut cfg.beep_freq);
    } else if chars_eq_str(key, "duration") {
        cfg.beep_duration = read_u64(value, cfg.beep_duration);
    } else if chars_eq_str(key, "beep_count") {
        cfg.beep_count = read_usize(value, cfg.beep_count);
    }
}

/// Reads one line: returns the section that follows it and updates `cfg`.
fn apply_line_exec(sec: Section, cfg: &mut Config, raw: &[char]) -> (r: Section)
    ensures
        (r, final(cfg)@) == apply_line(sec, old(cfg)@, raw@),
{
    let line = trim_chars(raw);
    if line.len() == 0 || line[0] == '#' {
        return sec;
    }
    if line[0] == '[' {
        let name = strip_brackets_chars(line.as_slice());
        return section_named_chars(name.as_slice());
    }
    match find_char(line.as_slice(), '=') {
        None => sec,
        Some(i) => {
            let k = sub_chars(line.as_slice(), 0, i);
            let v = sub_chars(line.as_slice(), i + 1, line.len());
            assert(k@ =~= line@.take(i as int));
            assert(v@ =~= line@.skip(i + 1));
            let key = trim_chars(k.as_slice());
            let value = trim_chars(v.as_slice());
            match sec {
                Section::Top => apply_top_exec(cfg, key.as_slice(), value.as_slice()),
                Section::Success => apply_success_exec(cfg, key.as_slice(), value.as_slice()),
                Section::Error => apply_error_exec(cfg, key.as_slice(), value.as_slice()),
                Section::Warning => apply_warning_exec(cfg, key.as_slice(), value.as_slice()),
                Section::Beep => apply_beep_exec(cfg, key.as_slice(), value.as_slice()),
            }
            sec
        },
    }
}

// ── Writing the text form ────────────────────────────────────────────────────

/// The line `key = value`.
pub open spec fn setting(key: Seq<char>, value: Seq<char>) -> Seq<char> {
    key + seq![' ', '=', ' '] + value
}

/// How a switch is written.
pub open spec fn bool_text(b: bool) -> Seq<char> {
    if b {
        "true"@
    } else {
        "false"@
    }
}

/// The line that opens section `name`.
pub open spec fn header(name: Seq<char>) -> Seq<char> {
    seq!['['] + name + seq![']']
}

/// The lines of the text form of `c`, in order.
pub open spec fn config_lines(c: ConfigView) -> Seq<Seq<char>> {
    seq![
        setting("audio_enabled"@, bool_text(c.audio_enabled)),
        setting("volume_percent"@, decimal(c.volume_percent as nat)),
        setting("sync_color_sound"@, bool_text(c.sync_color_sound)),
        setting("pulse_with_beeps"@, bool_text(c.pulse_with_beeps)),
        setting("pulse_speed_ms"@, decimal(c.pulse_speed_ms as nat)),
        setting("beep_interval_ms"@, decimal(c.beep_interval_ms as nat)),
        setting("spinner_speed_ms"@, decimal(c.spinner_speed_ms as nat)),
        seq![],
        header("success"@),
        setting("freq1"@, c.success_freq1),
        setting("freq2"@, c.success_freq2),
        setting("duration1"@, decimal(c.success_duration1 as nat)),
        setting("duration2"@, decimal(c.success_duration2 as nat)),
        setting("beep_count"@, decimal(c.success_beep_count as nat)),
        seq![],
        header("error"@),
        setting("freq1"@, c.error_freq1),
        setting("freq2"@, c.error_freq2),
        setting("duration1"@, decimal(c.error_duration1 as nat)),
        setting("duration2"@, decimal(c.error_duration2 as nat)),
        setting("beep_count"@, decimal(c.error_beep_count as nat)),
        seq![],
        header("warning"@),
        setting("freq"@, c.warning_freq),
        setting("duration"@, decimal(c.warning_duration as nat)),
        setting("beep_count"@, decimal(c.warning_beep_count as nat)),
        seq![],
        header("beep"@),
        setting("freq"@, c.beep_freq),
        setting("duration"@, decimal(c.beep_duration as nat)),
        setting("beep_count"@, decimal(c.beep_count as nat)),
    ]
}

/// The lines `ls`, each followed by `\n`.
pub open spec fn join_lines(ls: Seq<Seq<char>>) -> Seq<char> {
    ls.fold_left(Seq::<char>::empty(), |acc: Seq<char>, l: Seq<char>| acc + l + seq!['\n'])
}

/// The text form of `c`.
pub open spec fn config_text(c: ConfigView) -> Seq<char> {
    join_lines(config_lines(c))
}

proof fn lemma_join_push(ls: Seq<Seq<char>>, l: Seq<char>)
    ensures
        join_lines(ls.push(l)) == join_lines(ls) + l + seq!['\n'],
{
    assert(ls.push(l).drop_last() =~= ls);
}

fn bool_str(b: bool) -> (r: &'static str)
    ensures
        r@ == bool_text(b),
{
    if b {
        "true"
    } else {
        "false"
    }
}

fn decimal_string(n: u64) -> (r: String)
    ensures
        r@ == decimal(n as nat),
{
    let mut r = String::new();
    push_decimal(&mut r, n);
    r
}

/// Appends the line `line` and a line break.
fn emit(out: &mut String, line: &str, done: Ghost<Seq<Seq<char>>>) -> (r: Ghost<Seq<Seq<char>>>)
    requires
        old(out)@ == join_lines(done@),
    ensures
        r@ == done@.push(line@),
        final(out)@ == join_lines(r@),
{
    proof {
        lemma_join_push(done@, line@);
    }
    push_str(out, line);
    push_char(out, '\n');
    Ghost(done@.push(line@))
}

/// Appends the line `key = value` and a line break.
fn emit_setting(out: &mut String, key: &str, value: &str, done: Ghost<Seq<Seq<char>>>) -> (r: Ghost<
    Seq<Seq<char>>,
>)
    requires
        old(out)@ == join_lines(done@),
    ensures
        r@ == done@.push(setting(key@, value@)),
        final(out)@ == join_lines(r@),
{
    proof {
        lemma_join_push(done@, setting(key@, value@));
    }
    push_str(out, key);
    push_char(out, ' ');
    push_char(out, '=');
    push_char(out, ' ');
    push_str(out, value);
    push_char(out, '\n');
    assert(final(out)@ =~= join_lines(done@) + setting(key@, value@) + seq!['\n']);
    Ghost(done@.push(setting(key@, value@)))
}

// ── Reading back what was written ────────────────────────────────────────────

/// Whether every frequency of `c` is written as a float literal, as it is
/// for every `Config`.
pub open spec fn freqs_literal(c: ConfigView) -> bool {
    &&& is_float_literal(c.success_freq1)
    &&& is_float_literal(c.success_freq2)
    &&& is_float_literal(c.error_freq1)
    &&& is_float_literal(c.error_freq2)
    &&& is_float_literal(c.warning_freq)
    &&& is_float_literal(c.beep_freq)
}

/// The preferences that the text form carries exactly: a volume of at most
/// 100 and frequencies written as float literals.
pub open spec fn valid_config(c: ConfigView) -> bool {
    &&& c.volume_percent <= 100
    &&& freqs_literal(c)
}

/// `c` with its volume limited to 100, as reading it back gives it.
pub open spec fn clamp_volume(c: ConfigView) -> ConfigView {
    ConfigView { volume_percent: if c.volume_percent <= 100 { c.volume_percent } else { 100 }, ..c }
}

/// A key that a setting line can carry: no whitespace at either end, no `=`,
/// and not starting a comment or a header.
pub open spec fn key_ok(k: Seq<char>) -> bool {
    &&& k.len() > 0
    &&& !is_whitespace(k[0])
    &&& k[0] != '#'
    &&& k[0] != '['
    &&& !is_whitespace(k.last())
    &&& lacks(k, '=')
    &&& lacks(k, '\n')
}

/// A value that a setting line carries unchanged: no whitespace at either end.
pub open spec fn value_ok(v: Seq<char>) -> bool {
    &&& v.len() > 0
    &&& !is_whitespace(v[0])
    &&& !is_whitespace(v.last())
    &&& lacks(v, '\n')
}

proof fn lemma_trim_key(k: Seq<char>)
    requires
        key_ok(k),
    ensures
        trim(k.push(' ')) == k,
{
    assert(k.push(' ').drop_last() =~= k);
    assert(k.push(' ')[0] == k[0]);
    assert(trim_start(k.push(' ')) == k.push(' '));
    assert(is_whitespace(k.push(' ').last()));
    assert(trim_end(k) == k);
    assert(trim_end(k.push(' ')) == trim_end(k));
}

proof fn lemma_trim_value(v: Seq<char>)
    requires
        value_ok(v),
    ensures
        trim(seq![' '] + v) == v,
{
    assert((seq![' '] + v).drop_first() =~= v);
    assert(trim_start(seq![' '] + v) == trim_start(v));
}

/// A setting line is read as its key and value.
proof fn lemma_setting_line(sec: Section, cfg: ConfigView, key: Seq<char>, val: Seq<char>)
    requires
        key_ok(key),
        value_ok(val),
    ensures
        apply_line(sec, cfg, setting(key, val)) == (sec, apply_setting(sec, cfg, key, val)),
{
    let line = setting(key, val);
    assert(line[0] == key[0]);
    assert(line.last() == val.last());
    assert(trim_start(line) == line);
    assert(trim_end(line) == line);
    let a = key.push(' ');
    let b = seq!['=', ' '] + val;
    assert(line =~= a + b);
    assert(lacks(a, '=')) by {
        assert forall|i: int| 0 <= i < a.len() implies #[trigger] a[i] != '=' by {
            if i < key.len() {
                assert(a[i] == key[i]);
            }
        }
    }
    lemma_find_after(a, b, '=');
    assert(find(b, '=') == Some(0int));
    assert(find(line, '=') == Some(key.len() + 1int));
    assert(line.take(key.len() + 1int) =~= a);
    assert(line.skip(key.len() + 2int) =~= seq![' '] + val);
    lemma_trim_key(key);
    lemma_trim_value(val);
}

proof fn lemma_read_setting_at(
    ls: Seq<Seq<char>>,
    k: int,
    sec: Section,
    cfg: ConfigView,
    key: Seq<char>,
    val: Seq<char>,
)
    requires
        0 <= k < ls.len(),
        ls[k] == setting(key, val),
        key_ok(key),
        value_ok(val),
    ensures
        read_lines(ls.skip(k), sec, cfg) == read_lines(ls.skip(k + 1), sec, apply_setting(sec, cfg, key, val)),
{
    assert(ls.skip(k)[0] == ls[k]);
    assert(ls.skip(k).drop_first() =~= ls.skip(k + 1));
    lemma_setting_line(sec, cfg, key, val);
}

proof fn lemma_read_blank_at(ls: Seq<Seq<char>>, k: int, sec: Section, cfg: ConfigView)
    requires
        0 <= k < ls.len(),
        ls[k] == Seq::<char>::empty(),
    ensures
        read_lines(ls.skip(k), sec, cfg) == read_lines(ls.skip(k + 1), sec, cfg),
{
    assert(ls.skip(k)[0] == ls[k]);
    assert(ls.skip(k).drop_first() =~= ls.skip(k + 1));
    assert(trim(Seq::<char>::empty()) == Seq::<char>::empty());
}

proof fn lemma_read_header_at(ls: Seq<Seq<char>>, k: int, sec: Section, cfg: ConfigView, name: Seq<char>)
    requires
        0 <= k < ls.len(),
        ls[k] == header(name),
        name.len() > 0,
        name[0] != '[' && name[0] != ']',
        name.last() != '[' && name.last() != ']',
    ensures
        read_lines(ls.skip(k), sec, cfg) == read_lines(ls.skip(k + 1), section_named(name), cfg),
{
    let h = header(name);
    assert(ls.skip(k)[0] == ls[k]);
    assert(ls.skip(k).drop_first() =~= ls.skip(k + 1));
    assert(h[0] == '[');
    assert(h.last() == ']');
    assert(trim_start(h) == h);
    assert(trim_end(h) == h);
    assert(h.drop_first() =~= name.push(']'));
    assert(strip_brackets_start(name.push(']')) == name.push(']'));
    assert(name.push(']').drop_last() =~= name);
    assert(strip_brackets_start(h) == strip_brackets_start(h.drop_first()));
    assert(name.push(']')[0] == name[0]);
    assert(strip_brackets_start(h) == name.push(']'));
    assert(name.push(']').last() == ']');
    assert(strip_brackets_end(name) == name);
    assert(strip_brackets_end(name.push(']')) == strip_brackets_end(name));
    assert(strip_brackets(h) == name);
}

proof fn lemma_lacks_concat(a: Seq<char>, b: Seq<char>, c: char)
    requires
        lacks(a, c),
        lacks(b, c),
    ensures
        lacks(a + b, c),
{
    assert forall|i: int| 0 <= i < (a + b).len() implies #[trigger] (a + b)[i] != c by {
        if i < a.len() {
            assert((a + b)[i] == a[i]);
        } else {
            assert((a + b)[i] == b[i - a.len()]);
        }
    }
}

proof fn lemma_setting_lacks_newline(key: Seq<char>, val: Seq<char>)
    requires
        key_ok(key),
        value_ok(val),
    ensures
        lacks(setting(key, val), '\n'),
{
    let mid = seq![' ', '=', ' '];
    assert(lacks(mid, '\n'));
    lemma_lacks_concat(key, mid, '\n');
    lemma_lacks_concat(key + mid, val, '\n');
}

proof fn lemma_decimal_value_ok(n: nat)
    ensures
        value_ok(decimal(n)),
{
    crate::text::lemma_decimal_parses(n);
}

proof fn lemma_freq_value_ok(f: Seq<char>)
    requires
        is_float_literal(f),
    ensures
        value_ok(f),
        parsed_freq(f, f) == f,
{
    lemma_float_literal_shape(f);
}

proof fn lemma_bool_value_ok(b: bool)
    ensures
        value_ok(bool_text(b)),
        (bool_text(b) == "true"@) == b,
{
    reveal_strlit("true");
    reveal_strlit("false");
    assert("false"@.len() != "true"@.len());
}

proof fn lemma_keys_ok()
    ensures
        key_ok("audio_enabled"@),
        key_ok("volume_percent"@),
        key_ok("sync_color_sound"@),
        key_ok("pulse_with_beeps"@),
        key_ok("pulse_speed_ms"@),
        key_ok("beep_interval_ms"@),
        key_ok("spinner_speed_ms"@),
        key_ok("freq1"@),
        key_ok("freq2"@),
        key_ok("duration1"@),
        key_ok("duration2"@),
        key_ok("beep_count"@),
        key_ok("freq"@),
        key_ok("duration"@),
{
    reveal_strlit("audio_enabled");
    reveal_strlit("volume_percent");
    reveal_strlit("sync_color_sound");
    reveal_strlit("pulse_with_beeps");
    reveal_strlit("pulse_speed_ms");
    reveal_strlit("beep_interval_ms");
    reveal_strlit("spinner_speed_ms");
    reveal_strlit("freq1");
    reveal_strlit("freq2");
    reveal_strlit("duration1");
    reveal_strlit("duration2");
    reveal_strlit("beep_count");
    reveal_strlit("freq");
    reveal_strlit("duration");
}

spec fn with_top(c: ConfigView, cfg: ConfigView) -> ConfigView {
    ConfigView {
        audio_enabled: c.audio_enabled,
        volume_percent: clamp_volume(c).volume_percent,
        sync_color_sound: c.sync_color_sound,
        pulse_with_beeps: c.pulse_with_beeps,
        pulse_speed_ms: c.pulse_speed_ms,
        beep_interval_ms: c.beep_interval_ms,
        spinner_speed_ms: c.spinner_speed_ms,
        ..cfg
    }
}

proof fn lemma_read_top(c: ConfigView, cfg: ConfigView)
    ensures
        read_lines(config_lines(c), Section::Top, cfg) == read_lines(
            config_lines(c).skip(7),
            Section::Top,
            with_top(c, cfg),
        ),
{
    let ls = config_lines(c);
    let top = Section::Top;
    lemma_keys_ok();
    lemma_bool_value_ok(c.audio_enabled);
    lemma_bool_value_ok(c.sync_color_sound);
    lemma_bool_value_ok(c.pulse_with_beeps);
    lemma_decimal_value_ok(c.volume_percent as nat);
    lemma_decimal_value_ok(c.pulse_speed_ms as nat);
    lemma_decimal_value_ok(c.beep_interval_ms as nat);
    lemma_decimal_value_ok(c.spinner_speed_ms as nat);
    lemma_parse_decimal(c.volume_percent as nat, u32::MAX as nat);
    lemma_parse_decimal(c.pulse_speed_ms as nat, u64::MAX as nat);
    lemma_parse_decimal(c.beep_interval_ms as nat, u64::MAX as nat);
    lemma_parse_decimal(c.spinner_speed_ms as nat, u64::MAX as nat);
    reveal_strlit("audio_enabled");
    reveal_strlit("volume_percent");
    reveal_strlit("sync_color_sound");
    reveal_strlit("pulse_with_beeps");
    reveal_strlit("pulse_speed_ms");
    reveal_strlit("beep_interval_ms");
    reveal_strlit("spinner_speed_ms");
    assert(ls.skip(0) =~= ls);

    let k1 = "audio_enabled"@;
    let v1 = bool_text(c.audio_enabled);
    lemma_read_setting_at(ls, 0, top, cfg, k1, v1);
    let c1 = apply_setting(top, cfg, k1, v1);
    assert(c1 == ConfigView { audio_enabled: c.audio_enabled, ..cfg });

    let k2 = "volume_percent"@;
    let v2 = decimal(c.volume_percent as nat);
    lemma_read_setting_at(ls, 1, top, c1, k2, v2);
    let c2 = apply_setting(top, c1, k2, v2);
    assert(k2[0] != k1[0]);
    assert(k2[0] != "sync_color_sound"@[0]);
    assert(k2[0] != "pulse_with_beeps"@[0]);
    assert(k2[0] != "pulse_speed_ms"@[0]);
    assert(k2[0] != "beep_interval_ms"@[0]);
    assert(k2[0] != "spinner_speed_ms"@[0]);
    assert(c2 == ConfigView { volume_percent: clamp_volume(c).volume_percent, ..c1 });

    let k3 = "sync_color_sound"@;
    let v3 = bool_text(c.sync_color_sound);
    lemma_read_setting_at(ls, 2, top, c2, k3, v3);
    let c3 = apply_setting(top, c2, k3, v3);
    assert(k3[0] != k1[0]);
    assert(c3 == ConfigView { sync_color_sound: c.sync_color_sound, ..c2 });

    let k4 = "pulse_with_beeps"@;
    let v4 = bool_text(c.pulse_with_beeps);
    lemma_read_setting_at(ls, 3, top, c3, k4, v4);
    let c4 = apply_setting(top, c3, k4, v4);
    assert(k4[0] != k1[0]);
    assert(k4[0] != k3[0]);
    assert(c4 == ConfigView { pulse_with_beeps: c.pulse_with_beeps, ..c3 });

    let k5 = "pulse_speed_ms"@;
    let v5 = decimal(c.pulse_speed_ms as nat);
    lemma_read_setting_at(ls, 4, top, c4, k5, v5);
    let c5 = apply_setting(top, c4, k5, v5);
    assert(k5[0] != k1[0]);
    assert(k5[0] != k3[0]);
    assert(k5[6] != k4[6]);
    assert(c5 == ConfigView { pulse_speed_ms: c.pulse_speed_ms, ..c4 });

    let k6 = "beep_interval_ms"@;
    let v6 = decimal(c.beep_interval_ms as nat);
    lemma_read_setting_at(ls, 5, top, c5, k6, v6);
    let c6 = apply_setting(top, c5, k6, v6);
    assert(k6[0] != k1[0]);
    assert(k6[0] != k3[0]);
    assert(k6[0] != k4[0]);
    assert(k6[0] != k5[0]);
    assert(c6 == ConfigView { beep_interval_ms: c.beep_interval_ms, ..c5 });

    let k7 = "spinner_speed_ms"@;
    let v7 = decimal(c.spinner_speed_ms as nat);
    lemma_read_setting_at(ls, 6, top, c6, k7, v7);
    let c7 = apply_setting(top, c6, k7, v7);
    assert(k7[0] != k1[0]);
    assert(k7[1] != k3[1]);
    assert(k7[0] != k4[0]);
    assert(k7[0] != k5[0]);
    assert(k7[0] != k6[0]);
    assert(c7 == ConfigView { spinner_speed_ms: c.spinner_speed_ms, ..c6 });
    assert(c7 == with_top(c, cfg));
}

spec fn with_success(c: ConfigView, cfg: ConfigView) -> ConfigView {
    ConfigView {
        success_freq1: c.success_freq1,
        success_freq2: c.success_freq2,
        success_duration1: c.success_duration1,
        success_duration2: c.success_duration2,
        success_beep_count: c.success_beep_count,
        ..cfg
    }
}

spec fn with_error(c: ConfigView, cfg: ConfigView) -> ConfigView {
    ConfigView {
        error_freq1: c.error_freq1,
        error_freq2: c.error_freq2,
        error_duration1: c.error_duration1,
        error_duration2: c.error_duration2,
        error_beep_count: c.error_beep_count,
        ..cfg
    }
}

spec fn with_warning(c: ConfigView, cfg: ConfigView) -> ConfigView {
    ConfigView {
        warning_freq: c.warning_freq,
        warning_duration: c.warning_duration,
        warning_beep_count: c.warning_beep_count,
        ..cfg
    }
}

spec fn with_beep(c: ConfigView, cfg: ConfigView) -> ConfigView {
    ConfigView { beep_freq: c.beep_freq, beep_duration: c.beep_duration, beep_count: c.beep_count, ..cfg }
}

proof fn lemma_section_names()
    ensures
        section_named("success"@) == Section::Success,
        section_named("error"@) == Section::Error,
        section_named("warning"@) == Section::Warning,
        section_named("beep"@) == Section::Beep,
        "success"@.len() > 0 && "success"@[0] != '[' && "success"@[0] != ']' && "success"@.last() != '['
            && "success"@.last() != ']',
        "error"@.len() > 0 && "error"@[0] != '[' && "error"@[0] != ']' && "error"@.last() != '['
            && "error"@.last() != ']',
        "warning"@.len() > 0 && "warning"@[0] != '[' && "warning"@[0] != ']' && "warning"@.last() != '['
            && "warning"@.last() != ']',
        "beep"@.len() > 0 && "beep"@[0] != '[' && "beep"@[0] != ']' && "beep"@.last() != '['
            && "beep"@.last() != ']',
{
    reveal_strlit("success");
    reveal_strlit("error");
    reveal_strlit("warning");
    reveal_strlit("beep");
    assert("warning"@[0] != "success"@[0]);
}

/// The keys of a sound section, in the order the parser tries them.
proof fn lemma_section_keys()
    ensures
        "freq2"@ != "freq1"@,
        "duration1"@ != "freq1"@,
        "duration1"@ != "freq2"@,
        "duration2"@ != "freq1"@,
        "duration2"@ != "freq2"@,
        "duration2"@ != "duration1"@,
        "beep_count"@ != "freq1"@,
        "beep_count"@ != "freq2"@,
        "beep_count"@ != "duration1"@,
        "beep_count"@ != "duration2"@,
        "duration"@ != "freq"@,
        "beep_count"@ != "freq"@,
        "beep_count"@ != "duration"@,
{
    reveal_strlit("freq1");
    reveal_strlit("freq2");
    reveal_strlit("duration1");
    reveal_strlit("duration2");
    reveal_strlit("beep_count");
    reveal_strlit("freq");
    reveal_strlit("duration");
    assert("freq2"@[4] != "freq1"@[4]);
    assert("duration2"@[8] != "duration1"@[8]);
    assert("freq"@.len() == 4);
    assert("duration"@.len() == 8);
    assert("beep_count"@.len() == 10);
}

proof fn lemma_read_success(c: ConfigView, sec: Section, cfg: ConfigView)
    requires
        freqs_literal(c),
    ensures
        read_lines(config_lines(c).skip(7), sec, cfg) == read_lines(
            config_lines(c).skip(14),
            Section::Success,
            with_success(c, cfg),
        ),
{
    let ls = config_lines(c);
    let s = Section::Success;
    lemma_keys_ok();
    lemma_section_names();
    lemma_section_keys();
    lemma_freq_value_ok(c.success_freq1);
    lemma_freq_value_ok(c.success_freq2);
    lemma_decimal_value_ok(c.success_duration1 as nat);
    lemma_decimal_value_ok(c.success_duration2 as nat);
    lemma_decimal_value_ok(c.success_beep_count as nat);
    lemma_parse_decimal(c.success_duration1 as nat, u64::MAX as nat);
    lemma_parse_decimal(c.success_duration2 as nat, u64::MAX as nat);
    lemma_parse_decimal(c.success_beep_count as nat, usize::MAX as nat);
    lemma_read_blank_at(ls, 7, sec, cfg);
    lemma_read_header_at(ls, 8, sec, cfg, "success"@);
    lemma_read_setting_at(ls, 9, s, cfg, "freq1"@, c.success_freq1);
    let c1 = apply_setting(s, cfg, "freq1"@, c.success_freq1);
    lemma_read_setting_at(ls, 10, s, c1, "freq2"@, c.success_freq2);
    let c2 = apply_setting(s, c1, "freq2"@, c.success_freq2);
    lemma_read_setting_at(ls, 11, s, c2, "duration1"@, decimal(c.success_duration1 as nat));
    let c3 = apply_setting(s, c2, "duration1"@, decimal(c.success_duration1 as nat));
    lemma_read_setting_at(ls, 12, s, c3, "duration2"@, decimal(c.success_duration2 as nat));
    let c4 = apply_setting(s, c3, "duration2"@, decimal(c.success_duration2 as nat));
    lemma_read_setting_at(ls, 13, s, c4, "beep_count"@, decimal(c.success_beep_count as nat));
    let c5 = apply_setting(s, c4, "beep_count"@, decimal(c.success_beep_count as nat));
    assert(c5 == with_success(c, cfg));
}

proof fn lemma_read_error(c: ConfigView, sec: Section, cfg: ConfigView)
    requires
        freqs_literal(c),
    ensures
        read_lines(config_lines(c).skip(14), sec, cfg) == read_lines(
            config_lines(c).skip(21),
            Section::Error,
            with_error(c, cfg),
        ),
{
    let ls = config_lines(c);
    let s = Section::Error;
    lemma_keys_ok();
    lemma_section_names();
    lemma_section_keys();
    lemma_freq_value_ok(c.error_freq1);
    lemma_freq_value_ok(c.error_freq2);
    lemma_decimal_value_ok(c.error_duration1 as nat);
    lemma_decimal_value_ok(c.error_duration2 as nat);
    lemma_decimal_value_ok(c.error_beep_count as nat);
    lemma_parse_decimal(c.error_duration1 as nat, u64::MAX as nat);
    lemma_parse_decimal(c.error_duration2 as nat, u64::MAX as nat);
    lemma_parse_decimal(c.error_beep_count as nat, usize::MAX as nat);
    lemma_read_blank_at(ls, 14, sec, cfg);
    lemma_read_header_at(ls, 15, sec, cfg, "error"@);
    lemma_read_setting_at(ls, 16, s, cfg, "freq1"@, c.error_freq1);
    let c1 = apply_setting(s, cfg, "freq1"@, c.error_freq1);
    lemma_read_setting_at(ls, 17, s, c1, "freq2"@, c.error_freq2);
    let c2 = apply_setting(s, c1, "freq2"@, c.error_freq2);
    lemma_read_setting_at(ls, 18, s, c2, "duration1"@, decimal(c.error_duration1 as nat));
    let c3 = apply_setting(s, c2, "duration1"@, decimal(c.error_duration1 as nat));
    lemma_read_setting_at(ls, 19, s, c3, "duration2"@, decimal(c.error_duration2 as nat));
    let c4 = apply_setting(s, c3, "duration2"@, decimal(c.error_duration2 as nat));
    lemma_read_setting_at(ls, 20, s, c4, "beep_count"@, decimal(c.error_beep_count as nat));
    let c5 = apply_setting(s, c4, "beep_count"@, decimal(c.error_beep_count as nat));
    assert(c5 == with_error(c, cfg));
}

proof fn lemma_read_warning(c: ConfigView, sec: Section, cfg: ConfigView)
    requires
        freqs_literal(c),
    ensures
        read_lines(config_lines(c).skip(21), sec, cfg) == read_lines(
            config_lines(c).skip(26),
            Section::Warning,
            with_warning(c, cfg),
        ),
{
    let ls = config_lines(c);
    let s = Section::Warning;
    lemma_keys_ok();
    lemma_section_names();
    lemma_section_keys();
    lemma_freq_value_ok(c.warning_freq);
    lemma_decimal_value_ok(c.warning_duration as nat);
    lemma_decimal_value_ok(c.warning_beep_count as nat);
    lemma_parse_decimal(c.warning_duration as nat, u64::MAX as nat);
    lemma_parse_decimal(c.warning_beep_count as nat, usize::MAX as nat);
    lemma_read_blank_at(ls, 21, sec, cfg);
    lemma_read_header_at(ls, 22, sec, cfg, "warning"@);
    lemma_read_setting_at(ls, 23, s, cfg, "freq"@, c.warning_freq);
    let c1 = apply_setting(s, cfg, "freq"@, c.warning_freq);
    lemma_read_setting_at(ls, 24, s, c1, "duration"@, decimal(c.warning_duration as nat));
    let c2 = apply_setting(s, c1, "duration"@, decimal(c.warning_duration as nat));
    lemma_read_setting_at(ls, 25, s, c2, "beep_count"@, decimal(c.warning_beep_count as nat));
    let c3 = apply_setting(s, c2, "beep_count"@, decimal(c.warning_beep_count as nat));
    assert(c3 == with_warning(c, cfg));
}

proof fn lemma_read_beep(c: ConfigView, sec: Section, cfg: ConfigView)
    requires
        freqs_literal(c),
    ensures
        read_lines(config_lines(c).skip(26), sec, cfg) == read_lines(
            config_lines(c).skip(31),
            Section::Beep,
            with_beep(c, cfg),
        ),
{
    let ls = config_lines(c);
    let s = Section::Beep;
    lemma_keys_ok();
    lemma_section_names();
    lemma_section_keys();
    lemma_freq_value_ok(c.beep_freq);
    lemma_decimal_value_ok(c.beep_duration as nat);
    lemma_decimal_value_ok(c.beep_count as nat);
    lemma_parse_decimal(c.beep_duration as nat, u64::MAX as nat);
    lemma_parse_decimal(c.beep_count as nat, usize::MAX as nat);
    lemma_read_blank_at(ls, 26, sec, cfg);
    lemma_read_header_at(ls, 27, sec, cfg, "beep"@);
    lemma_read_setting_at(ls, 28, s, cfg, "freq"@, c.beep_freq);
    let c1 = apply_setting(s, cfg, "freq"@, c.beep_freq);
    lemma_read_setting_at(ls, 29, s, c1, "duration"@, decimal(c.beep_duration as nat));
    let c2 = apply_setting(s, c1, "duration"@, decimal(c.beep_duration as nat));
    lemma_read_setting_at(ls, 30, s, c2, "beep_count"@, decimal(c.beep_count as nat));
    let c3 = apply_setting(s, c2, "beep_count"@, decimal(c.beep_count as nat));
    assert(c3 == with_beep(c, cfg));
}

proof fn lemma_lines_of_join_then(ls: Seq<Seq<char>>, rest: Seq<char>)
    requires
        forall|i: int| 0 <= i < ls.len() ==> lacks(#[trigger] ls[i], '\n'),
    ensures
        lines_from(join_lines(ls) + rest, seq![]) == ls + lines_from(rest, seq![]),
    decreases ls.len(),
{
    if ls.len() == 0 {
        assert(join_lines(ls) + rest =~= rest);
        assert(ls + lines_from(rest, seq![]) =~= lines_from(rest, seq![]));
    } else {
        let p = ls.drop_last();
        let l = ls.last();
        assert(ls =~= p.push(l));
        lemma_join_push(p, l);
        assert(join_lines(ls) + rest =~= join_lines(p) + (l + seq!['\n'] + rest));
        assert forall|i: int| 0 <= i < p.len() implies lacks(#[trigger] p[i], '\n') by {
            assert(p[i] == ls[i]);
        }
        lemma_lines_of_join_then(p, l + seq!['\n'] + rest);
        lemma_lines_from_line(seq![], l, rest);
        assert(Seq::<char>::empty() + l =~= l);
        assert(p + (seq![l] + lines_from(rest, seq![])) =~= ls + lines_from(rest, seq![]));
    }
}

/// The lines of text written as `ls`, each followed by a line break, are `ls`.
proof fn lemma_lines_of_join(ls: Seq<Seq<char>>)
    requires
        forall|i: int| 0 <= i < ls.len() ==> lacks(#[trigger] ls[i], '\n'),
    ensures
        lines(join_lines(ls)) == ls,
{
    lemma_lines_of_join_then(ls, seq![]);
    assert(join_lines(ls) + Seq::<char>::empty() =~= join_lines(ls));
    assert(ls + Seq::<Seq<char>>::empty() =~= ls);
}

proof fn lemma_config_lines_lack_newline(c: ConfigView)
    requires
        freqs_literal(c),
    ensures
        forall|i: int| 0 <= i < config_lines(c).len() ==> lacks(#[trigger] config_lines(c)[i], '\n'),
{
    let ls = config_lines(c);
    lemma_keys_ok();
    lemma_section_names();
    lemma_bool_value_ok(c.audio_enabled);
    lemma_bool_value_ok(c.sync_color_sound);
    lemma_bool_value_ok(c.pulse_with_beeps);
    lemma_decimal_value_ok(c.volume_percent as nat);
    lemma_decimal_value_ok(c.pulse_speed_ms as nat);
    lemma_decimal_value_ok(c.beep_interval_ms as nat);
    lemma_decimal_value_ok(c.spinner_speed_ms as nat);
    lemma_freq_value_ok(c.success_freq1);
    lemma_freq_value_ok(c.success_freq2);
    lemma_decimal_value_ok(c.success_duration1 as nat);
    lemma_decimal_value_ok(c.success_duration2 as nat);
    lemma_decimal_value_ok(c.success_beep_count as nat);
    lemma_freq_value_ok(c.error_freq1);
    lemma_freq_value_ok(c.error_freq2);
    lemma_decimal_value_ok(c.error_duration1 as nat);
    lemma_decimal_value_ok(c.error_duration2 as nat);
    lemma_decimal_value_ok(c.error_beep_count as nat);
    lemma_freq_value_ok(c.warning_freq);
    lemma_decimal_value_ok(c.warning_duration as nat);
    lemma_decimal_value_ok(c.warning_beep_count as nat);
    lemma_freq_value_ok(c.beep_freq);
    lemma_decimal_value_ok(c.beep_duration as nat);
    lemma_decimal_value_ok(c.beep_count as nat);
    lemma_setting_lacks_newline("audio_enabled"@, bool_text(c.audio_enabled));
    lemma_setting_lacks_newline("volume_percent"@, decimal(c.volume_percent as nat));
    lemma_setting_lacks_newline("sync_color_sound"@, bool_text(c.sync_color_sound));
    lemma_setting_lacks_newline("pulse_with_beeps"@, bool_text(c.pulse_with_beeps));
    lemma_setting_lacks_newline("pulse_speed_ms"@, decimal(c.pulse_speed_ms as nat));
    lemma_setting_lacks_newline("beep_interval_ms"@, decimal(c.beep_interval_ms as nat));
    lemma_setting_lacks_newline("spinner_speed_ms"@, decimal(c.spinner_speed_ms as nat));
    lemma_setting_lacks_newline("freq1"@, c.success_freq1);
    lemma_setting_lacks_newline("freq2"@, c.success_freq2);
    lemma_setting_lacks_newline("duration1"@, decimal(c.success_duration1 as nat));
    lemma_setting_lacks_newline("duration2"@, decimal(c.success_duration2 as nat));
    lemma_setting_lacks_newline("beep_count"@, decimal(c.success_beep_count as nat));
    lemma_setting_lacks_newline("freq1"@, c.error_freq1);
    lemma_setting_lacks_newline("freq2"@, c.error_freq2);
    lemma_setting_lacks_newline("duration1"@, decimal(c.error_duration1 as nat));
    lemma_setting_lacks_newline("duration2"@, decimal(c.error_duration2 as nat));
    lemma_setting_lacks_newline("beep_count"@, decimal(c.error_beep_count as nat));
    lemma_setting_lacks_newline("freq"@, c.warning_freq);
    lemma_setting_lacks_newline("duration"@, decimal(c.warning_duration as nat));
    lemma_setting_lacks_newline("beep_count"@, decimal(c.warning_beep_count as nat));
    lemma_setting_lacks_newline("freq"@, c.beep_freq);
    lemma_setting_lacks_newline("duration"@, decimal(c.beep_duration as nat));
    lemma_setting_lacks_newline("beep_count"@, decimal(c.beep_count as nat));
    reveal_strlit("success");
    reveal_strlit("error");
    reveal_strlit("warning");
    reveal_strlit("beep");
    assert forall|i: int| 0 <= i < ls.len() implies lacks(#[trigger] ls[i], '\n') by {
        if ls[i].len() > 0 && ls[i][0] == '[' {
            assert forall|j: int| 0 <= j < ls[i].len() implies #[trigger] ls[i][j] != '\n' by {}
        }
    }
}

/// Writing preferences in their text form and reading that text back gives
/// the same preferences, but for a volume above 100, which is read back as 100.
pub proof fn lemma_config_read_back(c: ConfigView)
    requires
        freqs_literal(c),
    ensures
        parse_config(config_text(c)) == clamp_volume(c),
{
    let ls = config_lines(c);
    lemma_config_lines_lack_newline(c);
    lemma_lines_of_join(ls);
    let d = default_config();
    lemma_read_top(c, d);
    let c1 = with_top(c, d);
    lemma_read_success(c, Section::Top, c1);
    let c2 = with_success(c, c1);
    lemma_read_error(c, Section::Success, c2);
    let c3 = with_error(c, c2);
    lemma_read_warning(c, Section::Error, c3);
    let c4 = with_warning(c, c3);
    lemma_read_beep(c, Section::Warning, c4);
    let c5 = with_beep(c, c4);
    assert(ls.skip(31).len() == 0);
    assert(read_lines(ls.skip(31), Section::Beep, c5) == (Section::Beep, c5));
    assert(c5 == clamp_volume(c));
}

/// Writing preferences in their text form and reading that text back gives
/// the same preferences, for every volume of at most 100.
pub proof fn lemma_config_roundtrip(c: ConfigView)
    requires
        valid_config(c),
    ensures
        parse_config(config_text(c)) == c,
{
    lemma_config_read_back(c);
    assert(clamp_volume(c) == c);
}

proof fn lemma_apply_line_keeps_valid(sec: Section, cfg: ConfigView, raw: Seq<char>)
    requires
        valid_config(cfg),
    ensures
        valid_config(apply_line(sec, cfg, raw).1),
{
}

proof fn lemma_read_lines_keeps_valid(ls: Seq<Seq<char>>, sec: Section, cfg: ConfigView)
    requires
        valid_config(cfg),
    ensures
        valid_config(read_lines(ls, sec, cfg).1),
    decreases ls.len(),
{
    if ls.len() > 0 {
        lemma_apply_line_keeps_valid(sec, cfg, ls[0]);
        let (s2, c2) = apply_line(sec, cfg, ls[0]);
        lemma_read_lines_keeps_valid(ls.drop_first(), s2, c2);
    }
}

/// Whatever text is read, the preferences it gives have a volume of at most
/// 100 and frequencies written as float literals.
pub proof fn lemma_parsed_config_valid(s: Seq<char>)
    ensures
        valid_config(parse_config(s)),
{
    lemma_decimal_is_float_literal(440);
    lemma_decimal_is_float_literal(880);
    lemma_decimal_is_float_literal(220);
    lemma_decimal_is_float_literal(110);
    lemma_decimal_is_float_literal(660);
    lemma_read_lines_keeps_valid(lines(s), Section::Top, default_config());
}

/// Reading a text, writing the preferences it gives, and reading that again
/// gives the same preferences, whatever the text.
pub proof fn lemma_reparse_stable(s: Seq<char>)
    ensures
        parse_config(config_text(parse_config(s))) == parse_config(s),
{
    lemma_parsed_config_valid(s);
    lemma_config_roundtrip(parse_config(s));
}

/// Keys are scoped to their section: a setting inside `[success]`,
/// `[error]`, `[warning]` or `[beep]` changes only fields of that sound, and
/// one at the top level changes none of the sounds' fields.
pub proof fn lemma_sections_isolated(cfg: ConfigView, key: Seq<char>, value: Seq<char>)
    ensures
        ({
            let c = apply_setting(Section::Success, cfg, key, value);
            c == ConfigView {
                success_freq1: c.success_freq1,
                success_freq2: c.success_freq2,
                success_duration1: c.success_duration1,
                success_duration2: c.success_duration2,
                success_beep_count: c.success_beep_count,
                ..cfg
            }
        }),
        ({
            let c = apply_setting(Section::Error, cfg, key, value);
            c == ConfigView {
                error_freq1: c.error_freq1,
                error_freq2: c.error_freq2,
                error_duration1: c.error_duration1,
                error_duration2: c.error_duration2,
                error_beep_count: c.error_beep_count,
                ..cfg
            }
        }),
        ({
            let c = apply_setting(Section::Warning, cfg, key, value);
            c == ConfigView {
                warning_freq: c.warning_freq,
                warning_duration: c.warning_duration,
                warning_beep_count: c.warning_beep_count,
                ..cfg
            }
        }),
        ({
            let c = apply_setting(Section::Beep, cfg, key, value);
            c == ConfigView { beep_freq: c.beep_freq, beep_duration: c.beep_duration, beep_count: c.beep_count, ..cfg }
        }),
        ({
            let c = apply_setting(Section::Top, cfg, key, value);
            c == ConfigView {
                audio_enabled: c.audio_enabled,
                volume_percent: c.volume_percent,
                sync_color_sound: c.sync_color_sound,
                pulse_with_beeps: c.pulse_with_beeps,
                pulse_speed_ms: c.pulse_speed_ms,
                beep_interval_ms: c.beep_interval_ms,
                spinner_speed_ms: c.spinner_speed_ms,
                ..cfg
            }
        }),
{
}

/// Each key of a section sets exactly its own preference and nothing else:
/// a frequency takes the value when it is a float literal, a duration, count
/// or speed when it is an unsigned number that fits, a switch becomes on
/// exactly when the value is `true`, and a volume is limited to 100; a value
/// that does not parse leaves the preference as it was.
pub proof fn lemma_each_key_sets_its_field(cfg: ConfigView, v: Seq<char>)
    ensures
        apply_setting(Section::Success, cfg, "freq1"@, v) == (ConfigView { success_freq1: if is_float_literal(v) { v } else { cfg.success_freq1 }, ..cfg }),
        apply_setting(Section::Success, cfg, "freq2"@, v) == (ConfigView { success_freq2: if is_float_literal(v) { v } else { cfg.success_freq2 }, ..cfg }),
        apply_setting(Section::Success, cfg, "duration1"@, v) == (ConfigView { success_duration1: match parse_unsigned(v, u64::MAX as nat) { Some(n) => n as u64, None => cfg.success_duration1 }, ..cfg }),
        apply_setting(Section::Success, cfg, "duration2"@, v) == (ConfigView { success_duration2: match parse_unsigned(v, u64::MAX as nat) { Some(n) => n as u64, None => cfg.success_duration2 }, ..cfg }),
        apply_setting(Section::Success, cfg, "beep_count"@, v) == (ConfigView { success_beep_count: match parse_unsigned(v, usize::MAX as nat) { Some(n) => n as usize, None => cfg.success_beep_count }, ..cfg }),
        apply_setting(Section::Error, cfg, "freq1"@, v) == (ConfigView { error_freq1: if is_float_literal(v) { v } else { cfg.error_freq1 }, ..cfg }),
        apply_setting(Section::Error, cfg, "freq2"@, v) == (ConfigView { error_freq2: if is_float_literal(v) { v } else { cfg.error_freq2 }, ..cfg }),
        apply_setting(Section::Error, cfg, "duration1"@, v) == (ConfigView { error_duration1: match parse_unsigned(v, u64::MAX as nat) { Some(n) => n as u64, None => cfg.error_duration1 }, ..cfg }),
        apply_setting(Section::Error, cfg, "duration2"@, v) == (ConfigView { error_duration2: match parse_unsigned(v, u64::MAX as nat) { Some(n) => n as u64, None => cfg.error_duration2 }, ..cfg }),
        apply_setting(Section::Error, cfg, "beep_count"@, v) == (ConfigView { error_beep_count: match parse_unsigned(v, usize::MAX as nat) { Some(n) => n as usize, None => cfg.error_beep_count }, ..cfg }),
        apply_setting(Section::Warning, cfg, "freq"@, v) == (ConfigView { warning_freq: if is_float_literal(v) { v } else { cfg.warning_freq }, ..cfg }),
        apply_setting(Section::Warning, cfg, "duration"@, v) == (ConfigView { warning_duration: match parse_unsigned(v, u64::MAX as nat) { Some(n) => n as u64, None => cfg.warning_duration }, ..cfg }),
        apply_setting(Section::Warning, cfg, "beep_count"@, v) == (ConfigView { warning_beep_count: match parse_unsigned(v, usize::MAX as nat) { Some(n) => n as usize, None => cfg.warning_beep_count }, ..cfg }),
        apply_setting(Section::Beep, cfg, "freq"@, v) == (ConfigView { beep_freq: if is_float_literal(v) { v } else { cfg.beep_freq }, ..cfg }),
        apply_setting(Section::Beep, cfg, "duration"@, v) == (ConfigView { beep_duration: match parse_unsigned(v, u64::MAX as nat) { Some(n) => n as u64, None => cfg.beep_duration }, ..cfg }),
        apply_setting(Section::Beep, cfg, "beep_count"@, v) == (ConfigView { beep_count: match parse_unsigned(v, usize::MAX as nat) { Some(n) => n as usize, None => cfg.beep_count }, ..cfg }),
        apply_setting(Section::Top, cfg, "audio_enabled"@, v) == (ConfigView { audio_enabled: v == "true"@, ..cfg }),
        apply_setting(Section::Top, cfg, "sync_color_sound"@, v) == (ConfigView { sync_color_sound: v == "true"@, ..cfg }),
        apply_setting(Section::Top, cfg, "pulse_with_beeps"@, v) == (ConfigView { pulse_with_beeps: v == "true"@, ..cfg }),
        apply_setting(Section::Top, cfg, "pulse_speed_ms"@, v) == (ConfigView { pulse_speed_ms: match parse_unsigned(v, u64::MAX as nat) { Some(n) => n as u64, None => cfg.pulse_speed_ms }, ..cfg }),
        apply_setting(Section::Top, cfg, "beep_interval_ms"@, v) == (ConfigView { beep_interval_ms: match parse_unsigned(v, u64::MAX as nat) { Some(n) => n as u64, None => cfg.beep_interval_ms }, ..cfg }),
        apply_setting(Section::Top, cfg, "spinner_speed_ms"@, v) == (ConfigView { spinner_speed_ms: match parse_unsigned(v, u64::MAX as nat) { Some(n) => n as u64, None => cfg.spinner_speed_ms }, ..cfg }),
        apply_setting(Section::Top, cfg, "volume_percent"@, v) == (ConfigView { volume_percent: match parse_unsigned(v, u32::MAX as nat) { Some(n) => if n <= 100 { n as u32 } else { 100 }, None => cfg.volume_percent }, ..cfg }),
{
    lemma_section_keys();
    lemma_top_keys();
}

/// A key that no section knows, or a key of another section, changes nothing.
pub proof fn lemma_other_keys_change_nothing(cfg: ConfigView, k: Seq<char>, v: Seq<char>)
    ensures
        !(k == "freq1"@ || k == "freq2"@ || k == "duration1"@ || k == "duration2"@ || k == "beep_count"@)
            ==> apply_setting(Section::Success, cfg, k, v) == cfg && apply_setting(Section::Error, cfg, k, v) == cfg,
        !(k == "freq"@ || k == "duration"@ || k == "beep_count"@) ==> apply_setting(Section::Warning, cfg, k, v)
            == cfg && apply_setting(Section::Beep, cfg, k, v) == cfg,
        !(k == "audio_enabled"@ || k == "sync_color_sound"@ || k == "pulse_with_beeps"@ || k == "pulse_speed_ms"@
            || k == "beep_interval_ms"@ || k == "spinner_speed_ms"@ || k == "volume_percent"@)
            ==> apply_setting(Section::Top, cfg, k, v) == cfg,
{
}

proof fn lemma_top_keys()
    ensures
        "sync_color_sound"@ != "audio_enabled"@,
        "pulse_with_beeps"@ != "audio_enabled"@,
        "pulse_with_beeps"@ != "sync_color_sound"@,
        "pulse_speed_ms"@ != "audio_enabled"@,
        "pulse_speed_ms"@ != "sync_color_sound"@,
        "pulse_speed_ms"@ != "pulse_with_beeps"@,
        "beep_interval_ms"@ != "audio_enabled"@,
        "beep_interval_ms"@ != "sync_color_sound"@,
        "beep_interval_ms"@ != "pulse_with_beeps"@,
        "beep_interval_ms"@ != "pulse_speed_ms"@,
        "spinner_speed_ms"@ != "audio_enabled"@,
        "spinner_speed_ms"@ != "sync_color_sound"@,
        "spinner_speed_ms"@ != "pulse_with_beeps"@,
        "spinner_speed_ms"@ != "pulse_speed_ms"@,
        "spinner_speed_ms"@ != "beep_interval_ms"@,
        "volume_percent"@ != "audio_enabled"@,
        "volume_percent"@ != "sync_color_sound"@,
        "volume_percent"@ != "pulse_with_beeps"@,
        "volume_percent"@ != "pulse_speed_ms"@,
        "volume_percent"@ != "beep_interval_ms"@,
        "volume_percent"@ != "spinner_speed_ms"@,
{
    reveal_strlit("audio_enabled");
    reveal_strlit("volume_percent");
    reveal_strlit("sync_color_sound");
    reveal_strlit("pulse_with_beeps");
    reveal_strlit("pulse_speed_ms");
    reveal_strlit("beep_interval_ms");
    reveal_strlit("spinner_speed_ms");
    assert("sync_color_sound"@[0] != "audio_enabled"@[0]);
    assert("pulse_with_beeps"@[0] != "audio_enabled"@[0]);
    assert("pulse_with_beeps"@[1] != "sync_color_sound"@[1]);
    assert("pulse_speed_ms"@[0] != "audio_enabled"@[0]);
    assert("pulse_speed_ms"@[1] != "sync_color_sound"@[1]);
    assert("pulse_speed_ms"@[6] != "pulse_with_beeps"@[6]);
    assert("beep_interval_ms"@[0] != "audio_enabled"@[0]);
    assert("beep_interval_ms"@[0] != "sync_color_sound"@[0]);
    assert("beep_interval_ms"@[0] != "pulse_with_beeps"@[0]);
    assert("beep_interval_ms"@[0] != "pulse_speed_ms"@[0]);
    assert("spinner_speed_ms"@[0] != "audio_enabled"@[0]);
    assert("spinner_speed_ms"@[1] != "sync_color_sound"@[1]);
    assert("spinner_speed_ms"@[0] != "pulse_with_beeps"@[0]);
    assert("spinner_speed_ms"@[0] != "pulse_speed_ms"@[0]);
    assert("spinner_speed_ms"@[0] != "beep_interval_ms"@[0]);
    assert("volume_percent"@[0] != "audio_enabled"@[0]);
    assert("volume_percent"@[0] != "sync_color_sound"@[0]);
    assert("volume_percent"@[0] != "pulse_with_beeps"@[0]);
    assert("volume_percent"@[0] != "pulse_speed_ms"@[0]);
    assert("volume_percent"@[0] != "beep_interval_ms"@[0]);
    assert("volume_percent"@[0] != "spinner_speed_ms"@[0]);
}

/// How one line of the preferences text is read: a header `[success]`,
/// `[error]`, `[warning]` or `[beep]` opens that section and changes no
/// preference; a line `key = value` (a key and a value with no whitespace at
/// their ends, no `=` in the key) sets that key of the current section; a
/// blank line or a `#` comment changes nothing.
pub proof fn lemma_line_reading(sec: Section, cfg: ConfigView, key: Seq<char>, val: Seq<char>, raw: Seq<char>)
    ensures
        apply_line(sec, cfg, seq!['['] + "success"@ + seq![']']) == (Section::Success, cfg),
        apply_line(sec, cfg, seq!['['] + "error"@ + seq![']']) == (Section::Error, cfg),
        apply_line(sec, cfg, seq!['['] + "warning"@ + seq![']']) == (Section::Warning, cfg),
        apply_line(sec, cfg, seq!['['] + "beep"@ + seq![']']) == (Section::Beep, cfg),
        key_ok(key) && value_ok(val) ==> apply_line(sec, cfg, key + seq![' ', '=', ' '] + val) == (
            sec,
            apply_setting(sec, cfg, key, val),
        ),
        trim(raw).len() == 0 || trim(raw)[0] == '#' ==> apply_line(sec, cfg, raw) == (sec, cfg),
{
    lemma_section_names();
    {
        let ls = seq![header("success"@)];
        lemma_read_header_at(ls, 0, sec, cfg, "success"@);
        assert(ls.skip(0) =~= ls);
        assert(ls.skip(1) =~= Seq::<Seq<char>>::empty());
        assert(ls.drop_first() =~= Seq::<Seq<char>>::empty());
        assert(ls[0] == header("success"@));
        let st = apply_line(sec, cfg, ls[0]);
        assert(read_lines(ls, sec, cfg) == read_lines(ls.drop_first(), st.0, st.1));
        assert(read_lines(ls.drop_first(), st.0, st.1) == (st.0, st.1));
        assert(read_lines(ls.skip(1), section_named("success"@), cfg) == (section_named("success"@), cfg));
        assert(header("success"@) == seq!['['] + "success"@ + seq![']']);
    }
    {
        let ls = seq![header("error"@)];
        lemma_read_header_at(ls, 0, sec, cfg, "error"@);
        assert(ls.skip(0) =~= ls);
        assert(ls.skip(1) =~= Seq::<Seq<char>>::empty());
        assert(ls.drop_first() =~= Seq::<Seq<char>>::empty());
        assert(ls[0] == header("error"@));
        let st = apply_line(sec, cfg, ls[0]);
        assert(read_lines(ls, sec, cfg) == read_lines(ls.drop_first(), st.0, st.1));
        assert(read_lines(ls.drop_first(), st.0, st.1) == (st.0, st.1));
        assert(read_lines(ls.skip(1), section_named("error"@), cfg) == (section_named("error"@), cfg));
        assert(header("error"@) == seq!['['] + "error"@ + seq![']']);
    }
    {
        let ls = seq![header("warning"@)];
        lemma_read_header_at(ls, 0, sec, cfg, "warning"@);
        assert(ls.skip(0) =~= ls);
        assert(ls.skip(1) =~= Seq::<Seq<char>>::empty());
        assert(ls.drop_first() =~= Seq::<Seq<char>>::empty());
        assert(ls[0] == header("warning"@));
        let st = apply_line(sec, cfg, ls[0]);
        assert(read_lines(ls, sec, cfg) == read_lines(ls.drop_first(), st.0, st.1));
        assert(read_lines(ls.drop_first(), st.0, st.1) == (st.0, st.1));
        assert(read_lines(ls.skip(1), section_named("warning"@), cfg) == (section_named("warning"@), cfg));
        assert(header("warning"@) == seq!['['] + "warning"@ + seq![']']);
    }
    {
        let ls = seq![header("beep"@)];
        lemma_read_header_at(ls, 0, sec, cfg, "beep"@);
        assert(ls.skip(0) =~= ls);
        assert(ls.skip(1) =~= Seq::<Seq<char>>::empty());
        assert(ls.drop_first() =~= Seq::<Seq<char>>::empty());
        assert(ls[0] == header("beep"@));
        let st = apply_line(sec, cfg, ls[0]);
        assert(read_lines(ls, sec, cfg) == read_lines(ls.drop_first(), st.0, st.1));
        assert(read_lines(ls.drop_first(), st.0, st.1) == (st.0, st.1));
        assert(read_lines(ls.skip(1), section_named("beep"@), cfg) == (section_named("beep"@), cfg));
        assert(header("beep"@) == seq!['['] + "beep"@ + seq![']']);
    }
    if key_ok(key) && value_ok(val) {
        lemma_setting_line(sec, cfg, key, val);
        assert(setting(key, val) =~= key + seq![' ', '=', ' '] + val);
    }
}

impl Config {
    /// Writes the preferences in their text form, one `key = value` per
    /// line, with the sound settings under `[success]`, `[error]`,
    /// `[warning]` and `[beep]`.
    pub fn to_toml(&self) -> (r: String)
        ensures
            r@ == config_text(self@),
    {
        let mut out = String::new();
        let ghost nothing: Seq<Seq<char>> = Seq::empty();
        let mut done: Ghost<Seq<Seq<char>>> = Ghost(nothing);
        assert(out@ =~= join_lines(done@));
        done = emit_setting(&mut out, "audio_enabled", bool_str(self.audio_enabled), done);
        done = emit_setting(&mut out, "volume_percent", decimal_string(self.volume_percent as u64).as_str(), done);
        done = emit_setting(&mut out, "sync_color_sound", bool_str(self.sync_color_sound), done);
        done = emit_setting(&mut out, "pulse_with_beeps", bool_str(self.pulse_with_beeps), done);
        done = emit_setting(&mut out, "pulse_speed_ms", decimal_string(self.pulse_speed_ms).as_str(), done);
        done = emit_setting(&mut out, "beep_interval_ms", decimal_string(self.beep_interval_ms).as_str(), done);
        done = emit_setting(&mut out, "spinner_speed_ms", decimal_string(self.spinner_speed_ms).as_str(), done);
        done = emit(&mut out, "", done);
        done = emit(&mut out, "[success]", done);
        done = emit_setting(&mut out, "freq1", self.success_freq1.as_str(), done);
        done = emit_setting(&mut out, "freq2", self.success_freq2.as_str(), done);
        done = emit_setting(&mut out, "duration1", decimal_string(self.success_duration1).as_str(), done);
        done = emit_setting(&mut out, "duration2", decimal_string(self.success_duration2).as_str(), done);
        done = emit_setting(&mut out, "beep_count", decimal_string(self.success_beep_count as u64).as_str(), done);
        done = emit(&mut out, "", done);
        done = emit(&mut out, "[error]", done);
        done = emit_setting(&mut out, "freq1", self.error_freq1.as_str(), done);
        done = emit_setting(&mut out, "freq2", self.error_freq2.as_str(), done);
        done = emit_setting(&mut out, "duration1", decimal_string(self.error_duration1).as_str(), done);
        done = emit_setting(&mut out, "duration2", decimal_string(self.error_duration2).as_str(), done);
        done = emit_setting(&mut out, "beep_count", decimal_string(self.error_beep_count as u64).as_str(), done);
        done = emit(&mut out, "", done);
        done = emit(&mut out, "[warning]", done);
        done = emit_setting(&mut out, "freq", self.warning_freq.as_str(), done);
        done = emit_setting(&mut out, "duration", decimal_string(self.warning_duration).as_str(), done);
        done = emit_setting(&mut out, "beep_count", decimal_string(self.warning_beep_count as u64).as_str(), done);
        done = emit(&mut out, "", done);
        done = emit(&mut out, "[beep]", done);
        done = emit_setting(&mut out, "freq", self.beep_freq.as_str(), done);
        done = emit_setting(&mut out, "duration", decimal_string(self.beep_duration).as_str(), done);
        done = emit_setting(&mut out, "beep_count", decimal_string(self.beep_count as u64).as_str(), done);
        proof {
            reveal_strlit("");
            reveal_strlit("[success]");
            reveal_strlit("[error]");
            reveal_strlit("[warning]");
            reveal_strlit("[beep]");
            reveal_strlit("success");
            reveal_strlit("error");
            reveal_strlit("warning");
            reveal_strlit("beep");
            assert(""@ =~= Seq::<char>::empty());
            assert("[success]"@ =~= header("success"@));
            assert("[error]"@ =~= header("error"@));
            assert("[warning]"@ =~= header("warning"@));
            assert("[beep]"@ =~= header("beep"@));
            assert(done@ =~= config_lines(self@));
        }
        out
    }

    /// Reads preferences from their text form.  Keys are scoped to their
    /// `[section]` headers, so that keys of the same name in different
    /// sections (`beep_count`, `freq`) do not collide; anything not understood
    /// leaves the default in place.  Reading never fails.
    pub fn from_str(s: &str) -> (r: Result<Config, String>)
        ensures
            r matches Ok(c) && c@ == parse_config(s@),
    {
        let cs = chars_of(s);
        let mut config = Config::default();
        let mut section = Section::Top;
        let mut cur: Vec<char> = Vec::new();
        let mut i: usize = 0;
        assert(cs@.skip(0) =~= cs@);
        assert(cur@ =~= seq![]);
        while i < cs.len()
            invariant
                i <= cs@.len(),
                cs@ == s@,
                parse_config(s@) == read_lines(lines_from(cs@.skip(i as int), cur@), section, config@).1,
            decreases cs@.len() - i,
        {
            let ghost rest = cs@.skip(i as int);
            assert(rest.drop_first() =~= cs@.skip(i + 1));
            if cs[i] == '\n' {
                let ghost before = (section, config@);
                let ghost later = lines_from(rest.drop_first(), seq![]);
                assert((seq![cur@] + later)[0] == cur@);
                assert((seq![cur@] + later).drop_first() =~= later);
                section = apply_line_exec(section, &mut config, cur.as_slice());
                cur = Vec::new();
                assert(cur@ =~= seq![]);
            } else {
                cur.push(cs[i]);
            }
            i = i + 1;
        }
        assert(cs@.skip(i as int) =~= Seq::<char>::empty());
        if cur.len() > 0 {
            assert(lines_from(cs@.skip(i as int), cur@) == seq![cur@]);
            assert(seq![cur@].drop_first() =~= Seq::<Seq<char>>::empty());
            let ghost before = config@;
            let ghost sec0 = section;
            let ghost step = apply_line(sec0, before, cur@);
            assert(seq![cur@][0] == cur@);
            assert(read_lines(seq![cur@].drop_first(), step.0, step.1) == step);
            apply_line_exec(section, &mut config, cur.as_slice());
            assert(read_lines(seq![cur@], sec0, before).1 == config@);
        } else {
            assert(lines_from(cs@.skip(i as int), cur@) == Seq::<Seq<char>>::empty());
            assert(read_lines(Seq::<Seq<char>>::empty(), section, config@).1 == config@);
        }
        assert(config@ == parse_config(s@));
        Ok(config)
    }
}

} // verus!
