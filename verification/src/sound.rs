//! The sounds: which tones each kind of message plays, and for how long.
//! Producing the samples and sending them to the audio device is left to the
//! caller, which plays the steps in order.
use vstd::prelude::*;
use crate::config::{Config, ConfigView, Frequency};
use crate::output::{Effect, EffectView, effects_view, line_of};
use crate::paint::{Color, Look, fg, fg_bold, paint, paint_bold, painted};
use crate::settings::Settings;
use crate::text::{decimal, push_str};

verus! {

/// The kinds of sound a message can carry.
#[derive(Clone, Copy, PartialEq, Eq, Structural, Debug)]
pub enum SoundType {
    Success,
    Error,
    Warning,
    Notification,
    Beep,
}

/// The tones of each sound.
pub struct SoundConfig {
    pub success_freq1: Frequency,
    pub success_freq2: Frequency,
    pub success_duration1: u64,
    pub success_duration2: u64,
    pub error_freq1: Frequency,
    pub error_freq2: Frequency,
    pub error_duration1: u64,
    pub error_duration2: u64,
    pub warning_freq: Frequency,
    pub warning_duration: u64,
    pub beep_freq: Frequency,
    pub beep_duration: u64,
}

/// The value of a `SoundConfig`, with each frequency as its literal.
pub struct SoundConfigView {
    pub success_freq1: Seq<char>,
    pub success_freq2: Seq<char>,
    pub success_duration1: u64,
    pub success_duration2: u64,
    pub error_freq1: Seq<char>,
    pub error_freq2: Seq<char>,
    pub error_duration1: u64,
    pub error_duration2: u64,
    pub warning_freq: Seq<char>,
    pub warning_duration: u64,
    pub beep_freq: Seq<char>,
    pub beep_duration: u64,
}

impl View for SoundConfig {
    type V = SoundConfigView;

    open spec fn view(&self) -> SoundConfigView {
        SoundConfigView {
            success_freq1: self.success_freq1@,
            success_freq2: self.success_freq2@,
            success_duration1: self.success_duration1,
            success_duration2: self.success_duration2,
            error_freq1: self.error_freq1@,
            error_freq2: self.error_freq2@,
            error_duration1: self.error_duration1,
            error_duration2: self.error_duration2,
            warning_freq: self.warning_freq@,
            warning_duration: self.warning_duration,
            beep_freq: self.beep_freq@,
            beep_duration: self.beep_duration,
        }
    }
}

/// The tones that the preferences `c` give.
pub open spec fn sounds_of(c: ConfigView) -> SoundConfigView {
    SoundConfigView {
        success_freq1: c.success_freq1,
        success_freq2: c.success_freq2,
        success_duration1: c.success_duration1,
        success_duration2: c.success_duration2,
        error_freq1: c.error_freq1,
        error_freq2: c.error_freq2,
        error_duration1: c.error_duration1,
        error_duration2: c.error_duration2,
        warning_freq: c.warning_freq,
        warning_duration: c.warning_duration,
        beep_freq: c.beep_freq,
        beep_duration: c.beep_duration,
    }
}

/// The default tones.
pub open spec fn default_sounds() -> SoundConfigView {
    SoundConfigView {
        success_freq1: decimal(440),
        success_freq2: decimal(880),
        success_duration1: 200,
        success_duration2: 200,
        error_freq1: decimal(220),
        error_freq2: decimal(110),
        error_duration1: 300,
        error_duration2: 300,
        warning_freq: decimal(660),
        warning_duration: 150,
        beep_freq: decimal(440),
        beep_duration: 150,
    }
}

impl SoundConfig {
    /// The default tones: 440 Hz then 880 Hz for success, 220 Hz then 110 Hz
    /// for errors, 660 Hz for warnings and 440 Hz for a beep.
    pub fn default() -> (s: SoundConfig)
        ensures
            s@ == default_sounds(),
    {
        SoundConfig {
            success_freq1: Frequency::from_hz(440),
            success_freq2: Frequency::from_hz(880),
            success_duration1: 200,
            success_duration2: 200,
            error_freq1: Frequency::from_hz(220),
            error_freq2: Frequency::from_hz(110),
            error_duration1: 300,
            error_duration2: 300,
            warning_freq: Frequency::from_hz(660),
            warning_duration: 150,
            beep_freq: Frequency::from_hz(440),
            beep_duration: 150,
        }
    }
}

/// Takes the tones from the preferences `config`.
pub fn configure_sounds(sounds: &mut SoundConfig, config: &Config)
    ensures
        final(sounds)@ == sounds_of(config@),
{
    sounds.success_freq1 = config.success_freq1.clone();
    sounds.success_freq2 = config.success_freq2.clone();
    sounds.success_duration1 = config.success_duration1;
    sounds.success_duration2 = config.success_duration2;
    sounds.error_freq1 = config.error_freq1.clone();
    sounds.error_freq2 = config.error_freq2.clone();
    sounds.error_duration1 = config.error_duration1;
    sounds.error_duration2 = config.error_duration2;
    sounds.warning_freq = config.warning_freq.clone();
    sounds.warning_duration = config.warning_duration;
    sounds.beep_freq = config.beep_freq.clone();
    sounds.beep_duration = config.beep_duration;
}

// ── Sounds as steps ──────────────────────────────────────────────────────────

/// One step of a sound: a sine tone, or a pause.
pub enum SoundStep {
    Tone { frequency: Frequency, duration_ms: u64 },
    Rest { ms: u64 },
}

/// The value of a `SoundStep`, with the frequency as its literal.
pub enum StepView {
    Tone(Seq<char>, u64),
    Rest(u64),
}

impl View for SoundStep {
    type V = StepView;

    open spec fn view(&self) -> StepView {
        match self {
            SoundStep::Tone { frequency, duration_ms } => StepView::Tone(frequency@, *duration_ms),
            SoundStep::Rest { ms } => StepView::Rest(*ms),
        }
    }
}

/// The values of the steps `v`.
pub open spec fn steps_view(v: Seq<SoundStep>) -> Seq<StepView> {
    v.map_values(|s: SoundStep| s@)
}

/// The success sound: two tones, 50 ms apart.
pub open spec fn success_steps(s: SoundConfigView) -> Seq<StepView> {
    seq![
        StepView::Tone(s.success_freq1, s.success_duration1),
        StepView::Rest(50),
        StepView::Tone(s.success_freq2, s.success_duration2),
    ]
}

/// The error sound: two tones, 100 ms apart.
pub open spec fn error_steps(s: SoundConfigView) -> Seq<StepView> {
    seq![
        StepView::Tone(s.error_freq1, s.error_duration1),
        StepView::Rest(100),
        StepView::Tone(s.error_freq2, s.error_duration2),
    ]
}

/// The warning sound: the same tone twice, 50 ms apart.
pub open spec fn warning_steps(s: SoundConfigView) -> Seq<StepView> {
    seq![
        StepView::Tone(s.warning_freq, s.warning_duration),
        StepView::Rest(50),
        StepView::Tone(s.warning_freq, s.warning_duration),
    ]
}

/// Each sound plays its tones in order, with its pause between them: the
/// success sound the first success tone, 50 ms of rest, then the second; the
/// error sound the first error tone, 100 ms, then the second; the warning
/// sound its tone, 50 ms, then its tone again.
pub proof fn lemma_sound_plans(s: SoundConfigView)
    ensures
        success_steps(s).len() == 3,
        success_steps(s)[0] == StepView::Tone(s.success_freq1, s.success_duration1),
        success_steps(s)[1] == StepView::Rest(50),
        success_steps(s)[2] == StepView::Tone(s.success_freq2, s.success_duration2),
        error_steps(s).len() == 3,
        error_steps(s)[0] == StepView::Tone(s.error_freq1, s.error_duration1),
        error_steps(s)[1] == StepView::Rest(100),
        error_steps(s)[2] == StepView::Tone(s.error_freq2, s.error_duration2),
        warning_steps(s).len() == 3,
        warning_steps(s)[0] == StepView::Tone(s.warning_freq, s.warning_duration),
        warning_steps(s)[1] == StepView::Rest(50),
        warning_steps(s)[2] == StepView::Tone(s.warning_freq, s.warning_duration),
{
}

/// The tones in use are the ones the preferences name, field by field; and
/// by default the success sound rises from 440 Hz to 880 Hz and the error
/// sound falls from 220 Hz to 110 Hz.
pub proof fn lemma_tones_follow_preferences(c: ConfigView)
    ensures
        sounds_of(c).success_freq1 == c.success_freq1 && sounds_of(c).success_freq2 == c.success_freq2,
        sounds_of(c).success_duration1 == c.success_duration1 && sounds_of(c).success_duration2
            == c.success_duration2,
        sounds_of(c).error_freq1 == c.error_freq1 && sounds_of(c).error_freq2 == c.error_freq2,
        sounds_of(c).error_duration1 == c.error_duration1 && sounds_of(c).error_duration2
            == c.error_duration2,
        sounds_of(c).warning_freq == c.warning_freq && sounds_of(c).warning_duration == c.warning_duration,
        sounds_of(c).beep_freq == c.beep_freq && sounds_of(c).beep_duration == c.beep_duration,
        default_sounds().success_freq1 == decimal(440) && default_sounds().success_freq2 == decimal(880),
        default_sounds().error_freq1 == decimal(220) && default_sounds().error_freq2 == decimal(110),
{
}

fn tone(frequency: &Frequency, duration_ms: u64) -> (r: SoundStep)
    ensures
        r@ == StepView::Tone(frequency@, duration_ms),
{
    SoundStep::Tone { frequency: frequency.clone(), duration_ms }
}

fn three_steps(a: SoundStep, b: SoundStep, c: SoundStep) -> (r: Vec<SoundStep>)
    ensures
        steps_view(r@) == seq![a@, b@, c@],
{
    let mut r = Vec::new();
    r.push(a);
    r.push(b);
    r.push(c);
    assert(steps_view(r@) =~= seq![a@, b@, c@]);
    r
}

/// The steps of the success sound.
pub fn play_success(sounds: &SoundConfig) -> (r: Vec<SoundStep>)
    ensures
        steps_view(r@) == success_steps(sounds@),
{
    three_steps(
        tone(&sounds.success_freq1, sounds.success_duration1),
        SoundStep::Rest { ms: 50 },
        tone(&sounds.success_freq2, sounds.success_duration2),
    )
}

/// The steps of the error sound.
pub fn play_error(sounds: &SoundConfig) -> (r: Vec<SoundStep>)
    ensures
        steps_view(r@) == error_steps(sounds@),
{
    three_steps(
        tone(&sounds.error_freq1, sounds.error_duration1),
        SoundStep::Rest { ms: 100 },
        tone(&sounds.error_freq2, sounds.error_duration2),
    )
}

/// The steps of the warning sound.
pub fn play_warning(sounds: &SoundConfig) -> (r: Vec<SoundStep>)
    ensures
        steps_view(r@) == warning_steps(sounds@),
{
    three_steps(
        tone(&sounds.warning_freq, sounds.warning_duration),
        SoundStep::Rest { ms: 50 },
        tone(&sounds.warning_freq, sounds.warning_duration),
    )
}

/// The steps of a single beep of `frequency` for `duration_ms`.
pub fn play_beep_pub(frequency: &Frequency, duration_ms: u64) -> (r: Vec<SoundStep>)
    ensures
        steps_view(r@) == seq![StepView::Tone(frequency@, duration_ms)],
{
    let mut r = Vec::new();
    r.push(tone(frequency, duration_ms));
    assert(steps_view(r@) =~= seq![StepView::Tone(frequency@, duration_ms)]);
    r
}

/// The sample rate of a beep, in samples per second.
pub const SAMPLE_RATE: u32 = 44100;

/// The number of samples of a beep of `duration_ms`, at 44100 samples per second.
pub fn beep_sample_count(duration_ms: u64) -> (n: usize)
    requires
        duration_ms * 44100 <= u64::MAX,
    ensures
        n == ((duration_ms * 44100 / 1000) as u64) as usize,
{
    (duration_ms * 44100 / 1000) as usize
}

// ── Messages with their sound ────────────────────────────────────────────────

/// Whether `t` is `prefix` followed by `msg`, styled in `look` when colors are on.
pub open spec fn prefixed(colors_on: bool, prefix: Seq<char>, msg: Seq<char>, look: Look, t: Seq<char>) -> bool {
    &&& t.len() >= prefix.len()
    &&& t.take(prefix.len() as int) == prefix
    &&& if colors_on {
        painted(t.skip(prefix.len() as int), msg, look)
    } else {
        t.skip(prefix.len() as int) == msg
    }
}

/// What a message that always plays its sound does: print the line, then
/// play the sound (whatever the sound switch says).
pub open spec fn print_and_play(t: Seq<char>, sound: Seq<StepView>) -> Seq<EffectView> {
    seq![EffectView::Print(t.push('\n')), EffectView::Play(sound)]
}

pub(crate) fn prefix_line(prefix: &str, body: String, msg: Ghost<Seq<char>>, look: Ghost<Look>, colors_on: Ghost<bool>) -> (t: String)
    requires
        if colors_on@ {
            painted(body@, msg@, look@)
        } else {
            body@ == msg@
        },
    ensures
        prefixed(colors_on@, prefix@, msg@, look@, t@),
{
    let mut t = prefix.to_string();
    push_str(&mut t, body.as_str());
    assert(t@.take(prefix@.len() as int) =~= prefix@);
    assert(t@.skip(prefix@.len() as int) =~= body@);
    t
}

pub(crate) fn print_then(t: String, steps: Vec<SoundStep>) -> (out: Vec<Effect>)
    ensures
        effects_view(out@) == print_and_play(t@, steps_view(steps@)),
{
    let mut out = Vec::new();
    out.push(Effect::Print(line_of(t.as_str())));
    out.push(Effect::Play(steps));
    assert(effects_view(out@) =~= print_and_play(t@, steps_view(steps@)));
    out
}

/// Prints `[✓] ` and the message (green when colors are on), then plays
/// the success sound.
pub fn success_message(settings: &Settings, message: &str) -> (out: Vec<Effect>)
    ensures
        exists|t: Seq<char>|
            #[trigger] prefixed(settings@.color_enabled, "[\u{2713}] "@, message@, fg(Color::Green), t)
                && effects_view(out@) == print_and_play(t, success_steps(settings@.sounds)),
{
    let colors_on = settings.color_enabled();
    let body = if colors_on {
        paint(message, Color::Green)
    } else {
        message.to_string()
    };
    let t = prefix_line("[\u{2713}] ", body, Ghost(message@), Ghost(fg(Color::Green)), Ghost(colors_on));
    let ghost tv = t@;
    let out = print_then(t, play_success(settings.sounds()));
    assert(prefixed(settings@.color_enabled, "[\u{2713}] "@, message@, fg(Color::Green), tv));
    out
}

/// Prints `[✗] ` and the message (bold red when colors are on), then plays
/// the error sound.
pub fn error_message(settings: &Settings, message: &str) -> (out: Vec<Effect>)
    ensures
        exists|t: Seq<char>|
            #[trigger] prefixed(settings@.color_enabled, "[\u{2717}] "@, message@, fg_bold(Color::Red), t)
                && effects_view(out@) == print_and_play(t, error_steps(settings@.sounds)),
{
    let colors_on = settings.color_enabled();
    let body = if colors_on {
        paint_bold(message, Color::Red)
    } else {
        message.to_string()
    };
    let t = prefix_line("[\u{2717}] ", body, Ghost(message@), Ghost(fg_bold(Color::Red)), Ghost(colors_on));
    let ghost tv = t@;
    let out = print_then(t, play_error(settings.sounds()));
    assert(prefixed(settings@.color_enabled, "[\u{2717}] "@, message@, fg_bold(Color::Red), tv));
    out
}

} // verus!
