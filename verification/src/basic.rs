//! The basic flavor of the library: a colors switch and a sound switch, no
//! preferences file, no sync between the switches, no pulsing, and fixed
//! tones.  Messages print their line and then play their sound while sound
//! is on.
use vstd::prelude::*;
use crate::colors::{self, framed};
use crate::config::Frequency;
use crate::messages::{
    LineKind, critical_kind, critical_text, error_kind, error_text, info_kind, info_text, message_line,
    success_kind, success_text, warn_kind, warn_text,
};
use crate::output::{Effect, EffectView, effects_view, line_of};
use crate::paint::{Color, bold_only, embolden, fg, fg_bold, paint, paint_bold, painted};
use crate::sound::{SoundStep, SoundType, StepView, prefix_line, prefixed, print_and_play, print_then, steps_view};
use crate::spinner::{completion_line, failure_kind, finish_line, frame_line, frame_text};
use crate::text::{decimal, push_char, push_str};

verus! {

/// The two switches, and the one running flag that every spinner and
/// progress line shares.
#[derive(Clone, Copy, PartialEq, Eq, Structural, Debug)]
pub struct Switches {
    pub color_enabled: bool,
    pub sound_enabled: bool,
    pub spinner_running: bool,
}

impl Switches {
    /// Colors and sound on, no spinner running.
    pub fn new() -> (s: Switches)
        ensures
            s == (Switches { color_enabled: true, sound_enabled: true, spinner_running: false }),
    {
        Switches { color_enabled: true, sound_enabled: true, spinner_running: false }
    }
}

/// Turns colors on.
pub fn enable_colors(s: &mut Switches)
    ensures
        *final(s) == (Switches { color_enabled: true, ..*old(s) }),
{
    s.color_enabled = true;
}

/// Turns colors off.
pub fn disable_colors(s: &mut Switches)
    ensures
        *final(s) == (Switches { color_enabled: false, ..*old(s) }),
{
    s.color_enabled = false;
}

/// Turns sound on.
pub fn enable_sound(s: &mut Switches)
    ensures
        *final(s) == (Switches { sound_enabled: true, ..*old(s) }),
{
    s.sound_enabled = true;
}

/// Turns sound off.
pub fn disable_sound(s: &mut Switches)
    ensures
        *final(s) == (Switches { sound_enabled: false, ..*old(s) }),
{
    s.sound_enabled = false;
}

// ── Fixed tones ──────────────────────────────────────────────────────────────

/// The success sound: 440 Hz then 880 Hz, 200 ms each, 50 ms apart.
pub open spec fn success_tones() -> Seq<StepView> {
    seq![StepView::Tone(decimal(440), 200), StepView::Rest(50), StepView::Tone(decimal(880), 200)]
}

/// The error sound: 220 Hz then 110 Hz, 300 ms each, 100 ms apart.
pub open spec fn error_tones() -> Seq<StepView> {
    seq![StepView::Tone(decimal(220), 300), StepView::Rest(100), StepView::Tone(decimal(110), 300)]
}

/// The warning sound: 660 Hz twice, 150 ms each, 50 ms apart.
pub open spec fn warning_tones() -> Seq<StepView> {
    seq![StepView::Tone(decimal(660), 150), StepView::Rest(50), StepView::Tone(decimal(660), 150)]
}

/// The beep: 440 Hz for 150 ms.
pub open spec fn beep_tones() -> Seq<StepView> {
    seq![StepView::Tone(decimal(440), 150)]
}

/// The fixed sounds: success rises from 440 Hz to 880 Hz (200 ms each, 50 ms
/// apart), error falls from 220 Hz to 110 Hz (300 ms each, 100 ms apart),
/// the warning is 660 Hz twice (150 ms each, 50 ms apart), the beep 440 Hz
/// for 150 ms.
pub proof fn lemma_fixed_tones()
    ensures
        success_tones() == seq![StepView::Tone(decimal(440), 200), StepView::Rest(50), StepView::Tone(decimal(880), 200)],
        error_tones() == seq![StepView::Tone(decimal(220), 300), StepView::Rest(100), StepView::Tone(decimal(110), 300)],
        warning_tones() == seq![StepView::Tone(decimal(660), 150), StepView::Rest(50), StepView::Tone(decimal(660), 150)],
        beep_tones() == seq![StepView::Tone(decimal(440), 150)],
{
}

fn tones(hz1: u64, ms1: u64, rest: u64, hz2: u64, ms2: u64) -> (r: Vec<SoundStep>)
    ensures
        steps_view(r@) == seq![
            StepView::Tone(decimal(hz1 as nat), ms1),
            StepView::Rest(rest),
            StepView::Tone(decimal(hz2 as nat), ms2),
        ],
{
    let mut r = Vec::new();
    r.push(SoundStep::Tone { frequency: Frequency::from_hz(hz1), duration_ms: ms1 });
    r.push(SoundStep::Rest { ms: rest });
    r.push(SoundStep::Tone { frequency: Frequency::from_hz(hz2), duration_ms: ms2 });
    assert(steps_view(r@) =~= seq![
        StepView::Tone(decimal(hz1 as nat), ms1),
        StepView::Rest(rest),
        StepView::Tone(decimal(hz2 as nat), ms2),
    ]);
    r
}

/// The steps of the success sound.
pub fn play_success_sound() -> (r: Vec<SoundStep>)
    ensures
        steps_view(r@) == success_tones(),
{
    tones(440, 200, 50, 880, 200)
}

/// The steps of the error sound.
pub fn play_error_sound() -> (r: Vec<SoundStep>)
    ensures
        steps_view(r@) == error_tones(),
{
    tones(220, 300, 100, 110, 300)
}

/// The steps of the warning sound.
pub fn play_warning_sound() -> (r: Vec<SoundStep>)
    ensures
        steps_view(r@) == warning_tones(),
{
    tones(660, 150, 50, 660, 150)
}

fn play_beep() -> (r: Vec<SoundStep>)
    ensures
        steps_view(r@) == beep_tones(),
{
    let mut r = Vec::new();
    r.push(SoundStep::Tone { frequency: Frequency::from_hz(440), duration_ms: 150 });
    assert(steps_view(r@) =~= beep_tones());
    r
}

// ── Messages ─────────────────────────────────────────────────────────────────

/// What a basic message does: print its line, then play its sound while
/// sound is on.
pub open spec fn print_then_play(sound_on: bool, line: Seq<char>, tones: Seq<StepView>) -> Seq<EffectView> {
    seq![EffectView::Print(line.push('\n'))] + if sound_on {
        seq![EffectView::Play(tones)]
    } else {
        seq![]
    }
}

/// Whether `out` prints a line that `message_line` allows and then plays `tones`.
pub open spec fn basic_effects(
    s: Switches,
    kind: LineKind,
    msg: Seq<char>,
    tones: Seq<StepView>,
    out: Seq<EffectView>,
) -> bool {
    exists|t: Seq<char>|
        #[trigger] message_line(s.color_enabled, kind, msg, t) && out == print_then_play(
            s.sound_enabled,
            t,
            tones,
        )
}

fn print_then_play_exec(sound_on: bool, line: &str, steps: Vec<SoundStep>) -> (out: Vec<Effect>)
    ensures
        effects_view(out@) == print_then_play(sound_on, line@, steps_view(steps@)),
{
    let mut out = Vec::new();
    out.push(Effect::Print(line_of(line)));
    if sound_on {
        out.push(Effect::Play(steps));
    }
    assert(effects_view(out@) =~= print_then_play(sound_on, line@, steps_view(steps@)));
    out
}

/// Prints a success message and plays the success sound.
pub fn success(s: &Switches, msg: &str) -> (out: Vec<Effect>)
    ensures
        basic_effects(*s, success_kind(), msg@, success_tones(), effects_view(out@)),
{
    let line = success_text(s.color_enabled, msg);
    assert(message_line(s.color_enabled, success_kind(), msg@, line@));
    print_then_play_exec(s.sound_enabled, line.as_str(), play_success_sound())
}

/// Prints an error message and plays the error sound.
pub fn error(s: &Switches, msg: &str) -> (out: Vec<Effect>)
    ensures
        basic_effects(*s, error_kind(), msg@, error_tones(), effects_view(out@)),
{
    let line = error_text(s.color_enabled, msg);
    assert(message_line(s.color_enabled, error_kind(), msg@, line@));
    print_then_play_exec(s.sound_enabled, line.as_str(), play_error_sound())
}

/// Prints a warning and plays the warning sound.
pub fn warn(s: &Switches, msg: &str) -> (out: Vec<Effect>)
    ensures
        basic_effects(*s, warn_kind(), msg@, warning_tones(), effects_view(out@)),
{
    let line = warn_text(s.color_enabled, msg);
    assert(message_line(s.color_enabled, warn_kind(), msg@, line@));
    print_then_play_exec(s.sound_enabled, line.as_str(), play_warning_sound())
}

/// The same as `warn`.
pub fn warning(s: &Switches, msg: &str) -> (out: Vec<Effect>)
    ensures
        basic_effects(*s, warn_kind(), msg@, warning_tones(), effects_view(out@)),
{
    warn(s, msg)
}

/// Prints a critical message (bold red on black when colors are on) and
/// plays the error sound, whatever the sound switch says.
pub fn critical(s: &Switches, msg: &str) -> (out: Vec<Effect>)
    ensures
        exists|t: Seq<char>|
            #[trigger] message_line(s.color_enabled, critical_kind(), msg@, t) && effects_view(out@)
                == print_then_play(true, t, error_tones()),
{
    let line = critical_text(s.color_enabled, msg);
    assert(message_line(s.color_enabled, critical_kind(), msg@, line@));
    print_then_play_exec(true, line.as_str(), play_error_sound())
}

/// The same as `success`.
pub fn sound_success(s: &Switches, msg: &str) -> (out: Vec<Effect>)
    ensures
        basic_effects(*s, success_kind(), msg@, success_tones(), effects_view(out@)),
{
    success(s, msg)
}

/// The same as `error`.
pub fn sound_error(s: &Switches, msg: &str) -> (out: Vec<Effect>)
    ensures
        basic_effects(*s, error_kind(), msg@, error_tones(), effects_view(out@)),
{
    error(s, msg)
}

/// Prints an information message; it has no sound.
pub fn info(s: &Switches, msg: &str) -> (out: Vec<Effect>)
    ensures
        exists|t: Seq<char>|
            #[trigger] message_line(s.color_enabled, info_kind(), msg@, t) && effects_view(out@)
                == seq![EffectView::Print(t.push('\n'))],
{
    let line = info_text(s.color_enabled, msg);
    let out = print_then_play_exec(false, line.as_str(), Vec::new());
    assert(effects_view(out@) =~= seq![EffectView::Print(line@.push('\n'))]);
    out
}

/// Prints `msg` in bold and `color` when colors are on, as it is otherwise.
pub fn colored_msg(s: &Switches, msg: &str, color: Color) -> (out: Vec<Effect>)
    ensures
        exists|t: Seq<char>|
            #[trigger] painted(t, msg@, fg_bold(color)) && (s.color_enabled || t == msg@) && effects_view(out@)
                == seq![EffectView::Print(t.push('\n'))],
{
    let line = colors::colorize(s.color_enabled, msg, color);
    let out = print_then_play_exec(false, line.as_str(), Vec::new());
    assert(effects_view(out@) =~= seq![EffectView::Print(line@.push('\n'))]);
    assert(painted(line@, msg@, fg_bold(color)));
    out
}

/// The tag `  ✓ VALID`.
pub fn status_valid(s: &Switches) -> (r: String)
    ensures
        if s.color_enabled {
            framed(r@, "  "@, "\u{2713}"@, fg_bold(Color::Green), " VALID"@)
        } else {
            r@ == "  [\u{2713}] VALID"@
        },
{
    colors::valid_prefix(s.color_enabled)
}

/// The tag `  ⚠ WARN`.
pub fn status_warn(s: &Switches) -> (r: String)
    ensures
        if s.color_enabled {
            framed(r@, "  "@, "\u{26a0}"@, fg_bold(Color::Yellow), " WARN"@)
        } else {
            r@ == "  [\u{26a0}] WARN"@
        },
{
    colors::warn_prefix(s.color_enabled)
}

/// The tag `  ✗ ERROR`.
pub fn status_error(s: &Switches) -> (r: String)
    ensures
        if s.color_enabled {
            framed(r@, "  "@, "\u{2717}"@, fg_bold(Color::Red), " ERROR"@)
        } else {
            r@ == "  [\u{2717}] ERROR"@
        },
{
    colors::error_prefix(s.color_enabled)
}

// ── Spinner and messages with their sound ────────────────────────────────────

/// A spinner or progress line: its message, whether colors were on when it
/// started, and the frame it shows next.  Whether it still runs is the
/// `spinner_running` flag of the switches, which all of them share.
pub struct SpinnerHandle {
    message: String,
    colors_enabled: bool,
    frame: usize,
}

/// The value of a basic `SpinnerHandle`.
pub struct SpinnerHandleView {
    pub message: Seq<char>,
    pub colors_enabled: bool,
    pub frame: usize,
}

impl View for SpinnerHandle {
    type V = SpinnerHandleView;

    closed spec fn view(&self) -> SpinnerHandleView {
        SpinnerHandleView { message: self.message@, colors_enabled: self.colors_enabled, frame: self.frame }
    }
}

/// Starts a progress line for `msg`: the shared flag is set, and the
/// frames are cyan while colors were on at the start.
pub fn progress(s: &mut Switches, msg: &str) -> (h: SpinnerHandle)
    ensures
        *final(s) == (Switches { spinner_running: true, ..*old(s) }),
        h@ == (SpinnerHandleView { message: msg@, colors_enabled: old(s).color_enabled, frame: 0 }),
{
    s.spinner_running = true;
    SpinnerHandle { message: msg.to_string(), colors_enabled: s.color_enabled, frame: 0 }
}

/// A spinner for `msg`: the same as `progress`.
pub fn spinner(s: &mut Switches, msg: &str) -> (h: SpinnerHandle)
    ensures
        *final(s) == (Switches { spinner_running: true, ..*old(s) }),
        h@ == (SpinnerHandleView { message: msg@, colors_enabled: old(s).color_enabled, frame: 0 }),
{
    progress(s, msg)
}

/// Stops every spinner and gives the success line that replaces it.
pub fn progress_complete(s: &mut Switches, msg: &str) -> (r: String)
    ensures
        *final(s) == (Switches { spinner_running: false, ..*old(s) }),
        finish_line(old(s).color_enabled, success_kind(), msg@, r@),
{
    s.spinner_running = false;
    completion_line(s.color_enabled, msg)
}

/// Stops every spinner and gives the failure line that replaces it.
pub fn progress_fail(s: &mut Switches, msg: &str) -> (r: String)
    ensures
        *final(s) == (Switches { spinner_running: false, ..*old(s) }),
        finish_line(old(s).color_enabled, failure_kind(), msg@, r@),
{
    s.spinner_running = false;
    crate::spinner::failure_line(s.color_enabled, msg)
}

impl SpinnerHandle {
    /// How long each frame is shown, in ms.
    pub fn speed_ms(&self) -> (r: u64)
        ensures
            r == 100,
    {
        100
    }

    /// The next frame to show while spinners run (cyan, not bold, while
    /// colors were on at the start), and a step to the frame after it;
    /// nothing once they were stopped.
    pub fn next_frame(&mut self, s: &Switches) -> (r: Option<String>)
        ensures
            match r {
                Some(line) => s.spinner_running && frame_line(
                    old(self)@.colors_enabled,
                    false,
                    (old(self)@.frame % 4) as int,
                    old(self)@.message,
                    line@,
                ) && final(self)@ == (SpinnerHandleView {
                    frame: ((old(self)@.frame % 4 + 1) % 4) as usize,
                    ..old(self)@
                }),
                None => !s.spinner_running && final(self)@ == old(self)@,
            },
    {
        if !s.spinner_running {
            return None;
        }
        let i = self.frame % 4;
        let line = frame_text(self.colors_enabled, false, i, self.message.as_str());
        self.frame = (i + 1) % 4;
        Some(line)
    }

    /// Stops every spinner and gives the success line.
    pub fn finish_success(&self, s: &mut Switches, msg: &str) -> (r: String)
        ensures
            *final(s) == (Switches { spinner_running: false, ..*old(s) }),
            finish_line(old(s).color_enabled, success_kind(), msg@, r@),
    {
        progress_complete(s, msg)
    }

    /// Stops every spinner and gives the failure line.
    pub fn finish_error(&self, s: &mut Switches, msg: &str) -> (r: String)
        ensures
            *final(s) == (Switches { spinner_running: false, ..*old(s) }),
            finish_line(old(s).color_enabled, failure_kind(), msg@, r@),
    {
        progress_fail(s, msg)
    }
}

/// Prints `[✓] ` and the message (green when colors are on), then plays the
/// success sound, whatever the sound switch says.
pub fn success_message(s: &Switches, message: &str) -> (out: Vec<Effect>)
    ensures
        exists|t: Seq<char>|
            #[trigger] prefixed(s.color_enabled, "[\u{2713}] "@, message@, fg(Color::Green), t) && effects_view(out@)
                == print_and_play(t, success_tones()),
{
    let body = if s.color_enabled {
        paint(message, Color::Green)
    } else {
        message.to_string()
    };
    let t = prefix_line("[\u{2713}] ", body, Ghost(message@), Ghost(fg(Color::Green)), Ghost(s.color_enabled));
    let ghost tv = t@;
    let out = print_then(t, play_success_sound());
    assert(prefixed(s.color_enabled, "[\u{2713}] "@, message@, fg(Color::Green), tv));
    out
}

/// Prints `[✗] ` and the message (bold red when colors are on), then plays
/// the error sound, whatever the sound switch says.
pub fn error_message(s: &Switches, message: &str) -> (out: Vec<Effect>)
    ensures
        exists|t: Seq<char>|
            #[trigger] prefixed(s.color_enabled, "[\u{2717}] "@, message@, fg_bold(Color::Red), t) && effects_view(out@)
                == print_and_play(t, error_tones()),
{
    let body = if s.color_enabled {
        paint_bold(message, Color::Red)
    } else {
        message.to_string()
    };
    let t = prefix_line("[\u{2717}] ", body, Ghost(message@), Ghost(fg_bold(Color::Red)), Ghost(s.color_enabled));
    let ghost tv = t@;
    let out = print_then(t, play_error_sound());
    assert(prefixed(s.color_enabled, "[\u{2717}] "@, message@, fg_bold(Color::Red), tv));
    out
}

// ── MessageBuilder ───────────────────────────────────────────────────────────

/// A message being put together.
pub struct MessageBuilder {
    text: String,
    color: Option<Color>,
    symbol: Option<String>,
    sound: Option<SoundType>,
    blink: bool,
}

/// The value of a basic `MessageBuilder`.
pub struct MessageBuilderView {
    pub text: Seq<char>,
    pub color: Option<Color>,
    pub symbol: Option<Seq<char>>,
    pub sound: Option<SoundType>,
    pub blink: bool,
}

impl View for MessageBuilder {
    type V = MessageBuilderView;

    closed spec fn view(&self) -> MessageBuilderView {
        MessageBuilderView {
            text: self.text@,
            color: self.color,
            symbol: match self.symbol {
                Some(s) => Some(s@),
                None => None,
            },
            sound: self.sound,
            blink: self.blink,
        }
    }
}

/// Whether `c` is the text of `b` as shown: while colors are on, in its
/// color if it has one, and in bold if it blinks; as it is otherwise.
pub open spec fn shown_text(s: Switches, b: MessageBuilderView, c: Seq<char>) -> bool {
    if s.color_enabled {
        match b.color {
            Some(col) => painted(c, b.text, if b.blink { fg_bold(col) } else { fg(col) }),
            None => if b.blink {
                painted(c, b.text, bold_only())
            } else {
                c == b.text
            },
        }
    } else {
        c == b.text
    }
}

/// Whether `r` is the built message: the symbol and a space, if any, then
/// the shown text.
pub open spec fn built(s: Switches, b: MessageBuilderView, r: Seq<char>) -> bool {
    let shown = |c: Seq<char>| shown_text(s, b, c);
    match b.symbol {
        Some(sym) => r.len() > sym.len() && r.take(sym.len() as int) == sym && r[sym.len() as int]
            == ' ' && shown(r.skip(sym.len() + 1int)),
        None => shown(r),
    }
}

/// The steps of the sound `t`; none without a sound.
pub open spec fn tones_of(t: Option<SoundType>) -> Seq<StepView> {
    match t {
        Some(SoundType::Success) => success_tones(),
        Some(SoundType::Error) => error_tones(),
        Some(SoundType::Warning) => warning_tones(),
        Some(SoundType::Notification) => warning_tones(),
        Some(SoundType::Beep) => beep_tones(),
        None => seq![],
    }
}

/// A builder for the message `msg`.
pub fn message(msg: &str) -> (b: MessageBuilder)
    ensures
        b@ == (MessageBuilderView { text: msg@, color: None, symbol: None, sound: None, blink: false }),
{
    MessageBuilder::new(msg)
}

impl MessageBuilder {
    /// A builder for the message `msg`, with no color, symbol or sound.
    pub fn new(msg: &str) -> (b: MessageBuilder)
        ensures
            b@ == (MessageBuilderView { text: msg@, color: None, symbol: None, sound: None, blink: false }),
    {
        MessageBuilder { text: msg.to_string(), color: None, symbol: None, sound: None, blink: false }
    }

    /// Gives the message the color `c`.
    pub fn color(self, c: Color) -> (b: MessageBuilder)
        ensures
            b@ == (MessageBuilderView { color: Some(c), ..self@ }),
    {
        MessageBuilder { color: Some(c), ..self }
    }

    /// Puts the symbol `sym` before the message.
    pub fn with_symbol(self, sym: &str) -> (b: MessageBuilder)
        ensures
            b@ == (MessageBuilderView { symbol: Some(sym@), ..self@ }),
    {
        MessageBuilder { symbol: Some(sym.to_string()), ..self }
    }

    /// Gives the message the sound `t`.
    pub fn with_sound(self, t: SoundType) -> (b: MessageBuilder)
        ensures
            b@ == (MessageBuilderView { sound: Some(t), ..self@ }),
    {
        MessageBuilder { sound: Some(t), ..self }
    }

    /// Asks for blinking text, shown as bold while colors are on.
    pub fn blinking(self) -> (b: MessageBuilder)
        ensures
            b@ == (MessageBuilderView { blink: true, ..self@ }),
    {
        MessageBuilder { blink: true, ..self }
    }

    /// Appends a space and `t` to the message.
    pub fn text(self, t: &str) -> (b: MessageBuilder)
        ensures
            b@ == (MessageBuilderView { text: self@.text + seq![' '] + t@, ..self@ }),
    {
        let ghost before = self@.text;
        let mut text = self.text;
        push_char(&mut text, ' ');
        push_str(&mut text, t);
        assert(text@ =~= before + seq![' '] + t@);
        MessageBuilder { text, ..self }
    }

    /// Appends a space and `t`, in the color `c` when colors are on.
    pub fn colored_text(self, s: &Switches, t: &str, c: Color) -> (b: MessageBuilder)
        ensures
            b@.color == self@.color,
            b@.symbol == self@.symbol,
            b@.sound == self@.sound,
            b@.blink == self@.blink,
            b@.text.len() > self@.text.len(),
            b@.text.take(self@.text.len() as int) == self@.text,
            b@.text[self@.text.len() as int] == ' ',
            if s.color_enabled {
                painted(b@.text.skip(self@.text.len() + 1int), t@, fg(c))
            } else {
                b@.text.skip(self@.text.len() + 1int) == t@
            },
    {
        let fragment = if s.color_enabled {
            paint(t, c)
        } else {
            t.to_string()
        };
        let ghost n = self@.text.len();
        let mut text = self.text;
        push_char(&mut text, ' ');
        push_str(&mut text, fragment.as_str());
        assert(text@.take(n as int) =~= self@.text);
        assert(text@.skip(n + 1int) =~= fragment@);
        MessageBuilder { text, ..self }
    }

    /// The message as shown.
    pub fn build(&self, s: &Switches) -> (r: String)
        ensures
            built(*s, self@, r@),
    {
        let mut out = self.text.clone();
        if s.color_enabled {
            match self.color {
                Some(c) => {
                    out = if self.blink {
                        paint_bold(self.text.as_str(), c)
                    } else {
                        paint(self.text.as_str(), c)
                    };
                },
                None => {
                    if self.blink {
                        out = embolden(self.text.as_str());
                    }
                },
            }
        }
        match &self.symbol {
            Some(sym) => {
                let mut r = sym.clone();
                push_char(&mut r, ' ');
                push_str(&mut r, out.as_str());
                let ghost n = sym@.len();
                assert(r@.take(n as int) =~= sym@);
                assert(r@.skip(n + 1int) =~= out@);
                r
            },
            None => out,
        }
    }

    /// Sends the message: prints it, then plays its sound while sound is on.
    pub fn send(&self, s: &Switches) -> (out: Vec<Effect>)
        ensures
            exists|line: Seq<char>|
                #[trigger] built(*s, self@, line) && effects_view(out@) == print_then_play(
                    s.sound_enabled && self@.sound is Some,
                    line,
                    tones_of(self@.sound),
                ),
    {
        let line = self.build(s);
        let steps = match self.sound {
            Some(SoundType::Success) => play_success_sound(),
            Some(SoundType::Error) => play_error_sound(),
            Some(SoundType::Warning) => play_warning_sound(),
            Some(SoundType::Notification) => play_warning_sound(),
            Some(SoundType::Beep) => play_beep(),
            None => {
                let r = Vec::new();
                assert(steps_view(r@) =~= seq![]);
                r
            },
        };
        let out = print_then_play_exec(s.sound_enabled && self.sound.is_some(), line.as_str(), steps);
        assert(built(*s, self@, line@));
        out
    }
}

impl Default for MessageBuilder {
    fn default() -> (b: MessageBuilder)
        ensures
            b@ == (MessageBuilderView { text: Seq::empty(), color: None, symbol: None, sound: None, blink: false }),
    {
        let b = MessageBuilder::new("");
        proof {
            reveal_strlit("");
        }
        assert(b@.text =~= Seq::<char>::empty());
        b
    }
}

} // verus!
