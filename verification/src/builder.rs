//! `MessageBuilder`: a message put together step by step, with an optional
//! color, symbol and sound.
use vstd::prelude::*;
use crate::output::{
    Effect, EffectView, bold, clear_line, effects_view, line_of, make_bold, push_clear_line,
};
use crate::paint::{Color, Look, fg, paint, painted};
use crate::settings::{Settings, SettingsView, beep_count_of, get_beep_count};
use crate::sound::{
    self, SoundStep, SoundType, StepView, error_steps, steps_view, success_steps, warning_steps,
};
use crate::text::{push_char, push_str};

verus! {

/// A message being put together.
pub struct MessageBuilder {
    text: String,
    color: Option<Color>,
    symbol: Option<String>,
    sound: Option<SoundType>,
    force_pulse: bool,
}

/// The value of a `MessageBuilder`.
pub struct MessageBuilderView {
    pub text: Seq<char>,
    pub color: Option<Color>,
    pub symbol: Option<Seq<char>>,
    pub sound: Option<SoundType>,
    pub force_pulse: bool,
}

impl View for MessageBuilder {
    type V = MessageBuilderView;

    closed spec fn view(&self) -> MessageBuilderView {
        MessageBuilderView {
            text: self.text@,
            color: self.color,
            symbol: match self.symbol {
                Some(s) => Some(s@),
                None => None,
            },
            sound: self.sound,
            force_pulse: self.force_pulse,
        }
    }
}

/// Whether `c` is the text of `b` as shown: in `b`'s color when colors are
/// on and `b` has a color, as it is otherwise.
pub open spec fn shown_text(v: SettingsView, b: MessageBuilderView, c: Seq<char>) -> bool {
    if v.color_enabled && b.color is Some {
        painted(c, b.text, fg(b.color.unwrap()))
    } else {
        c == b.text
    }
}

/// Whether `r` is the built message: the symbol and a space, if there is a
/// symbol, then the shown text.
pub open spec fn built(v: SettingsView, b: MessageBuilderView, r: Seq<char>) -> bool {
    match b.symbol {
        Some(sym) => r.len() > sym.len() && r.take(sym.len() as int) == sym && r[sym.len() as int]
            == ' ' && shown_text(v, b, r.skip(sym.len() + 1int)),
        None => shown_text(v, b, r),
    }
}

/// The steps of the sound `s` under the settings `v`; none without a sound.
pub open spec fn sound_steps(v: SettingsView, s: Option<SoundType>) -> Seq<StepView> {
    match s {
        Some(SoundType::Success) => success_steps(v.sounds),
        Some(SoundType::Error) => error_steps(v.sounds),
        Some(SoundType::Warning) => warning_steps(v.sounds),
        Some(SoundType::Notification) => warning_steps(v.sounds),
        Some(SoundType::Beep) => seq![StepView::Tone(v.config.beep_freq, v.config.beep_duration)],
        None => seq![],
    }
}

/// What sending `b` does, with the built message `output`: a message that
/// beeps and pulses (forced, or pulsing is on) is shown in bold while its
/// sound plays, then the line ends; any other is printed, then its sound plays.
/// The sound plays only while sound is on.
pub open spec fn send_effects(v: SettingsView, b: MessageBuilderView, output: Seq<char>) -> Seq<EffectView> {
    let beeps = beep_count_of(v.config, b.sound);
    let play: Seq<EffectView> = if v.sound_enabled {
        seq![EffectView::Play(sound_steps(v, b.sound))]
    } else {
        seq![]
    };
    if beeps > 0 && (b.force_pulse || v.pulse_enabled) {
        seq![EffectView::Print(clear_line() + bold(output))] + play + seq![EffectView::Print(seq!['\n'])]
    } else {
        seq![EffectView::Print(output.push('\n'))] + play
    }
}

/// What sending a built message does: a message whose sound has beeps and
/// that pulses (forced by `blinking`, or pulsing is on) is shown bold
/// (`\r ESC[K ESC[1m` … `ESC[0m`), then its sound while sound is on, then a
/// line break; any other message is printed with its line break, then its
/// sound while sound is on.  The message is in its own color exactly when
/// colors are on and it has one.
pub proof fn lemma_send(v: SettingsView, b: MessageBuilderView, output: Seq<char>, c: Seq<char>)
    ensures
        ({
            let e = send_effects(v, b, output);
            let beeps = beep_count_of(v.config, b.sound) > 0;
            let pulses = beeps && (b.force_pulse || v.pulse_enabled);
            let boldline = seq!['\r', '\u{1b}', '[', 'K', '\u{1b}', '[', '1', 'm'] + output + seq![
                '\u{1b}',
                '[',
                '0',
                'm',
            ];
            let play = EffectView::Play(sound_steps(v, b.sound));
            &&& pulses && v.sound_enabled ==> e == seq![EffectView::Print(boldline), play, EffectView::Print(seq!['\n'])]
            &&& pulses && !v.sound_enabled ==> e == seq![EffectView::Print(boldline), EffectView::Print(seq!['\n'])]
            &&& !pulses && v.sound_enabled ==> e == seq![EffectView::Print(output + seq!['\n']), play]
            &&& !pulses && !v.sound_enabled ==> e == seq![EffectView::Print(output + seq!['\n'])]
        }),
        v.color_enabled && b.color is Some ==> (shown_text(v, b, c) <==> painted(
            c,
            b.text,
            Look { color: b.color, bold: false, on_black: false },
        )),
        !(v.color_enabled && b.color is Some) ==> (shown_text(v, b, c) <==> c == b.text),
{
    assert(output.push('\n') =~= output + seq!['\n']);
    assert(clear_line() + bold(output) =~= seq!['\r', '\u{1b}', '[', 'K', '\u{1b}', '[', '1', 'm'] + output + seq![
        '\u{1b}',
        '[',
        '0',
        'm',
    ]);
    let play: Seq<EffectView> = if v.sound_enabled {
        seq![EffectView::Play(sound_steps(v, b.sound))]
    } else {
        seq![]
    };
    assert(seq![EffectView::Print(clear_line() + bold(output))] + play + seq![EffectView::Print(seq!['\n'])] =~= if v.sound_enabled {
        seq![EffectView::Print(clear_line() + bold(output)), EffectView::Play(sound_steps(v, b.sound)), EffectView::Print(seq!['\n'])]
    } else {
        seq![EffectView::Print(clear_line() + bold(output)), EffectView::Print(seq!['\n'])]
    });
    assert(seq![EffectView::Print(output.push('\n'))] + play =~= if v.sound_enabled {
        seq![EffectView::Print(output.push('\n')), EffectView::Play(sound_steps(v, b.sound))]
    } else {
        seq![EffectView::Print(output.push('\n'))]
    });
}

/// A builder for the message `msg`.
pub fn message(msg: &str) -> (b: MessageBuilder)
    ensures
        b@ == (MessageBuilderView { text: msg@, color: None, symbol: None, sound: None, force_pulse: false }),
{
    MessageBuilder::new(msg)
}

/// The steps of the sound `s`.
fn steps_of(settings: &Settings, s: Option<SoundType>) -> (r: Vec<SoundStep>)
    ensures
        steps_view(r@) == sound_steps(settings@, s),
{
    match s {
        Some(SoundType::Success) => sound::play_success(settings.sounds()),
        Some(SoundType::Error) => sound::play_error(settings.sounds()),
        Some(SoundType::Warning) => sound::play_warning(settings.sounds()),
        Some(SoundType::Notification) => sound::play_warning(settings.sounds()),
        Some(SoundType::Beep) => {
            let config = settings.config();
            sound::play_beep_pub(&config.beep_freq, config.beep_duration)
        },
        None => {
            let r = Vec::new();
            assert(steps_view(r@) =~= seq![]);
            r
        },
    }
}

impl MessageBuilder {
    /// A builder for the message `msg`, with no color, symbol or sound.
    pub fn new(msg: &str) -> (b: MessageBuilder)
        ensures
            b@ == (MessageBuilderView { text: msg@, color: None, symbol: None, sound: None, force_pulse: false }),
    {
        MessageBuilder { text: msg.to_string(), color: None, symbol: None, sound: None, force_pulse: false }
    }

    /// Gives the message the color `c`.
    pub fn color(self, c: Color) -> (b: MessageBuilder)
        ensures
            b@ == (MessageBuilderView { color: Some(c), ..self@ }),
    {
        MessageBuilder { color: Some(c), ..self }
    }

    /// Puts the symbol `sym` before the message.
    pub fn with_symbol(self, sym: &str) -> (b: MessageBuilder)
        ensures
            b@ == (MessageBuilderView { symbol: Some(sym@), ..self@ }),
    {
        MessageBuilder { symbol: Some(sym.to_string()), ..self }
    }

    /// Gives the message the sound `s`.
    pub fn with_sound(self, s: SoundType) -> (b: MessageBuilder)
        ensures
            b@ == (MessageBuilderView { sound: Some(s), ..self@ }),
    {
        MessageBuilder { sound: Some(s), ..self }
    }

    /// Makes the message pulse bold with its beeps even while pulsing is off.
    pub fn blinking(self) -> (b: MessageBuilder)
        ensures
            b@ == (MessageBuilderView { force_pulse: true, ..self@ }),
    {
        MessageBuilder { force_pulse: true, ..self }
    }

    /// Appends a space and `t` to the message.
    pub fn text(self, t: &str) -> (b: MessageBuilder)
        ensures
            b@ == (MessageBuilderView { text: self@.text + seq![' '] + t@, ..self@ }),
    {
        let ghost before = self@.text;
        let mut text = self.text;
        push_char(&mut text, ' ');
        push_str(&mut text, t);
        assert(text@ =~= before + seq![' '] + t@);
        MessageBuilder { text, ..self }
    }

    /// Appends a space and `t`, in the color `c` when colors are on.
    pub fn colored_text(self, settings: &Settings, t: &str, c: Color) -> (b: MessageBuilder)
        ensures
            b@.color == self@.color,
            b@.symbol == self@.symbol,
            b@.sound == self@.sound,
            b@.force_pulse == self@.force_pulse,
            b@.text.len() > self@.text.len(),
            b@.text.take(self@.text.len() as int) == self@.text,
            b@.text[self@.text.len() as int] == ' ',
            if settings@.color_enabled {
                painted(b@.text.skip(self@.text.len() + 1int), t@, fg(c))
            } else {
                b@.text.skip(self@.text.len() + 1int) == t@
            },
    {
        let fragment = if settings.color_enabled() {
            paint(t, c)
        } else {
            t.to_string()
        };
        let ghost n = self@.text.len();
        let mut text = self.text;
        push_char(&mut text, ' ');
        push_str(&mut text, fragment.as_str());
        assert(text@.take(n as int) =~= self@.text);
        assert(text@.skip(n + 1int) =~= fragment@);
        MessageBuilder { text, ..self }
    }

    /// The message as shown: the symbol and a space first, if any, then the
    /// text, in its color when colors are on.
    pub fn build(&self, settings: &Settings) -> (r: String)
        ensures
            built(settings@, self@, r@),
    {
        let mut out = self.text.clone();
        if settings.color_enabled() {
            if let Some(c) = self.color {
                out = paint(self.text.as_str(), c);
            }
        }
        match &self.symbol {
            Some(sym) => {
                let mut r = sym.clone();
                push_char(&mut r, ' ');
                push_str(&mut r, out.as_str());
                let ghost n = sym@.len();
                assert(r@.take(n as int) =~= sym@);
                assert(r@.skip(n + 1int) =~= out@);
                r
            },
            None => out,
        }
    }

    /// Sends the message: prints it (in bold while its beeps play, if it
    /// pulses) and plays its sound while sound is on.
    pub fn send(&self, settings: &Settings) -> (out: Vec<Effect>)
        ensures
            exists|output: Seq<char>|
                #[trigger] built(settings@, self@, output) && effects_view(out@) == send_effects(
                    settings@,
                    self@,
                    output,
                ),
    {
        let beep_count = get_beep_count(settings, self.sound);
        let should_pulse = self.force_pulse || (beep_count > 0 && settings.pulse_enabled());
        let output = self.build(settings);
        let steps = steps_of(settings, self.sound);
        let sound_on = settings.sound_enabled();
        let mut out: Vec<Effect> = Vec::new();
        if should_pulse && beep_count > 0 {
            let mut shown = String::new();
            push_clear_line(&mut shown);
            let b = make_bold(output.as_str());
            push_str(&mut shown, b.as_str());
            out.push(Effect::Print(shown));
            if sound_on {
                out.push(Effect::Play(steps));
            }
            out.push(Effect::Print(line_of("")));
            proof {
                reveal_strlit("");
                assert(""@.push('\n') =~= seq!['\n']);
            }
        } else {
            out.push(Effect::Print(line_of(output.as_str())));
            if sound_on {
                out.push(Effect::Play(steps));
            }
        }
        assert(effects_view(out@) =~= send_effects(settings@, self@, output@));
        assert(built(settings@, self@, output@));
        out
    }
}

impl Default for MessageBuilder {
    fn default() -> (b: MessageBuilder)
        ensures
            b@ == (MessageBuilderView { text: Seq::empty(), color: None, symbol: None, sound: None, force_pulse: false }),
    {
        let b = MessageBuilder::new("");
        proof {
            reveal_strlit("");
        }
        assert(b@.text =~= Seq::<char>::empty());
        b
    }
}

} // verus!
