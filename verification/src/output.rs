//! What a message does to the terminal and the speaker, as a list of effects
//! that the caller carries out in order.
use vstd::prelude::*;
use crate::paint::{esc, reset_seq};
use crate::settings::Settings;
use crate::sound::{SoundStep, StepView, steps_view};
use crate::text::{push_char, push_str};

verus! {

/// One thing a message does.
pub enum Effect {
    /// Write this text to standard output and flush it.
    Print(String),
    /// Play these steps; a step that fails ends the sound, and the failure is ignored.
    Play(Vec<SoundStep>),
    /// Wait this many milliseconds.
    Pause(u64),
}

/// The value of an `Effect`.
pub enum EffectView {
    Print(Seq<char>),
    Play(Seq<StepView>),
    Pause(u64),
}

impl View for Effect {
    type V = EffectView;

    open spec fn view(&self) -> EffectView {
        match self {
            Effect::Print(s) => EffectView::Print(s@),
            Effect::Play(steps) => EffectView::Play(steps_view(steps@)),
            Effect::Pause(ms) => EffectView::Pause(*ms),
        }
    }
}

/// The values of the effects `v`.
pub open spec fn effects_view(v: Seq<Effect>) -> Seq<EffectView> {
    v.map_values(|e: Effect| e@)
}

/// `ESC [ 1 m`, which turns bold on.
pub open spec fn bold_on() -> Seq<char> {
    seq![esc(), '[', '1', 'm']
}

/// `text` in bold: `ESC [ 1 m`, the text, `ESC [ 0 m`.
pub open spec fn bold(text: Seq<char>) -> Seq<char> {
    bold_on() + text + reset_seq()
}

/// `\r ESC [ K`: back to the start of the line, and clear it.
pub open spec fn clear_line() -> Seq<char> {
    seq!['\r', esc(), '[', 'K']
}

/// What a message with `beep_count` beeps does: without beeps, it prints
/// its line; when pulsing, it shows the line in bold, plays the sound (if
/// sound is on) and ends the line; otherwise it prints the line and plays
/// the sound (if sound is on).
pub open spec fn synchronized(
    pulse_enabled: bool,
    sound_enabled: bool,
    text: Seq<char>,
    beep_count: usize,
    sound: Seq<StepView>,
) -> Seq<EffectView> {
    let play: Seq<EffectView> = if sound_enabled {
        seq![EffectView::Play(sound)]
    } else {
        seq![]
    };
    if beep_count == 0 {
        seq![EffectView::Print(text.push('\n'))]
    } else if pulse_enabled {
        seq![EffectView::Print(clear_line() + bold(text))] + play + seq![EffectView::Print(seq!['\n'])]
    } else {
        seq![EffectView::Print(text.push('\n'))] + play
    }
}

/// What a message with beeps does: without beeps it only prints its line;
/// with beeps it plays the sound exactly once, right after the line, and only
/// while sound is on; the line is shown bold (`\r ESC[K ESC[1m` … `ESC[0m`,
/// then the line break) exactly while pulsing is on, and printed plainly with
/// its line break otherwise.
pub proof fn lemma_synchronized(pulse_enabled: bool, sound_enabled: bool, text: Seq<char>, beep_count: usize, sound: Seq<StepView>)
    ensures
        ({
            let e = synchronized(pulse_enabled, sound_enabled, text, beep_count, sound);
            let plain = text + seq!['\n'];
            let boldline = seq!['\r', '\u{1b}', '[', 'K', '\u{1b}', '[', '1', 'm'] + text + seq!['\u{1b}', '[', '0', 'm'];
            &&& beep_count == 0 ==> e == seq![EffectView::Print(plain)]
            &&& beep_count > 0 && pulse_enabled && sound_enabled ==> e == seq![
                EffectView::Print(boldline),
                EffectView::Play(sound),
                EffectView::Print(seq!['\n']),
            ]
            &&& beep_count > 0 && pulse_enabled && !sound_enabled ==> e == seq![
                EffectView::Print(boldline),
                EffectView::Print(seq!['\n']),
            ]
            &&& beep_count > 0 && !pulse_enabled && sound_enabled ==> e == seq![
                EffectView::Print(plain),
                EffectView::Play(sound),
            ]
            &&& beep_count > 0 && !pulse_enabled && !sound_enabled ==> e == seq![EffectView::Print(plain)]
        }),
{
    assert(text.push('\n') =~= text + seq!['\n']);
    assert(clear_line() + bold(text) =~= seq!['\r', '\u{1b}', '[', 'K', '\u{1b}', '[', '1', 'm'] + text + seq![
        '\u{1b}',
        '[',
        '0',
        'm',
    ]);
    let play: Seq<EffectView> = if sound_enabled {
        seq![EffectView::Play(sound)]
    } else {
        seq![]
    };
    if beep_count > 0 {
        if pulse_enabled {
            assert(seq![EffectView::Print(clear_line() + bold(text))] + play + seq![EffectView::Print(seq!['\n'])]
                =~= if sound_enabled {
                seq![
                    EffectView::Print(clear_line() + bold(text)),
                    EffectView::Play(sound),
                    EffectView::Print(seq!['\n']),
                ]
            } else {
                seq![EffectView::Print(clear_line() + bold(text)), EffectView::Print(seq!['\n'])]
            });
        } else {
            assert(seq![EffectView::Print(text.push('\n'))] + play =~= if sound_enabled {
                seq![EffectView::Print(text.push('\n')), EffectView::Play(sound)]
            } else {
                seq![EffectView::Print(text.push('\n'))]
            });
        }
    }
}

/// Appends `ESC [ 1 m`.
fn push_bold_on(s: &mut String)
    ensures
        final(s)@ == old(s)@ + bold_on(),
{
    push_char(s, '\u{1b}');
    push_char(s, '[');
    push_char(s, '1');
    push_char(s, 'm');
    assert(final(s)@ =~= old(s)@ + bold_on());
}

/// Appends `ESC [ 0 m`.
pub fn push_reset(s: &mut String)
    ensures
        final(s)@ == old(s)@ + reset_seq(),
{
    push_char(s, '\u{1b}');
    push_char(s, '[');
    push_char(s, '0');
    push_char(s, 'm');
    assert(final(s)@ =~= old(s)@ + reset_seq());
}

/// Appends `\r ESC [ K`.
pub fn push_clear_line(s: &mut String)
    ensures
        final(s)@ == old(s)@ + clear_line(),
{
    push_char(s, '\r');
    push_char(s, '\u{1b}');
    push_char(s, '[');
    push_char(s, 'K');
    assert(final(s)@ =~= old(s)@ + clear_line());
}

/// `text` in bold.
pub fn make_bold(text: &str) -> (r: String)
    ensures
        r@ == bold(text@),
{
    let mut r = String::new();
    push_bold_on(&mut r);
    push_str(&mut r, text);
    push_reset(&mut r);
    assert(r@ =~= bold(text@));
    r
}

/// `text` followed by a line break.
pub fn line_of(text: &str) -> (r: String)
    ensures
        r@ == text@.push('\n'),
{
    let mut r = String::new();
    push_str(&mut r, text);
    push_char(&mut r, '\n');
    assert(r@ =~= text@.push('\n'));
    r
}

/// Prints `text` as a message with `beep_count` beeps of `sound`.
pub fn synchronized_message(settings: &Settings, text: &str, beep_count: usize, sound: Vec<SoundStep>) -> (out: Vec<Effect>)
    ensures
        effects_view(out@) == synchronized(
            settings@.pulse_enabled,
            settings@.sound_enabled,
            text@,
            beep_count,
            steps_view(sound@),
        ),
{
    let ghost sv = steps_view(sound@);
    let mut out: Vec<Effect> = Vec::new();
    if beep_count == 0 {
        out.push(Effect::Print(line_of(text)));
        assert(effects_view(out@) =~= seq![EffectView::Print(text@.push('\n'))]);
        return out;
    }
    let sound_on = settings.sound_enabled();
    if settings.pulse_enabled() {
        let mut shown = String::new();
        push_clear_line(&mut shown);
        let b = make_bold(text);
        push_str(&mut shown, b.as_str());
        out.push(Effect::Print(shown));
        if sound_on {
            out.push(Effect::Play(sound));
        }
        out.push(Effect::Print(line_of("")));
        proof {
            reveal_strlit("");
            assert(""@.push('\n') =~= seq!['\n']);
            assert(effects_view(out@) =~= synchronized(
                settings@.pulse_enabled,
                settings@.sound_enabled,
                text@,
                beep_count,
                sv,
            ));
        }
    } else {
        out.push(Effect::Print(line_of(text)));
        if sound_on {
            out.push(Effect::Play(sound));
        }
        assert(effects_view(out@) =~= synchronized(
            settings@.pulse_enabled,
            settings@.sound_enabled,
            text@,
            beep_count,
            sv,
        ));
    }
    out
}

} // verus!
