//! Pulsing messages: a line that turns bold with each sound and back to
//! normal in between.
use vstd::prelude::*;
use crate::builder::sound_steps;
use crate::output::{Effect, EffectView, bold, clear_line, effects_view, line_of, make_bold, push_clear_line};
use crate::paint::{Color, fg, paint, painted};
use crate::settings::{Settings, SettingsView, beep_count_of, get_beep_count, get_pulse_speed_ms};
use crate::sound::{self, SoundStep, SoundType, StepView, steps_view};
use crate::text::push_str;

verus! {

/// Whether `shown` is `text` as `colorize_text` gives it: in `color` when
/// colors are on, as it is otherwise.
pub open spec fn colorized(v: SettingsView, text: Seq<char>, color: Color, shown: Seq<char>) -> bool {
    if v.color_enabled {
        painted(shown, text, fg(color))
    } else {
        shown == text
    }
}

/// `text` in `color` when colors are on; as it is otherwise.
pub fn colorize_text(settings: &Settings, text: &str, color: Color) -> (r: String)
    ensures
        colorized(settings@, text@, color, r@),
{
    if settings.color_enabled() {
        paint(text, color)
    } else {
        text.to_string()
    }
}

/// One round of a pulse: the line (in bold when pulsing is on) and the
/// sound; then, unless it is the last round, a pause, the line in normal
/// weight, and another pause.
pub open spec fn pulse_round(
    shown: Seq<char>,
    last: bool,
    pulse_enabled: bool,
    play: Seq<EffectView>,
    speed_ms: u64,
) -> Seq<EffectView> {
    let first = if pulse_enabled {
        clear_line() + bold(shown)
    } else {
        clear_line() + shown
    };
    let rest: Seq<EffectView> = if last {
        seq![]
    } else {
        seq![
            EffectView::Pause(speed_ms),
            EffectView::Print(clear_line() + shown),
            EffectView::Pause(speed_ms),
        ]
    };
    seq![EffectView::Print(first)] + play + rest
}

/// The first `n` of `times` rounds.
pub open spec fn pulse_rounds(
    shown: Seq<char>,
    n: nat,
    times: nat,
    pulse_enabled: bool,
    play: Seq<EffectView>,
    speed_ms: u64,
) -> Seq<EffectView>
    decreases n,
{
    if n == 0 {
        seq![]
    } else {
        pulse_rounds(shown, (n - 1) as nat, times, pulse_enabled, play, speed_ms) + pulse_round(
            shown,
            n == times,
            pulse_enabled,
            play,
            speed_ms,
        )
    }
}

/// What pulsing `shown` `times` times with the sound `s` does: each round
/// plays the sound while sound is on and the sound has beeps; the line ends
/// after the last round.
pub open spec fn pulse_effects(v: SettingsView, shown: Seq<char>, s: SoundType, times: nat) -> Seq<EffectView> {
    let play: Seq<EffectView> = if v.sound_enabled && beep_count_of(v.config, Some(s)) > 0 {
        seq![EffectView::Play(sound_steps(v, Some(s)))]
    } else {
        seq![]
    };
    pulse_rounds(shown, times, times, v.pulse_enabled, play, v.pulse_speed_ms) + seq![
        EffectView::Print(seq!['\n']),
    ]
}

/// Whether `e` is one of the effects a pulse may have: the line after
/// `\r ESC[K` in normal weight, or in bold (`ESC[1m` … `ESC[0m`) only while
/// pulsing is on; a pause of the pulse speed; the sound in `play`; or the
/// final line break.
pub open spec fn pulse_effect_ok(pulse_enabled: bool, shown: Seq<char>, play: Seq<EffectView>, speed_ms: u64, e: EffectView) -> bool {
    let cl = seq!['\r', '\u{1b}', '[', 'K'];
    match e {
        EffectView::Print(t) => t == cl + shown || (pulse_enabled && t == cl + seq!['\u{1b}', '[', '1', 'm'] + shown + seq![
            '\u{1b}',
            '[',
            '0',
            'm',
        ]) || t == seq!['\n'],
        EffectView::Pause(ms) => ms == speed_ms,
        EffectView::Play(_) => play.contains(e),
    }
}

proof fn lemma_rounds_shape(
    shown: Seq<char>,
    n: nat,
    times: nat,
    pulse_enabled: bool,
    play: Seq<EffectView>,
    speed_ms: u64,
)
    requires
        forall|i: int| 0 <= i < play.len() ==> #[trigger] play[i] is Play,
    ensures
        forall|i: int|
            0 <= i < pulse_rounds(shown, n, times, pulse_enabled, play, speed_ms).len() ==> pulse_effect_ok(
                pulse_enabled,
                shown,
                play,
                speed_ms,
                #[trigger] pulse_rounds(shown, n, times, pulse_enabled, play, speed_ms)[i],
            ),
        n > 0 ==> pulse_rounds(shown, n, times, pulse_enabled, play, speed_ms)[0] == EffectView::Print(
            if pulse_enabled {
                clear_line() + bold(shown)
            } else {
                clear_line() + shown
            },
        ),
    decreases n,
{
    if n > 0 {
        let prev = pulse_rounds(shown, (n - 1) as nat, times, pulse_enabled, play, speed_ms);
        let r = pulse_round(shown, n == times, pulse_enabled, play, speed_ms);
        lemma_rounds_shape(shown, (n - 1) as nat, times, pulse_enabled, play, speed_ms);
        let all = pulse_rounds(shown, n, times, pulse_enabled, play, speed_ms);
        assert(all == prev + r);
        assert(clear_line() =~= seq!['\r', '\u{1b}', '[', 'K']);
        assert(clear_line() + bold(shown) =~= seq!['\r', '\u{1b}', '[', 'K'] + seq!['\u{1b}', '[', '1', 'm'] + shown
            + seq!['\u{1b}', '[', '0', 'm']);
        assert forall|i: int| 0 <= i < r.len() implies pulse_effect_ok(pulse_enabled, shown, play, speed_ms, #[trigger] r[i]) by {
            if 1 <= i < 1 + play.len() {
                assert(r[i] == play[i - 1]);
                assert(play.contains(r[i]));
            }
        }
        assert forall|i: int| 0 <= i < all.len() implies pulse_effect_ok(pulse_enabled, shown, play, speed_ms, #[trigger] all[i]) by {
            if i < prev.len() {
                assert(all[i] == prev[i]);
            } else {
                assert(all[i] == r[i - prev.len()]);
            }
        }
        if n > 1 {
            assert(all[0] == prev[0]);
        } else {
            assert(prev.len() == 0);
            assert(all[0] == r[0]);
        }
    }
}

/// Position `j` of round `k`, when each round takes `m` effects.
pub open spec fn at(k: int, m: int, j: int) -> int {
    k * m + j
}

proof fn lemma_round_positions(k: int, n: int, m: int, j: int)
    requires
        0 <= k < n,
        0 <= j < m,
    ensures
        0 <= at(k, m, j) < n * m,
        k < n - 1 ==> at(k, m, j) < (n - 1) * m,
        k == n - 1 ==> at(k, m, j) - (n - 1) * m == j,
        n * m == (n - 1) * m + m,
{
    assert(0 <= k * m + j < n * m) by (nonlinear_arith)
        requires
            0 <= k < n,
            0 <= j < m,
    ;
    assert(k < n - 1 ==> k * m + j < (n - 1) * m) by (nonlinear_arith)
        requires
            0 <= k,
            0 <= j < m,
    ;
    assert(k == n - 1 ==> k * m + j - (n - 1) * m == j) by (nonlinear_arith);
    assert(n * m == (n - 1) * m + m) by (nonlinear_arith);
}

/// The layout of the first `n` rounds: each round takes the line, the sound,
/// a pause, the line in normal weight and a pause; the last round of all
/// stops after the sound.
proof fn lemma_rounds_layout(
    shown: Seq<char>,
    n: nat,
    times: nat,
    pulse_enabled: bool,
    play: Seq<EffectView>,
    speed_ms: u64,
)
    requires
        n <= times,
    ensures
        ({
            let rs = pulse_rounds(shown, n, times, pulse_enabled, play, speed_ms);
            let p = play.len() as int;
            let m = p + 4;
            let first = if pulse_enabled {
                clear_line() + bold(shown)
            } else {
                clear_line() + shown
            };
            &&& rs.len() == (if n == times && n > 0 { n * m - 3 } else { n * m })
            &&& forall|k: int|
                0 <= k < n ==> {
                    &&& #[trigger] rs[at(k, m, 0)] == EffectView::Print(first)
                    &&& k + 1 < times ==> rs[at(k, m, p + 1)] == EffectView::Pause(speed_ms) && rs[at(k, m, p + 2)]
                        == EffectView::Print(clear_line() + shown) && rs[at(k, m, p + 3)] == EffectView::Pause(
                        speed_ms,
                    )
                }
            &&& forall|k: int, j: int| 0 <= k < n && 1 <= j <= p ==> #[trigger] rs[at(k, m, j)] == play[j - 1]
        }),
    decreases n,
{
    let p = play.len() as int;
    let m = p + 4;
    if n > 0 {
        let ni = n as int;
        lemma_rounds_layout(shown, (n - 1) as nat, times, pulse_enabled, play, speed_ms);
        let prev = pulse_rounds(shown, (n - 1) as nat, times, pulse_enabled, play, speed_ms);
        let r = pulse_round(shown, n == times, pulse_enabled, play, speed_ms);
        let rs = pulse_rounds(shown, n, times, pulse_enabled, play, speed_ms);
        assert(rs == prev + r);
        assert(prev.len() == (ni - 1) * m);
        lemma_round_positions(0, ni, m, 0);
        assert forall|k: int| 0 <= k < n implies {
            &&& #[trigger] rs[at(k, m, 0)] == EffectView::Print(
                if pulse_enabled {
                    clear_line() + bold(shown)
                } else {
                    clear_line() + shown
                },
            )
            &&& k + 1 < times ==> rs[at(k, m, p + 1)] == EffectView::Pause(speed_ms) && rs[at(k, m, p + 2)]
                == EffectView::Print(clear_line() + shown) && rs[at(k, m, p + 3)] == EffectView::Pause(speed_ms)
        } by {
            lemma_round_positions(k, ni, m, 0);
            lemma_round_positions(k, ni, m, p + 1);
            lemma_round_positions(k, ni, m, p + 2);
            lemma_round_positions(k, ni, m, p + 3);
            if k < ni - 1 {
                assert(rs[at(k, m, 0)] == prev[at(k, m, 0)]);
                assert(rs[at(k, m, p + 1)] == prev[at(k, m, p + 1)]);
                assert(rs[at(k, m, p + 2)] == prev[at(k, m, p + 2)]);
                assert(rs[at(k, m, p + 3)] == prev[at(k, m, p + 3)]);
            } else {
                assert(rs[at(k, m, 0)] == r[0]);
                if k + 1 < times {
                    assert(r.len() == m);
                    assert(rs[at(k, m, p + 1)] == r[p + 1]);
                    assert(rs[at(k, m, p + 2)] == r[p + 2]);
                    assert(rs[at(k, m, p + 3)] == r[p + 3]);
                }
            }
        }
        assert forall|k: int, j: int| 0 <= k < n && 1 <= j <= p implies #[trigger] rs[at(k, m, j)] == play[j - 1] by {
            lemma_round_positions(k, ni, m, j);
            if k < ni - 1 {
                assert(rs[at(k, m, j)] == prev[at(k, m, j)]);
            } else {
                assert(rs[at(k, m, j)] == r[j]);
            }
        }
    }
}

/// What pulsing does, whatever the settings: the line is shown in bold only
/// while pulsing is on (with pulsing off every line is in normal weight); the
/// first thing shown, when there is a round, is the line (bold while pulsing
/// is on); every pause lasts the pulse speed; the only sound played is the
/// one asked for, and only while sound is on and it has beeps; and a line
/// break comes last.
pub proof fn lemma_pulse_effects(v: SettingsView, shown: Seq<char>, s: SoundType, times: nat)
    ensures
        ({
            let e = pulse_effects(v, shown, s, times);
            let play: Seq<EffectView> = if v.sound_enabled && beep_count_of(v.config, Some(s)) > 0 {
                seq![EffectView::Play(sound_steps(v, Some(s)))]
            } else {
                seq![]
            };
            &&& e.len() > 0
            &&& e.last() == EffectView::Print(seq!['\n'])
            &&& forall|i: int| 0 <= i < e.len() ==> pulse_effect_ok(v.pulse_enabled, shown, play, v.pulse_speed_ms, #[trigger] e[i])
            &&& times > 0 ==> e[0] == EffectView::Print(
                if v.pulse_enabled {
                    seq!['\r', '\u{1b}', '[', 'K', '\u{1b}', '[', '1', 'm'] + shown + seq!['\u{1b}', '[', '0', 'm']
                } else {
                    seq!['\r', '\u{1b}', '[', 'K'] + shown
                },
            )
        }),
{
    let play: Seq<EffectView> = if v.sound_enabled && beep_count_of(v.config, Some(s)) > 0 {
        seq![EffectView::Play(sound_steps(v, Some(s)))]
    } else {
        seq![]
    };
    let rounds = pulse_rounds(shown, times, times, v.pulse_enabled, play, v.pulse_speed_ms);
    lemma_rounds_shape(shown, times, times, v.pulse_enabled, play, v.pulse_speed_ms);
    let e = pulse_effects(v, shown, s, times);
    let tail = seq![EffectView::Print(seq!['\n'])];
    assert(e == rounds + tail);
    assert forall|i: int| 0 <= i < e.len() implies pulse_effect_ok(v.pulse_enabled, shown, play, v.pulse_speed_ms, #[trigger] e[i]) by {
        if i < rounds.len() {
            assert(e[i] == rounds[i]);
        } else {
            assert(e[i] == tail[i - rounds.len()]);
        }
    }
    if times > 0 {
        assert(e[0] == rounds[0]);
        assert(clear_line() + bold(shown) =~= seq!['\r', '\u{1b}', '[', 'K', '\u{1b}', '[', '1', 'm'] + shown + seq![
            '\u{1b}',
            '[',
            '0',
            'm',
        ]);
        assert(clear_line() + shown =~= seq!['\r', '\u{1b}', '[', 'K'] + shown);
    }
}

/// How the effects of a pulse are laid out: `times` rounds of `m` effects
/// each (the line, the sound while it plays, a pause of the pulse speed, the
/// line in normal weight, another pause), the last round stopping after the
/// sound, then the line break.  The line is bold in every round while
/// pulsing is on, and in none while it is off.
pub proof fn lemma_pulse_layout(v: SettingsView, shown: Seq<char>, s: SoundType, times: nat)
    ensures
        ({
            let e = pulse_effects(v, shown, s, times);
            let play: Seq<EffectView> = if v.sound_enabled && beep_count_of(v.config, Some(s)) > 0 {
                seq![EffectView::Play(sound_steps(v, Some(s)))]
            } else {
                seq![]
            };
            let p = play.len() as int;
            let m = p + 4;
            &&& e.len() == (if times > 0 { times * m - 2 } else { 1 })
            &&& e[e.len() - 1] == EffectView::Print(seq!['\n'])
            &&& forall|k: int|
                0 <= k < times ==> {
                    &&& #[trigger] e[at(k, m, 0)] == EffectView::Print(
                        if v.pulse_enabled {
                            clear_line() + bold(shown)
                        } else {
                            clear_line() + shown
                        },
                    )
                    &&& p == 1 ==> e[at(k, m, 1)] == EffectView::Play(sound_steps(v, Some(s)))
                    &&& k + 1 < times ==> e[at(k, m, p + 1)] == EffectView::Pause(v.pulse_speed_ms)
                        && e[at(k, m, p + 2)] == EffectView::Print(clear_line() + shown) && e[at(k, m, p + 3)]
                        == EffectView::Pause(v.pulse_speed_ms)
                }
        }),
{
    let play: Seq<EffectView> = if v.sound_enabled && beep_count_of(v.config, Some(s)) > 0 {
        seq![EffectView::Play(sound_steps(v, Some(s)))]
    } else {
        seq![]
    };
    let p = play.len() as int;
    let m = p + 4;
    let rounds = pulse_rounds(shown, times, times, v.pulse_enabled, play, v.pulse_speed_ms);
    lemma_rounds_layout(shown, times, times, v.pulse_enabled, play, v.pulse_speed_ms);
    let e = pulse_effects(v, shown, s, times);
    let tail = seq![EffectView::Print(seq!['\n'])];
    assert(e == rounds + tail);
    assert forall|k: int| 0 <= k < times implies {
        &&& #[trigger] e[at(k, m, 0)] == EffectView::Print(
            if v.pulse_enabled {
                clear_line() + bold(shown)
            } else {
                clear_line() + shown
            },
        )
        &&& p == 1 ==> e[at(k, m, 1)] == EffectView::Play(sound_steps(v, Some(s)))
        &&& k + 1 < times ==> e[at(k, m, p + 1)] == EffectView::Pause(v.pulse_speed_ms) && e[at(k, m, p + 2)]
            == EffectView::Print(clear_line() + shown) && e[at(k, m, p + 3)] == EffectView::Pause(v.pulse_speed_ms)
    } by {
        let ti = times as int;
        lemma_round_positions(k, ti, m, 0);
        lemma_round_positions(k, ti, m, 1);
        assert(e[at(k, m, 0)] == rounds[at(k, m, 0)]);
        if p == 1 {
            assert(rounds[at(k, m, 1)] == play[0]);
            assert(e[at(k, m, 1)] == rounds[at(k, m, 1)]);
        }
        if k + 1 < times {
            lemma_round_positions(k, ti, m, p + 1);
            lemma_round_positions(k, ti, m, p + 2);
            lemma_round_positions(k, ti, m, p + 3);
            assert(k * m + m <= (ti - 1) * m) by (nonlinear_arith)
                requires
                    k < ti - 1,
                    m >= 0,
            ;
            assert(e[at(k, m, p + 1)] == rounds[at(k, m, p + 1)]);
            assert(e[at(k, m, p + 2)] == rounds[at(k, m, p + 2)]);
            assert(e[at(k, m, p + 3)] == rounds[at(k, m, p + 3)]);
        }
    }
}

/// The steps of the sound `s`.
fn steps_for(settings: &Settings, s: SoundType) -> (r: Vec<SoundStep>)
    ensures
        steps_view(r@) == sound_steps(settings@, Some(s)),
{
    match s {
        SoundType::Success => sound::play_success(settings.sounds()),
        SoundType::Error => sound::play_error(settings.sounds()),
        SoundType::Warning => sound::play_warning(settings.sounds()),
        SoundType::Notification => sound::play_warning(settings.sounds()),
        SoundType::Beep => {
            let config = settings.config();
            sound::play_beep_pub(&config.beep_freq, config.beep_duration)
        },
    }
}

/// `\r ESC [ K` and `text`.
fn cleared(text: &str) -> (r: String)
    ensures
        r@ == clear_line() + text@,
{
    let mut r = String::new();
    push_clear_line(&mut r);
    push_str(&mut r, text);
    r
}

/// Shows `text` in `color` `times` times, pulsing with the sound `sound_type`.
pub fn pulse_custom(settings: &Settings, text: &str, color: Color, sound_type: SoundType, times: usize) -> (out: Vec<Effect>)
    ensures
        exists|shown: Seq<char>|
            #[trigger] colorized(settings@, text@, color, shown) && effects_view(out@) == pulse_effects(
                settings@,
                shown,
                sound_type,
                times as nat,
            ),
{
    let beep_count = get_beep_count(settings, Some(sound_type));
    let pulse_speed = get_pulse_speed_ms(settings);
    let shown = colorize_text(settings, text, color);
    let pulse_on = settings.pulse_enabled();
    let plays = settings.sound_enabled() && beep_count > 0;
    let ghost play: Seq<EffectView> = if plays {
        seq![EffectView::Play(sound_steps(settings@, Some(sound_type)))]
    } else {
        seq![]
    };
    let mut out: Vec<Effect> = Vec::new();
    let mut i: usize = 0;
    while i < times
        invariant
            i <= times,
            pulse_on == settings@.pulse_enabled,
            pulse_speed == settings@.pulse_speed_ms,
            plays == (settings@.sound_enabled && beep_count_of(settings@.config, Some(sound_type)) > 0),
            play == (if plays {
                seq![EffectView::Play(sound_steps(settings@, Some(sound_type)))]
            } else {
                Seq::<EffectView>::empty()
            }),
            effects_view(out@) == pulse_rounds(shown@, i as nat, times as nat, pulse_on, play, pulse_speed),
        decreases times - i,
    {
        let ghost before = effects_view(out@);
        let first = if pulse_on {
            let b = make_bold(shown.as_str());
            cleared(b.as_str())
        } else {
            cleared(shown.as_str())
        };
        out.push(Effect::Print(first));
        if plays {
            out.push(Effect::Play(steps_for(settings, sound_type)));
        }
        if i < times - 1 {
            out.push(Effect::Pause(pulse_speed));
            out.push(Effect::Print(cleared(shown.as_str())));
            out.push(Effect::Pause(pulse_speed));
        }
        i = i + 1;
        assert(effects_view(out@) =~= before + pulse_round(shown@, i == times, pulse_on, play, pulse_speed));
    }
    out.push(Effect::Print(line_of("")));
    proof {
        reveal_strlit("");
        assert(""@.push('\n') =~= seq!['\n']);
    }
    assert(effects_view(out@) =~= pulse_effects(settings@, shown@, sound_type, times as nat));
    assert(colorized(settings@, text@, color, shown@));
    out
}

/// Shows `text` in `color` `times` times, pulsing with the success sound.
pub fn pulse_musical(settings: &Settings, text: &str, color: Color, times: usize) -> (out: Vec<Effect>)
    ensures
        exists|shown: Seq<char>|
            #[trigger] colorized(settings@, text@, color, shown) && effects_view(out@) == pulse_effects(
                settings@,
                shown,
                SoundType::Success,
                times as nat,
            ),
{
    pulse_custom(settings, text, color, SoundType::Success, times)
}

/// Shows `text` in `color` `times` times, pulsing gently with the warning sound.
pub fn pulse_gentle(settings: &Settings, text: &str, color: Color, times: usize) -> (out: Vec<Effect>)
    ensures
        exists|shown: Seq<char>|
            #[trigger] colorized(settings@, text@, color, shown) && effects_view(out@) == pulse_effects(
                settings@,
                shown,
                SoundType::Warning,
                times as nat,
            ),
{
    pulse_custom(settings, text, color, SoundType::Warning, times)
}

/// Shows `text` in `color` `times` times, pulsing with the error sound.
pub fn pulse_with_error_sound(settings: &Settings, text: &str, color: Color, times: usize) -> (out: Vec<Effect>)
    ensures
        exists|shown: Seq<char>|
            #[trigger] colorized(settings@, text@, color, shown) && effects_view(out@) == pulse_effects(
                settings@,
                shown,
                SoundType::Error,
                times as nat,
            ),
{
    pulse_custom(settings, text, color, SoundType::Error, times)
}

} // verus!
