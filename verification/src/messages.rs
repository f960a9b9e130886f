//! The message functions: success, error, warning, information and critical
//! lines, each with its tag, its color and its sound.
use vstd::prelude::*;
use crate::colors::{self, framed};
use crate::output::{Effect, EffectView, effects_view, synchronized, synchronized_message};
use crate::paint::{Color, Look, fg, fg_bold, fg_bold_on_black, paint, paint_bold, paint_bold_on_black, painted};
use crate::settings::{Settings, SettingsView};
use crate::sound::{
    self, SoundStep, StepView, error_steps, steps_view, success_steps, warning_steps,
};
use crate::text::{push_char, push_str};

verus! {

/// The kind of a message line: the word of its tag and the tag's color,
/// the prefix it has without colors, and how the message itself is styled.
pub struct LineKind {
    pub word: Seq<char>,
    pub tag_color: Color,
    pub plain: Seq<char>,
    pub msg_look: Look,
}

/// A success line: `[ OK ]` (bold green) and the message in green; `[✓] `.
pub open spec fn success_kind() -> LineKind {
    LineKind { word: " OK "@, tag_color: Color::Green, plain: "[\u{2713}] "@, msg_look: fg(Color::Green) }
}

/// An error line: `[FAIL]` (bold red) and the message in bold red; `[✗] `.
pub open spec fn error_kind() -> LineKind {
    LineKind { word: "FAIL"@, tag_color: Color::Red, plain: "[\u{2717}] "@, msg_look: fg_bold(Color::Red) }
}

/// A warning line: `[WARN]` (bold yellow) and the message in yellow; `[⚠] `.
pub open spec fn warn_kind() -> LineKind {
    LineKind { word: "WARN"@, tag_color: Color::Yellow, plain: "[\u{26a0}] "@, msg_look: fg(Color::Yellow) }
}

/// A critical line: `[FAIL]` (bold red) and the message in bold red on
/// black; `[✗] CRITICAL: `.
pub open spec fn critical_kind() -> LineKind {
    LineKind {
        word: "FAIL"@,
        tag_color: Color::Red,
        plain: "[\u{2717}] CRITICAL: "@,
        msg_look: fg_bold_on_black(Color::Red),
    }
}

/// An information line: `[INFO]` (bold cyan) and the message in blue; `[i] `.
pub open spec fn info_kind() -> LineKind {
    LineKind { word: "INFO"@, tag_color: Color::Cyan, plain: "[i] "@, msg_look: fg(Color::Blue) }
}

/// The style of each kind of message, as the original draws it: success
/// green under a bold green `[ OK ]`; error bold red under a bold red
/// `[FAIL]`; warning yellow under a bold yellow `[WARN]`; critical bold red on
/// black under `[FAIL]`; information blue under a bold cyan `[INFO]`.
pub proof fn lemma_message_styles()
    ensures
        success_kind().tag_color == Color::Green && success_kind().msg_look == (Look {
            color: Some(Color::Green),
            bold: false,
            on_black: false,
        }),
        error_kind().tag_color == Color::Red && error_kind().msg_look == (Look {
            color: Some(Color::Red),
            bold: true,
            on_black: false,
        }),
        warn_kind().tag_color == Color::Yellow && warn_kind().msg_look == (Look {
            color: Some(Color::Yellow),
            bold: false,
            on_black: false,
        }),
        critical_kind().tag_color == Color::Red && critical_kind().msg_look == (Look {
            color: Some(Color::Red),
            bold: true,
            on_black: true,
        }),
        info_kind().tag_color == Color::Cyan && info_kind().msg_look == (Look {
            color: Some(Color::Blue),
            bold: false,
            on_black: false,
        }),
        success_kind().word == seq![' ', 'O', 'K', ' '] && error_kind().word == seq!['F', 'A', 'I', 'L']
            && warn_kind().word == seq!['W', 'A', 'R', 'N'] && info_kind().word == seq!['I', 'N', 'F', 'O'],
{
    reveal_strlit(" OK ");
    reveal_strlit("FAIL");
    reveal_strlit("WARN");
    reveal_strlit("INFO");
}

/// Whether `t` is the tag `[word]` of `kind`, a space, then `msg` styled
/// as `kind` says.
pub open spec fn tag_then(t: Seq<char>, kind: LineKind, msg: Seq<char>) -> bool {
    exists|k: int|
        0 <= k < t.len() && #[trigger] framed(t.take(k), "["@, kind.word, fg_bold(kind.tag_color), "]"@)
            && t[k] == ' ' && painted(t.skip(k + 1), msg, kind.msg_look)
}

/// The line of a message: with colors, the tag and the styled message;
/// without, the plain prefix followed by the message.
pub open spec fn message_line(colors_on: bool, kind: LineKind, msg: Seq<char>, t: Seq<char>) -> bool {
    if colors_on {
        tag_then(t, kind, msg)
    } else {
        t == kind.plain + msg
    }
}

/// The effects of a message whose line is one that `message_line` allows.
pub open spec fn message_effects(
    v: SettingsView,
    kind: LineKind,
    msg: Seq<char>,
    beep_count: usize,
    sound: Seq<StepView>,
    out: Seq<EffectView>,
) -> bool {
    exists|t: Seq<char>|
        #[trigger] message_line(v.color_enabled, kind, msg, t) && out == synchronized(
            v.pulse_enabled,
            v.sound_enabled,
            t,
            beep_count,
            sound,
        )
}

/// `tag`, a space, then `body`.
pub(crate) fn join_tag(tag: String, body: String, kind: Ghost<LineKind>, msg: Ghost<Seq<char>>) -> (r: String)
    requires
        framed(tag@, "["@, kind@.word, fg_bold(kind@.tag_color), "]"@),
        painted(body@, msg@, kind@.msg_look),
    ensures
        tag_then(r@, kind@, msg@),
{
    let mut r = tag;
    push_char(&mut r, ' ');
    push_str(&mut r, body.as_str());
    let ghost k = tag@.len() as int;
    assert(r@.take(k) =~= tag@);
    assert(r@.skip(k + 1) =~= body@);
    assert(r@[k] == ' ');
    r
}

/// `plain` followed by `msg`.
fn plain_line(plain: &str, msg: &str) -> (r: String)
    ensures
        r@ == plain@ + msg@,
{
    let mut r = plain.to_string();
    push_str(&mut r, msg);
    r
}

/// The line of a success message: `[ OK ]` and the message in green, or
/// `[✓] ` and the message without colors.
pub fn success_text(colors_on: bool, msg: &str) -> (t: String)
    ensures
        message_line(colors_on, success_kind(), msg@, t@),
{
    if colors_on {
        join_tag(colors::check(colors_on), paint(msg, Color::Green), Ghost(success_kind()), Ghost(msg@))
    } else {
        plain_line("[\u{2713}] ", msg)
    }
}

/// The line of an error message: `[FAIL]` and the message in bold red, or
/// `[✗] ` and the message without colors.
pub fn error_text(colors_on: bool, msg: &str) -> (t: String)
    ensures
        message_line(colors_on, error_kind(), msg@, t@),
{
    if colors_on {
        join_tag(colors::cross(colors_on), paint_bold(msg, Color::Red), Ghost(error_kind()), Ghost(msg@))
    } else {
        plain_line("[\u{2717}] ", msg)
    }
}

/// The line of a warning: `[WARN]` and the message in yellow, or `[⚠] `
/// and the message without colors.
pub fn warn_text(colors_on: bool, msg: &str) -> (t: String)
    ensures
        message_line(colors_on, warn_kind(), msg@, t@),
{
    if colors_on {
        join_tag(colors::warn(colors_on), paint(msg, Color::Yellow), Ghost(warn_kind()), Ghost(msg@))
    } else {
        plain_line("[\u{26a0}] ", msg)
    }
}

/// The line of a critical message: `[FAIL]` and the message bold red on
/// black, or `[✗] CRITICAL: ` and the message without colors.
pub fn critical_text(colors_on: bool, msg: &str) -> (t: String)
    ensures
        message_line(colors_on, critical_kind(), msg@, t@),
{
    if colors_on {
        join_tag(
            colors::cross(colors_on),
            paint_bold_on_black(msg, Color::Red),
            Ghost(critical_kind()),
            Ghost(msg@),
        )
    } else {
        plain_line("[\u{2717}] CRITICAL: ", msg)
    }
}

/// Prints a success message, with the success sound and its beep count.
pub fn success(settings: &Settings, msg: &str) -> (out: Vec<Effect>)
    ensures
        message_effects(
            settings@,
            success_kind(),
            msg@,
            settings@.config.success_beep_count,
            success_steps(settings@.sounds),
            effects_view(out@),
        ),
{
    let text = success_text(settings.color_enabled(), msg);
    let out = synchronized_message(
        settings,
        text.as_str(),
        settings.config().success_beep_count,
        sound::play_success(settings.sounds()),
    );
    assert(message_line(settings@.color_enabled, success_kind(), msg@, text@));
    out
}

/// Prints an error message, with the error sound and its beep count.
pub fn error(settings: &Settings, msg: &str) -> (out: Vec<Effect>)
    ensures
        message_effects(
            settings@,
            error_kind(),
            msg@,
            settings@.config.error_beep_count,
            error_steps(settings@.sounds),
            effects_view(out@),
        ),
{
    let text = error_text(settings.color_enabled(), msg);
    let out = synchronized_message(
        settings,
        text.as_str(),
        settings.config().error_beep_count,
        sound::play_error(settings.sounds()),
    );
    assert(message_line(settings@.color_enabled, error_kind(), msg@, text@));
    out
}

/// Prints a warning, with the warning sound and its beep count.
pub fn warn(settings: &Settings, msg: &str) -> (out: Vec<Effect>)
    ensures
        message_effects(
            settings@,
            warn_kind(),
            msg@,
            settings@.config.warning_beep_count,
            warning_steps(settings@.sounds),
            effects_view(out@),
        ),
{
    let text = warn_text(settings.color_enabled(), msg);
    let out = synchronized_message(
        settings,
        text.as_str(),
        settings.config().warning_beep_count,
        sound::play_warning(settings.sounds()),
    );
    assert(message_line(settings@.color_enabled, warn_kind(), msg@, text@));
    out
}

/// The same as `warn`.
pub fn warning(settings: &Settings, msg: &str) -> (out: Vec<Effect>)
    ensures
        message_effects(
            settings@,
            warn_kind(),
            msg@,
            settings@.config.warning_beep_count,
            warning_steps(settings@.sounds),
            effects_view(out@),
        ),
{
    warn(settings, msg)
}

/// Prints a critical message, with the error sound and its beep count.
pub fn critical(settings: &Settings, msg: &str) -> (out: Vec<Effect>)
    ensures
        message_effects(
            settings@,
            critical_kind(),
            msg@,
            settings@.config.error_beep_count,
            error_steps(settings@.sounds),
            effects_view(out@),
        ),
{
    let text = critical_text(settings.color_enabled(), msg);
    let out = synchronized_message(
        settings,
        text.as_str(),
        settings.config().error_beep_count,
        sound::play_error(settings.sounds()),
    );
    assert(message_line(settings@.color_enabled, critical_kind(), msg@, text@));
    out
}

/// The same as `success`.
pub fn sound_success(settings: &Settings, msg: &str) -> (out: Vec<Effect>)
    ensures
        message_effects(
            settings@,
            success_kind(),
            msg@,
            settings@.config.success_beep_count,
            success_steps(settings@.sounds),
            effects_view(out@),
        ),
{
    success(settings, msg)
}

/// The same as `error`.
pub fn sound_error(settings: &Settings, msg: &str) -> (out: Vec<Effect>)
    ensures
        message_effects(
            settings@,
            error_kind(),
            msg@,
            settings@.config.error_beep_count,
            error_steps(settings@.sounds),
            effects_view(out@),
        ),
{
    error(settings, msg)
}

/// The line of an information message, which is returned, not printed:
/// `[INFO]` and the message in blue, or `[i] ` and the message without colors.
pub fn info(settings: &Settings, msg: &str) -> (t: String)
    ensures
        message_line(settings@.color_enabled, info_kind(), msg@, t@),
{
    info_text(settings.color_enabled(), msg)
}

/// The line of an information message under the colors switch `colors_on`.
pub fn info_text(colors_on: bool, msg: &str) -> (t: String)
    ensures
        message_line(colors_on, info_kind(), msg@, t@),
{
    if colors_on {
        join_tag(colors::info(colors_on), paint(msg, Color::Blue), Ghost(info_kind()), Ghost(msg@))
    } else {
        plain_line("[i] ", msg)
    }
}

/// `msg` in bold and `color` when colors are on; as it is otherwise.
pub fn colored_msg(settings: &Settings, msg: &str, color: Color) -> (t: String)
    ensures
        if settings@.color_enabled {
            painted(t@, msg@, fg_bold(color))
        } else {
            t@ == msg@
        },
{
    colors::colorize(settings.color_enabled(), msg, color)
}

/// The tag `  ✓ VALID`.
pub fn status_valid(settings: &Settings) -> (r: String)
    ensures
        if settings@.color_enabled {
            framed(r@, "  "@, "\u{2713}"@, fg_bold(Color::Green), " VALID"@)
        } else {
            r@ == "  [\u{2713}] VALID"@
        },
{
    colors::valid_prefix(settings.color_enabled())
}

/// The tag `  ⚠ WARN`.
pub fn status_warn(settings: &Settings) -> (r: String)
    ensures
        if settings@.color_enabled {
            framed(r@, "  "@, "\u{26a0}"@, fg_bold(Color::Yellow), " WARN"@)
        } else {
            r@ == "  [\u{26a0}] WARN"@
        },
{
    colors::warn_prefix(settings.color_enabled())
}

/// The tag `  ✗ ERROR`.
pub fn status_error(settings: &Settings) -> (r: String)
    ensures
        if settings@.color_enabled {
            framed(r@, "  "@, "\u{2717}"@, fg_bold(Color::Red), " ERROR"@)
        } else {
            r@ == "  [\u{2717}] ERROR"@
        },
{
    colors::error_prefix(settings.color_enabled())
}

/// The steps of the success sound under the tones in use.
pub fn play_success_sound(settings: &Settings) -> (r: Vec<SoundStep>)
    ensures
        steps_view(r@) == success_steps(settings@.sounds),
{
    sound::play_success(settings.sounds())
}

/// The steps of the error sound under the tones in use.
pub fn play_error_sound(settings: &Settings) -> (r: Vec<SoundStep>)
    ensures
        steps_view(r@) == error_steps(settings@.sounds),
{
    sound::play_error(settings.sounds())
}

/// The steps of the warning sound under the tones in use.
pub fn play_warning_sound(settings: &Settings) -> (r: Vec<SoundStep>)
    ensures
        steps_view(r@) == warning_steps(settings@.sounds),
{
    sound::play_warning(settings.sounds())
}

} // verus!
