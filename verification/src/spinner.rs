//! The spinner: a line that cycles through four frames until it is finished
//! with a success or a failure line.  The caller shows each frame, waits the
//! spinner's speed, and asks for the next one until there is none.
use vstd::prelude::*;
use crate::colors::{self, framed};
use crate::messages::{LineKind, join_tag, success_kind, tag_then};
use crate::paint::{Color, Look, fg, paint, paint_bold, painted};
use crate::settings::{Settings, SettingsView, get_spinner_speed_ms};
use crate::text::{push_char, push_str};

verus! {

/// The frames, in order: ◐ ◓ ◑ ◒.
pub open spec fn frame_char(i: int) -> char {
    if i == 0 {
        '\u{25d0}'
    } else if i == 1 {
        '\u{25d3}'
    } else if i == 2 {
        '\u{25d1}'
    } else {
        '\u{25d2}'
    }
}

/// A running or finished spinner.
pub struct SpinnerHandle {
    message: String,
    colors_enabled: bool,
    speed_ms: u64,
    frame: usize,
    running: bool,
    bold_frames: bool,
}

/// The value of a `SpinnerHandle`.
pub struct SpinnerView {
    pub message: Seq<char>,
    pub colors_enabled: bool,
    pub speed_ms: u64,
    pub frame: usize,
    pub running: bool,
    pub bold_frames: bool,
}

impl View for SpinnerHandle {
    type V = SpinnerView;

    closed spec fn view(&self) -> SpinnerView {
        SpinnerView {
            message: self.message@,
            colors_enabled: self.colors_enabled,
            speed_ms: self.speed_ms,
            frame: self.frame,
            running: self.running,
            bold_frames: self.bold_frames,
        }
    }
}

/// How a spinner's frames are styled: cyan, and bold when `bold_frames`.
pub open spec fn frame_look(bold_frames: bool) -> Look {
    Look { color: Some(Color::Cyan), bold: bold_frames, on_black: false }
}

/// Whether `line` shows frame `i` of a spinner for `message`: `\r`, the
/// frame (cyan, and bold when `bold_frames`, while colors were on at the
/// start), a space and the message.
pub open spec fn frame_line(colors_enabled: bool, bold_frames: bool, i: int, message: Seq<char>, line: Seq<char>) -> bool {
    let f = seq![frame_char(i)];
    if colors_enabled {
        framed(line, seq!['\r'], f, frame_look(bold_frames), seq![' '] + message)
    } else {
        line == seq!['\r'] + f + seq![' '] + message
    }
}

/// The line that ends a spinner with failure: `[FAIL]` (bold red) and the
/// message in red; `[✗] ` without colors.
pub open spec fn failure_kind() -> LineKind {
    LineKind { word: "FAIL"@, tag_color: Color::Red, plain: "[\u{2717}] "@, msg_look: fg(Color::Red) }
}

/// Whether `line` is the line that ends a spinner or a progress line with
/// `msg`: `\r`, then the line of `kind`, then a line break.
pub open spec fn finish_line(colors_on: bool, kind: LineKind, msg: Seq<char>, line: Seq<char>) -> bool {
    &&& line.len() >= 2
    &&& line[0] == '\r'
    &&& line.last() == '\n'
    &&& if colors_on {
        tag_then(line.subrange(1, line.len() - 1), kind, msg)
    } else {
        line.subrange(1, line.len() - 1) == kind.plain + msg
    }
}

fn frame_str(i: usize) -> (r: &'static str)
    requires
        i < 4,
    ensures
        r@ == seq![frame_char(i as int)],
{
    let r = if i == 0 {
        "\u{25d0}"
    } else if i == 1 {
        "\u{25d3}"
    } else if i == 2 {
        "\u{25d1}"
    } else {
        "\u{25d2}"
    };
    proof {
        reveal_strlit("\u{25d0}");
        reveal_strlit("\u{25d3}");
        reveal_strlit("\u{25d1}");
        reveal_strlit("\u{25d2}");
        assert(r@ =~= seq![frame_char(i as int)]);
    }
    r
}

/// A spinner for `msg`, at frame 0, using the colors and speed in effect now.
pub fn spinner(settings: &Settings, msg: &str) -> (h: SpinnerHandle)
    ensures
        h@ == (SpinnerView {
            message: msg@,
            colors_enabled: settings@.color_enabled,
            speed_ms: settings@.spinner_speed_ms,
            frame: 0,
            running: true,
            bold_frames: true,
        }),
{
    SpinnerHandle::new(settings, msg)
}

/// Frame `i` of a spinner for `message`.
pub(crate) fn frame_text(colors_enabled: bool, bold_frames: bool, i: usize, message: &str) -> (line: String)
    requires
        i < 4,
    ensures
        frame_line(colors_enabled, bold_frames, i as int, message@, line@),
{
    let f = frame_str(i);
    let mut line = String::new();
    push_char(&mut line, '\r');
    let mut tail = String::new();
    push_char(&mut tail, ' ');
    push_str(&mut tail, message);
    if colors_enabled {
        let styled = if bold_frames {
            paint_bold(f, Color::Cyan)
        } else {
            paint(f, Color::Cyan)
        };
        line = colors::frame("\r", styled, tail.as_str(), Ghost(f@), Ghost(frame_look(bold_frames)));
        proof {
            reveal_strlit("\r");
            assert("\r"@ =~= seq!['\r']);
        }
    } else {
        push_str(&mut line, f);
        push_str(&mut line, tail.as_str());
        assert(line@ =~= seq!['\r'] + seq![frame_char(i as int)] + seq![' '] + message@);
    }
    line
}

/// `\r`, the success or failure line, a line break.
fn finish_text(line: String) -> (r: String)
    ensures
        r@ == seq!['\r'] + line@ + seq!['\n'],
{
    let mut r = String::new();
    push_char(&mut r, '\r');
    push_str(&mut r, line.as_str());
    push_char(&mut r, '\n');
    r
}

proof fn lemma_finish_text(line: Seq<char>, r: Seq<char>)
    requires
        r == seq!['\r'] + line + seq!['\n'],
    ensures
        r.len() >= 2,
        r[0] == '\r',
        r.last() == '\n',
        r.subrange(1, r.len() - 1) == line,
{
    assert(r.subrange(1, r.len() - 1) =~= line);
}

/// The line that ends a spinner or progress line with success: `[ OK ]` and
/// `msg` in green, or `[✓] ` and `msg` without colors.
pub fn completion_line(colors_on: bool, msg: &str) -> (r: String)
    ensures
        finish_line(colors_on, success_kind(), msg@, r@),
{
    let line = crate::messages::success_text(colors_on, msg);
    let r = finish_text(line);
    proof {
        lemma_finish_text(line@, r@);
    }
    r
}

/// The line that ends a spinner or progress line with failure: `[FAIL]` and
/// `msg` in red, or `[✗] ` and `msg` without colors.
pub fn failure_line(colors_on: bool, msg: &str) -> (r: String)
    ensures
        finish_line(colors_on, failure_kind(), msg@, r@),
{
    let line = if colors_on {
        join_tag(colors::cross(colors_on), paint(msg, Color::Red), Ghost(failure_kind()), Ghost(msg@))
    } else {
        let mut t = "[\u{2717}] ".to_string();
        push_str(&mut t, msg);
        t
    };
    let r = finish_text(line);
    proof {
        lemma_finish_text(line@, r@);
    }
    r
}

impl SpinnerHandle {
    /// A spinner for `msg`, at frame 0.
    pub fn new(settings: &Settings, msg: &str) -> (h: SpinnerHandle)
        ensures
            h@ == (SpinnerView {
                message: msg@,
                colors_enabled: settings@.color_enabled,
                speed_ms: settings@.spinner_speed_ms,
                frame: 0,
                running: true,
                bold_frames: true,
            }),
    {
        SpinnerHandle {
            message: msg.to_string(),
            colors_enabled: settings.color_enabled(),
            speed_ms: get_spinner_speed_ms(settings),
            frame: 0,
            running: true,
            bold_frames: true,
        }
    }

    /// A spinner for `msg`, at frame 0, with the given colors switch and
    /// speed; its frames are cyan, and bold too when `bold_frames`.
    pub fn styled(msg: &str, colors_enabled: bool, speed_ms: u64, bold_frames: bool) -> (h: SpinnerHandle)
        ensures
            h@ == (SpinnerView { message: msg@, colors_enabled, speed_ms, frame: 0, running: true, bold_frames }),
    {
        SpinnerHandle { message: msg.to_string(), colors_enabled, speed_ms, frame: 0, running: true, bold_frames }
    }

    /// How long each frame is shown, in ms.
    pub fn speed_ms(&self) -> (r: u64)
        ensures
            r == self@.speed_ms,
    {
        self.speed_ms
    }

    /// Whether the spinner is still running.
    pub fn is_running(&self) -> (r: bool)
        ensures
            r == self@.running,
    {
        self.running
    }

    /// The next frame to show, and a step to the frame after it; nothing
    /// once the spinner is finished.
    pub fn next_frame(&mut self) -> (r: Option<String>)
        ensures
            match r {
                Some(line) => old(self)@.running && frame_line(
                    old(self)@.colors_enabled,
                    old(self)@.bold_frames,
                    (old(self)@.frame % 4) as int,
                    old(self)@.message,
                    line@,
                ) && final(self)@ == (SpinnerView {
                    frame: ((old(self)@.frame % 4 + 1) % 4) as usize,
                    ..old(self)@
                }),
                None => !old(self)@.running && final(self)@ == old(self)@,
            },
    {
        if !self.running {
            return None;
        }
        let i = self.frame % 4;
        let line = frame_text(self.colors_enabled, self.bold_frames, i, self.message.as_str());
        self.frame = (i + 1) % 4;
        Some(line)
    }

    /// Stops the spinner: it gives no more frames.
    pub fn stop(&mut self)
        ensures
            final(self)@ == (SpinnerView { running: false, ..old(self)@ }),
    {
        self.running = false;
    }

    /// Stops the spinner and gives the success line that replaces it.
    pub fn finish_success(&mut self, colors_on: bool, msg: &str) -> (r: String)
        ensures
            final(self)@ == (SpinnerView { running: false, ..old(self)@ }),
            finish_line(colors_on, success_kind(), msg@, r@),
    {
        self.stop();
        completion_line(colors_on, msg)
    }

    /// Stops the spinner and gives the failure line that replaces it.
    pub fn finish_error(&mut self, colors_on: bool, msg: &str) -> (r: String)
        ensures
            final(self)@ == (SpinnerView { running: false, ..old(self)@ }),
            finish_line(colors_on, failure_kind(), msg@, r@),
    {
        self.stop();
        failure_line(colors_on, msg)
    }
}

} // verus!
