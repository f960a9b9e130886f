//! The first-run questions: which preferences to ask for, how answers are
//! read, and the preferences they give.  The caller shows each prompt, reads
//! a line, and hands it over until the questions are done.
use vstd::prelude::*;
use crate::config::{Config, ConfigView, default_config};
use crate::text::{chars_of, parse_unsigned, parse_unsigned_chars, trim, trim_chars, string_of};

verus! {

/// The lowercase form of `s`, as `str::to_lowercase` gives it.
pub uninterp spec fn lowercase(s: Seq<char>) -> Seq<char>;

/// `str::to_lowercase`: each character mapped to its Unicode lowercase form.
/// Its result is named by `lowercase`; the Unicode mapping is not spelled out.
#[verifier::external_body]
fn to_lowercase(s: &str) -> (r: String)
    ensures
        r@ == lowercase(s@),
{
    s.to_lowercase()
}

/// The answer that a lowercased line gives to a yes/no question.
pub open spec fn yes_no(lowered: Seq<char>) -> Option<bool> {
    if lowered == "y"@ || lowered == "yes"@ {
        Some(true)
    } else if lowered == "n"@ || lowered == "no"@ {
        Some(false)
    } else {
        None
    }
}

/// The answer that the lowercased line `lowered` gives to a yes/no question:
/// `y` or `yes`, `n` or `no`.
pub fn yes_no_answer(lowered: &str) -> (r: Option<bool>)
    ensures
        r == yes_no(lowered@),
{
    let cs = chars_of(lowered);
    let s = cs.as_slice();
    if crate::text::chars_eq_str(s, "y") || crate::text::chars_eq_str(s, "yes") {
        Some(true)
    } else if crate::text::chars_eq_str(s, "n") || crate::text::chars_eq_str(s, "no") {
        Some(false)
    } else {
        None
    }
}

/// The answer that the line `input` gives to a yes/no question, after
/// trimming and lowercasing it.
pub fn bool_answer(input: &str) -> (r: Option<bool>)
    ensures
        r == yes_no(lowercase(trim(input@))),
{
    let cs = chars_of(input);
    let t = string_of(trim_chars(cs.as_slice()).as_slice());
    let lowered = to_lowercase(t.as_str());
    yes_no_answer(lowered.as_str())
}

/// The volume that a line gives: a number from 0 to 100, after trimming.
pub open spec fn volume_of(input: Seq<char>) -> Option<u32> {
    match parse_unsigned(trim(input), u32::MAX as nat) {
        Some(v) => if v <= 100 {
            Some(v as u32)
        } else {
            None
        },
        None => None,
    }
}

/// The volume that the line `input` gives.
pub fn volume_answer(input: &str) -> (r: Option<u32>)
    ensures
        r == volume_of(input@),
{
    let cs = chars_of(input);
    let t = trim_chars(cs.as_slice());
    match parse_unsigned_chars(t.as_slice(), u32::MAX as u64) {
        Some(v) => if v <= 100 {
            Some(v as u32)
        } else {
            None
        },
        None => None,
    }
}

/// The beep count that a line gives: a number from 1 to 10, after trimming.
pub open spec fn beep_count_of_answer(input: Seq<char>) -> Option<usize> {
    match parse_unsigned(trim(input), usize::MAX as nat) {
        Some(v) => if 1 <= v <= 10 {
            Some(v as usize)
        } else {
            None
        },
        None => None,
    }
}

/// The beep count that the line `input` gives.
pub fn beep_count_answer(input: &str) -> (r: Option<usize>)
    ensures
        r == beep_count_of_answer(input@),
{
    let cs = chars_of(input);
    let t = trim_chars(cs.as_slice());
    match parse_unsigned_chars(t.as_slice(), usize::MAX as u64) {
        Some(v) => if 1 <= v && v <= 10 {
            Some(v as usize)
        } else {
            None
        },
        None => None,
    }
}

/// The questions, in order.
#[derive(Clone, Copy, PartialEq, Eq, Structural, Debug)]
pub enum SetupStep {
    Audio,
    Volume,
    Sync,
    Pulse,
    SuccessCount,
    ErrorCount,
    WarningCount,
    Done,
}

/// The answers given so far.
#[derive(Clone, Copy, PartialEq, Eq, Structural, Debug)]
pub struct SetupAnswers {
    pub audio_enabled: bool,
    pub volume_percent: u32,
    pub sync_color_sound: bool,
    pub pulse_with_beeps: bool,
    pub success_beep_count: usize,
    pub error_beep_count: usize,
    pub warning_beep_count: usize,
}

/// The first-run questions: the next one to ask, and the answers so far.
#[derive(Clone, Copy, PartialEq, Eq, Structural, Debug)]
pub struct Setup {
    pub step: SetupStep,
    pub answers: SetupAnswers,
}

/// The answers before any question is answered: the defaults.
pub open spec fn initial_answers() -> SetupAnswers {
    SetupAnswers {
        audio_enabled: true,
        volume_percent: 80,
        sync_color_sound: false,
        pulse_with_beeps: true,
        success_beep_count: 2,
        error_beep_count: 2,
        warning_beep_count: 2,
    }
}

/// The prompt of each question.
pub open spec fn prompt_of(step: SetupStep) -> Option<Seq<char>> {
    match step {
        SetupStep::Audio => Some("  Enable audio feedback? [y/n]: "@),
        SetupStep::Volume => Some("  Volume (0\u{2013}100): "@),
        SetupStep::Sync => Some("  Sync colors with sound? [y/n]: "@),
        SetupStep::Pulse => Some("  Make text pulse (normal->bold) with each beep? [y/n]: "@),
        SetupStep::SuccessCount => Some("  Success beep count: "@),
        SetupStep::ErrorCount => Some("  Error beep count: "@),
        SetupStep::WarningCount => Some("  Warning beep count: "@),
        SetupStep::Done => None,
    }
}

/// What is said when an answer to a yes/no question is not understood.
pub open spec fn yes_no_retry() -> Seq<char> {
    "  Please enter y or n."@
}

/// What is said when a volume is not understood.
pub open spec fn volume_retry() -> Seq<char> {
    "  Please enter a number between 0 and 100."@
}

/// What is said once the pulse question is answered: a blank line, then the
/// line that opens the beep-count questions.
pub open spec fn counts_notice() -> Seq<char> {
    "\n  Now configure beep counts (1-10 beeps per sound type):"@
}

/// What is said when a beep count is not understood.
pub open spec fn count_retry() -> Seq<char> {
    "  Please enter a number between 1 and 10."@
}

/// The questions after the line `input` is given to `s`, and what to say
/// then: why the answer is not understood (the question is then asked
/// again), or, once the pulse question is answered, the notice that opens the
/// beep-count questions.  Without audio, the volume and sync questions are
/// skipped, and keep 80 and no.
pub open spec fn setup_step(s: Setup, input: Seq<char>) -> (Setup, Option<Seq<char>>) {
    let a = s.answers;
    match s.step {
        SetupStep::Audio => match yes_no(lowercase(trim(input))) {
            Some(b) => (
                Setup {
                    step: if b {
                        SetupStep::Volume
                    } else {
                        SetupStep::Pulse
                    },
                    answers: SetupAnswers {
                        audio_enabled: b,
                        volume_percent: if b {
                            a.volume_percent
                        } else {
                            80
                        },
                        sync_color_sound: if b {
                            a.sync_color_sound
                        } else {
                            false
                        },
                        ..a
                    },
                },
                None,
            ),
            None => (s, Some(yes_no_retry())),
        },
        SetupStep::Volume => match volume_of(input) {
            Some(v) => (
                Setup { step: SetupStep::Sync, answers: SetupAnswers { volume_percent: v, ..a } },
                None,
            ),
            None => (s, Some(volume_retry())),
        },
        SetupStep::Sync => match yes_no(lowercase(trim(input))) {
            Some(b) => (
                Setup { step: SetupStep::Pulse, answers: SetupAnswers { sync_color_sound: b, ..a } },
                None,
            ),
            None => (s, Some(yes_no_retry())),
        },
        SetupStep::Pulse => match yes_no(lowercase(trim(input))) {
            Some(b) => (
                Setup {
                    step: SetupStep::SuccessCount,
                    answers: SetupAnswers { pulse_with_beeps: b, ..a },
                },
                Some(counts_notice()),
            ),
            None => (s, Some(yes_no_retry())),
        },
        SetupStep::SuccessCount => match beep_count_of_answer(input) {
            Some(n) => (
                Setup {
                    step: SetupStep::ErrorCount,
                    answers: SetupAnswers { success_beep_count: n, ..a },
                },
                None,
            ),
            None => (s, Some(count_retry())),
        },
        SetupStep::ErrorCount => match beep_count_of_answer(input) {
            Some(n) => (
                Setup {
                    step: SetupStep::WarningCount,
                    answers: SetupAnswers { error_beep_count: n, ..a },
                },
                None,
            ),
            None => (s, Some(count_retry())),
        },
        SetupStep::WarningCount => match beep_count_of_answer(input) {
            Some(n) => (
                Setup { step: SetupStep::Done, answers: SetupAnswers { warning_beep_count: n, ..a } },
                None,
            ),
            None => (s, Some(count_retry())),
        },
        SetupStep::Done => (s, None),
    }
}

/// Every accepted answer is stored in its own field and moves to the next
/// question, and an answer that is not understood changes nothing and says
/// why: a yes/no answer is read after trimming and lowercasing, a volume
/// must be 0 to 100, a beep count 1 to 10.  Without audio the volume and sync
/// questions are skipped.
pub proof fn lemma_answers_stored(s: Setup, input: Seq<char>)
    ensures
        ({
            let (t, said) = setup_step(s, input);
            let yn = yes_no(lowercase(trim(input)));
            let a = s.answers;
            &&& s.step == SetupStep::Audio && yn == Some(true) ==> t.step == SetupStep::Volume
                && t.answers == (SetupAnswers { audio_enabled: true, ..a }) && said is None
            &&& s.step == SetupStep::Audio && yn == Some(false) ==> t.step == SetupStep::Pulse
                && t.answers == (SetupAnswers { audio_enabled: false, volume_percent: 80, sync_color_sound: false, ..a })
                && said is None
            &&& s.step == SetupStep::Volume ==> match volume_of(input) {
                Some(v) => t.step == SetupStep::Sync && t.answers == (SetupAnswers { volume_percent: v, ..a })
                    && v <= 100 && said is None,
                None => t == s && said == Some(volume_retry()),
            }
            &&& s.step == SetupStep::Sync && yn is Some ==> t.step == SetupStep::Pulse && t.answers
                == (SetupAnswers { sync_color_sound: yn.unwrap(), ..a }) && said is None
            &&& s.step == SetupStep::Pulse && yn is Some ==> t.step == SetupStep::SuccessCount
                && t.answers == (SetupAnswers { pulse_with_beeps: yn.unwrap(), ..a }) && said == Some(
                counts_notice(),
            )
            &&& (s.step == SetupStep::Audio || s.step == SetupStep::Sync || s.step == SetupStep::Pulse) && yn is None
                ==> t == s && said == Some(yes_no_retry())
            &&& s.step == SetupStep::SuccessCount ==> match beep_count_of_answer(input) {
                Some(n) => t.step == SetupStep::ErrorCount && t.answers == (SetupAnswers { success_beep_count: n, ..a })
                    && 1 <= n <= 10 && said is None,
                None => t == s && said == Some(count_retry()),
            }
            &&& s.step == SetupStep::ErrorCount ==> match beep_count_of_answer(input) {
                Some(n) => t.step == SetupStep::WarningCount && t.answers == (SetupAnswers { error_beep_count: n, ..a })
                    && 1 <= n <= 10 && said is None,
                None => t == s && said == Some(count_retry()),
            }
            &&& s.step == SetupStep::WarningCount ==> match beep_count_of_answer(input) {
                Some(n) => t.step == SetupStep::Done && t.answers == (SetupAnswers { warning_beep_count: n, ..a })
                    && 1 <= n <= 10 && said is None,
                None => t == s && said == Some(count_retry()),
            }
            &&& s.step == SetupStep::Done ==> t == s && said is None
        }),
{
}

/// A volume answer is read as the number it writes, after trimming, when
/// that number is at most 100; a beep-count answer when it is 1 to 10.
pub proof fn lemma_number_answers(input: Seq<char>, n: nat)
    ensures
        parse_unsigned(trim(input), u32::MAX as nat) == Some(n) ==> volume_of(input) == (if n <= 100 {
            Some(n as u32)
        } else {
            None
        }),
        parse_unsigned(trim(input), u32::MAX as nat) is None ==> volume_of(input) is None,
        parse_unsigned(trim(input), usize::MAX as nat) == Some(n) ==> beep_count_of_answer(input) == (if 1
            <= n <= 10 {
            Some(n as usize)
        } else {
            None
        }),
        parse_unsigned(trim(input), usize::MAX as nat) is None ==> beep_count_of_answer(input) is None,
{
}

/// The preferences that finished questions give carry every answer, and
/// the defaults for everything not asked.
pub proof fn lemma_answers_saved(a: SetupAnswers)
    ensures
        answers_config(a).audio_enabled == a.audio_enabled,
        answers_config(a).volume_percent == a.volume_percent,
        answers_config(a).sync_color_sound == a.sync_color_sound,
        answers_config(a).pulse_with_beeps == a.pulse_with_beeps,
        answers_config(a).success_beep_count == a.success_beep_count,
        answers_config(a).error_beep_count == a.error_beep_count,
        answers_config(a).warning_beep_count == a.warning_beep_count,
        answers_config(a).pulse_speed_ms == default_config().pulse_speed_ms,
        answers_config(a).beep_count == default_config().beep_count,
        answers_config(a).success_freq1 == default_config().success_freq1,
{
}

/// The preferences that the answers give: the defaults, with the answered
/// switches, volume and beep counts.
pub open spec fn answers_config(a: SetupAnswers) -> ConfigView {
    ConfigView {
        audio_enabled: a.audio_enabled,
        volume_percent: a.volume_percent,
        sync_color_sound: a.sync_color_sound,
        pulse_with_beeps: a.pulse_with_beeps,
        success_beep_count: a.success_beep_count,
        error_beep_count: a.error_beep_count,
        warning_beep_count: a.warning_beep_count,
        ..default_config()
    }
}

impl Setup {
    /// The questions, none answered yet.
    pub fn new() -> (s: Setup)
        ensures
            s == (Setup { step: SetupStep::Audio, answers: initial_answers() }),
    {
        Setup {
            step: SetupStep::Audio,
            answers: SetupAnswers {
                audio_enabled: true,
                volume_percent: 80,
                sync_color_sound: false,
                pulse_with_beeps: true,
                success_beep_count: 2,
                error_beep_count: 2,
                warning_beep_count: 2,
            },
        }
    }

    /// The prompt of the next question; none when all are answered.
    pub fn prompt(&self) -> (r: Option<&'static str>)
        ensures
            match r {
                Some(p) => prompt_of(self.step) == Some(p@),
                None => prompt_of(self.step) is None,
            },
    {
        match self.step {
            SetupStep::Audio => Some("  Enable audio feedback? [y/n]: "),
            SetupStep::Volume => Some("  Volume (0\u{2013}100): "),
            SetupStep::Sync => Some("  Sync colors with sound? [y/n]: "),
            SetupStep::Pulse => Some("  Make text pulse (normal->bold) with each beep? [y/n]: "),
            SetupStep::SuccessCount => Some("  Success beep count: "),
            SetupStep::ErrorCount => Some("  Error beep count: "),
            SetupStep::WarningCount => Some("  Warning beep count: "),
            SetupStep::Done => None,
        }
    }

    /// Whether all questions are answered.
    pub fn is_done(&self) -> (r: bool)
        ensures
            r == (self.step == SetupStep::Done),
    {
        self.step == SetupStep::Done
    }

    /// Reads the answer `input` to the next question.  Returns what to say
    /// then: why it is not understood, the question then still being the
    /// next one; or, after the pulse question, the notice that opens the
    /// beep-count questions.
    pub fn answer(&mut self, input: &str) -> (r: Option<&'static str>)
        ensures
            *final(self) == setup_step(*old(self), input@).0,
            match r {
                Some(m) => setup_step(*old(self), input@).1 == Some(m@),
                None => setup_step(*old(self), input@).1 is None,
            },
    {
        let a = self.answers;
        match self.step {
            SetupStep::Audio => match bool_answer(input) {
                Some(b) => {
                    self.step = if b {
                        SetupStep::Volume
                    } else {
                        SetupStep::Pulse
                    };
                    self.answers = SetupAnswers {
                        audio_enabled: b,
                        volume_percent: if b {
                            a.volume_percent
                        } else {
                            80
                        },
                        sync_color_sound: if b {
                            a.sync_color_sound
                        } else {
                            false
                        },
                        ..a
                    };
                    None
                },
                None => Some("  Please enter y or n."),
            },
            SetupStep::Volume => match volume_answer(input) {
                Some(v) => {
                    self.step = SetupStep::Sync;
                    self.answers = SetupAnswers { volume_percent: v, ..a };
                    None
                },
                None => Some("  Please enter a number between 0 and 100."),
            },
            SetupStep::Sync => match bool_answer(input) {
                Some(b) => {
                    self.step = SetupStep::Pulse;
                    self.answers = SetupAnswers { sync_color_sound: b, ..a };
                    None
                },
                None => Some("  Please enter y or n."),
            },
            SetupStep::Pulse => match bool_answer(input) {
                Some(b) => {
                    self.step = SetupStep::SuccessCount;
                    self.answers = SetupAnswers { pulse_with_beeps: b, ..a };
                    Some("\n  Now configure beep counts (1-10 beeps per sound type):")
                },
                None => Some("  Please enter y or n."),
            },
            SetupStep::SuccessCount => match beep_count_answer(input) {
                Some(n) => {
                    self.step = SetupStep::ErrorCount;
                    self.answers = SetupAnswers { success_beep_count: n, ..a };
                    None
                },
                None => Some("  Please enter a number between 1 and 10."),
            },
            SetupStep::ErrorCount => match beep_count_answer(input) {
                Some(n) => {
                    self.step = SetupStep::WarningCount;
                    self.answers = SetupAnswers { error_beep_count: n, ..a };
                    None
                },
                None => Some("  Please enter a number between 1 and 10."),
            },
            SetupStep::WarningCount => match beep_count_answer(input) {
                Some(n) => {
                    self.step = SetupStep::Done;
                    self.answers = SetupAnswers { warning_beep_count: n, ..a };
                    None
                },
                None => Some("  Please enter a number between 1 and 10."),
            },
            SetupStep::Done => None,
        }
    }

    /// The preferences that the answers give.
    pub fn config(&self) -> (c: Config)
        ensures
            c@ == answers_config(self.answers),
    {
        let a = self.answers;
        let d = Config::default();
        Config {
            audio_enabled: a.audio_enabled,
            volume_percent: a.volume_percent,
            sync_color_sound: a.sync_color_sound,
            pulse_with_beeps: a.pulse_with_beeps,
            success_beep_count: a.success_beep_count,
            error_beep_count: a.error_beep_count,
            warning_beep_count: a.warning_beep_count,
            ..d
        }
    }
}

} // verus!
