//! Status tags and prefixes, colored when colors are on.
use vstd::prelude::*;
use crate::paint::{Color, Look, fg_bold, paint_bold, painted};
use crate::text::push_str;

verus! {

/// Whether `r` is `pre`, then `inner` styled in `look`, then `post`.
pub open spec fn framed(r: Seq<char>, pre: Seq<char>, inner: Seq<char>, look: Look, post: Seq<char>) -> bool {
    &&& r.len() >= pre.len() + post.len()
    &&& r.take(pre.len() as int) == pre
    &&& r.skip(r.len() - post.len()) == post
    &&& painted(r.subrange(pre.len() as int, r.len() - post.len()), inner, look)
}

/// `pre`, the styled text `styled`, then `post`.
pub(crate) fn frame(pre: &str, styled: String, post: &str, inner: Ghost<Seq<char>>, look: Ghost<Look>) -> (r: String)
    requires
        painted(styled@, inner@, look@),
    ensures
        framed(r@, pre@, inner@, look@, post@),
{
    let mut r = String::new();
    push_str(&mut r, pre);
    push_str(&mut r, styled.as_str());
    push_str(&mut r, post);
    let ghost n = r@.len();
    assert(r@.take(pre@.len() as int) =~= pre@);
    assert(r@.skip(n - post@.len()) =~= post@);
    assert(r@.subrange(pre@.len() as int, n - post@.len()) =~= styled@);
    r
}

/// A tag: `pre`, `word` in bold and `color`, then `post` when colors are
/// on; the literal `plain` when they are off.
fn tag(colors_on: bool, pre: &str, word: &str, color: Color, post: &str, plain: &str) -> (r: String)
    ensures
        if colors_on {
            framed(r@, pre@, word@, fg_bold(color), post@)
        } else {
            r@ == plain@
        },
{
    if colors_on {
        frame(pre, paint_bold(word, color), post, Ghost(word@), Ghost(fg_bold(color)))
    } else {
        plain.to_string()
    }
}

/// The success tag: `[ OK ]`, with ` OK ` green and bold when colors are on.
pub fn check(colors_on: bool) -> (r: String)
    ensures
        if colors_on {
            framed(r@, "["@, " OK "@, fg_bold(Color::Green), "]"@)
        } else {
            r@ == "[ OK ]"@
        },
{
    tag(colors_on, "[", " OK ", Color::Green, "]", "[ OK ]")
}

/// The failure tag: `[FAIL]`, with `FAIL` red and bold when colors are on.
pub fn cross(colors_on: bool) -> (r: String)
    ensures
        if colors_on {
            framed(r@, "["@, "FAIL"@, fg_bold(Color::Red), "]"@)
        } else {
            r@ == "[FAIL]"@
        },
{
    tag(colors_on, "[", "FAIL", Color::Red, "]", "[FAIL]")
}

/// The warning tag: `[WARN]`, with `WARN` yellow and bold when colors are on.
pub fn warn(colors_on: bool) -> (r: String)
    ensures
        if colors_on {
            framed(r@, "["@, "WARN"@, fg_bold(Color::Yellow), "]"@)
        } else {
            r@ == "[WARN]"@
        },
{
    tag(colors_on, "[", "WARN", Color::Yellow, "]", "[WARN]")
}

/// The information tag: `[INFO]`, with `INFO` cyan and bold when colors are on.
pub fn info(colors_on: bool) -> (r: String)
    ensures
        if colors_on {
            framed(r@, "["@, "INFO"@, fg_bold(Color::Cyan), "]"@)
        } else {
            r@ == "[INFO]"@
        },
{
    tag(colors_on, "[", "INFO", Color::Cyan, "]", "[INFO]")
}

/// `  ✓ VALID`, with the check mark green and bold; `  [✓] VALID` without colors.
pub fn valid_prefix(colors_on: bool) -> (r: String)
    ensures
        if colors_on {
            framed(r@, "  "@, "\u{2713}"@, fg_bold(Color::Green), " VALID"@)
        } else {
            r@ == "  [\u{2713}] VALID"@
        },
{
    tag(colors_on, "  ", "\u{2713}", Color::Green, " VALID", "  [\u{2713}] VALID")
}

/// `  ⚠ WARN`, with the sign yellow and bold; `  [⚠] WARN` without colors.
pub fn warn_prefix(colors_on: bool) -> (r: String)
    ensures
        if colors_on {
            framed(r@, "  "@, "\u{26a0}"@, fg_bold(Color::Yellow), " WARN"@)
        } else {
            r@ == "  [\u{26a0}] WARN"@
        },
{
    tag(colors_on, "  ", "\u{26a0}", Color::Yellow, " WARN", "  [\u{26a0}] WARN")
}

/// `  ✗ ERROR`, with the cross red and bold; `  [✗] ERROR` without colors.
pub fn error_prefix(colors_on: bool) -> (r: String)
    ensures
        if colors_on {
            framed(r@, "  "@, "\u{2717}"@, fg_bold(Color::Red), " ERROR"@)
        } else {
            r@ == "  [\u{2717}] ERROR"@
        },
{
    tag(colors_on, "  ", "\u{2717}", Color::Red, " ERROR", "  [\u{2717}] ERROR")
}

/// The same as `valid_prefix`.
pub fn status_valid(colors_on: bool) -> (r: String)
    ensures
        if colors_on {
            framed(r@, "  "@, "\u{2713}"@, fg_bold(Color::Green), " VALID"@)
        } else {
            r@ == "  [\u{2713}] VALID"@
        },
{
    valid_prefix(colors_on)
}

/// The same as `warn_prefix`.
pub fn status_warn(colors_on: bool) -> (r: String)
    ensures
        if colors_on {
            framed(r@, "  "@, "\u{26a0}"@, fg_bold(Color::Yellow), " WARN"@)
        } else {
            r@ == "  [\u{26a0}] WARN"@
        },
{
    warn_prefix(colors_on)
}

/// The same as `error_prefix`.
pub fn status_error(colors_on: bool) -> (r: String)
    ensures
        if colors_on {
            framed(r@, "  "@, "\u{2717}"@, fg_bold(Color::Red), " ERROR"@)
        } else {
            r@ == "  [\u{2717}] ERROR"@
        },
{
    error_prefix(colors_on)
}

/// `text` in bold and `color` when colors are on; as it is otherwise.
pub fn colorize(colors_on: bool, text: &str, color: Color) -> (r: String)
    ensures
        if colors_on {
            painted(r@, text@, fg_bold(color))
        } else {
            r@ == text@
        },
{
    if colors_on {
        paint_bold(text, color)
    } else {
        text.to_string()
    }
}

} // verus!
