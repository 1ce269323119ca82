//! Styled console output: colored and bold text, and the message helpers of
//! the command line. Whether styling is on is decided by the caller (it
//! depends on the environment and the terminal) and passed in as `enabled`.
use vstd::prelude::*;
use crate::text::{chars_of, concat_str};
use crossterm::style::Stylize;

verus! {

/// The colors the console helpers use.
#[derive(Debug, Clone, Copy, PartialEq, Eq, Structural)]
pub enum ConsoleColor {
    Green,
    Red,
    Yellow,
    Cyan,
    Blue,
    DarkGrey,
}

/// The 256-color palette index crossterm writes for a color.
pub open spec fn palette_code(color: ConsoleColor) -> Seq<char> {
    match color {
        ConsoleColor::Green => "10"@,
        ConsoleColor::Red => "9"@,
        ConsoleColor::Yellow => "11"@,
        ConsoleColor::Cyan => "14"@,
        ConsoleColor::Blue => "12"@,
        ConsoleColor::DarkGrey => "8"@,
    }
}

/// `out` is `text` in the foreground `color` as crossterm formats it, in
/// one of the three forms its output takes: between the escapes that set
/// the color and reset it; between two empty escapes, when the `NO_COLOR`
/// variable is set; or nothing at all, on a Windows console without
/// escape support, where the styled content goes through the console API,
/// which writes nothing into a string.
pub open spec fn colored(out: Seq<char>, text: Seq<char>, color: ConsoleColor) -> bool {
    ||| out == "\u{1b}[38;5;"@ + palette_code(color) + "m"@ + text + "\u{1b}[39m"@
    ||| out == "\u{1b}[m"@ + text + "\u{1b}[m"@
    ||| out.len() == 0
}

/// `out` is `text` in bold as crossterm formats it: between the escapes
/// that set bold and reset all attributes, or nothing at all on a Windows
/// console without escape support.
pub open spec fn bolded(out: Seq<char>, text: Seq<char>) -> bool {
    ||| out == "\u{1b}[1m"@ + text + "\u{1b}[0m"@
    ||| out.len() == 0
}

/// Calls crossterm's `Stylize::with` and formats the styled content.
/// Trusted: the result is `text` in `color` in one of the forms of
/// `colored`; which one depends on the environment (`NO_COLOR`) and on
/// whether the console takes escapes, which nothing here can know.
#[verifier::external_body]
fn crossterm_with(text: &str, color: ConsoleColor) -> (r: String)
    ensures
        colored(r@, text@, color),
{
    let c = match color {
        ConsoleColor::Green => crossterm::style::Color::Green,
        ConsoleColor::Red => crossterm::style::Color::Red,
        ConsoleColor::Yellow => crossterm::style::Color::Yellow,
        ConsoleColor::Cyan => crossterm::style::Color::Cyan,
        ConsoleColor::Blue => crossterm::style::Color::Blue,
        ConsoleColor::DarkGrey => crossterm::style::Color::DarkGrey,
    };
    text.with(c).to_string()
}

/// Calls crossterm's `Stylize::attribute` with `Attribute::Bold` and formats
/// the styled content. Trusted: the result is `text` in one of the forms of
/// `bolded`; which one depends on whether the console takes escapes.
#[verifier::external_body]
fn crossterm_bold_text(text: &str) -> (r: String)
    ensures
        bolded(r@, text@),
{
    text.attribute(crossterm::style::Attribute::Bold).to_string()
}

/// `out` is `text` in `color` when styling is on, else `text` itself.
pub open spec fn painted(out: Seq<char>, text: Seq<char>, color: ConsoleColor, enabled: bool) -> bool {
    if enabled {
        colored(out, text, color)
    } else {
        out == text
    }
}

/// `out` is `text` in bold when styling is on, else `text` itself.
pub open spec fn emboldened(out: Seq<char>, text: Seq<char>, enabled: bool) -> bool {
    if enabled {
        bolded(out, text)
    } else {
        out == text
    }
}

/// `text` in the foreground `color` when styling is on.
pub fn paint(text: &str, color: ConsoleColor, enabled: bool) -> (r: String)
    ensures
        painted(r@, text@, color, enabled),
{
    if enabled {
        crossterm_with(text, color)
    } else {
        String::from_str(text)
    }
}

/// Green text.
pub fn green(s: &str, enabled: bool) -> (r: String)
    ensures
        painted(r@, s@, ConsoleColor::Green, enabled),
{
    paint(s, ConsoleColor::Green, enabled)
}

/// Red text.
pub fn red(s: &str, enabled: bool) -> (r: String)
    ensures
        painted(r@, s@, ConsoleColor::Red, enabled),
{
    paint(s, ConsoleColor::Red, enabled)
}

/// Yellow text.
pub fn yellow(s: &str, enabled: bool) -> (r: String)
    ensures
        painted(r@, s@, ConsoleColor::Yellow, enabled),
{
    paint(s, ConsoleColor::Yellow, enabled)
}

/// Cyan text.
pub fn cyan(s: &str, enabled: bool) -> (r: String)
    ensures
        painted(r@, s@, ConsoleColor::Cyan, enabled),
{
    paint(s, ConsoleColor::Cyan, enabled)
}

/// Blue text.
pub fn blue(s: &str, enabled: bool) -> (r: String)
    ensures
        painted(r@, s@, ConsoleColor::Blue, enabled),
{
    paint(s, ConsoleColor::Blue, enabled)
}

/// Dim gray text, for secondary information.
pub fn dim(s: &str, enabled: bool) -> (r: String)
    ensures
        painted(r@, s@, ConsoleColor::DarkGrey, enabled),
{
    paint(s, ConsoleColor::DarkGrey, enabled)
}

/// Bold text.
pub fn bold(s: &str, enabled: bool) -> (r: String)
    ensures
        emboldened(r@, s@, enabled),
{
    if enabled {
        crossterm_bold_text(s)
    } else {
        String::from_str(s)
    }
}

/// `out` is `mark` painted, a space, then `msg`.
pub open spec fn marked(out: Seq<char>, mark: Seq<char>, color: ConsoleColor, msg: Seq<char>, enabled: bool) -> bool {
    exists|m: Seq<char>| #[trigger] painted(m, mark, color, enabled) && out == m + " "@ + msg
}

/// `mark` painted, a space, then `msg`.
fn mark_message(mark: &str, color: ConsoleColor, msg: &str, enabled: bool) -> (r: String)
    ensures
        marked(r@, mark@, color, msg@, enabled),
{
    let m = paint(mark, color, enabled);
    let head = concat_str(m.as_str(), " ");
    let r = concat_str(head.as_str(), msg);
    assert(painted(m@, mark@, color, enabled) && r@ == m@ + " "@ + msg@);
    r
}

/// A success message: a green check mark, a space, the message.
pub fn success(msg: &str, enabled: bool) -> (r: String)
    ensures
        marked(r@, "✓"@, ConsoleColor::Green, msg@, enabled),
{
    mark_message("✓", ConsoleColor::Green, msg, enabled)
}

/// An error message: a red cross, a space, the message.
pub fn error(msg: &str, enabled: bool) -> (r: String)
    ensures
        marked(r@, "✗"@, ConsoleColor::Red, msg@, enabled),
{
    mark_message("✗", ConsoleColor::Red, msg, enabled)
}

/// A warning: a yellow exclamation mark, a space, the message.
pub fn warning(msg: &str, enabled: bool) -> (r: String)
    ensures
        marked(r@, "!"@, ConsoleColor::Yellow, msg@, enabled),
{
    mark_message("!", ConsoleColor::Yellow, msg, enabled)
}

/// A note: a blue bullet, a space, the message.
pub fn info(msg: &str, enabled: bool) -> (r: String)
    ensures
        marked(r@, "•"@, ConsoleColor::Blue, msg@, enabled),
{
    mark_message("•", ConsoleColor::Blue, msg, enabled)
}

/// A hint: two spaces, a dim arrow, a space, the message.
pub fn hint(msg: &str, enabled: bool) -> (r: String)
    ensures
        r@.take(2) == "  "@,
        marked(r@.skip(2), "→"@, ConsoleColor::DarkGrey, msg@, enabled),
{
    let m = mark_message("→", ConsoleColor::DarkGrey, msg, enabled);
    let r = concat_str("  ", m.as_str());
    proof {
        reveal_strlit("  ");
        assert(r@.take(2) =~= "  "@);
        assert(r@.skip(2) =~= m@);
    }
    r
}

/// A path, in cyan.
pub fn path(p: &str, enabled: bool) -> (r: String)
    ensures
        painted(r@, p@, ConsoleColor::Cyan, enabled),
{
    cyan(p, enabled)
}

/// The number of bytes of a character in UTF-8.
pub open spec fn utf8_width(c: char) -> nat {
    if (c as u32) < 0x80 {
        1
    } else if (c as u32) < 0x800 {
        2
    } else if (c as u32) < 0x10000 {
        3
    } else {
        4
    }
}

/// The width in UTF-8 bytes of a character.
pub(crate) fn width_of(c: char) -> (r: usize)
    ensures
        r == utf8_width(c),
{
    if (c as u32) < 0x80 {
        1
    } else if (c as u32) < 0x800 {
        2
    } else if (c as u32) < 0x10000 {
        3
    } else {
        4
    }
}

/// The number of bytes of a text in UTF-8, which `str::len` gives.
pub open spec fn utf8_size(s: Seq<char>) -> nat
    decreases s.len(),
{
    if s.len() == 0 {
        0
    } else {
        utf8_size(s.drop_last()) + utf8_width(s.last())
    }
}

/// A prefix is no larger than the whole.
pub proof fn lemma_utf8_size_prefix(s: Seq<char>, i: int)
    requires
        0 <= i <= s.len(),
    ensures
        utf8_size(s.take(i)) <= utf8_size(s),
    decreases s.len() - i,
{
    if i < s.len() {
        lemma_utf8_size_prefix(s, i + 1);
        assert(s.take(i + 1).drop_last() == s.take(i));
    } else {
        assert(s.take(i) == s);
    }
}

/// The width of the rule after a section title: fifty columns less the
/// title's size in bytes and three, and none when that is not positive.
pub open spec fn section_padding(title: Seq<char>) -> nat {
    if utf8_size(title) + 3 >= 50 {
        0
    } else {
        (47 - utf8_size(title)) as nat
    }
}

/// The width of the rule after a section title.
pub fn section_padding_of(title: &str) -> (r: usize)
    ensures
        r == section_padding(title@),
{
    let cs = chars_of(title);
    let mut size: usize = 0;
    let mut i: usize = 0;
    while i < cs.len()
        invariant
            cs@ == title@,
            i <= cs@.len(),
            size == utf8_size(cs@.take(i as int)),
            size < 47,
        decreases cs@.len() - i,
    {
        let w = width_of(cs[i]);
        proof {
            assert(cs@.take(i + 1).drop_last() == cs@.take(i as int));
        }
        if size + w >= 47 {
            proof {
                lemma_utf8_size_prefix(cs@, i + 1);
            }
            return 0;
        }
        size = size + w;
        i = i + 1;
    }
    proof {
        assert(cs@.take(cs@.len() as int) == cs@);
    }
    47 - size
}

/// `n` copies of the rule character.
pub fn rule(n: usize) -> (r: String)
    ensures
        r@ == Seq::new(n as nat, |_i: int| '─'),
{
    let mut s = String::new();
    let mut i: usize = 0;
    while i < n
        invariant
            i <= n,
            s@ == Seq::new(i as nat, |_i: int| '─'),
        decreases n - i,
    {
        s.push('─');
        i = i + 1;
        assert(s@ =~= Seq::new(i as nat, |_i: int| '─'));
    }
    s
}

/// The rule that pads a section line.
pub open spec fn section_bar(title: Seq<char>) -> Seq<char> {
    Seq::new(section_padding(title), |_i: int| '─')
}

/// `out` is a section divider: a rule mark, the title, and a rule that pads
/// the line; with styling on, the marks are dim and the title bold.
pub open spec fn section_line(out: Seq<char>, title: Seq<char>, enabled: bool) -> bool {
    if enabled {
        exists|a: Seq<char>, t: Seq<char>, e: Seq<char>|
            #![trigger colored(a, "─"@, ConsoleColor::DarkGrey), bolded(t, title), colored(e, section_bar(title), ConsoleColor::DarkGrey)]
            colored(a, "─"@, ConsoleColor::DarkGrey) && bolded(t, title) && colored(e, section_bar(title), ConsoleColor::DarkGrey)
                && out == a + " "@ + t + " "@ + e
    } else {
        out == "─ "@ + title + " "@ + section_bar(title)
    }
}

/// A section divider with a title.
pub fn section(title: &str, enabled: bool) -> (r: String)
    ensures
        section_line(r@, title@, enabled),
{
    let padding = section_padding_of(title);
    let bar = rule(padding);
    proof {
        reveal_strlit(" ");
    }
    if enabled {
        let a = dim("─", enabled);
        let b = concat_str(a.as_str(), " ");
        let t = bold(title, enabled);
        let c = concat_str(b.as_str(), t.as_str());
        let d = concat_str(c.as_str(), " ");
        let e = dim(bar.as_str(), enabled);
        let r = concat_str(d.as_str(), e.as_str());
        assert(colored(a@, "─"@, ConsoleColor::DarkGrey) && bolded(t@, title@) && colored(e@, section_bar(title@), ConsoleColor::DarkGrey)
            && r@ == a@ + " "@ + t@ + " "@ + e@);
        r
    } else {
        let a = concat_str("─ ", title);
        let b = concat_str(a.as_str(), " ");
        concat_str(b.as_str(), bar.as_str())
    }
}

} // verus!
