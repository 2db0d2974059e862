//! Terminal styling. The crate paints text with ANSI select-graphic-rendition
//! sequences of its own, and measures the visible width of already styled text
//! by stripping every escape sequence before counting characters.
use vstd::prelude::*;
use vstd::string::*;

verus! {

/// A piece of text wrapped in a styling prefix and the reset sequence.
pub open spec fn styled(code: Seq<char>, s: Seq<char>) -> Seq<char> {
    code + s + "\u{1b}[0m"@
}

/// `s` painted in the accent colour used for labels.
pub open spec fn yellow_of(s: Seq<char>) -> Seq<char> {
    styled("\u{1b}[33m"@, s)
}

/// `s` painted in the accent colour used for the header.
pub open spec fn green_of(s: Seq<char>) -> Seq<char> {
    styled("\u{1b}[32m"@, s)
}

/// `s` painted in the colour used for the art blocks.
pub open spec fn blue_of(s: Seq<char>) -> Seq<char> {
    styled("\u{1b}[34m"@, s)
}

fn paint(code: &str, s: &str) -> (r: String)
    ensures
        r@ == styled(code@, s@),
{
    let mut out = code.to_owned();
    out.append(s);
    out.append("\u{1b}[0m");
    out
}

/// Paints `s` in the label accent colour.
pub fn paint_yellow(s: &str) -> (r: String)
    ensures
        r@ == yellow_of(s@),
{
    paint("\u{1b}[33m", s)
}

/// Paints `s` in the header accent colour.
pub fn paint_green(s: &str) -> (r: String)
    ensures
        r@ == green_of(s@),
{
    paint("\u{1b}[32m", s)
}

/// Paints `s` in the art colour.
pub fn paint_blue(s: &str) -> (r: String)
    ensures
        r@ == blue_of(s@),
{
    paint("\u{1b}[34m", s)
}

/// What a styled string reads as once every escape sequence is removed.
pub uninterp spec fn stripped_of(s: Seq<char>) -> Seq<char>;

/// Relies on strip_ansi_escapes::strip_str: it removes every ANSI escape
/// sequence from the text, and its result depends on the characters alone.
#[verifier::external_body]
pub(crate) fn strip_styles(s: &str) -> (r: String)
    ensures
        r@ == stripped_of(s@),
{
    strip_ansi_escapes::strip_str(s)
}

/// The number of characters the widest of `lines` shows once styling is
/// stripped.
pub open spec fn visible_width_of(lines: Seq<Seq<char>>) -> nat
    decreases lines.len(),
{
    if lines.len() == 0 {
        0
    } else {
        let rest = visible_width_of(lines.drop_last());
        let last = stripped_of(lines.last()).len();
        if last > rest {
            last
        } else {
            rest
        }
    }
}

/// Measures the longest visible line among `lines`, in characters.
pub fn visible_width(lines: &Vec<String>) -> (r: usize)
    ensures
        r == visible_width_of(lines.deep_view()),
{
    let mut w: usize = 0;
    let mut i: usize = 0;
    proof {
        assert(lines.deep_view().subrange(0, 0) =~= Seq::<Seq<char>>::empty());
    }
    while i < lines.len()
        invariant
            i <= lines.len(),
            lines.deep_view().len() == lines.len(),
            w == visible_width_of(lines.deep_view().subrange(0, i as int)),
        decreases lines.len() - i,
    {
        let stripped = strip_styles(lines[i].as_str());
        let sw = stripped.as_str().unicode_len();
        proof {
            let pre = lines.deep_view().subrange(0, i as int);
            let cur = lines.deep_view().subrange(0, i + 1);
            assert(cur.drop_last() =~= pre);
            assert(cur.last() == lines.deep_view()[i as int]);
        }
        if sw > w {
            w = sw;
        }
        i += 1;
    }
    proof {
        assert(lines.deep_view().subrange(0, lines.deep_view().len() as int) =~= lines.deep_view());
    }
    w
}

} // verus!
