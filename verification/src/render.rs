//! The layout engine: a zip-longest merge of the art block and the info block
//! into one two-column transcript, padding the left column with blanks once
//! the art runs out.
use vstd::prelude::*;
use vstd::string::*;
use crate::art::{art_lines, resolved, IconArt};
use crate::info::{build_info_lines, info_lines_text, DisplayConfig, MetricsSnapshot};
use crate::style::visible_width_of;
use crate::text::{repeat_str, repeated};

verus! {

/// The length of the longer of the two blocks.
pub open spec fn merged_len(art: Seq<Seq<char>>, info: Seq<Seq<char>>) -> nat {
    if art.len() >= info.len() {
        art.len()
    } else {
        info.len()
    }
}

/// Line `i` of the merge: art and info side by side while both last; art alone
/// once the info runs out, with no trailing separator; a blank field exactly
/// `art_width` wide in place of the art once the art runs out, so the info
/// column stays aligned.
pub open spec fn merged_line(
    art: Seq<Seq<char>>,
    art_width: nat,
    info: Seq<Seq<char>>,
    i: int,
) -> Seq<char> {
    if i < art.len() && i < info.len() {
        "  "@ + art[i] + "\t"@ + info[i]
    } else if i < art.len() {
        "  "@ + art[i]
    } else {
        "  "@ + repeated(" "@, art_width) + "\t"@ + info[i]
    }
}

/// Merges the art lines and the info lines index by index into the lines of
/// the final display. `art_width` is the visible width of the art block, the
/// width to which the left column is padded once the art is exhausted.
pub fn render(art_lines: &Vec<String>, art_width: usize, info_lines: &Vec<String>) -> (out: Vec<
    String,
>)
    ensures
        out@.len() == merged_len(art_lines.deep_view(), info_lines.deep_view()),
        forall|i: int|
            0 <= i < out@.len() ==> (#[trigger] out@[i])@ == merged_line(
                art_lines.deep_view(),
                art_width as nat,
                info_lines.deep_view(),
                i,
            ),
{
    let n = if art_lines.len() >= info_lines.len() {
        art_lines.len()
    } else {
        info_lines.len()
    };
    let mut out: Vec<String> = Vec::new();
    let mut i: usize = 0;
    while i < n
        invariant
            i <= n,
            n == merged_len(art_lines.deep_view(), info_lines.deep_view()),
            art_lines.deep_view().len() == art_lines@.len(),
            info_lines.deep_view().len() == info_lines@.len(),
            out@.len() == i,
            forall|k: int|
                0 <= k < i ==> (#[trigger] out@[k])@ == merged_line(
                    art_lines.deep_view(),
                    art_width as nat,
                    info_lines.deep_view(),
                    k,
                ),
        decreases n - i,
    {
        let mut line = "  ".to_owned();
        if i < art_lines.len() {
            line.append(art_lines[i].as_str());
            if i < info_lines.len() {
                line.append("\t");
                line.append(info_lines[i].as_str());
            }
        } else {
            let pad = repeat_str(" ", art_width);
            line.append(pad.as_str());
            line.append("\t");
            line.append(info_lines[i].as_str());
        }
        proof {
            assert(line@ == merged_line(
                art_lines.deep_view(),
                art_width as nat,
                info_lines.deep_view(),
                i as int,
            ));
        }
        out.push(line);
        i += 1;
    }
    out
}

/// The whole display in one pass: resolves the art from the override or the
/// detected name, builds the info block from the configuration and the
/// snapshot, and merges the two into the final lines. A leading blank line is
/// the caller's to print.
pub fn render_display(
    cfg: &DisplayConfig,
    m: &MetricsSnapshot,
    override_art: Option<IconArt>,
    os_name: &str,
) -> (out: Vec<String>)
    ensures
        out@.len() == merged_len(
            art_lines(resolved(override_art, os_name@)),
            info_lines_text(*cfg, *m),
        ),
        forall|i: int|
            0 <= i < out@.len() ==> (#[trigger] out@[i])@ == merged_line(
                art_lines(resolved(override_art, os_name@)),
                visible_width_of(art_lines(resolved(override_art, os_name@))),
                info_lines_text(*cfg, *m),
                i,
            ),
{
    let art = IconArt::resolve(override_art, os_name);
    let art_block = art.to_lines();
    let art_width = art.get_length();
    let info_block = build_info_lines(cfg, m);
    render(&art_block, art_width, &info_block)
}

} // verus!
