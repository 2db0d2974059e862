//! The art catalog: each variant names a fixed block of pre-styled lines, and
//! resolution from a detected or overridden name is total, falling back to the
//! Unknown variant on any unrecognized name.
use vstd::prelude::*;
use crate::style::{blue_of, paint_blue, visible_width, visible_width_of};
use crate::text::str_eq;

verus! {

#[derive(Clone, Copy, PartialEq, Eq, Structural, Debug)]
pub enum IconArt {
    Windows,
    Arch,
    Unknown,
}

pub open spec fn windows_lines() -> Seq<Seq<char>> {
    let row = blue_of("################  ################"@);
    seq![
        row,
        row,
        row,
        row,
        row,
        row,
        row,
        "                                  "@,
        row,
        row,
        row,
        row,
        row,
        row,
        row,
    ]
}

pub open spec fn arch_lines() -> Seq<Seq<char>> {
    seq![
        blue_of("                   -`                 "@),
        blue_of("                  .o+`                "@),
        blue_of("                 `ooo/                "@),
        blue_of("                `+oooo:               "@),
        blue_of("               `+oooooo:              "@),
        blue_of("               -+oooooo+:             "@),
        blue_of("             `/:-:++oooo+:            "@),
        blue_of("            `/++++/+++++++:           "@),
        blue_of("           `/++++++++++++++:          "@),
        blue_of("          `/+++ooooooooooooo/`        "@),
        blue_of("         ./ooosssso++osssssso+`       "@),
        blue_of("        .oossssso-````/ossssss+`      "@),
        blue_of("       -osssssso.      :ssssssso.     "@),
        blue_of("      :osssssss/        osssso+++.    "@),
        blue_of("     /ossssssss/        +ssssooo/-    "@),
        blue_of("   `/ossssso+/:-        -:/+osssso+-  "@),
        blue_of("  `+sso+:-`                 `.-/+oso: "@),
        blue_of(" `++:.                           `-/+/"@),
        blue_of(".`                                 `  "@),
    ]
}

pub open spec fn unknown_lines() -> Seq<Seq<char>> {
    seq![
        "       ________       "@,
        "   _jgN########Ngg_    "@,
        " _N##N@@\"\"  \"\"9NN##Np_ "@,
        "d###P            N####p "@,
        "\"^^\"              T####"@,
        "                  d###P "@,
        "               _g###@F  "@,
        "            _gN##@P     "@,
        "          gN###F\"       "@,
        "         d###F          "@,
        "        0###F           "@,
        "        0###F           "@,
        "        0###F           "@,
        "        \"NN@'           "@,
        "                        "@,
        "         ___            "@,
        "        q###            "@,
        "         \"\"             "@,
    ]
}

/// The display lines of a variant. Every variant has at least one line.
pub open spec fn art_lines(a: IconArt) -> Seq<Seq<char>> {
    match a {
        IconArt::Windows => windows_lines(),
        IconArt::Arch => arch_lines(),
        IconArt::Unknown => unknown_lines(),
    }
}

fn windows_vec() -> (r: Vec<String>)
    ensures
        r.deep_view() == windows_lines(),
{
    let mut v: Vec<String> = Vec::new();
    let mut i: usize = 0;
    while i < 7
        invariant
            i <= 7,
            v@.len() == i,
            forall|k: int|
                0 <= k < i ==> (#[trigger] v@[k])@ == blue_of("################  ################"@),
        decreases 7 - i,
    {
        v.push(paint_blue("################  ################"));
        i += 1;
    }
    v.push("                                  ".to_owned());
    let mut j: usize = 0;
    while j < 7
        invariant
            j <= 7,
            v@.len() == 8 + j,
            forall|k: int|
                0 <= k < 8 + j && k != 7 ==> (#[trigger] v@[k])@ == blue_of(
                    "################  ################"@,
                ),
            v@[7]@ == "                                  "@,
        decreases 7 - j,
    {
        v.push(paint_blue("################  ################"));
        j += 1;
    }
    proof {
        assert(v.deep_view() =~~= windows_lines());
    }
    v
}

fn arch_vec() -> (r: Vec<String>)
    ensures
        r.deep_view() == arch_lines(),
{
    let mut v: Vec<String> = Vec::new();
    v.push(paint_blue("                   -`                 "));
    v.push(paint_blue("                  .o+`                "));
    v.push(paint_blue("                 `ooo/                "));
    v.push(paint_blue("                `+oooo:               "));
    v.push(paint_blue("               `+oooooo:              "));
    v.push(paint_blue("               -+oooooo+:             "));
    v.push(paint_blue("             `/:-:++oooo+:            "));
    v.push(paint_blue("            `/++++/+++++++:           "));
    v.push(paint_blue("           `/++++++++++++++:          "));
    v.push(paint_blue("          `/+++ooooooooooooo/`        "));
    v.push(paint_blue("         ./ooosssso++osssssso+`       "));
    v.push(paint_blue("        .oossssso-````/ossssss+`      "));
    v.push(paint_blue("       -osssssso.      :ssssssso.     "));
    v.push(paint_blue("      :osssssss/        osssso+++.    "));
    v.push(paint_blue("     /ossssssss/        +ssssooo/-    "));
    v.push(paint_blue("   `/ossssso+/:-        -:/+osssso+-  "));
    v.push(paint_blue("  `+sso+:-`                 `.-/+oso: "));
    v.push(paint_blue(" `++:.                           `-/+/"));
    v.push(paint_blue(".`                                 `  "));
    proof {
        assert(v.deep_view() =~~= arch_lines());
    }
    v
}

fn unknown_vec() -> (r: Vec<String>)
    ensures
        r.deep_view() == unknown_lines(),
{
    let mut v: Vec<String> = Vec::new();
    v.push("       ________       ".to_owned());
    v.push("   _jgN########Ngg_    ".to_owned());
    v.push(" _N##N@@\"\"  \"\"9NN##Np_ ".to_owned());
    v.push("d###P            N####p ".to_owned());
    v.push("\"^^\"              T####".to_owned());
    v.push("                  d###P ".to_owned());
    v.push("               _g###@F  ".to_owned());
    v.push("            _gN##@P     ".to_owned());
    v.push("          gN###F\"       ".to_owned());
    v.push("         d###F          ".to_owned());
    v.push("        0###F           ".to_owned());
    v.push("        0###F           ".to_owned());
    v.push("        0###F           ".to_owned());
    v.push("        \"NN@'           ".to_owned());
    v.push("                        ".to_owned());
    v.push("         ___            ".to_owned());
    v.push("        q###            ".to_owned());
    v.push("         \"\"             ".to_owned());
    proof {
        assert(v.deep_view() =~~= unknown_lines());
    }
    v
}

/// Exact, case-sensitive lookup of a variant by its name; any other name
/// parses to nothing.
pub open spec fn parse_name(s: Seq<char>) -> Option<IconArt> {
    if s == "Windows"@ {
        Some(IconArt::Windows)
    } else if s == "Arch"@ {
        Some(IconArt::Arch)
    } else if s == "Unknown"@ {
        Some(IconArt::Unknown)
    } else {
        None
    }
}

/// Which variant a resolution yields: an explicit override wins
/// unconditionally; otherwise the detected name is parsed, and any
/// unrecognized name falls back to the Unknown variant.
pub open spec fn resolved(override_art: Option<IconArt>, os_name: Seq<char>) -> IconArt {
    match override_art {
        Some(a) => a,
        None => match parse_name(os_name) {
            Some(a) => a,
            None => IconArt::Unknown,
        },
    }
}

impl IconArt {
    /// The block of pre-styled display lines of this variant.
    pub fn to_lines(&self) -> (r: Vec<String>)
        ensures
            r.deep_view() == art_lines(*self),
    {
        match self {
            IconArt::Windows => windows_vec(),
            IconArt::Arch => arch_vec(),
            IconArt::Unknown => unknown_vec(),
        }
    }

    /// The visible width of this variant's art: the character length of its
    /// widest line once styling is stripped.
    pub fn get_length(&self) -> (r: usize)
        ensures
            r == visible_width_of(art_lines(*self)),
    {
        let lines = self.to_lines();
        visible_width(&lines)
    }

    /// Parses a variant from its exact name.
    pub fn from_str(s: &str) -> (r: Option<IconArt>)
        ensures
            r == parse_name(s@),
    {
        if str_eq(s, "Windows") {
            Some(IconArt::Windows)
        } else if str_eq(s, "Arch") {
            Some(IconArt::Arch)
        } else if str_eq(s, "Unknown") {
            Some(IconArt::Unknown)
        } else {
            None
        }
    }

    /// Total resolution: an explicit override is used unconditionally, and an
    /// unrecognized detected name falls back to the Unknown variant, so a
    /// variant always comes back.
    pub fn resolve(override_art: Option<IconArt>, os_name: &str) -> (r: IconArt)
        ensures
            r == resolved(override_art, os_name@),
    {
        match override_art {
            Some(a) => a,
            None => match IconArt::from_str(os_name) {
                Some(a) => a,
                None => IconArt::Unknown,
            },
        }
    }
}

/// An explicit override decides the art by itself: resolution with an override
/// yields that variant whatever name was detected, so two different detected
/// names cannot change the outcome.
pub proof fn lemma_override_wins(a: IconArt, os_one: Seq<char>, os_two: Seq<char>)
    ensures
        resolved(Some(a), os_one) == a,
        resolved(Some(a), os_one) == resolved(Some(a), os_two),
{
}

/// Resolution is total even without an override: a name that parses to
/// nothing yields the Unknown variant rather than no variant at all.
pub proof fn lemma_unrecognized_falls_back(os_name: Seq<char>)
    ensures
        parse_name(os_name) is None ==> resolved(None, os_name) == IconArt::Unknown,
{
}

} // verus!
