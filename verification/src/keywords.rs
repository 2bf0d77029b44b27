//! The characters of the keywords that the proofs compare.

use vstd::prelude::*;

verus! {

/// The `<line-style>` and `<line-width>` keywords, and `currentcolor`.
pub proof fn lemma_line_keywords()
    ensures
        "none"@.len() == 4,
        "none"@[0] == 'n',
        "none"@[1] == 'o',
        "none"@[2] == 'n',
        "none"@[3] == 'e',
        "hidden"@.len() == 6,
        "hidden"@[0] == 'h',
        "hidden"@[1] == 'i',
        "hidden"@[2] == 'd',
        "hidden"@[3] == 'd',
        "hidden"@[4] == 'e',
        "hidden"@[5] == 'n',
        "dotted"@.len() == 6,
        "dotted"@[0] == 'd',
        "dotted"@[1] == 'o',
        "dotted"@[2] == 't',
        "dotted"@[3] == 't',
        "dotted"@[4] == 'e',
        "dotted"@[5] == 'd',
        "dashed"@.len() == 6,
        "dashed"@[0] == 'd',
        "dashed"@[1] == 'a',
        "dashed"@[2] == 's',
        "dashed"@[3] == 'h',
        "dashed"@[4] == 'e',
        "dashed"@[5] == 'd',
        "solid"@.len() == 5,
        "solid"@[0] == 's',
        "solid"@[1] == 'o',
        "solid"@[2] == 'l',
        "solid"@[3] == 'i',
        "solid"@[4] == 'd',
        "double"@.len() == 6,
        "double"@[0] == 'd',
        "double"@[1] == 'o',
        "double"@[2] == 'u',
        "double"@[3] == 'b',
        "double"@[4] == 'l',
        "double"@[5] == 'e',
        "groove"@.len() == 6,
        "groove"@[0] == 'g',
        "groove"@[1] == 'r',
        "groove"@[2] == 'o',
        "groove"@[3] == 'o',
        "groove"@[4] == 'v',
        "groove"@[5] == 'e',
        "ridge"@.len() == 5,
        "ridge"@[0] == 'r',
        "ridge"@[1] == 'i',
        "ridge"@[2] == 'd',
        "ridge"@[3] == 'g',
        "ridge"@[4] == 'e',
        "inset"@.len() == 5,
        "inset"@[0] == 'i',
        "inset"@[1] == 'n',
        "inset"@[2] == 's',
        "inset"@[3] == 'e',
        "inset"@[4] == 't',
        "outset"@.len() == 6,
        "outset"@[0] == 'o',
        "outset"@[1] == 'u',
        "outset"@[2] == 't',
        "outset"@[3] == 's',
        "outset"@[4] == 'e',
        "outset"@[5] == 't',
        "thin"@.len() == 4,
        "thin"@[0] == 't',
        "thin"@[1] == 'h',
        "thin"@[2] == 'i',
        "thin"@[3] == 'n',
        "medium"@.len() == 6,
        "medium"@[0] == 'm',
        "medium"@[1] == 'e',
        "medium"@[2] == 'd',
        "medium"@[3] == 'i',
        "medium"@[4] == 'u',
        "medium"@[5] == 'm',
        "thick"@.len() == 5,
        "thick"@[0] == 't',
        "thick"@[1] == 'h',
        "thick"@[2] == 'i',
        "thick"@[3] == 'c',
        "thick"@[4] == 'k',
        "currentcolor"@.len() == 12,
        "currentcolor"@[0] == 'c',
        "currentcolor"@[1] == 'u',
        "currentcolor"@[2] == 'r',
        "currentcolor"@[3] == 'r',
        "currentcolor"@[4] == 'e',
        "currentcolor"@[5] == 'n',
        "currentcolor"@[6] == 't',
        "currentcolor"@[7] == 'c',
        "currentcolor"@[8] == 'o',
        "currentcolor"@[9] == 'l',
        "currentcolor"@[10] == 'o',
        "currentcolor"@[11] == 'r',
{
    reveal_strlit("none");
    reveal_strlit("hidden");
    reveal_strlit("dotted");
    reveal_strlit("dashed");
    reveal_strlit("solid");
    reveal_strlit("double");
    reveal_strlit("groove");
    reveal_strlit("ridge");
    reveal_strlit("inset");
    reveal_strlit("outset");
    reveal_strlit("thin");
    reveal_strlit("medium");
    reveal_strlit("thick");
    reveal_strlit("currentcolor");
}

/// The keywords of the `border-image` longhands.
pub proof fn lemma_image_keywords()
    ensures
        "none"@.len() == 4,
        "none"@[0] == 'n',
        "none"@[1] == 'o',
        "none"@[2] == 'n',
        "none"@[3] == 'e',
        "fill"@.len() == 4,
        "fill"@[0] == 'f',
        "fill"@[1] == 'i',
        "fill"@[2] == 'l',
        "fill"@[3] == 'l',
        "auto"@.len() == 4,
        "auto"@[0] == 'a',
        "auto"@[1] == 'u',
        "auto"@[2] == 't',
        "auto"@[3] == 'o',
        "stretch"@.len() == 7,
        "stretch"@[0] == 's',
        "stretch"@[1] == 't',
        "stretch"@[2] == 'r',
        "stretch"@[3] == 'e',
        "stretch"@[4] == 't',
        "stretch"@[5] == 'c',
        "stretch"@[6] == 'h',
        "repeat"@.len() == 6,
        "repeat"@[0] == 'r',
        "repeat"@[1] == 'e',
        "repeat"@[2] == 'p',
        "repeat"@[3] == 'e',
        "repeat"@[4] == 'a',
        "repeat"@[5] == 't',
        "round"@.len() == 5,
        "round"@[0] == 'r',
        "round"@[1] == 'o',
        "round"@[2] == 'u',
        "round"@[3] == 'n',
        "round"@[4] == 'd',
        "space"@.len() == 5,
        "space"@[0] == 's',
        "space"@[1] == 'p',
        "space"@[2] == 'a',
        "space"@[3] == 'c',
        "space"@[4] == 'e',
{
    reveal_strlit("none");
    reveal_strlit("fill");
    reveal_strlit("auto");
    reveal_strlit("stretch");
    reveal_strlit("repeat");
    reveal_strlit("round");
    reveal_strlit("space");
}

/// The length units.
pub proof fn lemma_unit_names()
    ensures
        "px"@.len() == 2,
        "px"@[0] == 'p',
        "px"@[1] == 'x',
        "in"@.len() == 2,
        "in"@[0] == 'i',
        "in"@[1] == 'n',
        "cm"@.len() == 2,
        "cm"@[0] == 'c',
        "cm"@[1] == 'm',
        "mm"@.len() == 2,
        "mm"@[0] == 'm',
        "mm"@[1] == 'm',
        "q"@.len() == 1,
        "q"@[0] == 'q',
        "pt"@.len() == 2,
        "pt"@[0] == 'p',
        "pt"@[1] == 't',
        "pc"@.len() == 2,
        "pc"@[0] == 'p',
        "pc"@[1] == 'c',
        "em"@.len() == 2,
        "em"@[0] == 'e',
        "em"@[1] == 'm',
        "ex"@.len() == 2,
        "ex"@[0] == 'e',
        "ex"@[1] == 'x',
        "ch"@.len() == 2,
        "ch"@[0] == 'c',
        "ch"@[1] == 'h',
        "rem"@.len() == 3,
        "rem"@[0] == 'r',
        "rem"@[1] == 'e',
        "rem"@[2] == 'm',
        "vw"@.len() == 2,
        "vw"@[0] == 'v',
        "vw"@[1] == 'w',
        "vh"@.len() == 2,
        "vh"@[0] == 'v',
        "vh"@[1] == 'h',
        "vmin"@.len() == 4,
        "vmin"@[0] == 'v',
        "vmin"@[1] == 'm',
        "vmin"@[2] == 'i',
        "vmin"@[3] == 'n',
        "vmax"@.len() == 4,
        "vmax"@[0] == 'v',
        "vmax"@[1] == 'm',
        "vmax"@[2] == 'a',
        "vmax"@[3] == 'x',
{
    reveal_strlit("px");
    reveal_strlit("in");
    reveal_strlit("cm");
    reveal_strlit("mm");
    reveal_strlit("q");
    reveal_strlit("pt");
    reveal_strlit("pc");
    reveal_strlit("em");
    reveal_strlit("ex");
    reveal_strlit("ch");
    reveal_strlit("rem");
    reveal_strlit("vw");
    reveal_strlit("vh");
    reveal_strlit("vmin");
    reveal_strlit("vmax");
}

} // verus!
