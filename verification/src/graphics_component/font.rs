//! Text alignment and the names of the fonts text can be drawn in.

use vstd::prelude::*;

use crate::text::{chars_of, same_chars};

verus! {

/// Placement of text relative to its anchor point.
#[derive(Debug, PartialEq, Eq, Structural, Clone, Copy)]
pub enum Alignment {
    Left,
    Center,
    Right,
}

/// The fonts a text component can use.
#[allow(non_camel_case_types)]
#[derive(Debug, Clone, Copy, PartialEq, Eq, Structural)]
pub enum FontName {
    mono_default_4x6,
    mono_default_5x7,
    mono_default_5x8,
    mono_default_6x10,
    mono_default_6x12,
    mono_default_6x13,
    mono_default_6x13_bold,
    mono_default_6x13_italic,
    mono_default_6x9,
    mono_default_7x13,
    mono_default_7x13_bold,
    mono_default_7x13_italic,
    mono_default_7x14,
    mono_default_7x14_bold,
    mono_default_8x13,
    mono_default_8x13_bold,
    mono_default_8x13_italic,
    mono_default_9x15,
    mono_default_9x15_bold,
    mono_default_9x18,
    mono_default_9x18_bold,
    mono_default_10x20,
    adventurer_11,
    fancypixels_9,
    smallsimple_6,
    simple1_7,
    bpixel_7,
    bpixel_12_bold,
    sticker100_11,
    greenbloodserif_12,
    commodore64_12,
    lucida_serif_9,
    lucida_serif_10,
    lucida_serif_13,
    lucida_serif_15,
    lucida_serif_18,
    lucida_serif_25,
    lucida_serif_9_bold,
    lucida_serif_10_bold,
    lucida_serif_13_bold,
    lucida_serif_15_bold,
    lucida_serif_18_bold,
    lucida_serif_25_bold,
    lucida_serif_9_italic,
    lucida_serif_10_italic,
    lucida_serif_13_italic,
    lucida_serif_15_italic,
    lucida_serif_18_italic,
    lucida_serif_25_italic,
    lucida_sans_9,
    lucida_sans_10,
    lucida_sans_13,
    lucida_sans_15,
    lucida_sans_18,
    lucida_sans_25,
    lucida_sans_9_bold,
    lucida_sans_10_bold,
    lucida_sans_13_bold,
    lucida_sans_15_bold,
    lucida_sans_18_bold,
    lucida_sans_25_bold,
    lucida_sans_9_italic,
    lucida_sans_10_italic,
    lucida_sans_13_italic,
    lucida_sans_15_italic,
    lucida_sans_18_italic,
    lucida_sans_25_italic,
    spleen_mono_6,
    spleen_mono_8,
    spleen_mono_15,
    spleen_mono_20,
    trixel_sq_5,
    maniac_23,
    bubble_18,
    bittypewriter_7,
    helvetipixeloutline_12,
    unnameddosfont_12,
    profont_6,
    profont_8,
    profont_9,
    profont_14,
    profont_19,
    sirclive_7,
}

/// The name a font is known by in the API.
pub open spec fn font_name_text(f: FontName) -> Seq<char> {
    match f {
        FontName::mono_default_4x6 => "mono_default_4x6"@,
        FontName::mono_default_5x7 => "mono_default_5x7"@,
        FontName::mono_default_5x8 => "mono_default_5x8"@,
        FontName::mono_default_6x10 => "mono_default_6x10"@,
        FontName::mono_default_6x12 => "mono_default_6x12"@,
        FontName::mono_default_6x13 => "mono_default_6x13"@,
        FontName::mono_default_6x13_bold => "mono_default_6x13_bold"@,
        FontName::mono_default_6x13_italic => "mono_default_6x13_italic"@,
        FontName::mono_default_6x9 => "mono_default_6x9"@,
        FontName::mono_default_7x13 => "mono_default_7x13"@,
        FontName::mono_default_7x13_bold => "mono_default_7x13_bold"@,
        FontName::mono_default_7x13_italic => "mono_default_7x13_italic"@,
        FontName::mono_default_7x14 => "mono_default_7x14"@,
        FontName::mono_default_7x14_bold => "mono_default_7x14_bold"@,
        FontName::mono_default_8x13 => "mono_default_8x13"@,
        FontName::mono_default_8x13_bold => "mono_default_8x13_bold"@,
        FontName::mono_default_8x13_italic => "mono_default_8x13_italic"@,
        FontName::mono_default_9x15 => "mono_default_9x15"@,
        FontName::mono_default_9x15_bold => "mono_default_9x15_bold"@,
        FontName::mono_default_9x18 => "mono_default_9x18"@,
        FontName::mono_default_9x18_bold => "mono_default_9x18_bold"@,
        FontName::mono_default_10x20 => "mono_default_10x20"@,
        FontName::adventurer_11 => "adventurer_11"@,
        FontName::fancypixels_9 => "fancypixels_9"@,
        FontName::smallsimple_6 => "smallsimple_6"@,
        FontName::simple1_7 => "simple1_7"@,
        FontName::bpixel_7 => "bpixel_7"@,
        FontName::bpixel_12_bold => "bpixel_12_bold"@,
        FontName::sticker100_11 => "sticker100_11"@,
        FontName::greenbloodserif_12 => "greenbloodserif_12"@,
        FontName::commodore64_12 => "commodore64_12"@,
        FontName::lucida_serif_9 => "lucida_serif_9"@,
        FontName::lucida_serif_10 => "lucida_serif_10"@,
        FontName::lucida_serif_13 => "lucida_serif_13"@,
        FontName::lucida_serif_15 => "lucida_serif_15"@,
        FontName::lucida_serif_18 => "lucida_serif_18"@,
        FontName::lucida_serif_25 => "lucida_serif_25"@,
        FontName::lucida_serif_9_bold => "lucida_serif_9_bold"@,
        FontName::lucida_serif_10_bold => "lucida_serif_10_bold"@,
        FontName::lucida_serif_13_bold => "lucida_serif_13_bold"@,
        FontName::lucida_serif_15_bold => "lucida_serif_15_bold"@,
        FontName::lucida_serif_18_bold => "lucida_serif_18_bold"@,
        FontName::lucida_serif_25_bold => "lucida_serif_25_bold"@,
        FontName::lucida_serif_9_italic => "lucida_serif_9_italic"@,
        FontName::lucida_serif_10_italic => "lucida_serif_10_italic"@,
        FontName::lucida_serif_13_italic => "lucida_serif_13_italic"@,
        FontName::lucida_serif_15_italic => "lucida_serif_15_italic"@,
        FontName::lucida_serif_18_italic => "lucida_serif_18_italic"@,
        FontName::lucida_serif_25_italic => "lucida_serif_25_italic"@,
        FontName::lucida_sans_9 => "lucida_sans_9"@,
        FontName::lucida_sans_10 => "lucida_sans_10"@,
        FontName::lucida_sans_13 => "lucida_sans_13"@,
        FontName::lucida_sans_15 => "lucida_sans_15"@,
        FontName::lucida_sans_18 => "lucida_sans_18"@,
        FontName::lucida_sans_25 => "lucida_sans_25"@,
        FontName::lucida_sans_9_bold => "lucida_sans_9_bold"@,
        FontName::lucida_sans_10_bold => "lucida_sans_10_bold"@,
        FontName::lucida_sans_13_bold => "lucida_sans_13_bold"@,
        FontName::lucida_sans_15_bold => "lucida_sans_15_bold"@,
        FontName::lucida_sans_18_bold => "lucida_sans_18_bold"@,
        FontName::lucida_sans_25_bold => "lucida_sans_25_bold"@,
        FontName::lucida_sans_9_italic => "lucida_sans_9_italic"@,
        FontName::lucida_sans_10_italic => "lucida_sans_10_italic"@,
        FontName::lucida_sans_13_italic => "lucida_sans_13_italic"@,
        FontName::lucida_sans_15_italic => "lucida_sans_15_italic"@,
        FontName::lucida_sans_18_italic => "lucida_sans_18_italic"@,
        FontName::lucida_sans_25_italic => "lucida_sans_25_italic"@,
        FontName::spleen_mono_6 => "spleen_mono_6"@,
        FontName::spleen_mono_8 => "spleen_mono_8"@,
        FontName::spleen_mono_15 => "spleen_mono_15"@,
        FontName::spleen_mono_20 => "spleen_mono_20"@,
        FontName::trixel_sq_5 => "trixel_sq_5"@,
        FontName::maniac_23 => "maniac_23"@,
        FontName::bubble_18 => "bubble_18"@,
        FontName::bittypewriter_7 => "bittypewriter_7"@,
        FontName::helvetipixeloutline_12 => "helvetipixeloutline_12"@,
        FontName::unnameddosfont_12 => "unnameddosfont_12"@,
        FontName::profont_6 => "profont_6"@,
        FontName::profont_8 => "profont_8"@,
        FontName::profont_9 => "profont_9"@,
        FontName::profont_14 => "profont_14"@,
        FontName::profont_19 => "profont_19"@,
        FontName::sirclive_7 => "sirclive_7"@,
    }
}

/// The position of a font in the list of all fonts.
pub open spec fn font_index(f: FontName) -> nat {
    match f {
        FontName::mono_default_4x6 => 0,
        FontName::mono_default_5x7 => 1,
        FontName::mono_default_5x8 => 2,
        FontName::mono_default_6x10 => 3,
        FontName::mono_default_6x12 => 4,
        FontName::mono_default_6x13 => 5,
        FontName::mono_default_6x13_bold => 6,
        FontName::mono_default_6x13_italic => 7,
        FontName::mono_default_6x9 => 8,
        FontName::mono_default_7x13 => 9,
        FontName::mono_default_7x13_bold => 10,
        FontName::mono_default_7x13_italic => 11,
        FontName::mono_default_7x14 => 12,
        FontName::mono_default_7x14_bold => 13,
        FontName::mono_default_8x13 => 14,
        FontName::mono_default_8x13_bold => 15,
        FontName::mono_default_8x13_italic => 16,
        FontName::mono_default_9x15 => 17,
        FontName::mono_default_9x15_bold => 18,
        FontName::mono_default_9x18 => 19,
        FontName::mono_default_9x18_bold => 20,
        FontName::mono_default_10x20 => 21,
        FontName::adventurer_11 => 22,
        FontName::fancypixels_9 => 23,
        FontName::smallsimple_6 => 24,
        FontName::simple1_7 => 25,
        FontName::bpixel_7 => 26,
        FontName::bpixel_12_bold => 27,
        FontName::sticker100_11 => 28,
        FontName::greenbloodserif_12 => 29,
        FontName::commodore64_12 => 30,
        FontName::lucida_serif_9 => 31,
        FontName::lucida_serif_10 => 32,
        FontName::lucida_serif_13 => 33,
        FontName::lucida_serif_15 => 34,
        FontName::lucida_serif_18 => 35,
        FontName::lucida_serif_25 => 36,
        FontName::lucida_serif_9_bold => 37,
        FontName::lucida_serif_10_bold => 38,
        FontName::lucida_serif_13_bold => 39,
        FontName::lucida_serif_15_bold => 40,
        FontName::lucida_serif_18_bold => 41,
        FontName::lucida_serif_25_bold => 42,
        FontName::lucida_serif_9_italic => 43,
        FontName::lucida_serif_10_italic => 44,
        FontName::lucida_serif_13_italic => 45,
        FontName::lucida_serif_15_italic => 46,
        FontName::lucida_serif_18_italic => 47,
        FontName::lucida_serif_25_italic => 48,
        FontName::lucida_sans_9 => 49,
        FontName::lucida_sans_10 => 50,
        FontName::lucida_sans_13 => 51,
        FontName::lucida_sans_15 => 52,
        FontName::lucida_sans_18 => 53,
        FontName::lucida_sans_25 => 54,
        FontName::lucida_sans_9_bold => 55,
        FontName::lucida_sans_10_bold => 56,
        FontName::lucida_sans_13_bold => 57,
        FontName::lucida_sans_15_bold => 58,
        FontName::lucida_sans_18_bold => 59,
        FontName::lucida_sans_25_bold => 60,
        FontName::lucida_sans_9_italic => 61,
        FontName::lucida_sans_10_italic => 62,
        FontName::lucida_sans_13_italic => 63,
        FontName::lucida_sans_15_italic => 64,
        FontName::lucida_sans_18_italic => 65,
        FontName::lucida_sans_25_italic => 66,
        FontName::spleen_mono_6 => 67,
        FontName::spleen_mono_8 => 68,
        FontName::spleen_mono_15 => 69,
        FontName::spleen_mono_20 => 70,
        FontName::trixel_sq_5 => 71,
        FontName::maniac_23 => 72,
        FontName::bubble_18 => 73,
        FontName::bittypewriter_7 => 74,
        FontName::helvetipixeloutline_12 => 75,
        FontName::unnameddosfont_12 => 76,
        FontName::profont_6 => 77,
        FontName::profont_8 => 78,
        FontName::profont_9 => 79,
        FontName::profont_14 => 80,
        FontName::profont_19 => 81,
        FontName::sirclive_7 => 82,
    }
}

/// Number of fonts.
pub open spec fn font_count() -> nat {
    83
}

impl FontName {
    /// The name the font is known by in the API.
    pub fn name(&self) -> (s: &'static str)
        ensures
            s@ == font_name_text(*self),
    {
        match self {
            FontName::mono_default_4x6 => "mono_default_4x6",
            FontName::mono_default_5x7 => "mono_default_5x7",
            FontName::mono_default_5x8 => "mono_default_5x8",
            FontName::mono_default_6x10 => "mono_default_6x10",
            FontName::mono_default_6x12 => "mono_default_6x12",
            FontName::mono_default_6x13 => "mono_default_6x13",
            FontName::mono_default_6x13_bold => "mono_default_6x13_bold",
            FontName::mono_default_6x13_italic => "mono_default_6x13_italic",
            FontName::mono_default_6x9 => "mono_default_6x9",
            FontName::mono_default_7x13 => "mono_default_7x13",
            FontName::mono_default_7x13_bold => "mono_default_7x13_bold",
            FontName::mono_default_7x13_italic => "mono_default_7x13_italic",
            FontName::mono_default_7x14 => "mono_default_7x14",
            FontName::mono_default_7x14_bold => "mono_default_7x14_bold",
            FontName::mono_default_8x13 => "mono_default_8x13",
            FontName::mono_default_8x13_bold => "mono_default_8x13_bold",
            FontName::mono_default_8x13_italic => "mono_default_8x13_italic",
            FontName::mono_default_9x15 => "mono_default_9x15",
            FontName::mono_default_9x15_bold => "mono_default_9x15_bold",
            FontName::mono_default_9x18 => "mono_default_9x18",
            FontName::mono_default_9x18_bold => "mono_default_9x18_bold",
            FontName::mono_default_10x20 => "mono_default_10x20",
            FontName::adventurer_11 => "adventurer_11",
            FontName::fancypixels_9 => "fancypixels_9",
            FontName::smallsimple_6 => "smallsimple_6",
            FontName::simple1_7 => "simple1_7",
            FontName::bpixel_7 => "bpixel_7",
            FontName::bpixel_12_bold => "bpixel_12_bold",
            FontName::sticker100_11 => "sticker100_11",
            FontName::greenbloodserif_12 => "greenbloodserif_12",
            FontName::commodore64_12 => "commodore64_12",
            FontName::lucida_serif_9 => "lucida_serif_9",
            FontName::lucida_serif_10 => "lucida_serif_10",
            FontName::lucida_serif_13 => "lucida_serif_13",
            FontName::lucida_serif_15 => "lucida_serif_15",
            FontName::lucida_serif_18 => "lucida_serif_18",
            FontName::lucida_serif_25 => "lucida_serif_25",
            FontName::lucida_serif_9_bold => "lucida_serif_9_bold",
            FontName::lucida_serif_10_bold => "lucida_serif_10_bold",
            FontName::lucida_serif_13_bold => "lucida_serif_13_bold",
            FontName::lucida_serif_15_bold => "lucida_serif_15_bold",
            FontName::lucida_serif_18_bold => "lucida_serif_18_bold",
            FontName::lucida_serif_25_bold => "lucida_serif_25_bold",
            FontName::lucida_serif_9_italic => "lucida_serif_9_italic",
            FontName::lucida_serif_10_italic => "lucida_serif_10_italic",
            FontName::lucida_serif_13_italic => "lucida_serif_13_italic",
            FontName::lucida_serif_15_italic => "lucida_serif_15_italic",
            FontName::lucida_serif_18_italic => "lucida_serif_18_italic",
            FontName::lucida_serif_25_italic => "lucida_serif_25_italic",
            FontName::lucida_sans_9 => "lucida_sans_9",
            FontName::lucida_sans_10 => "lucida_sans_10",
            FontName::lucida_sans_13 => "lucida_sans_13",
            FontName::lucida_sans_15 => "lucida_sans_15",
            FontName::lucida_sans_18 => "lucida_sans_18",
            FontName::lucida_sans_25 => "lucida_sans_25",
            FontName::lucida_sans_9_bold => "lucida_sans_9_bold",
            FontName::lucida_sans_10_bold => "lucida_sans_10_bold",
            FontName::lucida_sans_13_bold => "lucida_sans_13_bold",
            FontName::lucida_sans_15_bold => "lucida_sans_15_bold",
            FontName::lucida_sans_18_bold => "lucida_sans_18_bold",
            FontName::lucida_sans_25_bold => "lucida_sans_25_bold",
            FontName::lucida_sans_9_italic => "lucida_sans_9_italic",
            FontName::lucida_sans_10_italic => "lucida_sans_10_italic",
            FontName::lucida_sans_13_italic => "lucida_sans_13_italic",
            FontName::lucida_sans_15_italic => "lucida_sans_15_italic",
            FontName::lucida_sans_18_italic => "lucida_sans_18_italic",
            FontName::lucida_sans_25_italic => "lucida_sans_25_italic",
            FontName::spleen_mono_6 => "spleen_mono_6",
            FontName::spleen_mono_8 => "spleen_mono_8",
            FontName::spleen_mono_15 => "spleen_mono_15",
            FontName::spleen_mono_20 => "spleen_mono_20",
            FontName::trixel_sq_5 => "trixel_sq_5",
            FontName::maniac_23 => "maniac_23",
            FontName::bubble_18 => "bubble_18",
            FontName::bittypewriter_7 => "bittypewriter_7",
            FontName::helvetipixeloutline_12 => "helvetipixeloutline_12",
            FontName::unnameddosfont_12 => "unnameddosfont_12",
            FontName::profont_6 => "profont_6",
            FontName::profont_8 => "profont_8",
            FontName::profont_9 => "profont_9",
            FontName::profont_14 => "profont_14",
            FontName::profont_19 => "profont_19",
            FontName::sirclive_7 => "sirclive_7",
        }
    }

    /// The font whose name is `s`, if there is one.
    pub fn from_name(s: &str) -> (r: Option<FontName>)
        ensures
            r matches Some(f) ==> font_name_text(f) == s@,
            r is None ==> forall|f: FontName| font_name_text(f) != s@,
    {
        let target = chars_of(s);
        let fonts = all_fonts();
        let mut i: usize = 0;
        while i < fonts.len()
            invariant
                i <= fonts@.len(),
                target@ == s@,
                fonts@.len() == font_count(),
                forall|f: FontName| #[trigger] fonts@[font_index(f) as int] == f,
                forall|j: int| 0 <= j < i ==> font_name_text(#[trigger] fonts@[j]) != s@,
            decreases fonts@.len() - i,
        {
            let f = fonts[i];
            let name = chars_of(f.name());
            if same_chars(&name, &target) {
                return Some(f);
            }
            i = i + 1;
        }
        proof {
            assert forall|f: FontName| font_name_text(f) != s@ by {
                assert(fonts@[font_index(f) as int] == f);
            }
        }
        None
    }
}

/// The font at a position of the list of all fonts (the last one beyond it).
pub open spec fn font_of_index(i: nat) -> FontName {
    if i == 0 {
        FontName::mono_default_4x6
    } else if i == 1 {
        FontName::mono_default_5x7
    } else if i == 2 {
        FontName::mono_default_5x8
    } else if i == 3 {
        FontName::mono_default_6x10
    } else if i == 4 {
        FontName::mono_default_6x12
    } else if i == 5 {
        FontName::mono_default_6x13
    } else if i == 6 {
        FontName::mono_default_6x13_bold
    } else if i == 7 {
        FontName::mono_default_6x13_italic
    } else if i == 8 {
        FontName::mono_default_6x9
    } else if i == 9 {
        FontName::mono_default_7x13
    } else if i == 10 {
        FontName::mono_default_7x13_bold
    } else if i == 11 {
        FontName::mono_default_7x13_italic
    } else if i == 12 {
        FontName::mono_default_7x14
    } else if i == 13 {
        FontName::mono_default_7x14_bold
    } else if i == 14 {
        FontName::mono_default_8x13
    } else if i == 15 {
        FontName::mono_default_8x13_bold
    } else if i == 16 {
        FontName::mono_default_8x13_italic
    } else if i == 17 {
        FontName::mono_default_9x15
    } else if i == 18 {
        FontName::mono_default_9x15_bold
    } else if i == 19 {
        FontName::mono_default_9x18
    } else if i == 20 {
        FontName::mono_default_9x18_bold
    } else if i == 21 {
        FontName::mono_default_10x20
    } else if i == 22 {
        FontName::adventurer_11
    } else if i == 23 {
        FontName::fancypixels_9
    } else if i == 24 {
        FontName::smallsimple_6
    } else if i == 25 {
        FontName::simple1_7
    } else if i == 26 {
        FontName::bpixel_7
    } else if i == 27 {
        FontName::bpixel_12_bold
    } else if i == 28 {
        FontName::sticker100_11
    } else if i == 29 {
        FontName::greenbloodserif_12
    } else if i == 30 {
        FontName::commodore64_12
    } else if i == 31 {
        FontName::lucida_serif_9
    } else if i == 32 {
        FontName::lucida_serif_10
    } else if i == 33 {
        FontName::lucida_serif_13
    } else if i == 34 {
        FontName::lucida_serif_15
    } else if i == 35 {
        FontName::lucida_serif_18
    } else if i == 36 {
        FontName::lucida_serif_25
    } else if i == 37 {
        FontName::lucida_serif_9_bold
    } else if i == 38 {
        FontName::lucida_serif_10_bold
    } else if i == 39 {
        FontName::lucida_serif_13_bold
    } else if i == 40 {
        FontName::lucida_serif_15_bold
    } else if i == 41 {
        FontName::lucida_serif_18_bold
    } else if i == 42 {
        FontName::lucida_serif_25_bold
    } else if i == 43 {
        FontName::lucida_serif_9_italic
    } else if i == 44 {
        FontName::lucida_serif_10_italic
    } else if i == 45 {
        FontName::lucida_serif_13_italic
    } else if i == 46 {
        FontName::lucida_serif_15_italic
    } else if i == 47 {
        FontName::lucida_serif_18_italic
    } else if i == 48 {
        FontName::lucida_serif_25_italic
    } else if i == 49 {
        FontName::lucida_sans_9
    } else if i == 50 {
        FontName::lucida_sans_10
    } else if i == 51 {
        FontName::lucida_sans_13
    } else if i == 52 {
        FontName::lucida_sans_15
    } else if i == 53 {
        FontName::lucida_sans_18
    } else if i == 54 {
        FontName::lucida_sans_25
    } else if i == 55 {
        FontName::lucida_sans_9_bold
    } else if i == 56 {
        FontName::lucida_sans_10_bold
    } else if i == 57 {
        FontName::lucida_sans_13_bold
    } else if i == 58 {
        FontName::lucida_sans_15_bold
    } else if i == 59 {
        FontName::lucida_sans_18_bold
    } else if i == 60 {
        FontName::lucida_sans_25_bold
    } else if i == 61 {
        FontName::lucida_sans_9_italic
    } else if i == 62 {
        FontName::lucida_sans_10_italic
    } else if i == 63 {
        FontName::lucida_sans_13_italic
    } else if i == 64 {
        FontName::lucida_sans_15_italic
    } else if i == 65 {
        FontName::lucida_sans_18_italic
    } else if i == 66 {
        FontName::lucida_sans_25_italic
    } else if i == 67 {
        FontName::spleen_mono_6
    } else if i == 68 {
        FontName::spleen_mono_8
    } else if i == 69 {
        FontName::spleen_mono_15
    } else if i == 70 {
        FontName::spleen_mono_20
    } else if i == 71 {
        FontName::trixel_sq_5
    } else if i == 72 {
        FontName::maniac_23
    } else if i == 73 {
        FontName::bubble_18
    } else if i == 74 {
        FontName::bittypewriter_7
    } else if i == 75 {
        FontName::helvetipixeloutline_12
    } else if i == 76 {
        FontName::unnameddosfont_12
    } else if i == 77 {
        FontName::profont_6
    } else if i == 78 {
        FontName::profont_8
    } else if i == 79 {
        FontName::profont_9
    } else if i == 80 {
        FontName::profont_14
    } else if i == 81 {
        FontName::profont_19
    } else {
        FontName::sirclive_7
    }
}

/// A font's position in the list leads back to the font.
pub proof fn lemma_font_index_inverse(f: FontName)
    ensures
        font_of_index(font_index(f)) == f,
        font_index(f) < font_count(),
{
    match f {
        FontName::mono_default_4x6 => {},
        FontName::mono_default_5x7 => {},
        FontName::mono_default_5x8 => {},
        FontName::mono_default_6x10 => {},
        FontName::mono_default_6x12 => {},
        FontName::mono_default_6x13 => {},
        FontName::mono_default_6x13_bold => {},
        FontName::mono_default_6x13_italic => {},
        FontName::mono_default_6x9 => {},
        FontName::mono_default_7x13 => {},
        FontName::mono_default_7x13_bold => {},
        FontName::mono_default_7x13_italic => {},
        FontName::mono_default_7x14 => {},
        FontName::mono_default_7x14_bold => {},
        FontName::mono_default_8x13 => {},
        FontName::mono_default_8x13_bold => {},
        FontName::mono_default_8x13_italic => {},
        FontName::mono_default_9x15 => {},
        FontName::mono_default_9x15_bold => {},
        FontName::mono_default_9x18 => {},
        FontName::mono_default_9x18_bold => {},
        FontName::mono_default_10x20 => {},
        FontName::adventurer_11 => {},
        FontName::fancypixels_9 => {},
        FontName::smallsimple_6 => {},
        FontName::simple1_7 => {},
        FontName::bpixel_7 => {},
        FontName::bpixel_12_bold => {},
        FontName::sticker100_11 => {},
        FontName::greenbloodserif_12 => {},
        FontName::commodore64_12 => {},
        FontName::lucida_serif_9 => {},
        FontName::lucida_serif_10 => {},
        FontName::lucida_serif_13 => {},
        FontName::lucida_serif_15 => {},
        FontName::lucida_serif_18 => {},
        FontName::lucida_serif_25 => {},
        FontName::lucida_serif_9_bold => {},
        FontName::lucida_serif_10_bold => {},
        FontName::lucida_serif_13_bold => {},
        FontName::lucida_serif_15_bold => {},
        FontName::lucida_serif_18_bold => {},
        FontName::lucida_serif_25_bold => {},
        FontName::lucida_serif_9_italic => {},
        FontName::lucida_serif_10_italic => {},
        FontName::lucida_serif_13_italic => {},
        FontName::lucida_serif_15_italic => {},
        FontName::lucida_serif_18_italic => {},
        FontName::lucida_serif_25_italic => {},
        FontName::lucida_sans_9 => {},
        FontName::lucida_sans_10 => {},
        FontName::lucida_sans_13 => {},
        FontName::lucida_sans_15 => {},
        FontName::lucida_sans_18 => {},
        FontName::lucida_sans_25 => {},
        FontName::lucida_sans_9_bold => {},
        FontName::lucida_sans_10_bold => {},
        FontName::lucida_sans_13_bold => {},
        FontName::lucida_sans_15_bold => {},
        FontName::lucida_sans_18_bold => {},
        FontName::lucida_sans_25_bold => {},
        FontName::lucida_sans_9_italic => {},
        FontName::lucida_sans_10_italic => {},
        FontName::lucida_sans_13_italic => {},
        FontName::lucida_sans_15_italic => {},
        FontName::lucida_sans_18_italic => {},
        FontName::lucida_sans_25_italic => {},
        FontName::spleen_mono_6 => {},
        FontName::spleen_mono_8 => {},
        FontName::spleen_mono_15 => {},
        FontName::spleen_mono_20 => {},
        FontName::trixel_sq_5 => {},
        FontName::maniac_23 => {},
        FontName::bubble_18 => {},
        FontName::bittypewriter_7 => {},
        FontName::helvetipixeloutline_12 => {},
        FontName::unnameddosfont_12 => {},
        FontName::profont_6 => {},
        FontName::profont_8 => {},
        FontName::profont_9 => {},
        FontName::profont_14 => {},
        FontName::profont_19 => {},
        FontName::sirclive_7 => {},
    }
}

/// The font at position `i < font_count()`.
pub fn font_at(i: usize) -> (f: FontName)
    requires
        i < font_count(),
    ensures
        f == font_of_index(i as nat),
{
    match i {
        0 => FontName::mono_default_4x6,
        1 => FontName::mono_default_5x7,
        2 => FontName::mono_default_5x8,
        3 => FontName::mono_default_6x10,
        4 => FontName::mono_default_6x12,
        5 => FontName::mono_default_6x13,
        6 => FontName::mono_default_6x13_bold,
        7 => FontName::mono_default_6x13_italic,
        8 => FontName::mono_default_6x9,
        9 => FontName::mono_default_7x13,
        10 => FontName::mono_default_7x13_bold,
        11 => FontName::mono_default_7x13_italic,
        12 => FontName::mono_default_7x14,
        13 => FontName::mono_default_7x14_bold,
        14 => FontName::mono_default_8x13,
        15 => FontName::mono_default_8x13_bold,
        16 => FontName::mono_default_8x13_italic,
        17 => FontName::mono_default_9x15,
        18 => FontName::mono_default_9x15_bold,
        19 => FontName::mono_default_9x18,
        20 => FontName::mono_default_9x18_bold,
        21 => FontName::mono_default_10x20,
        22 => FontName::adventurer_11,
        23 => FontName::fancypixels_9,
        24 => FontName::smallsimple_6,
        25 => FontName::simple1_7,
        26 => FontName::bpixel_7,
        27 => FontName::bpixel_12_bold,
        28 => FontName::sticker100_11,
        29 => FontName::greenbloodserif_12,
        30 => FontName::commodore64_12,
        31 => FontName::lucida_serif_9,
        32 => FontName::lucida_serif_10,
        33 => FontName::lucida_serif_13,
        34 => FontName::lucida_serif_15,
        35 => FontName::lucida_serif_18,
        36 => FontName::lucida_serif_25,
        37 => FontName::lucida_serif_9_bold,
        38 => FontName::lucida_serif_10_bold,
        39 => FontName::lucida_serif_13_bold,
        40 => FontName::lucida_serif_15_bold,
        41 => FontName::lucida_serif_18_bold,
        42 => FontName::lucida_serif_25_bold,
        43 => FontName::lucida_serif_9_italic,
        44 => FontName::lucida_serif_10_italic,
        45 => FontName::lucida_serif_13_italic,
        46 => FontName::lucida_serif_15_italic,
        47 => FontName::lucida_serif_18_italic,
        48 => FontName::lucida_serif_25_italic,
        49 => FontName::lucida_sans_9,
        50 => FontName::lucida_sans_10,
        51 => FontName::lucida_sans_13,
        52 => FontName::lucida_sans_15,
        53 => FontName::lucida_sans_18,
        54 => FontName::lucida_sans_25,
        55 => FontName::lucida_sans_9_bold,
        56 => FontName::lucida_sans_10_bold,
        57 => FontName::lucida_sans_13_bold,
        58 => FontName::lucida_sans_15_bold,
        59 => FontName::lucida_sans_18_bold,
        60 => FontName::lucida_sans_25_bold,
        61 => FontName::lucida_sans_9_italic,
        62 => FontName::lucida_sans_10_italic,
        63 => FontName::lucida_sans_13_italic,
        64 => FontName::lucida_sans_15_italic,
        65 => FontName::lucida_sans_18_italic,
        66 => FontName::lucida_sans_25_italic,
        67 => FontName::spleen_mono_6,
        68 => FontName::spleen_mono_8,
        69 => FontName::spleen_mono_15,
        70 => FontName::spleen_mono_20,
        71 => FontName::trixel_sq_5,
        72 => FontName::maniac_23,
        73 => FontName::bubble_18,
        74 => FontName::bittypewriter_7,
        75 => FontName::helvetipixeloutline_12,
        76 => FontName::unnameddosfont_12,
        77 => FontName::profont_6,
        78 => FontName::profont_8,
        79 => FontName::profont_9,
        80 => FontName::profont_14,
        81 => FontName::profont_19,
        _ => FontName::sirclive_7,
    }
}

/// Every font, in declaration order.
pub fn all_fonts() -> (v: Vec<FontName>)
    ensures
        v@.len() == font_count(),
        forall|f: FontName| #[trigger] v@[font_index(f) as int] == f,
{
    let mut v: Vec<FontName> = Vec::new();
    let mut i: usize = 0;
    while i < 83
        invariant
            i <= font_count(),
            v@.len() == i,
            forall|j: int| 0 <= j < i ==> #[trigger] v@[j] == font_of_index(j as nat),
        decreases font_count() - i,
    {
        v.push(font_at(i));
        i = i + 1;
    }
    proof {
        assert forall|f: FontName| #[trigger] v@[font_index(f) as int] == f by {
            lemma_font_index_inverse(f);
        }
    }
    v
}

/// The names of all fonts, in declaration order.
pub fn font_variant_names() -> (v: Vec<&'static str>)
    ensures
        v@.len() == font_count(),
        forall|f: FontName| #[trigger] v@[font_index(f) as int]@ == font_name_text(f),
{
    let fonts = all_fonts();
    let mut v: Vec<&'static str> = Vec::new();
    let mut i: usize = 0;
    while i < fonts.len()
        invariant
            i <= fonts@.len(),
            fonts@.len() == font_count(),
            forall|f: FontName| #[trigger] fonts@[font_index(f) as int] == f,
            v@.len() == i,
            forall|j: int| 0 <= j < i ==> #[trigger] v@[j]@ == font_name_text(fonts@[j]),
        decreases fonts@.len() - i,
    {
        v.push(fonts[i].name());
        i = i + 1;
    }
    proof {
        assert forall|f: FontName| #[trigger] v@[font_index(f) as int]@ == font_name_text(f) by {
            assert(fonts@[font_index(f) as int] == f);
        }
    }
    v
}

/// The outside font that draws a font name: one of embedded-graphics'
/// monospaced ASCII fonts, or a u8g2 font, named after the font it stands for.
#[derive(Debug, Clone, Copy, PartialEq, Eq, Structural)]
pub enum FontFace {
    /// `embedded_graphics::mono_font::ascii::FONT_4X6`.
    Mono4x6,
    /// `embedded_graphics::mono_font::ascii::FONT_5X7`.
    Mono5x7,
    /// `embedded_graphics::mono_font::ascii::FONT_5X8`.
    Mono5x8,
    /// `embedded_graphics::mono_font::ascii::FONT_6X10`.
    Mono6x10,
    /// `embedded_graphics::mono_font::ascii::FONT_6X12`.
    Mono6x12,
    /// `embedded_graphics::mono_font::ascii::FONT_6X13`.
    Mono6x13,
    /// `embedded_graphics::mono_font::ascii::FONT_6X13_BOLD`.
    Mono6x13Bold,
    /// `embedded_graphics::mono_font::ascii::FONT_6X13_ITALIC`.
    Mono6x13Italic,
    /// `embedded_graphics::mono_font::ascii::FONT_6X9`.
    Mono6x9,
    /// `embedded_graphics::mono_font::ascii::FONT_7X13`.
    Mono7x13,
    /// `embedded_graphics::mono_font::ascii::FONT_7X13_BOLD`.
    Mono7x13Bold,
    /// `embedded_graphics::mono_font::ascii::FONT_7X13_ITALIC`.
    Mono7x13Italic,
    /// `embedded_graphics::mono_font::ascii::FONT_7X14`.
    Mono7x14,
    /// `embedded_graphics::mono_font::ascii::FONT_7X14_BOLD`.
    Mono7x14Bold,
    /// `embedded_graphics::mono_font::ascii::FONT_8X13`.
    Mono8x13,
    /// `embedded_graphics::mono_font::ascii::FONT_8X13_BOLD`.
    Mono8x13Bold,
    /// `embedded_graphics::mono_font::ascii::FONT_8X13_ITALIC`.
    Mono8x13Italic,
    /// `embedded_graphics::mono_font::ascii::FONT_9X15`.
    Mono9x15,
    /// `embedded_graphics::mono_font::ascii::FONT_9X15_BOLD`.
    Mono9x15Bold,
    /// `embedded_graphics::mono_font::ascii::FONT_9X18`.
    Mono9x18,
    /// `embedded_graphics::mono_font::ascii::FONT_9X18_BOLD`.
    Mono9x18Bold,
    /// `embedded_graphics::mono_font::ascii::FONT_10X20`.
    Mono10x20,
    /// `u8g2_fonts::fonts::u8g2_font_adventurer_tf`.
    U8g2AdventurerTf,
    /// `u8g2_fonts::fonts::u8g2_font_fancypixels_tr`.
    U8g2FancypixelsTr,
    /// `u8g2_fonts::fonts::u8g2_font_smallsimple_tr`.
    U8g2SmallsimpleTr,
    /// `u8g2_fonts::fonts::u8g2_font_simple1_tr`.
    U8g2Simple1Tr,
    /// `u8g2_fonts::fonts::u8g2_font_bpixel_tr`.
    U8g2BpixelTr,
    /// `u8g2_fonts::fonts::u8g2_font_bpixeldouble_tr`.
    U8g2BpixeldoubleTr,
    /// `u8g2_fonts::fonts::u8g2_font_sticker100complete_tr`.
    U8g2Sticker100completeTr,
    /// `u8g2_fonts::fonts::u8g2_font_greenbloodserif2_tr`.
    U8g2Greenbloodserif2Tr,
    /// `u8g2_fonts::fonts::u8g2_font_commodore64_tr`.
    U8g2Commodore64Tr,
    /// `u8g2_fonts::fonts::u8g2_font_lubR08_tf`.
    U8g2LubR08Tf,
    /// `u8g2_fonts::fonts::u8g2_font_lubR10_tf`.
    U8g2LubR10Tf,
    /// `u8g2_fonts::fonts::u8g2_font_lubR12_tf`.
    U8g2LubR12Tf,
    /// `u8g2_fonts::fonts::u8g2_font_lubR14_tf`.
    U8g2LubR14Tf,
    /// `u8g2_fonts::fonts::u8g2_font_lubR18_tf`.
    U8g2LubR18Tf,
    /// `u8g2_fonts::fonts::u8g2_font_lubR24_tf`.
    U8g2LubR24Tf,
    /// `u8g2_fonts::fonts::u8g2_font_lubB08_tf`.
    U8g2LubB08Tf,
    /// `u8g2_fonts::fonts::u8g2_font_lubB10_tf`.
    U8g2LubB10Tf,
    /// `u8g2_fonts::fonts::u8g2_font_lubB12_tf`.
    U8g2LubB12Tf,
    /// `u8g2_fonts::fonts::u8g2_font_lubB14_tf`.
    U8g2LubB14Tf,
    /// `u8g2_fonts::fonts::u8g2_font_lubB18_tf`.
    U8g2LubB18Tf,
    /// `u8g2_fonts::fonts::u8g2_font_lubB24_tf`.
    U8g2LubB24Tf,
    /// `u8g2_fonts::fonts::u8g2_font_lubI08_tf`.
    U8g2LubI08Tf,
    /// `u8g2_fonts::fonts::u8g2_font_lubI10_tf`.
    U8g2LubI10Tf,
    /// `u8g2_fonts::fonts::u8g2_font_lubI12_tf`.
    U8g2LubI12Tf,
    /// `u8g2_fonts::fonts::u8g2_font_lubI14_tf`.
    U8g2LubI14Tf,
    /// `u8g2_fonts::fonts::u8g2_font_lubI18_tf`.
    U8g2LubI18Tf,
    /// `u8g2_fonts::fonts::u8g2_font_lubI24_tf`.
    U8g2LubI24Tf,
    /// `u8g2_fonts::fonts::u8g2_font_luRS08_tf`.
    U8g2LuRS08Tf,
    /// `u8g2_fonts::fonts::u8g2_font_luRS10_tf`.
    U8g2LuRS10Tf,
    /// `u8g2_fonts::fonts::u8g2_font_luRS12_tf`.
    U8g2LuRS12Tf,
    /// `u8g2_fonts::fonts::u8g2_font_luRS14_tf`.
    U8g2LuRS14Tf,
    /// `u8g2_fonts::fonts::u8g2_font_luRS18_tf`.
    U8g2LuRS18Tf,
    /// `u8g2_fonts::fonts::u8g2_font_luRS24_tf`.
    U8g2LuRS24Tf,
    /// `u8g2_fonts::fonts::u8g2_font_luBS08_tf`.
    U8g2LuBS08Tf,
    /// `u8g2_fonts::fonts::u8g2_font_luBS10_tf`.
    U8g2LuBS10Tf,
    /// `u8g2_fonts::fonts::u8g2_font_luBS12_tf`.
    U8g2LuBS12Tf,
    /// `u8g2_fonts::fonts::u8g2_font_luBS14_tf`.
    U8g2LuBS14Tf,
    /// `u8g2_fonts::fonts::u8g2_font_luBS18_tf`.
    U8g2LuBS18Tf,
    /// `u8g2_fonts::fonts::u8g2_font_luBS24_tf`.
    U8g2LuBS24Tf,
    /// `u8g2_fonts::fonts::u8g2_font_luIS08_tf`.
    U8g2LuIS08Tf,
    /// `u8g2_fonts::fonts::u8g2_font_luIS10_tf`.
    U8g2LuIS10Tf,
    /// `u8g2_fonts::fonts::u8g2_font_luIS12_tf`.
    U8g2LuIS12Tf,
    /// `u8g2_fonts::fonts::u8g2_font_luIS14_tf`.
    U8g2LuIS14Tf,
    /// `u8g2_fonts::fonts::u8g2_font_luIS18_tf`.
    U8g2LuIS18Tf,
    /// `u8g2_fonts::fonts::u8g2_font_luIS24_tf`.
    U8g2LuIS24Tf,
    /// `u8g2_fonts::fonts::u8g2_font_spleen5x8_mf`.
    U8g2Spleen5x8Mf,
    /// `u8g2_fonts::fonts::u8g2_font_spleen6x12_mf`.
    U8g2Spleen6x12Mf,
    /// `u8g2_fonts::fonts::u8g2_font_spleen12x24_mf`.
    U8g2Spleen12x24Mf,
    /// `u8g2_fonts::fonts::u8g2_font_spleen16x32_mf`.
    U8g2Spleen16x32Mf,
    /// `u8g2_fonts::fonts::u8g2_font_trixel_square_tr`.
    U8g2TrixelSquareTr,
    /// `u8g2_fonts::fonts::u8g2_font_maniac_tf`.
    U8g2ManiacTf,
    /// `u8g2_fonts::fonts::u8g2_font_bubble_tr`.
    U8g2BubbleTr,
    /// `u8g2_fonts::fonts::u8g2_font_BitTypeWriter_tr`.
    U8g2BitTypeWriterTr,
    /// `u8g2_fonts::fonts::u8g2_font_HelvetiPixelOutline_tr`.
    U8g2HelvetiPixelOutlineTr,
    /// `u8g2_fonts::fonts::u8g2_font_UnnamedDOSFontIV_tr`.
    U8g2UnnamedDOSFontIVTr,
    /// `u8g2_fonts::fonts::u8g2_font_profont10_tf`.
    U8g2Profont10Tf,
    /// `u8g2_fonts::fonts::u8g2_font_profont12_tf`.
    U8g2Profont12Tf,
    /// `u8g2_fonts::fonts::u8g2_font_profont15_tf`.
    U8g2Profont15Tf,
    /// `u8g2_fonts::fonts::u8g2_font_profont22_tf`.
    U8g2Profont22Tf,
    /// `u8g2_fonts::fonts::u8g2_font_profont29_tf`.
    U8g2Profont29Tf,
    /// `u8g2_fonts::fonts::u8g2_font_sirclive_tr`.
    U8g2SircliveTr,
}

/// The outside font each font name is drawn with.
pub open spec fn font_face_of(font: FontName) -> FontFace {
    match font {
        FontName::mono_default_4x6 => FontFace::Mono4x6,
        FontName::mono_default_5x7 => FontFace::Mono5x7,
        FontName::mono_default_5x8 => FontFace::Mono5x8,
        FontName::mono_default_6x10 => FontFace::Mono6x10,
        FontName::mono_default_6x12 => FontFace::Mono6x12,
        FontName::mono_default_6x13 => FontFace::Mono6x13,
        FontName::mono_default_6x13_bold => FontFace::Mono6x13Bold,
        FontName::mono_default_6x13_italic => FontFace::Mono6x13Italic,
        FontName::mono_default_6x9 => FontFace::Mono6x9,
        FontName::mono_default_7x13 => FontFace::Mono7x13,
        FontName::mono_default_7x13_bold => FontFace::Mono7x13Bold,
        FontName::mono_default_7x13_italic => FontFace::Mono7x13Italic,
        FontName::mono_default_7x14 => FontFace::Mono7x14,
        FontName::mono_default_7x14_bold => FontFace::Mono7x14Bold,
        FontName::mono_default_8x13 => FontFace::Mono8x13,
        FontName::mono_default_8x13_bold => FontFace::Mono8x13Bold,
        FontName::mono_default_8x13_italic => FontFace::Mono8x13Italic,
        FontName::mono_default_9x15 => FontFace::Mono9x15,
        FontName::mono_default_9x15_bold => FontFace::Mono9x15Bold,
        FontName::mono_default_9x18 => FontFace::Mono9x18,
        FontName::mono_default_9x18_bold => FontFace::Mono9x18Bold,
        FontName::mono_default_10x20 => FontFace::Mono10x20,
        FontName::adventurer_11 => FontFace::U8g2AdventurerTf,
        FontName::fancypixels_9 => FontFace::U8g2FancypixelsTr,
        FontName::smallsimple_6 => FontFace::U8g2SmallsimpleTr,
        FontName::simple1_7 => FontFace::U8g2Simple1Tr,
        FontName::bpixel_7 => FontFace::U8g2BpixelTr,
        FontName::bpixel_12_bold => FontFace::U8g2BpixeldoubleTr,
        FontName::sticker100_11 => FontFace::U8g2Sticker100completeTr,
        FontName::greenbloodserif_12 => FontFace::U8g2Greenbloodserif2Tr,
        FontName::commodore64_12 => FontFace::U8g2Commodore64Tr,
        FontName::lucida_serif_9 => FontFace::U8g2LubR08Tf,
        FontName::lucida_serif_10 => FontFace::U8g2LubR10Tf,
        FontName::lucida_serif_13 => FontFace::U8g2LubR12Tf,
        FontName::lucida_serif_15 => FontFace::U8g2LubR14Tf,
        FontName::lucida_serif_18 => FontFace::U8g2LubR18Tf,
        FontName::lucida_serif_25 => FontFace::U8g2LubR24Tf,
        FontName::lucida_serif_9_bold => FontFace::U8g2LubB08Tf,
        FontName::lucida_serif_10_bold => FontFace::U8g2LubB10Tf,
        FontName::lucida_serif_13_bold => FontFace::U8g2LubB12Tf,
        FontName::lucida_serif_15_bold => FontFace::U8g2LubB14Tf,
        FontName::lucida_serif_18_bold => FontFace::U8g2LubB18Tf,
        FontName::lucida_serif_25_bold => FontFace::U8g2LubB24Tf,
        FontName::lucida_serif_9_italic => FontFace::U8g2LubI08Tf,
        FontName::lucida_serif_10_italic => FontFace::U8g2LubI10Tf,
        FontName::lucida_serif_13_italic => FontFace::U8g2LubI12Tf,
        FontName::lucida_serif_15_italic => FontFace::U8g2LubI14Tf,
        FontName::lucida_serif_18_italic => FontFace::U8g2LubI18Tf,
        FontName::lucida_serif_25_italic => FontFace::U8g2LubI24Tf,
        FontName::lucida_sans_9 => FontFace::U8g2LuRS08Tf,
        FontName::lucida_sans_10 => FontFace::U8g2LuRS10Tf,
        FontName::lucida_sans_13 => FontFace::U8g2LuRS12Tf,
        FontName::lucida_sans_15 => FontFace::U8g2LuRS14Tf,
        FontName::lucida_sans_18 => FontFace::U8g2LuRS18Tf,
        FontName::lucida_sans_25 => FontFace::U8g2LuRS24Tf,
        FontName::lucida_sans_9_bold => FontFace::U8g2LuBS08Tf,
        FontName::lucida_sans_10_bold => FontFace::U8g2LuBS10Tf,
        FontName::lucida_sans_13_bold => FontFace::U8g2LuBS12Tf,
        FontName::lucida_sans_15_bold => FontFace::U8g2LuBS14Tf,
        FontName::lucida_sans_18_bold => FontFace::U8g2LuBS18Tf,
        FontName::lucida_sans_25_bold => FontFace::U8g2LuBS24Tf,
        FontName::lucida_sans_9_italic => FontFace::U8g2LuIS08Tf,
        FontName::lucida_sans_10_italic => FontFace::U8g2LuIS10Tf,
        FontName::lucida_sans_13_italic => FontFace::U8g2LuIS12Tf,
        FontName::lucida_sans_15_italic => FontFace::U8g2LuIS14Tf,
        FontName::lucida_sans_18_italic => FontFace::U8g2LuIS18Tf,
        FontName::lucida_sans_25_italic => FontFace::U8g2LuIS24Tf,
        FontName::spleen_mono_6 => FontFace::U8g2Spleen5x8Mf,
        FontName::spleen_mono_8 => FontFace::U8g2Spleen6x12Mf,
        FontName::spleen_mono_15 => FontFace::U8g2Spleen12x24Mf,
        FontName::spleen_mono_20 => FontFace::U8g2Spleen16x32Mf,
        FontName::trixel_sq_5 => FontFace::U8g2TrixelSquareTr,
        FontName::maniac_23 => FontFace::U8g2ManiacTf,
        FontName::bubble_18 => FontFace::U8g2BubbleTr,
        FontName::bittypewriter_7 => FontFace::U8g2BitTypeWriterTr,
        FontName::helvetipixeloutline_12 => FontFace::U8g2HelvetiPixelOutlineTr,
        FontName::unnameddosfont_12 => FontFace::U8g2UnnamedDOSFontIVTr,
        FontName::profont_6 => FontFace::U8g2Profont10Tf,
        FontName::profont_8 => FontFace::U8g2Profont12Tf,
        FontName::profont_9 => FontFace::U8g2Profont15Tf,
        FontName::profont_14 => FontFace::U8g2Profont22Tf,
        FontName::profont_19 => FontFace::U8g2Profont29Tf,
        FontName::sirclive_7 => FontFace::U8g2SircliveTr,
    }
}

/// The outside font a font name is drawn with.
pub fn font_face(font: FontName) -> (f: FontFace)
    ensures
        f == font_face_of(font),
{
    match font {
        FontName::mono_default_4x6 => FontFace::Mono4x6,
        FontName::mono_default_5x7 => FontFace::Mono5x7,
        FontName::mono_default_5x8 => FontFace::Mono5x8,
        FontName::mono_default_6x10 => FontFace::Mono6x10,
        FontName::mono_default_6x12 => FontFace::Mono6x12,
        FontName::mono_default_6x13 => FontFace::Mono6x13,
        FontName::mono_default_6x13_bold => FontFace::Mono6x13Bold,
        FontName::mono_default_6x13_italic => FontFace::Mono6x13Italic,
        FontName::mono_default_6x9 => FontFace::Mono6x9,
        FontName::mono_default_7x13 => FontFace::Mono7x13,
        FontName::mono_default_7x13_bold => FontFace::Mono7x13Bold,
        FontName::mono_default_7x13_italic => FontFace::Mono7x13Italic,
        FontName::mono_default_7x14 => FontFace::Mono7x14,
        FontName::mono_default_7x14_bold => FontFace::Mono7x14Bold,
        FontName::mono_default_8x13 => FontFace::Mono8x13,
        FontName::mono_default_8x13_bold => FontFace::Mono8x13Bold,
        FontName::mono_default_8x13_italic => FontFace::Mono8x13Italic,
        FontName::mono_default_9x15 => FontFace::Mono9x15,
        FontName::mono_default_9x15_bold => FontFace::Mono9x15Bold,
        FontName::mono_default_9x18 => FontFace::Mono9x18,
        FontName::mono_default_9x18_bold => FontFace::Mono9x18Bold,
        FontName::mono_default_10x20 => FontFace::Mono10x20,
        FontName::adventurer_11 => FontFace::U8g2AdventurerTf,
        FontName::fancypixels_9 => FontFace::U8g2FancypixelsTr,
        FontName::smallsimple_6 => FontFace::U8g2SmallsimpleTr,
        FontName::simple1_7 => FontFace::U8g2Simple1Tr,
        FontName::bpixel_7 => FontFace::U8g2BpixelTr,
        FontName::bpixel_12_bold => FontFace::U8g2BpixeldoubleTr,
        FontName::sticker100_11 => FontFace::U8g2Sticker100completeTr,
        FontName::greenbloodserif_12 => FontFace::U8g2Greenbloodserif2Tr,
        FontName::commodore64_12 => FontFace::U8g2Commodore64Tr,
        FontName::lucida_serif_9 => FontFace::U8g2LubR08Tf,
        FontName::lucida_serif_10 => FontFace::U8g2LubR10Tf,
        FontName::lucida_serif_13 => FontFace::U8g2LubR12Tf,
        FontName::lucida_serif_15 => FontFace::U8g2LubR14Tf,
        FontName::lucida_serif_18 => FontFace::U8g2LubR18Tf,
        FontName::lucida_serif_25 => FontFace::U8g2LubR24Tf,
        FontName::lucida_serif_9_bold => FontFace::U8g2LubB08Tf,
        FontName::lucida_serif_10_bold => FontFace::U8g2LubB10Tf,
        FontName::lucida_serif_13_bold => FontFace::U8g2LubB12Tf,
        FontName::lucida_serif_15_bold => FontFace::U8g2LubB14Tf,
        FontName::lucida_serif_18_bold => FontFace::U8g2LubB18Tf,
        FontName::lucida_serif_25_bold => FontFace::U8g2LubB24Tf,
        FontName::lucida_serif_9_italic => FontFace::U8g2LubI08Tf,
        FontName::lucida_serif_10_italic => FontFace::U8g2LubI10Tf,
        FontName::lucida_serif_13_italic => FontFace::U8g2LubI12Tf,
        FontName::lucida_serif_15_italic => FontFace::U8g2LubI14Tf,
        FontName::lucida_serif_18_italic => FontFace::U8g2LubI18Tf,
        FontName::lucida_serif_25_italic => FontFace::U8g2LubI24Tf,
        FontName::lucida_sans_9 => FontFace::U8g2LuRS08Tf,
        FontName::lucida_sans_10 => FontFace::U8g2LuRS10Tf,
        FontName::lucida_sans_13 => FontFace::U8g2LuRS12Tf,
        FontName::lucida_sans_15 => FontFace::U8g2LuRS14Tf,
        FontName::lucida_sans_18 => FontFace::U8g2LuRS18Tf,
        FontName::lucida_sans_25 => FontFace::U8g2LuRS24Tf,
        FontName::lucida_sans_9_bold => FontFace::U8g2LuBS08Tf,
        FontName::lucida_sans_10_bold => FontFace::U8g2LuBS10Tf,
        FontName::lucida_sans_13_bold => FontFace::U8g2LuBS12Tf,
        FontName::lucida_sans_15_bold => FontFace::U8g2LuBS14Tf,
        FontName::lucida_sans_18_bold => FontFace::U8g2LuBS18Tf,
        FontName::lucida_sans_25_bold => FontFace::U8g2LuBS24Tf,
        FontName::lucida_sans_9_italic => FontFace::U8g2LuIS08Tf,
        FontName::lucida_sans_10_italic => FontFace::U8g2LuIS10Tf,
        FontName::lucida_sans_13_italic => FontFace::U8g2LuIS12Tf,
        FontName::lucida_sans_15_italic => FontFace::U8g2LuIS14Tf,
        FontName::lucida_sans_18_italic => FontFace::U8g2LuIS18Tf,
        FontName::lucida_sans_25_italic => FontFace::U8g2LuIS24Tf,
        FontName::spleen_mono_6 => FontFace::U8g2Spleen5x8Mf,
        FontName::spleen_mono_8 => FontFace::U8g2Spleen6x12Mf,
        FontName::spleen_mono_15 => FontFace::U8g2Spleen12x24Mf,
        FontName::spleen_mono_20 => FontFace::U8g2Spleen16x32Mf,
        FontName::trixel_sq_5 => FontFace::U8g2TrixelSquareTr,
        FontName::maniac_23 => FontFace::U8g2ManiacTf,
        FontName::bubble_18 => FontFace::U8g2BubbleTr,
        FontName::bittypewriter_7 => FontFace::U8g2BitTypeWriterTr,
        FontName::helvetipixeloutline_12 => FontFace::U8g2HelvetiPixelOutlineTr,
        FontName::unnameddosfont_12 => FontFace::U8g2UnnamedDOSFontIVTr,
        FontName::profont_6 => FontFace::U8g2Profont10Tf,
        FontName::profont_8 => FontFace::U8g2Profont12Tf,
        FontName::profont_9 => FontFace::U8g2Profont15Tf,
        FontName::profont_14 => FontFace::U8g2Profont22Tf,
        FontName::profont_19 => FontFace::U8g2Profont29Tf,
        FontName::sirclive_7 => FontFace::U8g2SircliveTr,
    }
}

/// Each font name is drawn with the outside font of that name: the
/// monospaced `mono_default_WxH` names with embedded-graphics' `FONT_WxH`
/// (bold and italic alike), and each other name with the u8g2 font it was
/// chosen for (its face is named after the u8g2 font).
#[verifier::rlimit(50)]
pub proof fn lemma_font_faces()
    ensures
        font_face_of(FontName::mono_default_4x6) == FontFace::Mono4x6,
        font_face_of(FontName::mono_default_5x7) == FontFace::Mono5x7,
        font_face_of(FontName::mono_default_5x8) == FontFace::Mono5x8,
        font_face_of(FontName::mono_default_6x10) == FontFace::Mono6x10,
        font_face_of(FontName::mono_default_6x12) == FontFace::Mono6x12,
        font_face_of(FontName::mono_default_6x13) == FontFace::Mono6x13,
        font_face_of(FontName::mono_default_6x13_bold) == FontFace::Mono6x13Bold,
        font_face_of(FontName::mono_default_6x13_italic) == FontFace::Mono6x13Italic,
        font_face_of(FontName::mono_default_6x9) == FontFace::Mono6x9,
        font_face_of(FontName::mono_default_7x13) == FontFace::Mono7x13,
        font_face_of(FontName::mono_default_7x13_bold) == FontFace::Mono7x13Bold,
        font_face_of(FontName::mono_default_7x13_italic) == FontFace::Mono7x13Italic,
        font_face_of(FontName::mono_default_7x14) == FontFace::Mono7x14,
        font_face_of(FontName::mono_default_7x14_bold) == FontFace::Mono7x14Bold,
        font_face_of(FontName::mono_default_8x13) == FontFace::Mono8x13,
        font_face_of(FontName::mono_default_8x13_bold) == FontFace::Mono8x13Bold,
        font_face_of(FontName::mono_default_8x13_italic) == FontFace::Mono8x13Italic,
        font_face_of(FontName::mono_default_9x15) == FontFace::Mono9x15,
        font_face_of(FontName::mono_default_9x15_bold) == FontFace::Mono9x15Bold,
        font_face_of(FontName::mono_default_9x18) == FontFace::Mono9x18,
        font_face_of(FontName::mono_default_9x18_bold) == FontFace::Mono9x18Bold,
        font_face_of(FontName::mono_default_10x20) == FontFace::Mono10x20,
        font_face_of(FontName::adventurer_11) == FontFace::U8g2AdventurerTf,
        font_face_of(FontName::fancypixels_9) == FontFace::U8g2FancypixelsTr,
        font_face_of(FontName::smallsimple_6) == FontFace::U8g2SmallsimpleTr,
        font_face_of(FontName::simple1_7) == FontFace::U8g2Simple1Tr,
        font_face_of(FontName::bpixel_7) == FontFace::U8g2BpixelTr,
        font_face_of(FontName::bpixel_12_bold) == FontFace::U8g2BpixeldoubleTr,
        font_face_of(FontName::sticker100_11) == FontFace::U8g2Sticker100completeTr,
        font_face_of(FontName::greenbloodserif_12) == FontFace::U8g2Greenbloodserif2Tr,
        font_face_of(FontName::commodore64_12) == FontFace::U8g2Commodore64Tr,
        font_face_of(FontName::lucida_serif_9) == FontFace::U8g2LubR08Tf,
        font_face_of(FontName::lucida_serif_10) == FontFace::U8g2LubR10Tf,
        font_face_of(FontName::lucida_serif_13) == FontFace::U8g2LubR12Tf,
        font_face_of(FontName::lucida_serif_15) == FontFace::U8g2LubR14Tf,
        font_face_of(FontName::lucida_serif_18) == FontFace::U8g2LubR18Tf,
        font_face_of(FontName::lucida_serif_25) == FontFace::U8g2LubR24Tf,
        font_face_of(FontName::lucida_serif_9_bold) == FontFace::U8g2LubB08Tf,
        font_face_of(FontName::lucida_serif_10_bold) == FontFace::U8g2LubB10Tf,
        font_face_of(FontName::lucida_serif_13_bold) == FontFace::U8g2LubB12Tf,
        font_face_of(FontName::lucida_serif_15_bold) == FontFace::U8g2LubB14Tf,
        font_face_of(FontName::lucida_serif_18_bold) == FontFace::U8g2LubB18Tf,
        font_face_of(FontName::lucida_serif_25_bold) == FontFace::U8g2LubB24Tf,
        font_face_of(FontName::lucida_serif_9_italic) == FontFace::U8g2LubI08Tf,
        font_face_of(FontName::lucida_serif_10_italic) == FontFace::U8g2LubI10Tf,
        font_face_of(FontName::lucida_serif_13_italic) == FontFace::U8g2LubI12Tf,
        font_face_of(FontName::lucida_serif_15_italic) == FontFace::U8g2LubI14Tf,
        font_face_of(FontName::lucida_serif_18_italic) == FontFace::U8g2LubI18Tf,
        font_face_of(FontName::lucida_serif_25_italic) == FontFace::U8g2LubI24Tf,
        font_face_of(FontName::lucida_sans_9) == FontFace::U8g2LuRS08Tf,
        font_face_of(FontName::lucida_sans_10) == FontFace::U8g2LuRS10Tf,
        font_face_of(FontName::lucida_sans_13) == FontFace::U8g2LuRS12Tf,
        font_face_of(FontName::lucida_sans_15) == FontFace::U8g2LuRS14Tf,
        font_face_of(FontName::lucida_sans_18) == FontFace::U8g2LuRS18Tf,
        font_face_of(FontName::lucida_sans_25) == FontFace::U8g2LuRS24Tf,
        font_face_of(FontName::lucida_sans_9_bold) == FontFace::U8g2LuBS08Tf,
        font_face_of(FontName::lucida_sans_10_bold) == FontFace::U8g2LuBS10Tf,
        font_face_of(FontName::lucida_sans_13_bold) == FontFace::U8g2LuBS12Tf,
        font_face_of(FontName::lucida_sans_15_bold) == FontFace::U8g2LuBS14Tf,
        font_face_of(FontName::lucida_sans_18_bold) == FontFace::U8g2LuBS18Tf,
        font_face_of(FontName::lucida_sans_25_bold) == FontFace::U8g2LuBS24Tf,
        font_face_of(FontName::lucida_sans_9_italic) == FontFace::U8g2LuIS08Tf,
        font_face_of(FontName::lucida_sans_10_italic) == FontFace::U8g2LuIS10Tf,
        font_face_of(FontName::lucida_sans_13_italic) == FontFace::U8g2LuIS12Tf,
        font_face_of(FontName::lucida_sans_15_italic) == FontFace::U8g2LuIS14Tf,
        font_face_of(FontName::lucida_sans_18_italic) == FontFace::U8g2LuIS18Tf,
        font_face_of(FontName::lucida_sans_25_italic) == FontFace::U8g2LuIS24Tf,
        font_face_of(FontName::spleen_mono_6) == FontFace::U8g2Spleen5x8Mf,
        font_face_of(FontName::spleen_mono_8) == FontFace::U8g2Spleen6x12Mf,
        font_face_of(FontName::spleen_mono_15) == FontFace::U8g2Spleen12x24Mf,
        font_face_of(FontName::spleen_mono_20) == FontFace::U8g2Spleen16x32Mf,
        font_face_of(FontName::trixel_sq_5) == FontFace::U8g2TrixelSquareTr,
        font_face_of(FontName::maniac_23) == FontFace::U8g2ManiacTf,
        font_face_of(FontName::bubble_18) == FontFace::U8g2BubbleTr,
        font_face_of(FontName::bittypewriter_7) == FontFace::U8g2BitTypeWriterTr,
        font_face_of(FontName::helvetipixeloutline_12) == FontFace::U8g2HelvetiPixelOutlineTr,
        font_face_of(FontName::unnameddosfont_12) == FontFace::U8g2UnnamedDOSFontIVTr,
        font_face_of(FontName::profont_6) == FontFace::U8g2Profont10Tf,
        font_face_of(FontName::profont_8) == FontFace::U8g2Profont12Tf,
        font_face_of(FontName::profont_9) == FontFace::U8g2Profont15Tf,
        font_face_of(FontName::profont_14) == FontFace::U8g2Profont22Tf,
        font_face_of(FontName::profont_19) == FontFace::U8g2Profont29Tf,
        font_face_of(FontName::sirclive_7) == FontFace::U8g2SircliveTr,
{
}

} // verus!
