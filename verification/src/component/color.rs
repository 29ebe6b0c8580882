//! A colour given by three channels, written and read in the `#RRGGBB` form.

use vstd::prelude::*;

use crate::text::{hex_byte_chars, lemma_hex_byte_reads_back, all_ascii, is_ascii_text, chars_of, css_hex, css_hex_string, parse_radix16_pair, radix16_pair};

verus! {

/// Error text for channel values above 255.
pub open spec fn out_of_range_msg() -> Seq<char> {
    "RGB value out of range"@
}

/// Error text for an input that is not seven ASCII characters.
pub open spec fn bad_length_msg() -> Seq<char> {
    "Bad - not an ascii string of length 7"@
}

/// Error text for an input that does not start with `#`.
pub open spec fn missing_hash_msg() -> Seq<char> {
    "Bad - does not start with #"@
}

/// Error text for an input whose channel fields are not base-16 numbers.
pub open spec fn bad_field_msg() -> Seq<char> {
    "An error occurred parsing color"@
}

/// What reading `s` as `#RRGGBB` gives: the three channel values, or the error text.
pub open spec fn parse_hex_color(s: Seq<char>) -> Result<(nat, nat, nat), Seq<char>> {
    if !(is_ascii_text(s) && s.len() == 7) {
        Err(bad_length_msg())
    } else if s[0] != '#' {
        Err(missing_hash_msg())
    } else {
        match (radix16_pair(s[1], s[2]), radix16_pair(s[3], s[4]), radix16_pair(s[5], s[6])) {
            (Some(r), Some(g), Some(b)) => Ok((r, g, b)),
            _ => Err(bad_field_msg()),
        }
    }
}

/// A colour with red, green and blue channels in `0..=255`.
#[derive(Debug, PartialEq, Eq, Clone, Copy)]
pub struct ColorSpec {
    r: u32,
    g: u32,
    b: u32,
}

impl View for ColorSpec {
    type V = (nat, nat, nat);

    closed spec fn view(&self) -> (nat, nat, nat) {
        (self.r as nat, self.g as nat, self.b as nat)
    }
}

impl ColorSpec {
    #[verifier::type_invariant]
    spec fn channels_in_range(self) -> bool {
        self.r < 256 && self.g < 256 && self.b < 256
    }

    /// Builds a colour from its channels; each must be below 256.
    pub fn from_rgb(r: u32, g: u32, b: u32) -> (res: Result<Self, String>)
        ensures
            res is Ok <==> (r < 256 && g < 256 && b < 256),
            res matches Ok(c) ==> c@ == (r as nat, g as nat, b as nat),
            res matches Err(e) ==> e@ == out_of_range_msg(),
    {
        if r < 256 && g < 256 && b < 256 {
            Ok(Self { r, g, b })
        } else {
            Err("RGB value out of range".to_owned())
        }
    }

    /// The three channels.
    pub fn as_rgb(&self) -> (rgb: (u32, u32, u32))
        ensures
            (rgb.0 as nat, rgb.1 as nat, rgb.2 as nat) == self@,
            rgb.0 < 256 && rgb.1 < 256 && rgb.2 < 256,
    {
        proof {
            use_type_invariant(self);
        }
        (self.r, self.g, self.b)
    }

    /// The colour as `#RRGGBB` with upper-case digits.
    pub fn to_hex_string(&self) -> (s: String)
        ensures
            s@ == css_hex(self@.0, self@.1, self@.2),
            self@.0 < 256 && self@.1 < 256 && self@.2 < 256,
    {
        proof {
            use_type_invariant(self);
        }
        css_hex_string(self.r, self.g, self.b)
    }

    /// Reads `#RRGGBB` (digits of either case).
    pub fn from_str(s: &str) -> (res: Result<Self, String>)
        ensures
            match parse_hex_color(s@) {
                Ok(rgb) => res matches Ok(c) && c@ == rgb,
                Err(msg) => res matches Err(e) && e@ == msg,
            },
    {
        let v = chars_of(s);
        let ascii = all_ascii(&v);
        if !ascii || v.len() != 7 {
            return Err("Bad - not an ascii string of length 7".to_owned());
        }
        if v[0] != '#' {
            return Err("Bad - does not start with #".to_owned());
        }
        match (
            parse_radix16_pair(v[1], v[2]),
            parse_radix16_pair(v[3], v[4]),
            parse_radix16_pair(v[5], v[6]),
        ) {
            (Some(r), Some(g), Some(b)) => {
                assert(r < 256 && g < 256 && b < 256);
                Ok(Self { r, g, b })
            },
            _ => Err("An error occurred parsing color".to_owned()),
        }
    }
}


/// Writing a colour as `#RRGGBB` and reading it back gives the same channels.
pub proof fn lemma_hex_form_reads_back(r: nat, g: nat, b: nat)
    requires
        r < 256,
        g < 256,
        b < 256,
    ensures
        parse_hex_color(css_hex(r, g, b)) == Ok::<(nat, nat, nat), Seq<char>>((r, g, b)),
{
    lemma_hex_byte_reads_back(r);
    lemma_hex_byte_reads_back(g);
    lemma_hex_byte_reads_back(b);
    let s = css_hex(r, g, b);
    let hr = hex_byte_chars(r);
    let hg = hex_byte_chars(g);
    let hb = hex_byte_chars(b);
    assert(s.len() == 7);
    assert(s[0] == '#');
    assert(s[1] == hr[0] && s[2] == hr[1]);
    assert(s[3] == hg[0] && s[4] == hg[1]);
    assert(s[5] == hb[0] && s[6] == hb[1]);
    assert forall|i: int| 0 <= i < s.len() implies #[trigger] s[i] <= '\u{7f}' by {
        if i == 1 || i == 2 {
            assert(s[i] == hr[i - 1]);
        } else if i == 3 || i == 4 {
            assert(s[i] == hg[i - 3]);
        } else if i == 5 || i == 6 {
            assert(s[i] == hb[i - 5]);
        }
    }
}

/// The text a colour is written as reads back as that colour.
pub proof fn lemma_color_spec_text_round_trip(c: ColorSpec)
    requires
        c@.0 < 256 && c@.1 < 256 && c@.2 < 256,
    ensures
        parse_hex_color(css_hex(c@.0, c@.1, c@.2)) == Ok::<(nat, nat, nat), Seq<char>>(c@),
{
    lemma_hex_form_reads_back(c@.0, c@.1, c@.2);
}

} // verus!
