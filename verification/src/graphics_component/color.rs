//! Colours of the component schema: a single colour, a static colour spec and
//! an animated colour spec whose keyframes are validated on construction.

use colorgrad::Gradient;
use vstd::prelude::*;

use crate::text::{css_hex, css_hex_string, hex6_channels, is_hex6};

verus! {

/// An RGB colour with 8-bit channels.
#[derive(Debug, PartialEq, Eq, Structural, Clone, Copy)]
pub struct Color {
    r: u8,
    g: u8,
    b: u8,
}

impl View for Color {
    type V = (u8, u8, u8);

    closed spec fn view(&self) -> (u8, u8, u8) {
        (self.r, self.g, self.b)
    }
}

/// The opaque colour whose channels a string of the `#RRGGBB` form gives.
pub open spec fn hex6_rgba(s: Seq<char>) -> (u8, u8, u8, u8) {
    (hex6_channels(s).0 as u8, hex6_channels(s).1 as u8, hex6_channels(s).2 as u8, 255u8)
}

/// The successful parse of a string of the `#RRGGBB` form.
pub open spec fn hex6_parse_result(s: Seq<char>) -> Result<(u8, u8, u8, u8), String> {
    Ok(hex6_rgba(s))
}

/// The channels of a CSS colour string as read by the HTML colour parser
/// (red, green, blue, alpha), if the string is a colour.
pub uninterp spec fn html_color_rgba8(s: Seq<char>) -> Option<(u8, u8, u8, u8)>;

/// Reads a CSS colour string (`#rgb`, `#rrggbb`, `rgb(..)`, `hsl(..)`, names, ...).
///
/// Trusted: calls `colorgrad::Color::from_html` and converts the parsed colour
/// with `to_rgba8`. The contract names the result; the one fact stated of it is
/// what the parser's source shows for `#` followed by six hex digits: those
/// digits as channels and an opaque alpha. The error text is left unsaid.
#[verifier::external_body]
fn parse_html_color(s: &str) -> (res: Result<(u8, u8, u8, u8), String>)
    ensures
        res is Ok <==> html_color_rgba8(s@) is Some,
        res matches Ok(c) ==> html_color_rgba8(s@) == Some(c),
        is_hex6(s@) ==> res == hex6_parse_result(s@),
{
    match colorgrad::Color::from_html(s) {
        Ok(c) => {
            let [r, g, b, a] = c.to_rgba8();
            Ok((r, g, b, a))
        },
        Err(e) => Err(e.to_string()),
    }
}

impl Color {
    /// The colour with the given channels.
    pub fn from_rgb(r: u8, g: u8, b: u8) -> (c: Self)
        ensures
            c@ == (r, g, b),
    {
        Self { r, g, b }
    }

    /// The channels (red, green, blue).
    pub fn rgb(&self) -> (c: (u8, u8, u8))
        ensures
            c == self@,
    {
        (self.r, self.g, self.b)
    }

    /// The colour of four 8-bit channels, the alpha channel dropped.
    pub fn from_rgba8(rgba: (u8, u8, u8, u8)) -> (c: Self)
        ensures
            c@ == (rgba.0, rgba.1, rgba.2),
    {
        Self { r: rgba.0, g: rgba.1, b: rgba.2 }
    }

    /// The colour as `#RRGGBB` with upper-case digits.
    pub fn to_hex_string(&self) -> (s: String)
        ensures
            s@ == css_hex(self@.0 as nat, self@.1 as nat, self@.2 as nat),
    {
        css_hex_string(self.r as u32, self.g as u32, self.b as u32)
    }

    /// Reads a colour in any CSS form the HTML colour parser accepts.
    pub fn from_str(s: &str) -> (res: Result<Self, String>)
        ensures
            res is Ok <==> html_color_rgba8(s@) is Some,
            res matches Ok(c) ==> html_color_rgba8(s@) matches Some(p) && c@ == (p.0, p.1, p.2),
            is_hex6(s@) ==> (res matches Ok(c) && c@ == (hex6_rgba(s@).0, hex6_rgba(s@).1, hex6_rgba(s@).2)),
    {
        match parse_html_color(s) {
            Ok(rgba) => Ok(Self::from_rgba8(rgba)),
            Err(e) => Err(e),
        }
    }

    /// Two colours are equal exactly when their channels are.
    pub proof fn lemma_view_equal(a: Self, b: Self)
        ensures
            a@ == b@ <==> a == b,
    {
    }
}

/// A colour written as `#RRGGBB` reads back as the same colour.
pub proof fn lemma_color_text_round_trip(c: Color)
    ensures
        is_hex6(css_hex(c@.0 as nat, c@.1 as nat, c@.2 as nat)),
        hex6_channels(css_hex(c@.0 as nat, c@.1 as nat, c@.2 as nat)) == (
            c@.0 as nat,
            c@.1 as nat,
            c@.2 as nat,
        ),
{
    crate::text::lemma_css_hex_is_hex6(c@.0 as nat, c@.1 as nat, c@.2 as nat);
}


/// A colour that does not change.
#[derive(Debug, PartialEq, Eq, Structural, Clone, Copy)]
pub struct StaticColorSpec {
    pub color: Color,
}

/// The keyframe positions of a keyframe list.
pub open spec fn keyframe_keys(keyframes: Seq<(u8, Color)>) -> Seq<u8> {
    keyframes.map_values(|p: (u8, Color)| p.0)
}

/// The keyframe colours of a keyframe list.
pub open spec fn keyframe_colors(keyframes: Seq<(u8, Color)>) -> Seq<(u8, u8, u8)> {
    keyframes.map_values(|p: (u8, Color)| p.1@)
}

/// Keyframe `i` is out of range or does not follow its predecessor strictly.
pub open spec fn keyframe_faulty_at(keys: Seq<u8>, i: int) -> bool {
    keys[i] > 100 || (i > 0 && keys[i] <= keys[i - 1])
}

/// `i` is the first keyframe that is faulty.
pub open spec fn first_faulty_keyframe(keys: Seq<u8>, i: int) -> bool {
    &&& 0 <= i < keys.len()
    &&& keyframe_faulty_at(keys, i)
    &&& forall|j: int| 0 <= j < i ==> !keyframe_faulty_at(keys, j)
}

/// Error text: a keyframe lies outside `[0, 100]`.
pub open spec fn keyframe_range_msg() -> Seq<char> {
    "Keyframe not in range [0,100]"@
}

/// Error text: keyframes do not increase strictly.
pub open spec fn keyframe_order_msg() -> Seq<char> {
    "Keyframes must be strictly increasing"@
}

/// Error text: no keyframe at 100.
pub open spec fn missing_end_msg() -> Seq<char> {
    "100 not found as a keyframe"@
}

/// Error text: no keyframe at 0.
pub open spec fn missing_start_msg() -> Seq<char> {
    "0 not found as a keyframe"@
}

/// Why a keyframe list is refused, if it is: the keyframes are checked in
/// order for range and strict increase, then 100 and 0 must both be present.
pub open spec fn keyframes_error(keys: Seq<u8>) -> Option<Seq<char>> {
    if exists|i: int| first_faulty_keyframe(keys, i) {
        let i = choose|i: int| first_faulty_keyframe(keys, i);
        if keys[i] > 100 {
            Some(keyframe_range_msg())
        } else {
            Some(keyframe_order_msg())
        }
    } else if !keys.contains(100) {
        Some(missing_end_msg())
    } else if !keys.contains(0) {
        Some(missing_start_msg())
    } else {
        None
    }
}

/// A keyframe list the animated colour accepts: keys in `[0, 100]`, strictly
/// increasing, starting at 0 and ending at 100.
pub open spec fn keyframes_accepted(keys: Seq<u8>) -> bool {
    &&& keys.len() >= 2
    &&& keys[0] == 0
    &&& keys[keys.len() - 1] == 100
    &&& forall|i: int, j: int| 0 <= i < j < keys.len() ==> keys[i] < keys[j]
}

/// A keyframe list passes validation exactly when it is [`keyframes_accepted`].
pub proof fn lemma_keyframes_error_iff(keys: Seq<u8>)
    ensures
        keyframes_error(keys) is None <==> keyframes_accepted(keys),
{
    if keyframes_error(keys) is None {
        assert(!exists|i: int| first_faulty_keyframe(keys, i));
        // no keyframe is faulty: otherwise the least faulty one would be first
        assert forall|i: int| 0 <= i < keys.len() implies !keyframe_faulty_at(keys, i) by {
            if keyframe_faulty_at(keys, i) {
                lemma_least_faulty(keys, i);
            }
        }
        lemma_adjacent_increase_is_strict(keys);
        let a = choose|a: int| 0 <= a < keys.len() && keys[a] == 0;
        let b = choose|b: int| 0 <= b < keys.len() && keys[b] == 100;
        if a != 0 {
            assert(keys[0] < keys[a]);
        }
        if b != keys.len() - 1 {
            assert(keys[b] < keys[keys.len() - 1]);
            assert(!keyframe_faulty_at(keys, keys.len() - 1));
        }
        assert(a != b);
    } else {
        if keyframes_accepted(keys) {
            assert forall|i: int| 0 <= i < keys.len() implies !keyframe_faulty_at(keys, i) by {
                assert(keys[i] <= keys[keys.len() - 1]) by {
                    if i < keys.len() - 1 {
                        assert(keys[i] < keys[keys.len() - 1]);
                    }
                }
                if i > 0 {
                    assert(keys[i - 1] < keys[i]);
                }
            }
            assert(keys.contains(0)) by {
                assert(keys[0] == 0);
            }
            assert(keys.contains(100)) by {
                assert(keys[keys.len() - 1] == 100);
            }
        }
    }
}

/// If keyframe `k` is faulty, some keyframe is the first faulty one.
proof fn lemma_least_faulty(keys: Seq<u8>, k: int)
    requires
        0 <= k < keys.len(),
        keyframe_faulty_at(keys, k),
    ensures
        exists|i: int| first_faulty_keyframe(keys, i),
    decreases k,
{
    if exists|j: int| 0 <= j < k && keyframe_faulty_at(keys, j) {
        let j = choose|j: int| 0 <= j < k && keyframe_faulty_at(keys, j);
        lemma_least_faulty(keys, j);
    } else {
        assert(first_faulty_keyframe(keys, k));
    }
}

/// Keys that increase from each one to the next increase strictly overall.
proof fn lemma_adjacent_increase_is_strict(keys: Seq<u8>)
    requires
        forall|i: int| 0 <= i < keys.len() ==> !keyframe_faulty_at(keys, i),
    ensures
        forall|i: int, j: int| 0 <= i < j < keys.len() ==> keys[i] < keys[j],
{
    assert forall|i: int, j: int| 0 <= i < j < keys.len() implies keys[i] < keys[j] by {
        lemma_increase_between(keys, i, j);
    }
}

proof fn lemma_increase_between(keys: Seq<u8>, i: int, j: int)
    requires
        forall|k: int| 0 <= k < keys.len() ==> !keyframe_faulty_at(keys, k),
        0 <= i < j < keys.len(),
    ensures
        keys[i] < keys[j],
    decreases j - i,
{
    assert(!keyframe_faulty_at(keys, j));
    if j - 1 > i {
        lemma_increase_between(keys, i, j - 1);
    }
}

/// A colour that loops through keyframes over `duration` frames.
/// Keyframes are percentages of the loop; the list always starts at 0, ends at
/// 100 and increases strictly.
#[derive(Debug, PartialEq)]
pub struct AnimatedColorSpec {
    duration: usize,
    keyframes: Vec<(u8, Color)>,
}

impl AnimatedColorSpec {
    #[verifier::type_invariant]
    spec fn keyframes_valid(self) -> bool {
        keyframes_error(keyframe_keys(self.keyframes@)) is None
    }

    /// The number of frames of one loop.
    pub closed spec fn spec_duration(&self) -> usize {
        self.duration
    }

    /// The keyframes, in order.
    pub closed spec fn spec_keyframes(&self) -> Seq<(u8, Color)> {
        self.keyframes@
    }

    /// Validates the keyframes and builds the spec.
    pub fn new(duration: usize, keyframes: Vec<(u8, Color)>) -> (res: Result<Self, String>)
        ensures
            keyframes_error(keyframe_keys(keyframes@)) matches Some(msg) ==> (res matches Err(
                e,
            ) && e@ == msg),
            keyframes_error(keyframe_keys(keyframes@)) is None ==> (res matches Ok(a) && a.spec_duration()
                == duration && a.spec_keyframes() == keyframes@),
    {
        let ghost keys = keyframe_keys(keyframes@);
        let n = keyframes.len();
        let mut i: usize = 0;
        while i < n
            invariant
                n == keyframes@.len(),
                keys == keyframe_keys(keyframes@),
                i <= n,
                forall|j: int| 0 <= j < i ==> !keyframe_faulty_at(keys, j),
            decreases n - i,
        {
            let key = keyframes[i].0;
            assert(keys[i as int] == key);
            if key > 100 {
                proof {
                    assert(first_faulty_keyframe(keys, i as int));
                    lemma_first_faulty_unique(keys, i as int);
                }
                return Err("Keyframe not in range [0,100]".to_owned());
            }
            if i > 0 && key <= keyframes[i - 1].0 {
                proof {
                    assert(keys[i - 1] == keyframes@[i - 1].0);
                    assert(first_faulty_keyframe(keys, i as int));
                    lemma_first_faulty_unique(keys, i as int);
                }
                return Err("Keyframes must be strictly increasing".to_owned());
            }
            assert(!keyframe_faulty_at(keys, i as int)) by {
                if i > 0 {
                    assert(keys[i - 1] == keyframes@[i - 1].0);
                }
            }
            i = i + 1;
        }
        proof {
            assert(!exists|i: int| first_faulty_keyframe(keys, i));
        }
        if !contains_key(&keyframes, 100) {
            return Err("100 not found as a keyframe".to_owned());
        }
        if !contains_key(&keyframes, 0) {
            return Err("0 not found as a keyframe".to_owned());
        }
        Ok(AnimatedColorSpec { duration, keyframes })
    }

    /// The number of frames of one loop.
    pub fn duration(&self) -> (d: usize)
        ensures
            d == self.spec_duration(),
    {
        self.duration
    }

    /// The keyframes, in order; they always pass validation.
    pub fn keyframes(&self) -> (k: &Vec<(u8, Color)>)
        ensures
            k@ == self.spec_keyframes(),
            keyframes_error(keyframe_keys(k@)) is None,
            keyframes_accepted(keyframe_keys(k@)),
    {
        proof {
            use_type_invariant(self);
            lemma_keyframes_error_iff(keyframe_keys(self.keyframes@));
        }
        &self.keyframes
    }

    /// A copy with the same duration and keyframes.
    pub fn duplicate(&self) -> (r: Self)
        ensures
            r.spec_duration() == self.spec_duration(),
            r.spec_keyframes() == self.spec_keyframes(),
    {
        proof {
            use_type_invariant(self);
        }
        let mut k: Vec<(u8, Color)> = Vec::new();
        let mut i: usize = 0;
        while i < self.keyframes.len()
            invariant
                i <= self.keyframes@.len(),
                k@ == self.keyframes@.take(i as int),
            decreases self.keyframes@.len() - i,
        {
            k.push(self.keyframes[i]);
            assert(self.keyframes@.take(i + 1) == self.keyframes@.take(i as int).push(self.keyframes@[i as int]));
            i = i + 1;
        }
        assert(self.keyframes@.take(self.keyframes@.len() as int) == self.keyframes@);
        AnimatedColorSpec { duration: self.duration, keyframes: k }
    }
}

/// The first faulty keyframe is the one `choose` picks.
proof fn lemma_first_faulty_unique(keys: Seq<u8>, i: int)
    requires
        first_faulty_keyframe(keys, i),
    ensures
        (choose|k: int| first_faulty_keyframe(keys, k)) == i,
{
    let k = choose|k: int| first_faulty_keyframe(keys, k);
    assert(first_faulty_keyframe(keys, k));
    if k < i {
        assert(!keyframe_faulty_at(keys, k));
    } else if k > i {
        assert(!keyframe_faulty_at(keys, i));
    }
}

impl Clone for AnimatedColorSpec {
    fn clone(&self) -> (r: Self)
        ensures
            r.spec_duration() == self.spec_duration(),
            r.spec_keyframes() == self.spec_keyframes(),
    {
        self.duplicate()
    }
}

/// Whether some keyframe sits at `key`.
fn contains_key(keyframes: &Vec<(u8, Color)>, key: u8) -> (b: bool)
    ensures
        b == keyframe_keys(keyframes@).contains(key),
{
    let mut i: usize = 0;
    while i < keyframes.len()
        invariant
            i <= keyframes@.len(),
            forall|j: int| 0 <= j < i ==> keyframes@[j].0 != key,
        decreases keyframes@.len() - i,
    {
        if keyframes[i].0 == key {
            assert(keyframe_keys(keyframes@)[i as int] == key);
            return true;
        }
        i = i + 1;
    }
    proof {
        if keyframe_keys(keyframes@).contains(key) {
            let j = choose|j: int| 0 <= j < keyframe_keys(keyframes@).len() && keyframe_keys(keyframes@)[j] == key;
            assert(keyframes@[j].0 == key);
        }
    }
    false
}

/// The colour of a component: either fixed or animated.
#[derive(Debug, PartialEq, Clone)]
pub enum ColorSpec {
    Static(StaticColorSpec),
    Animated(AnimatedColorSpec),
}

/// The value of a colour spec: a fixed colour, or a loop duration and keyframes.
pub enum ColorSpecValue {
    Static((u8, u8, u8)),
    Animated(usize, Seq<(u8, Color)>),
}

impl View for ColorSpec {
    type V = ColorSpecValue;

    open spec fn view(&self) -> ColorSpecValue {
        match self {
            ColorSpec::Static(s) => ColorSpecValue::Static(s.color@),
            ColorSpec::Animated(a) => ColorSpecValue::Animated(a.spec_duration(), a.spec_keyframes()),
        }
    }
}

impl ColorSpec {
    /// A copy with the same value.
    pub fn duplicate(&self) -> (r: Self)
        ensures
            r@ == self@,
    {
        match self {
            ColorSpec::Static(s) => ColorSpec::Static(*s),
            ColorSpec::Animated(a) => ColorSpec::Animated(a.duplicate()),
        }
    }
}


#[verifier::external_type_specification]
#[verifier::external_body]
pub struct ExGradientBuilderError(colorgrad::GradientBuilderError);

/// Why a gradient could not be built.
#[derive(Debug)]
pub enum GradientError {
    /// The gradient builder refused the keyframes.
    Builder(colorgrad::GradientBuilderError),
    /// The gradient does not start on the first keyframe colour or does not
    /// end on the last.
    EndNotKept,
}

/// Keyframe positions the gradient builder accepts: none at all, or at least
/// two that never decrease and do not all coincide.
pub open spec fn gradient_domain_accepted(keys: Seq<u8>) -> bool {
    keys.len() == 0 || (keys.len() >= 2 && keys[0] < keys[keys.len() - 1] && forall|i: int|
        0 < i < keys.len() ==> keys[i - 1] <= #[trigger] keys[i])
}

/// The first of the `n` samples is the first keyframe colour and the last is
/// the last keyframe colour.
pub open spec fn gradient_ends_kept(keys: Seq<u8>, colors: Seq<(u8, u8, u8)>, n: nat) -> bool {
    &&& oklab_gradient_samples(keys, colors, n)[0] == colors[0]
    &&& oklab_gradient_samples(keys, colors, n)[n - 1] == colors[colors.len() - 1]
}

/// The `n` colours, evenly spaced over the keyframe positions, of the linear
/// gradient that blends the keyframe colours in Oklab space.
pub uninterp spec fn oklab_gradient_samples(
    keys: Seq<u8>,
    colors: Seq<(u8, u8, u8)>,
    n: nat,
) -> Seq<(u8, u8, u8)>;

/// Samples an Oklab linear gradient through the given stops.
///
/// Trusted: builds a `colorgrad::LinearGradient` with `GradientBuilder`
/// (Oklab mode, the keys as domain, opaque colours) and collects `colors_iter(n)`
/// as 8-bit channels. The builder's source accepts exactly the domains of
/// [`gradient_domain_accepted`]; the iterator yields `n` colours. The samples
/// themselves are only named: the builder drops a stop that shares its
/// position with both neighbours, and whether the last position reaches the
/// domain's end depends on rounding, so not even the end colours are stated.
#[verifier::external_body]
fn oklab_gradient_colors(keys: &Vec<u8>, colors: &Vec<(u8, u8, u8)>, n: usize) -> (res: Result<
    Vec<(u8, u8, u8)>,
    colorgrad::GradientBuilderError,
>)
    requires
        keys@.len() == colors@.len(),
    ensures
        res is Ok <==> gradient_domain_accepted(keys@),
        res matches Ok(v) ==> v@ == oklab_gradient_samples(keys@, colors@, n as nat),
        res matches Ok(v) ==> v@.len() == n,
{
    let k: Vec<_> = keys.iter().map(|x| (*x).into()).collect();
    let c: Vec<_> = colors.iter().map(|p| colorgrad::Color::from_rgba8(p.0, p.1, p.2, 255)).collect();
    let g = colorgrad::GradientBuilder::new()
        .mode(colorgrad::BlendMode::Oklab)
        .domain(k.as_slice())
        .colors(&c)
        .build::<colorgrad::LinearGradient>()?;
    Ok(g.colors_iter(n).map(|col| { let [r, g, b, _] = col.to_rgba8(); (r, g, b) }).collect())
}

/// The colour values of a list of colours.
pub open spec fn color_values(colors: Seq<Color>) -> Seq<(u8, u8, u8)> {
    colors.map_values(|c: Color| c@)
}

/// Makes a gradient of `num_steps` colours through the keyframes; the first
/// and last colours are those of the first and last keyframe, and a gradient
/// that does not start and end on them is refused.
pub fn mk_gradient(keyframes: &Vec<(u8, Color)>, num_steps: usize) -> (res: Result<
    Vec<Color>,
    GradientError,
>)
    requires
        num_steps >= 2,
        keyframes@.len() >= 1,
    ensures
        res is Ok <==> gradient_domain_accepted(keyframe_keys(keyframes@)) && gradient_ends_kept(
            keyframe_keys(keyframes@),
            keyframe_colors(keyframes@),
            num_steps as nat,
        ),
        res matches Err(e) ==> (e is Builder <==> !gradient_domain_accepted(keyframe_keys(keyframes@))),
        res matches Ok(v) ==> color_values(v@) == oklab_gradient_samples(
            keyframe_keys(keyframes@),
            keyframe_colors(keyframes@),
            num_steps as nat,
        ),
        res matches Ok(v) ==> v@.len() == num_steps,
        res matches Ok(v) ==> v@[0] == keyframes@[0].1,
        res matches Ok(v) ==> v@[num_steps - 1] == keyframes@[keyframes@.len() - 1].1,
{
    let ghost kf = keyframes@;
    let mut keys: Vec<u8> = Vec::new();
    let mut cols: Vec<(u8, u8, u8)> = Vec::new();
    let mut i: usize = 0;
    while i < keyframes.len()
        invariant
            kf == keyframes@,
            i <= kf.len(),
            keys@ == keyframe_keys(kf).take(i as int),
            cols@ == keyframe_colors(kf).take(i as int),
        decreases kf.len() - i,
    {
        keys.push(keyframes[i].0);
        cols.push(keyframes[i].1.rgb());
        assert(keyframe_keys(kf).take(i + 1) == keyframe_keys(kf).take(i as int).push(kf[i as int].0));
        assert(keyframe_colors(kf).take(i + 1) == keyframe_colors(kf).take(i as int).push(kf[i as int].1@));
        i = i + 1;
    }
    assert(keyframe_keys(kf).take(kf.len() as int) == keyframe_keys(kf));
    assert(keyframe_colors(kf).take(kf.len() as int) == keyframe_colors(kf));
    let samples = match oklab_gradient_colors(&keys, &cols, num_steps) {
        Ok(v) => v,
        Err(e) => return Err(GradientError::Builder(e)),
    };
    let first = samples[0];
    let want_first = keyframes[0].1.rgb();
    let last = samples[num_steps - 1];
    let want_last = keyframes[keyframes.len() - 1].1.rgb();
    proof {
        assert(keyframe_colors(kf)[0] == kf[0].1@);
        assert(keyframe_colors(kf)[kf.len() - 1] == kf[kf.len() - 1].1@);
    }
    if !(first.0 == want_first.0 && first.1 == want_first.1 && first.2 == want_first.2) {
        return Err(GradientError::EndNotKept);
    }
    if !(last.0 == want_last.0 && last.1 == want_last.1 && last.2 == want_last.2) {
        return Err(GradientError::EndNotKept);
    }
    let mut out: Vec<Color> = Vec::new();
    let mut j: usize = 0;
    while j < samples.len()
        invariant
            j <= samples@.len(),
            color_values(out@) == samples@.take(j as int),
            out@.len() == j,
        decreases samples@.len() - j,
    {
        out.push(Color::from_rgba8((samples[j].0, samples[j].1, samples[j].2, 255)));
        assert(color_values(out@) == samples@.take(j + 1));
        j = j + 1;
    }
    assert(samples@.take(samples@.len() as int) == samples@);
    proof {
        assert(color_values(out@)[0] == out@[0]@);
        assert(color_values(out@)[num_steps - 1] == out@[num_steps - 1]@);
        assert(keyframe_colors(kf)[0] == kf[0].1@);
        assert(keyframe_colors(kf)[kf.len() - 1] == kf[kf.len() - 1].1@);
    }
    Ok(out)
}

} // verus!
